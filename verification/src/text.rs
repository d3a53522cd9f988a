//! Text helpers: comparing, joining, searching, splitting and numbers in
//! decimal.

use vstd::prelude::*;
use vstd::string::*;

verus! {

/// The views of a sequence of strings.
pub open spec fn views(strings: Seq<String>) -> Seq<Seq<char>> {
    strings.map_values(|s: String| s@)
}

/// The view of an optional string.
pub open spec fn opt_view(s: Option<String>) -> Option<Seq<char>> {
    match s {
        Some(t) => Some(t@),
        None => None,
    }
}

/// The view of an optional text.
pub open spec fn opt_str_view(s: Option<&str>) -> Option<Seq<char>> {
    match s {
        Some(t) => Some(t@),
        None => None,
    }
}

/// Whether two texts hold the same characters.
pub fn same_text(a: &str, b: &str) -> (same: bool)
    ensures
        same == (a@ == b@),
{
    a.to_owned() == b.to_owned()
}

/// Whether an optional string is present and holds the characters of `b`.
pub fn is_text(a: &Option<String>, b: &str) -> (same: bool)
    ensures
        same == (opt_view(*a) == Some(b@)),
{
    match a {
        Some(s) => same_text(s.as_str(), b),
        None => false,
    }
}

/// The characters of a text.
pub fn chars_of(s: &str) -> (chars: Vec<char>)
    ensures
        chars@ == s@,
{
    let mut chars: Vec<char> = Vec::new();
    for c in it: s.chars()
        invariant
            it.seq() == s@,
            chars@ == it.seq().take(it.index() as int),
    {
        chars.push(c);
    }
    chars
}

// ---------------------------------------------------------------------------
// Searching and splitting
// ---------------------------------------------------------------------------

/// `needle` stands in `hay` at position `at`.
pub open spec fn occurs_at(hay: Seq<char>, needle: Seq<char>, at: int) -> bool {
    &&& 0 <= at
    &&& at + needle.len() <= hay.len()
    &&& hay.subrange(at, at + needle.len()) == needle
}

/// `needle` stands somewhere in `hay`.
pub open spec fn contains_text(hay: Seq<char>, needle: Seq<char>) -> bool {
    exists|at: int| occurs_at(hay, needle, at)
}

/// `at` is the first position at which `needle` stands in `hay`.
pub open spec fn first_at(hay: Seq<char>, needle: Seq<char>, at: int) -> bool {
    &&& occurs_at(hay, needle, at)
    &&& forall|k: int| 0 <= k < at ==> !occurs_at(hay, needle, k)
}

/// Whether `needle` stands in `hay` at position `at`.
fn matches_at(hay: &Vec<char>, needle: &Vec<char>, at: usize) -> (found: bool)
    requires
        at + needle@.len() <= hay@.len(),
    ensures
        found == occurs_at(hay@, needle@, at as int),
{
    let end: usize = hay.len();
    let mut i: usize = 0;
    while i < needle.len()
        invariant
            i <= needle@.len(),
            end == hay@.len(),
            at + needle@.len() <= end,
            forall|k: int| 0 <= k < i ==> hay@[at + k] == needle@[k],
        decreases needle@.len() - i,
    {
        if hay[at + i] != needle[i] {
            assert(hay@.subrange(at as int, at + needle@.len())[i as int] != needle@[i as int]);
            return false;
        }
        i = i + 1;
    }
    assert(hay@.subrange(at as int, at + needle@.len()) =~= needle@);
    true
}

/// The first position at which `needle` stands in `hay`.
pub fn find_text(hay: &str, needle: &str) -> (at: Option<usize>)
    ensures
        match at {
            Some(k) => first_at(hay@, needle@, k as int),
            None => !contains_text(hay@, needle@),
        },
{
    let h: Vec<char> = chars_of(hay);
    let n: Vec<char> = chars_of(needle);
    if n.len() > h.len() {
        return None;
    }
    let last: usize = h.len() - n.len();
    let mut at: usize = 0;
    loop
        invariant
            h@ == hay@,
            n@ == needle@,
            last == h@.len() - n@.len(),
            at <= last,
            forall|k: int| 0 <= k < at ==> !occurs_at(h@, n@, k),
        decreases last - at,
    {
        if matches_at(&h, &n, at) {
            return Some(at);
        }
        if at == last {
            return None;
        }
        at = at + 1;
    }
}

/// Whether `needle` stands somewhere in `hay`.
pub fn has_text(hay: &str, needle: &str) -> (found: bool)
    ensures
        found == contains_text(hay@, needle@),
{
    match find_text(hay, needle) {
        Some(k) => {
            assert(occurs_at(hay@, needle@, k as int));
            true
        },
        None => false,
    }
}

/// Cuts `s` at the first place where `sep` stands; what comes before it and
/// what comes after it.
pub fn split_at_first(s: &str, sep: &str) -> (parts: Option<(String, String)>)
    ensures
        match parts {
            Some((head, tail)) => {
                let k = head@.len() as int;
                &&& first_at(s@, sep@, k)
                &&& head@ == s@.subrange(0, k)
                &&& tail@ == s@.subrange(k + sep@.len(), s@.len() as int)
            },
            None => !contains_text(s@, sep@),
        },
{
    match find_text(s, sep) {
        Some(k) => {
            let n: usize = s.unicode_len();
            let m: usize = sep.unicode_len();
            let head: String = s.substring_char(0, k).to_owned();
            let tail: String = s.substring_char(k + m, n).to_owned();
            Some((head, tail))
        },
        None => None,
    }
}

// ---------------------------------------------------------------------------
// Joining
// ---------------------------------------------------------------------------

/// The first `n` parts with `sep` between one and the next.
pub open spec fn joined(parts: Seq<Seq<char>>, sep: Seq<char>, n: nat) -> Seq<char>
    decreases n,
{
    if n == 0 {
        Seq::empty()
    } else if n == 1 {
        parts[0]
    } else {
        joined(parts, sep, (n - 1) as nat) + sep + parts[n - 1]
    }
}

/// Puts `sep` between one string and the next.
pub fn join(parts: &Vec<String>, sep: &str) -> (all: String)
    ensures
        all@ == joined(views(parts@), sep@, parts@.len()),
{
    let mut all: String = String::new();
    let mut i: usize = 0;
    while i < parts.len()
        invariant
            i <= parts@.len(),
            all@ == joined(views(parts@), sep@, i as nat),
        decreases parts@.len() - i,
    {
        if i > 0 {
            all.append(sep);
        }
        all.append(parts[i].as_str());
        assert(views(parts@)[i as int] == parts@[i as int]@);
        proof {
            if i == 0 {
                assert(Seq::<char>::empty() + parts@[0]@ =~= parts@[0]@);
            }
        }
        i = i + 1;
    }
    all
}

// ---------------------------------------------------------------------------
// Numbers
// ---------------------------------------------------------------------------

/// One decimal digit.
pub open spec fn digit(d: nat) -> Seq<char> {
    if d == 0 {
        "0"@
    } else if d == 1 {
        "1"@
    } else if d == 2 {
        "2"@
    } else if d == 3 {
        "3"@
    } else if d == 4 {
        "4"@
    } else if d == 5 {
        "5"@
    } else if d == 6 {
        "6"@
    } else if d == 7 {
        "7"@
    } else if d == 8 {
        "8"@
    } else {
        "9"@
    }
}

/// A number in decimal, without leading zeros.
pub open spec fn decimal(n: nat) -> Seq<char>
    decreases n,
{
    if n < 10 {
        digit(n)
    } else {
        decimal(n / 10) + digit(n % 10)
    }
}

/// A signed number in decimal.
pub open spec fn signed_decimal(n: int) -> Seq<char> {
    if n < 0 {
        "-"@ + decimal((-n) as nat)
    } else {
        decimal(n as nat)
    }
}

fn digit_text(d: u64) -> (s: &'static str)
    requires
        d < 10,
    ensures
        s@ == digit(d as nat),
{
    match d {
        0 => "0",
        1 => "1",
        2 => "2",
        3 => "3",
        4 => "4",
        5 => "5",
        6 => "6",
        7 => "7",
        8 => "8",
        _ => "9",
    }
}

/// Appends a number in decimal.
pub fn push_decimal(out: &mut String, n: u64)
    ensures
        final(out)@ == old(out)@ + decimal(n as nat),
    decreases n,
{
    if n < 10 {
        out.append(digit_text(n));
    } else {
        push_decimal(out, n / 10);
        out.append(digit_text(n % 10));
        assert(old(out)@ + decimal((n / 10) as nat) + digit((n % 10) as nat) =~= old(out)@ + (
        decimal((n / 10) as nat) + digit((n % 10) as nat)));
    }
}

/// Appends a signed number in decimal.
pub fn push_signed(out: &mut String, n: i32)
    ensures
        final(out)@ == old(out)@ + signed_decimal(n as int),
{
    if n < 0 {
        out.append("-");
        let m: i64 = -(n as i64);
        push_decimal(out, m as u64);
        assert(old(out)@ + "-"@ + decimal(m as nat) =~= old(out)@ + ("-"@ + decimal(m as nat)));
    } else {
        push_decimal(out, n as u64);
    }
}

// ---------------------------------------------------------------------------
// Conversions done by the standard library
// ---------------------------------------------------------------------------

/// What `str::to_lowercase` makes of a text.
pub uninterp spec fn lowercase(s: Seq<char>) -> Seq<char>;

/// Calls `str::to_lowercase`, the Unicode lowercase mapping, which depends on
/// the text alone.
#[verifier::external_body]
pub(crate) fn to_lowercase(s: &str) -> (lower: String)
    ensures
        lower@ == lowercase(s@),
{
    s.to_lowercase()
}

/// What the `Debug` form of a text is: the text in quotes, with escapes.
pub uninterp spec fn quoted(s: Seq<char>) -> Seq<char>;

/// Formats a text with `{:?}`, which depends on the text alone.
#[verifier::external_body]
pub(crate) fn quote(s: &str) -> (shown: String)
    ensures
        shown@ == quoted(s@),
{
    format!("{:?}", s)
}

// ---------------------------------------------------------------------------
// Nothing is lost in writing
// ---------------------------------------------------------------------------

/// The number that decimal digits stand for.
pub open spec fn number_of(digits: Seq<char>) -> int
    decreases digits.len(),
{
    if digits.len() == 0 {
        0
    } else {
        number_of(digits.drop_last()) * 10 + (digits.last() as int - '0' as int)
    }
}

proof fn lemma_digit(d: nat)
    requires
        d < 10,
    ensures
        digit(d).len() == 1,
        digit(d)[0] as int == '0' as int + d,
{
    reveal_strlit("0");
    reveal_strlit("1");
    reveal_strlit("2");
    reveal_strlit("3");
    reveal_strlit("4");
    reveal_strlit("5");
    reveal_strlit("6");
    reveal_strlit("7");
    reveal_strlit("8");
    reveal_strlit("9");
}

/// A number is read back from its decimal digits, of which the first is no zero
/// unless it is the only one.
pub proof fn numbers_are_read_back(n: nat)
    ensures
        number_of(decimal(n)) == n,
        decimal(n).len() > 0,
        n > 0 ==> decimal(n)[0] != '0',
        forall|i: int| 0 <= i < decimal(n).len() ==> '0' <= #[trigger] decimal(n)[i] <= '9',
    decreases n,
{
    if n < 10 {
        lemma_digit(n);
        assert(decimal(n).drop_last() =~= Seq::empty());
        assert(number_of(Seq::<char>::empty()) == 0);
        assert(number_of(decimal(n)) == number_of(decimal(n).drop_last()) * 10 + (
        decimal(n).last() as int - '0' as int));
    } else {
        numbers_are_read_back(n / 10);
        lemma_digit(n % 10);
        assert(decimal(n).drop_last() =~= decimal(n / 10));
        assert(decimal(n).last() == digit(n % 10)[0]);
        assert(decimal(n)[0] == decimal(n / 10)[0]);
        assert forall|i: int| 0 <= i < decimal(n).len() implies '0' <= #[trigger] decimal(n)[i]
            <= '9' by {
            if i < decimal(n / 10).len() {
                assert(decimal(n)[i] == decimal(n / 10)[i]);
            }
        }
    }
}

/// A text holds each of its parts.
pub proof fn parts_are_held(before: Seq<char>, part: Seq<char>, after: Seq<char>)
    ensures
        contains_text(before + part + after, part),
{
    let whole = before + part + after;
    let at = before.len() as int;
    assert(whole.subrange(at, at + part.len()) =~= part);
    assert(occurs_at(whole, part, at));
}

/// What a part holds, the whole holds.
pub proof fn holding_goes_up(before: Seq<char>, part: Seq<char>, after: Seq<char>, text: Seq<char>)
    requires
        contains_text(part, text),
    ensures
        contains_text(before + part + after, text),
{
    let whole = before + part + after;
    let at = choose|at: int| occurs_at(part, text, at);
    let there = before.len() + at;
    assert(whole.subrange(there, there + text.len()) =~= part.subrange(at, at + text.len()));
    assert(occurs_at(whole, text, there));
}

proof fn lemma_joined_holds(parts: Seq<Seq<char>>, sep: Seq<char>, n: nat, k: int)
    requires
        0 <= k < n <= parts.len(),
    ensures
        contains_text(joined(parts, sep, n), parts[k]),
    decreases n,
{
    if n == 1 {
        parts_are_held(Seq::empty(), parts[0], Seq::empty());
        assert(Seq::<char>::empty() + parts[0] + Seq::<char>::empty() =~= parts[0]);
    } else if k == n - 1 {
        parts_are_held(joined(parts, sep, (n - 1) as nat) + sep, parts[k], Seq::empty());
        assert(joined(parts, sep, (n - 1) as nat) + sep + parts[k] + Seq::<char>::empty()
            =~= joined(parts, sep, n));
    } else {
        lemma_joined_holds(parts, sep, (n - 1) as nat, k);
        holding_goes_up(
            Seq::empty(),
            joined(parts, sep, (n - 1) as nat),
            sep + parts[n - 1],
            parts[k],
        );
        assert(Seq::<char>::empty() + joined(parts, sep, (n - 1) as nat) + (sep + parts[n - 1])
            =~= joined(parts, sep, n));
    }
}

/// Every part that is joined stands in the whole.
pub proof fn joined_texts_hold_every_part(parts: Seq<Seq<char>>, sep: Seq<char>, k: int)
    requires
        0 <= k < parts.len(),
    ensures
        contains_text(joined(parts, sep, parts.len()), parts[k]),
{
    lemma_joined_holds(parts, sep, parts.len(), k);
}

} // verus!
