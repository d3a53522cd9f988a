//! The commands of the command line.
//!
//! A command prints lines. Each line here is printed with a line break behind
//! it; a line may hold breaks of its own.

pub mod events;
pub mod reminders;

use crate::clock::{date_read, formatted, has_no_point, read_local, stands_for, DateRead, LocalDateTime, DATE_TIME_SECONDS};
use crate::model::{AuthorizationStatus, CalendarInfo, EventAvailability, StoreError};
use crate::text::{opt_str_view, opt_view, quote, quoted, same_text, views};
use crate::words::availability_is;
use vstd::prelude::*;
use vstd::string::*;
use vstd::utf8::encode_utf8;

verus! {

/// Why a command failed.
#[derive(PartialEq, Eq, Debug)]
pub enum CliError {
    /// The store failed.
    Store(StoreError),
    /// The user denied access.
    AccessDenied,
    /// The arguments were refused, with a notice on the error stream first
    /// where there is one.
    Refused { notice: Option<String>, message: String },
}

/// The arguments were refused.
pub open spec fn refusal(e: CliError, notice: Option<Seq<char>>, message: Seq<char>) -> bool {
    &&& e is Refused
    &&& opt_view(e->notice) == notice
    &&& e->message@ == message
}

fn refuse(message: String) -> (e: CliError)
    ensures
        refusal(e, None, message@),
{
    CliError::Refused { notice: None, message }
}

fn refuse_with(notice: String, message: &str) -> (e: CliError)
    ensures
        refusal(e, Some(notice@), message@),
{
    CliError::Refused { notice: Some(notice), message: message.to_owned() }
}

/// A command prints these lines.
pub open spec fn prints(r: Result<Vec<String>, CliError>, lines: Seq<Seq<char>>) -> bool {
    r is Ok && views(r->Ok_0@) == lines
}

/// A command fails with an error of the store.
pub open spec fn store_failed(r: Result<Vec<String>, CliError>, e: StoreError) -> bool {
    r == Err::<Vec<String>, CliError>(CliError::Store(e))
}

// ---------------------------------------------------------------------------
// Lines
// ---------------------------------------------------------------------------

/// Prints a line.
fn push_line(out: &mut Vec<String>, text: &str)
    ensures
        views(final(out)@) == views(old(out)@).push(text@),
{
    out.push(text.to_owned());
    assert(views(out@) =~= views(old(out)@).push(text@));
}

/// Prints a line of two parts.
fn push_pair(out: &mut Vec<String>, lead: &str, text: &str)
    ensures
        views(final(out)@) == views(old(out)@).push(lead@ + text@),
{
    let mut line: String = lead.to_owned();
    line.append(text);
    push_line(out, line.as_str());
}

/// A line of two parts, if there is a second one.
pub open spec fn opt_line(lead: Seq<char>, text: Option<Seq<char>>) -> Seq<Seq<char>> {
    match text {
        Some(t) => seq![lead + t],
        None => Seq::empty(),
    }
}

fn push_opt(out: &mut Vec<String>, lead: &str, text: &Option<String>)
    ensures
        views(final(out)@) == views(old(out)@) + opt_line(lead@, opt_view(*text)),
{
    if let Some(t) = text {
        push_pair(out, lead, t.as_str());
    }
}

/// A date to the second, or the word that there is none.
pub open spec fn date_or_none(d: Option<LocalDateTime>) -> Seq<char> {
    match d {
        Some(p) => formatted(p.unix_secs(), p.sub_nanos(), p.utc_offset(), DATE_TIME_SECONDS@),
        None => "None"@,
    }
}

fn push_date(out: &mut Vec<String>, lead: &str, d: &Option<LocalDateTime>)
    ensures
        views(final(out)@) == views(old(out)@).push(lead@ + date_or_none(*d)),
{
    match d {
        Some(p) => push_pair(out, lead, p.format(DATE_TIME_SECONDS).as_str()),
        None => push_pair(out, lead, "None"),
    }
}

/// A truth value.
pub open spec fn bool_text(b: bool) -> Seq<char> {
    if b {
        "true"@
    } else {
        "false"@
    }
}

fn bool_word(b: bool) -> (w: &'static str)
    ensures
        w@ == bool_text(b),
{
    if b {
        "true"
    } else {
        "false"
    }
}

/// The first characters of a text; dots follow where it has more bytes than
/// that.
pub open spec fn shortened(text: Seq<char>, most: int) -> Seq<char> {
    let head = if text.len() <= most {
        text
    } else {
        text.take(most)
    };
    if encode_utf8(text).len() > most {
        head + "..."@
    } else {
        head + ""@
    }
}

fn shorten(text: &str, most: usize) -> (s: String)
    ensures
        s@ == shortened(text@, most as int),
{
    let n: usize = text.unicode_len();
    let mut s: String = if n <= most {
        text.to_owned()
    } else {
        text.substring_char(0, most).to_owned()
    };
    if text.as_bytes().len() > most {
        s.append("...");
    } else {
        s.append("");
    }
    s
}

// ---------------------------------------------------------------------------
// Dates
// ---------------------------------------------------------------------------

/// The point of a date.
pub open spec fn point_of(read: DateRead) -> Option<LocalDateTime> {
    match read {
        DateRead::Point(p) => Some(p),
        _ => None,
    }
}

/// Reads a date in the form `YYYY-MM-DD HH:MM` or `YYYY-MM-DD`.
pub fn parse_datetime(s: &str) -> (point: Option<LocalDateTime>)
    ensures
        exists|read: DateRead| #[trigger] date_read(s@, read) && point == point_of(read),
{
    let read: DateRead = read_local(s);
    assert(date_read(s@, read));
    match read {
        DateRead::Point(p) => Some(p),
        _ => None,
    }
}

/// What is said of a text that is no date.
pub open spec fn no_date(label: Seq<char>, raw: Seq<char>) -> Seq<char> {
    "Invalid "@ + label + ": '"@ + raw + "'. Use YYYY-MM-DD or YYYY-MM-DD HH:MM."@
}

fn no_date_text(label: &str, raw: &str) -> (m: String)
    ensures
        m@ == no_date(label@, raw@),
{
    let mut m: String = "Invalid ".to_owned();
    m.append(label);
    m.append(": '");
    m.append(raw);
    m.append("'. Use YYYY-MM-DD or YYYY-MM-DD HH:MM.");
    m
}

/// What may come of reading a date that may be absent.
pub open spec fn opt_read(s: Option<&str>, read: Option<DateRead>) -> bool {
    match (s, read) {
        (None, None) => true,
        (Some(t), Some(r)) => date_read(t@, r),
        _ => false,
    }
}

/// Reads a date that may be absent.
pub fn read_opt_local(s: Option<&str>) -> (read: Option<DateRead>)
    ensures
        opt_read(s, read),
{
    match s {
        Some(t) => Some(read_local(t)),
        None => None,
    }
}

// ---------------------------------------------------------------------------
// Availability
// ---------------------------------------------------------------------------

/// The availability that a word stands for.
pub open spec fn cli_availability(word: Seq<char>) -> Option<EventAvailability> {
    if word == "busy"@ {
        Some(EventAvailability::Busy)
    } else if word == "free"@ {
        Some(EventAvailability::Free)
    } else if word == "tentative"@ {
        Some(EventAvailability::Tentative)
    } else if word == "unavailable"@ {
        Some(EventAvailability::Unavailable)
    } else {
        None
    }
}

/// What a command gets from an availability that may be absent.
pub open spec fn availability_read(
    word: Option<Seq<char>>,
    r: Result<Option<EventAvailability>, CliError>,
) -> bool {
    match word {
        None => r == Ok::<Option<EventAvailability>, CliError>(None),
        Some(w) => match cli_availability(w) {
            Some(a) => r == Ok::<Option<EventAvailability>, CliError>(Some(a)),
            None => r is Err && refusal(
                r->Err_0,
                None,
                "--availability must be busy|free|tentative|unavailable, got "@ + quoted(w),
            ),
        },
    }
}

fn read_availability(word: Option<&str>) -> (r: Result<Option<EventAvailability>, CliError>)
    ensures
        availability_read(opt_str_view(word), r),
{
    let w: &str = match word {
        Some(w) => w,
        None => return Ok(None),
    };
    if same_text(w, "busy") {
        Ok(Some(EventAvailability::Busy))
    } else if same_text(w, "free") {
        Ok(Some(EventAvailability::Free))
    } else if same_text(w, "tentative") {
        Ok(Some(EventAvailability::Tentative))
    } else if same_text(w, "unavailable") {
        Ok(Some(EventAvailability::Unavailable))
    } else {
        let mut m: String =
            "--availability must be busy|free|tentative|unavailable, got ".to_owned();
        m.append(quote(w).as_str());
        Err(refuse(m))
    }
}

/// What is said of a word that names no span.
pub open spec fn no_span(word: Seq<char>) -> Seq<char> {
    "--span must be 'this' or 'future', got "@ + quoted(word)
}

/// What a command gets from a span: whether later occurrences are meant too.
pub open spec fn span_read(word: Seq<char>, r: Result<bool, CliError>) -> bool {
    if word == "this"@ {
        r == Ok::<bool, CliError>(false)
    } else if word == "future"@ {
        r == Ok::<bool, CliError>(true)
    } else {
        r is Err && refusal(r->Err_0, None, no_span(word))
    }
}

fn read_span(word: &str) -> (r: Result<bool, CliError>)
    ensures
        span_read(word@, r),
{
    if same_text(word, "this") {
        Ok(false)
    } else if same_text(word, "future") {
        Ok(true)
    } else {
        let mut m: String = "--span must be 'this' or 'future', got ".to_owned();
        m.append(quote(word).as_str());
        Err(refuse(m))
    }
}

// ---------------------------------------------------------------------------
// Status and access
// ---------------------------------------------------------------------------

/// What the status command prints, given how the store writes the status.
pub open spec fn status_lines(
    events: bool,
    status: AuthorizationStatus,
    shown: Seq<char>,
) -> Seq<Seq<char>> {
    let head = if events {
        "Calendar Events"@ + " Authorization Status: "@ + shown
    } else {
        "Reminders"@ + " Authorization Status: "@ + shown
    };
    match status {
        AuthorizationStatus::NotDetermined => seq![
            head,
            if events {
                "\nUse 'eventkit events authorize' to request access."@
            } else {
                "\nUse 'eventkit reminders authorize' to request access."@
            },
        ],
        AuthorizationStatus::Denied => seq![
            head,
            "\nAccess was denied. Please enable access in:"@,
            if events {
                "System Settings > Privacy & Security > Calendars"@
            } else {
                "System Settings > Privacy & Security > Reminders"@
            },
        ],
        AuthorizationStatus::Restricted => seq![
            head,
            "\nAccess is restricted by system policy."@,
        ],
        AuthorizationStatus::FullAccess => seq![head, "\nFull access granted."@],
        AuthorizationStatus::WriteOnly => seq![head, "\nWrite-only access granted."@],
    }
}

/// Prints a permission, given how the store writes it.
pub fn cmd_status(events: bool, status: AuthorizationStatus, shown: &str) -> (lines: Vec<String>)
    ensures
        views(lines@) == status_lines(events, status, shown@),
{
    let mut lines: Vec<String> = Vec::new();
    let mut head: String = if events {
        "Calendar Events".to_owned()
    } else {
        "Reminders".to_owned()
    };
    head.append(" Authorization Status: ");
    head.append(shown);
    push_line(&mut lines, head.as_str());
    match status {
        AuthorizationStatus::NotDetermined => {
            if events {
                push_line(&mut lines, "\nUse 'eventkit events authorize' to request access.");
            } else {
                push_line(&mut lines, "\nUse 'eventkit reminders authorize' to request access.");
            }
        },
        AuthorizationStatus::Denied => {
            push_line(&mut lines, "\nAccess was denied. Please enable access in:");
            if events {
                push_line(&mut lines, "System Settings > Privacy & Security > Calendars");
            } else {
                push_line(&mut lines, "System Settings > Privacy & Security > Reminders");
            }
        },
        AuthorizationStatus::Restricted => {
            push_line(&mut lines, "\nAccess is restricted by system policy.");
        },
        AuthorizationStatus::FullAccess => {
            push_line(&mut lines, "\nFull access granted.");
        },
        AuthorizationStatus::WriteOnly => {
            push_line(&mut lines, "\nWrite-only access granted.");
        },
    }
    lines
}

/// What came of asking for access.
#[derive(Debug)]
pub struct AccessEnd {
    pub lines: Vec<String>,
    pub result: Result<(), CliError>,
}

/// What is printed about asking for access, where `place` is the settings page.
pub open spec fn access_told(
    reply: Result<bool, StoreError>,
    place: Seq<char>,
    end: AccessEnd,
) -> bool {
    match reply {
        Ok(true) => {
            &&& views(end.lines@) == seq!["✓ Access granted!"@]
            &&& end.result == Ok::<(), CliError>(())
        },
        Ok(false) => {
            &&& views(end.lines@) == seq![
                "✗ Access denied."@,
                "\nTo grant access, go to:"@,
                place,
            ]
            &&& end.result == Err::<(), CliError>(CliError::AccessDenied)
        },
        Err(e) => {
            &&& views(end.lines@) == seq!["✗ Failed to request access: "@ + e.text@]
            &&& end.result == Err::<(), CliError>(CliError::Store(e))
        },
    }
}

fn tell_access(reply: Result<bool, StoreError>, place: &str) -> (end: AccessEnd)
    ensures
        access_told(reply, place@, end),
{
    let mut lines: Vec<String> = Vec::new();
    match reply {
        Ok(granted) => {
            if granted {
                push_line(&mut lines, "✓ Access granted!");
                assert(views(lines@) =~= seq!["✓ Access granted!"@]);
                AccessEnd { lines, result: Ok(()) }
            } else {
                push_line(&mut lines, "✗ Access denied.");
                push_line(&mut lines, "\nTo grant access, go to:");
                push_line(&mut lines, place);
                assert(views(lines@) =~= seq![
                    "✗ Access denied."@,
                    "\nTo grant access, go to:"@,
                    place@,
                ]);
                AccessEnd { lines, result: Err(CliError::AccessDenied) }
            }
        },
        Err(e) => {
            push_pair(&mut lines, "✗ Failed to request access: ", e.text.as_str());
            assert(views(lines@) =~= seq!["✗ Failed to request access: "@ + e.text@]);
            AccessEnd { lines, result: Err(CliError::Store(e)) }
        },
    }
}

// ---------------------------------------------------------------------------
// Calendars
// ---------------------------------------------------------------------------

/// Two lines about a calendar.
pub open spec fn calendar_lines(c: CalendarInfo) -> Seq<Seq<char>> {
    let source = match c.source {
        Some(s) => s@,
        None => "Unknown"@,
    };
    let modifiable = if c.allows_modifications {
        ""@
    } else {
        " (read-only)"@
    };
    seq![
        "  • "@ + c.title@ + " ["@ + source + "]"@ + modifiable,
        "    ID: "@ + c.identifier@,
    ]
}

/// The lines about the first `n` calendars.
pub open spec fn all_calendar_lines(calendars: Seq<CalendarInfo>, n: nat) -> Seq<Seq<char>>
    decreases n,
{
    if n == 0 {
        Seq::empty()
    } else {
        all_calendar_lines(calendars, (n - 1) as nat) + calendar_lines(calendars[n - 1])
    }
}

/// What is printed about calendars: a heading, the calendars, and the default
/// one where there is one.
pub open spec fn calendars_printed(
    calendars: Seq<CalendarInfo>,
    default: Option<CalendarInfo>,
    none: Seq<char>,
    heading: Seq<char>,
    default_lead: Seq<char>,
) -> Seq<Seq<char>> {
    if calendars.len() == 0 {
        seq![none]
    } else {
        seq![heading] + all_calendar_lines(calendars, calendars.len()) + opt_line(
            default_lead,
            match default {
                Some(c) => Some(c.title@),
                None => None,
            },
        )
    }
}

fn print_calendars(
    calendars: &Vec<CalendarInfo>,
    default: &Option<CalendarInfo>,
    none: &str,
    heading: &str,
    default_lead: &str,
) -> (lines: Vec<String>)
    ensures
        views(lines@) == calendars_printed(calendars@, *default, none@, heading@, default_lead@),
{
    let mut lines: Vec<String> = Vec::new();
    if calendars.is_empty() {
        push_line(&mut lines, none);
        return lines;
    }
    push_line(&mut lines, heading);
    let mut i: usize = 0;
    while i < calendars.len()
        invariant
            i <= calendars@.len(),
            views(lines@) == seq![heading@] + all_calendar_lines(calendars@, i as nat),
        decreases calendars@.len() - i,
    {
        let c: &CalendarInfo = &calendars[i];
        let mut line: String = "  • ".to_owned();
        line.append(c.title.as_str());
        line.append(" [");
        match &c.source {
            Some(s) => line.append(s.as_str()),
            None => line.append("Unknown"),
        }
        line.append("]");
        if c.allows_modifications {
            line.append("");
        } else {
            line.append(" (read-only)");
        }
        push_line(&mut lines, line.as_str());
        push_pair(&mut lines, "    ID: ", c.identifier.as_str());
        i = i + 1;
    }
    if let Some(c) = default {
        push_pair(&mut lines, default_lead, c.title.as_str());
    }
    lines
}

// ---------------------------------------------------------------------------
// What words mean on the command line
// ---------------------------------------------------------------------------

/// A field is set to the point that a date stands for, and left alone without
/// one.
pub open spec fn sets_point(text: Option<Seq<char>>, set: Option<LocalDateTime>) -> bool {
    match (text, set) {
        (None, None) => true,
        (Some(t), Some(p)) => stands_for(t, p),
        _ => false,
    }
}

/// A date is supplied that has no point.
pub open spec fn bad_point(text: Option<Seq<char>>) -> bool {
    text is Some && has_no_point(text->0)
}

/// A word is supplied that is none of the four for an availability.
pub open spec fn bad_word(word: Option<Seq<char>>) -> bool {
    word is Some && word->0 != "busy"@ && word->0 != "free"@ && word->0 != "tentative"@ && word->0
        != "unavailable"@
}

/// An availability is the one that the word names, and absent without one; it
/// is refused only where the word is none of the four.
pub proof fn availability_is_as_given(
    word: Option<Seq<char>>,
    r: Result<Option<EventAvailability>, CliError>,
)
    requires
        availability_read(word, r),
    ensures
        r matches Ok(a) ==> availability_is(word, a) && !bad_word(word),
        r is Err ==> bad_word(word),
{
}

/// Later occurrences are meant with the word "future" alone, and a word that is
/// neither "this" nor "future" is refused.
pub proof fn span_is_as_given(word: Seq<char>, r: Result<bool, CliError>)
    requires
        span_read(word, r),
    ensures
        r is Ok <==> word == "this"@ || word == "future"@,
        r matches Ok(future) ==> (future <==> word == "future"@),
{
    reveal_strlit("this");
    reveal_strlit("future");
    assert("this"@.len() != "future"@.len());
}

/// A text is printed whole where it is short, and else cut behind its first
/// characters with dots.
pub proof fn short_texts_are_whole(text: Seq<char>, most: int)
    requires
        0 <= most,
    ensures
        encode_utf8(text).len() <= most && text.len() <= most ==> shortened(text, most) == text,
        text.len() > most ==> shortened(text, most).take(most) == text.take(most),
        encode_utf8(text).len() > most ==> shortened(text, most).len() >= 3 && shortened(
            text,
            most,
        ).skip(shortened(text, most).len() - 3) == "..."@,
{
    reveal_strlit("...");
    reveal_strlit("");
    assert(text + ""@ =~= text);
    if text.len() > most {
        assert(shortened(text, most).take(most) =~= text.take(most));
    }
    if encode_utf8(text).len() > most {
        assert(shortened(text, most).skip(shortened(text, most).len() - 3) =~= "..."@);
    }
}

/// `whole` holds the line.
pub open spec fn has_line(whole: Seq<Seq<char>>, line: Seq<char>) -> bool {
    exists|i: int| 0 <= i < whole.len() && #[trigger] whole[i] == line
}

/// A line of one part is a line of the whole.
pub proof fn lines_of_parts(before: Seq<Seq<char>>, part: Seq<Seq<char>>, after: Seq<Seq<char>>)
    ensures
        forall|line: Seq<char>| has_line(part, line) ==> #[trigger] has_line(
            before + part + after,
            line,
        ),
{
    assert forall|line: Seq<char>| has_line(part, line) implies #[trigger] has_line(
        before + part + after,
        line,
    ) by {
        let i = choose|i: int| 0 <= i < part.len() && #[trigger] part[i] == line;
        assert((before + part + after)[before.len() + i] == line);
    }
}

proof fn lemma_calendar_has_lines(calendars: Seq<CalendarInfo>, n: nat, k: int, line: Seq<char>)
    requires
        0 <= k < n <= calendars.len(),
        has_line(calendar_lines(calendars[k]), line),
    ensures
        has_line(all_calendar_lines(calendars, n), line),
    decreases n,
{
    let before = all_calendar_lines(calendars, (n - 1) as nat);
    let last = calendar_lines(calendars[n - 1]);
    if k < n - 1 {
        lemma_calendar_has_lines(calendars, (n - 1) as nat, k, line);
        lines_of_parts(Seq::empty(), before, last);
        assert(Seq::<Seq<char>>::empty() + before + last =~= before + last);
    } else {
        lines_of_parts(before, last, Seq::empty());
        assert(before + last + Seq::<Seq<char>>::empty() =~= before + last);
    }
}

proof fn lemma_two_lines_each(calendars: Seq<CalendarInfo>, n: nat)
    ensures
        all_calendar_lines(calendars, n).len() == 2 * n,
    decreases n,
{
    if n > 0 {
        lemma_two_lines_each(calendars, (n - 1) as nat);
    }
}

/// Every calendar is printed, with its title, its account, whether it can be
/// changed, and its identifier; and nothing but the calendars, a heading and
/// the default one.
pub proof fn every_calendar_is_printed(
    calendars: Seq<CalendarInfo>,
    default: Option<CalendarInfo>,
    none: Seq<char>,
    heading: Seq<char>,
    default_lead: Seq<char>,
    k: int,
)
    requires
        0 <= k < calendars.len(),
    ensures
        ({
            let c = calendars[k];
            let lines = calendars_printed(calendars, default, none, heading, default_lead);
            let account = if c.source is Some {
                c.source->0@
            } else {
                "Unknown"@
            };
            let remark = if c.allows_modifications {
                ""@
            } else {
                " (read-only)"@
            };
            &&& has_line(lines, "  • "@ + c.title@ + " ["@ + account + "]"@ + remark)
            &&& has_line(lines, "    ID: "@ + c.identifier@)
            &&& lines[0] == heading
            &&& default matches Some(d) ==> lines.last() == default_lead + d.title@
            &&& lines.len() == 1 + 2 * calendars.len() + (if default is Some {
                1int
            } else {
                0
            })
        }),
{
    let c = calendars[k];
    let block = calendar_lines(c);
    let all = all_calendar_lines(calendars, calendars.len());
    let end = opt_line(
        default_lead,
        match default {
            Some(c) => Some(c.title@),
            None => None,
        },
    );
    assert(has_line(block, block[0]));
    assert(has_line(block, block[1]));
    lemma_calendar_has_lines(calendars, calendars.len(), k, block[0]);
    lemma_calendar_has_lines(calendars, calendars.len(), k, block[1]);
    lines_of_parts(seq![heading], all, end);
    lemma_two_lines_each(calendars, calendars.len());
}

/// A permission is told for the entity that was asked about, as the store
/// writes it. A missing one is followed by what to do about it: where to ask,
/// or where to enable it.
pub proof fn status_is_told(events: bool, status: AuthorizationStatus, shown: Seq<char>)
    ensures
        ({
            let lines = status_lines(events, status, shown);
            &&& events ==> lines[0] == "Calendar Events"@ + " Authorization Status: "@ + shown
            &&& !events ==> lines[0] == "Reminders"@ + " Authorization Status: "@ + shown
            &&& status is NotDetermined && events ==> lines.last()
                == "\nUse 'eventkit events authorize' to request access."@
            &&& status is NotDetermined && !events ==> lines.last()
                == "\nUse 'eventkit reminders authorize' to request access."@
            &&& status is Denied && events ==> lines.last()
                == "System Settings > Privacy & Security > Calendars"@
            &&& status is Denied && !events ==> lines.last()
                == "System Settings > Privacy & Security > Reminders"@
            &&& status is Restricted ==> lines.last()
                == "\nAccess is restricted by system policy."@
            &&& status is FullAccess ==> lines.last() == "\nFull access granted."@
            &&& status is WriteOnly ==> lines.last() == "\nWrite-only access granted."@
        }),
{
}

/// Asking for access succeeds exactly where access was granted; a denial is
/// followed by the place where to enable it.
pub proof fn asking_succeeds_where_access_is_granted(
    reply: Result<bool, StoreError>,
    place: Seq<char>,
    end: AccessEnd,
)
    requires
        access_told(reply, place, end),
    ensures
        end.result is Ok <==> reply is Ok && reply->Ok_0,
        reply is Ok && !reply->Ok_0 ==> end.result->Err_0 is AccessDenied && views(
            end.lines@,
        ).last() == place,
        reply matches Err(e) ==> end.result->Err_0 == CliError::Store(e),
{
}

} // verus!
