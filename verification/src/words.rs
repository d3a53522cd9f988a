//! The words that stand for settings in requests and answers.

use crate::model::{AuthorizationStatus, EventAvailability, EventSpan, EventStatus, AlarmProximity, AlarmType, RecurrenceFrequency};
use crate::request::{CalendarColor, GeofenceProximity, Priority};
use crate::text::{chars_of, contains_text, parts_are_held, same_text};
use vstd::prelude::*;
use vstd::string::*;

verus! {

// ---------------------------------------------------------------------------
// Availability and span
// ---------------------------------------------------------------------------

/// The availability that a word stands for.
pub open spec fn availability_named(word: Seq<char>) -> Option<EventAvailability> {
    if word == "busy"@ {
        Some(EventAvailability::Busy)
    } else if word == "free"@ {
        Some(EventAvailability::Free)
    } else if word == "tentative"@ {
        Some(EventAvailability::Tentative)
    } else if word == "unavailable"@ {
        Some(EventAvailability::Unavailable)
    } else if word == "not_supported"@ {
        Some(EventAvailability::NotSupported)
    } else {
        None
    }
}

/// What is said of a word that names no availability.
pub open spec fn bad_availability(word: Seq<char>) -> Seq<char> {
    "invalid availability '"@ + word
        + "'. Use busy, free, tentative, unavailable, or not_supported."@
}

/// Reads an availability: "busy", "free", "tentative", "unavailable" or
/// "not_supported".
pub fn parse_availability(s: &str) -> (r: Result<EventAvailability, String>)
    ensures
        match availability_named(s@) {
            Some(a) => r == Ok::<EventAvailability, String>(a),
            None => r is Err && r->Err_0@ == bad_availability(s@),
        },
{
    if same_text(s, "busy") {
        Ok(EventAvailability::Busy)
    } else if same_text(s, "free") {
        Ok(EventAvailability::Free)
    } else if same_text(s, "tentative") {
        Ok(EventAvailability::Tentative)
    } else if same_text(s, "unavailable") {
        Ok(EventAvailability::Unavailable)
    } else if same_text(s, "not_supported") {
        Ok(EventAvailability::NotSupported)
    } else {
        let mut m: String = "invalid availability '".to_owned();
        m.append(s);
        m.append("'. Use busy, free, tentative, unavailable, or not_supported.");
        Err(m)
    }
}

/// The word for an availability.
pub open spec fn availability_text(a: EventAvailability) -> Seq<char> {
    match a {
        EventAvailability::Busy => "busy"@,
        EventAvailability::Free => "free"@,
        EventAvailability::Tentative => "tentative"@,
        EventAvailability::Unavailable => "unavailable"@,
        EventAvailability::NotSupported => "not_supported"@,
    }
}

/// The word for an availability.
pub fn availability_word(a: EventAvailability) -> (s: &'static str)
    ensures
        s@ == availability_text(a),
{
    match a {
        EventAvailability::Busy => "busy",
        EventAvailability::Free => "free",
        EventAvailability::Tentative => "tentative",
        EventAvailability::Unavailable => "unavailable",
        EventAvailability::NotSupported => "not_supported",
    }
}

/// Every availability is read back from the word that is shown for it.
pub proof fn availability_round_trip(a: EventAvailability)
    ensures
        availability_named(availability_text(a)) == Some(a),
{
    reveal_strlit("busy");
    reveal_strlit("free");
    reveal_strlit("tentative");
    reveal_strlit("unavailable");
    reveal_strlit("not_supported");
    assert("busy"@[0] != "free"@[0]);
    assert("busy"@.len() == 4 && "free"@.len() == 4 && "tentative"@.len() == 9);
    assert("unavailable"@.len() == 11 && "not_supported"@.len() == 13);
}

/// The span that a word stands for; this occurrence where there is none.
pub open spec fn span_named(word: Option<Seq<char>>) -> Option<EventSpan> {
    match word {
        None => Some(EventSpan::This),
        Some(w) => if w == "this"@ {
            Some(EventSpan::This)
        } else if w == "future"@ {
            Some(EventSpan::Future)
        } else {
            None
        },
    }
}

/// What is said of a word that names no span.
pub open spec fn bad_span(word: Seq<char>) -> Seq<char> {
    "invalid span '"@ + word + "'. Use \"this\" or \"future\"."@
}

/// Reads a span: "this" or "future"; this occurrence where there is none.
pub fn parse_span(s: Option<&str>) -> (r: Result<EventSpan, String>)
    ensures
        match s {
            None => r == Ok::<EventSpan, String>(EventSpan::This),
            Some(w) => match span_named(Some(w@)) {
                Some(span) => r == Ok::<EventSpan, String>(span),
                None => r is Err && r->Err_0@ == bad_span(w@),
            },
        },
{
    match s {
        None => Ok(EventSpan::This),
        Some(w) => if same_text(w, "this") {
            Ok(EventSpan::This)
        } else if same_text(w, "future") {
            Ok(EventSpan::Future)
        } else {
            let mut m: String = "invalid span '".to_owned();
            m.append(w);
            m.append("'. Use \"this\" or \"future\".");
            Err(m)
        },
    }
}

// ---------------------------------------------------------------------------
// Words in answers
// ---------------------------------------------------------------------------

/// The word for an event's status.
pub open spec fn status_text(s: EventStatus) -> Seq<char> {
    match s {
        EventStatus::Confirmed => "confirmed"@,
        EventStatus::Tentative => "tentative"@,
        EventStatus::Canceled => "canceled"@,
        EventStatus::Unset => "none"@,
    }
}

/// The word for an event's status.
pub fn status_word(s: EventStatus) -> (w: &'static str)
    ensures
        w@ == status_text(s),
{
    match s {
        EventStatus::Confirmed => "confirmed",
        EventStatus::Tentative => "tentative",
        EventStatus::Canceled => "canceled",
        EventStatus::Unset => "none",
    }
}

/// The word for a geofence crossing, if the alarm has one.
pub open spec fn proximity_text(p: AlarmProximity) -> Option<Seq<char>> {
    match p {
        AlarmProximity::Enter => Some("enter"@),
        AlarmProximity::Leave => Some("leave"@),
        AlarmProximity::Off => None,
    }
}

/// The crossing that a word of a request stands for; anything but "enter" and
/// "leave" stands for none.
pub open spec fn proximity_named(word: Option<Seq<char>>) -> AlarmProximity {
    if word == Some("enter"@) {
        AlarmProximity::Enter
    } else if word == Some("leave"@) {
        AlarmProximity::Leave
    } else {
        AlarmProximity::Off
    }
}

/// A crossing is read back from the word that is shown for it.
pub proof fn proximity_round_trip(p: AlarmProximity)
    ensures
        proximity_named(proximity_text(p)) == p,
{
    reveal_strlit("enter");
    reveal_strlit("leave");
    assert("enter"@[0] != "leave"@[0]);
}

/// The crossing that a request asks for.
pub open spec fn proximity_of(p: GeofenceProximity) -> AlarmProximity {
    match p {
        GeofenceProximity::Enter => AlarmProximity::Enter,
        GeofenceProximity::Leave => AlarmProximity::Leave,
    }
}

/// The crossing that a request asks for.
pub fn to_proximity(p: GeofenceProximity) -> (r: AlarmProximity)
    ensures
        r == proximity_of(p),
{
    match p {
        GeofenceProximity::Enter => AlarmProximity::Enter,
        GeofenceProximity::Leave => AlarmProximity::Leave,
    }
}

/// The word for the way in which an alarm makes itself known.
pub open spec fn alarm_type_text(t: AlarmType) -> Seq<char> {
    match t {
        AlarmType::Display => "display"@,
        AlarmType::Audio => "audio"@,
        AlarmType::Procedure => "procedure"@,
        AlarmType::Email => "email"@,
        AlarmType::Unknown => "unknown"@,
    }
}

/// The word for the way in which an alarm makes itself known.
pub fn alarm_type_word(t: AlarmType) -> (w: &'static str)
    ensures
        w@ == alarm_type_text(t),
{
    match t {
        AlarmType::Display => "display",
        AlarmType::Audio => "audio",
        AlarmType::Procedure => "procedure",
        AlarmType::Email => "email",
        AlarmType::Unknown => "unknown",
    }
}

/// The word for a frequency.
pub open spec fn frequency_text(f: RecurrenceFrequency) -> Seq<char> {
    match f {
        RecurrenceFrequency::Daily => "daily"@,
        RecurrenceFrequency::Weekly => "weekly"@,
        RecurrenceFrequency::Monthly => "monthly"@,
        RecurrenceFrequency::Yearly => "yearly"@,
    }
}

/// The word for a frequency.
pub fn frequency_word(f: RecurrenceFrequency) -> (w: &'static str)
    ensures
        w@ == frequency_text(f),
{
    match f {
        RecurrenceFrequency::Daily => "daily",
        RecurrenceFrequency::Weekly => "weekly",
        RecurrenceFrequency::Monthly => "monthly",
        RecurrenceFrequency::Yearly => "yearly",
    }
}

/// The frequency that a word stands for.
pub open spec fn frequency_named(word: Seq<char>) -> Option<RecurrenceFrequency> {
    if word == "daily"@ {
        Some(RecurrenceFrequency::Daily)
    } else if word == "weekly"@ {
        Some(RecurrenceFrequency::Weekly)
    } else if word == "monthly"@ {
        Some(RecurrenceFrequency::Monthly)
    } else if word == "yearly"@ {
        Some(RecurrenceFrequency::Yearly)
    } else {
        None
    }
}

/// What is said of a word that names no frequency.
pub open spec fn bad_frequency(word: Seq<char>) -> Seq<char> {
    "Invalid frequency: '"@ + word + "'. Use daily, weekly, monthly, or yearly."@
}

/// Reads a frequency.
pub fn parse_frequency(s: &str) -> (r: Result<RecurrenceFrequency, String>)
    ensures
        match frequency_named(s@) {
            Some(f) => r == Ok::<RecurrenceFrequency, String>(f),
            None => r is Err && r->Err_0@ == bad_frequency(s@),
        },
{
    if same_text(s, "daily") {
        Ok(RecurrenceFrequency::Daily)
    } else if same_text(s, "weekly") {
        Ok(RecurrenceFrequency::Weekly)
    } else if same_text(s, "monthly") {
        Ok(RecurrenceFrequency::Monthly)
    } else if same_text(s, "yearly") {
        Ok(RecurrenceFrequency::Yearly)
    } else {
        let mut m: String = "Invalid frequency: '".to_owned();
        m.append(s);
        m.append("'. Use daily, weekly, monthly, or yearly.");
        Err(m)
    }
}

/// Every frequency is read back from the word that is shown for it.
pub proof fn frequency_round_trip(f: RecurrenceFrequency)
    ensures
        frequency_named(frequency_text(f)) == Some(f),
{
    reveal_strlit("daily");
    reveal_strlit("weekly");
    reveal_strlit("monthly");
    reveal_strlit("yearly");
    assert("daily"@.len() == 5 && "monthly"@.len() == 7);
    assert("weekly"@.len() == 6 && "yearly"@.len() == 6);
    assert("weekly"@[0] != "yearly"@[0]);
}

// ---------------------------------------------------------------------------
// Authorization
// ---------------------------------------------------------------------------

/// The name of a status.
pub open spec fn auth_status_text(s: AuthorizationStatus) -> Seq<char> {
    match s {
        AuthorizationStatus::NotDetermined => "NotDetermined"@,
        AuthorizationStatus::Restricted => "Restricted"@,
        AuthorizationStatus::Denied => "Denied"@,
        AuthorizationStatus::FullAccess => "FullAccess"@,
        AuthorizationStatus::WriteOnly => "WriteOnly"@,
    }
}

/// The name of a status.
pub fn auth_status_str(s: AuthorizationStatus) -> (w: &'static str)
    ensures
        w@ == auth_status_text(s),
{
    match s {
        AuthorizationStatus::NotDetermined => "NotDetermined",
        AuthorizationStatus::Restricted => "Restricted",
        AuthorizationStatus::Denied => "Denied",
        AuthorizationStatus::FullAccess => "FullAccess",
        AuthorizationStatus::WriteOnly => "WriteOnly",
    }
}

pub const MEND_NOT_DETERMINED: &'static str = "Call any reminders or calendar tool to trigger the macOS consent dialog. \
     If no dialog appears, the binary is missing its Info.plist usage strings — \
     rebuild from a version that embeds them.";

pub const MEND_DENIED: &'static str = "Open System Settings → Privacy & Security → Reminders (and/or Calendar) and \
     enable access for `eventkit`. If `eventkit` is not listed, run \
     `tccutil reset Reminders` (or `tccutil reset Calendar`) in a terminal and \
     retry — that clears the cached denial so the consent dialog can fire again.";

pub const MEND_RESTRICTED: &'static str = "Access is blocked by an MDM or parental-controls policy. The user cannot \
     override this from System Settings — an administrator must change the policy.";

/// Whether a status grants access.
pub open spec fn is_granted(s: AuthorizationStatus) -> bool {
    s == AuthorizationStatus::FullAccess || s == AuthorizationStatus::WriteOnly
}

/// How bad a status is: a denial is worst, then a restriction, then a question
/// not yet asked.
pub open spec fn badness(s: AuthorizationStatus) -> int {
    match s {
        AuthorizationStatus::Denied => 3,
        AuthorizationStatus::Restricted => 2,
        AuthorizationStatus::NotDetermined => 1,
        _ => 0,
    }
}

/// How a status is mended, if it is not one that grants access.
pub open spec fn mend(s: AuthorizationStatus) -> Option<Seq<char>> {
    match s {
        AuthorizationStatus::NotDetermined => Some(MEND_NOT_DETERMINED@),
        AuthorizationStatus::Denied => Some(MEND_DENIED@),
        AuthorizationStatus::Restricted => Some(MEND_RESTRICTED@),
        _ => None,
    }
}

/// The worse of two statuses.
pub open spec fn worse(a: AuthorizationStatus, b: AuthorizationStatus) -> AuthorizationStatus {
    if badness(a) >= badness(b) {
        a
    } else {
        b
    }
}

fn rank(s: AuthorizationStatus) -> (r: u8)
    ensures
        r == badness(s),
{
    match s {
        AuthorizationStatus::Denied => 3,
        AuthorizationStatus::Restricted => 2,
        AuthorizationStatus::NotDetermined => 1,
        _ => 0,
    }
}

/// What to do next about missing access: how the worse of the two statuses is
/// mended, and nothing when both grant access.
pub fn auth_remediation(reminders: AuthorizationStatus, events: AuthorizationStatus) -> (hint:
    Option<String>)
    ensures
        crate::text::opt_view(hint) == mend(worse(reminders, events)),
        hint is None <==> is_granted(reminders) && is_granted(events),
{
    let pick: AuthorizationStatus = if rank(reminders) >= rank(events) {
        reminders
    } else {
        events
    };
    match pick {
        AuthorizationStatus::NotDetermined => Some(MEND_NOT_DETERMINED.to_owned()),
        AuthorizationStatus::Denied => Some(MEND_DENIED.to_owned()),
        AuthorizationStatus::Restricted => Some(MEND_RESTRICTED.to_owned()),
        _ => None,
    }
}

/// The hint does not depend on which of the two entities has which status.
pub proof fn remediation_is_symmetric(a: AuthorizationStatus, b: AuthorizationStatus)
    ensures
        mend(worse(a, b)) == mend(worse(b, a)),
{
}

// ---------------------------------------------------------------------------
// Priority
// ---------------------------------------------------------------------------

/// The number that stands for a priority.
pub open spec fn priority_number(p: Priority) -> usize {
    match p {
        Priority::Unset => 0,
        Priority::Low => 9,
        Priority::Medium => 5,
        Priority::High => 1,
    }
}

/// The number for an optional priority.
pub open spec fn opt_priority_number(p: Option<Priority>) -> Option<usize> {
    match p {
        Some(q) => Some(priority_number(q)),
        None => None,
    }
}

/// The word for a priority by its number.
pub open spec fn priority_text(v: usize) -> Seq<char> {
    if 1 <= v <= 4 {
        "high"@
    } else if v == 5 {
        "medium"@
    } else if 6 <= v <= 9 {
        "low"@
    } else {
        "none"@
    }
}

/// The word by which a request names a priority.
pub open spec fn priority_name(p: Priority) -> Seq<char> {
    match p {
        Priority::Unset => "none"@,
        Priority::Low => "low"@,
        Priority::Medium => "medium"@,
        Priority::High => "high"@,
    }
}

impl Priority {
    /// The number that stands for a priority.
    pub fn to_usize(&self) -> (n: usize)
        ensures
            n == priority_number(*self),
    {
        match self {
            Priority::Unset => 0,
            Priority::Low => 9,
            Priority::Medium => 5,
            Priority::High => 1,
        }
    }

    /// The word for a priority by its number.
    pub fn label(v: usize) -> (w: &'static str)
        ensures
            w@ == priority_text(v),
    {
        if 1 <= v && v <= 4 {
            "high"
        } else if v == 5 {
            "medium"
        } else if 6 <= v && v <= 9 {
            "low"
        } else {
            "none"
        }
    }
}

/// The number for an optional priority.
pub fn priority_value(p: &Option<Priority>) -> (n: Option<usize>)
    ensures
        n == opt_priority_number(*p),
{
    match p {
        Some(q) => Some(q.to_usize()),
        None => None,
    }
}

/// A priority that a request sets is shown under the word that set it.
pub proof fn priority_round_trip(p: Priority)
    ensures
        priority_text(priority_number(p)) == priority_name(p),
{
}

// ---------------------------------------------------------------------------
// Colors
// ---------------------------------------------------------------------------

/// The palette's colors in its order.
pub open spec fn palette(i: int) -> CalendarColor {
    if i == 0 {
        CalendarColor::Red
    } else if i == 1 {
        CalendarColor::Orange
    } else if i == 2 {
        CalendarColor::Yellow
    } else if i == 3 {
        CalendarColor::Green
    } else if i == 4 {
        CalendarColor::Blue
    } else if i == 5 {
        CalendarColor::Purple
    } else if i == 6 {
        CalendarColor::Brown
    } else if i == 7 {
        CalendarColor::Pink
    } else {
        CalendarColor::Teal
    }
}

/// The word for a color.
pub open spec fn color_text(c: CalendarColor) -> Seq<char> {
    match c {
        CalendarColor::Red => "red"@,
        CalendarColor::Orange => "orange"@,
        CalendarColor::Yellow => "yellow"@,
        CalendarColor::Green => "green"@,
        CalendarColor::Blue => "blue"@,
        CalendarColor::Purple => "purple"@,
        CalendarColor::Brown => "brown"@,
        CalendarColor::Pink => "pink"@,
        CalendarColor::Teal => "teal"@,
    }
}

/// Red, green, blue and opacity of a color, in thousandths.
pub open spec fn color_rgba(c: CalendarColor) -> (u16, u16, u16, u16) {
    match c {
        CalendarColor::Red => (1000, 231, 188, 1000),
        CalendarColor::Orange => (1000, 584, 0, 1000),
        CalendarColor::Yellow => (1000, 800, 0, 1000),
        CalendarColor::Green => (298, 851, 392, 1000),
        CalendarColor::Blue => (0, 478, 1000, 1000),
        CalendarColor::Purple => (686, 322, 871, 1000),
        CalendarColor::Brown => (635, 518, 369, 1000),
        CalendarColor::Pink => (1000, 176, 333, 1000),
        CalendarColor::Teal => (353, 784, 980, 1000),
    }
}

/// `best` is the first of the least distances.
pub open spec fn nearest(distances: Seq<u64>, best: int) -> bool {
    &&& 0 <= best < distances.len()
    &&& forall|k: int| 0 <= k < distances.len() ==> distances[best] <= #[trigger] distances[k]
    &&& forall|k: int| 0 <= k < best ==> distances[best] < #[trigger] distances[k]
}

/// `word` is the word for the nearest color of the palette.
pub open spec fn names_nearest(distances: Seq<u64>, word: Seq<char>) -> bool {
    exists|best: int| #[trigger] nearest(distances, best) && word == color_text(palette(best))
}

impl CalendarColor {
    /// Red, green, blue and opacity of a color, in thousandths.
    pub fn to_rgba(&self) -> (rgba: (u16, u16, u16, u16))
        ensures
            rgba == color_rgba(*self),
    {
        match self {
            CalendarColor::Red => (1000, 231, 188, 1000),
            CalendarColor::Orange => (1000, 584, 0, 1000),
            CalendarColor::Yellow => (1000, 800, 0, 1000),
            CalendarColor::Green => (298, 851, 392, 1000),
            CalendarColor::Blue => (0, 478, 1000, 1000),
            CalendarColor::Purple => (686, 322, 871, 1000),
            CalendarColor::Brown => (635, 518, 369, 1000),
            CalendarColor::Pink => (1000, 176, 333, 1000),
            CalendarColor::Teal => (353, 784, 980, 1000),
        }
    }

    /// The colors of the palette in its order.
    pub fn all() -> (colors: [CalendarColor; 9])
        ensures
            forall|i: int| 0 <= i < 9 ==> #[trigger] colors@[i] == palette(i),
    {
        [
            CalendarColor::Red,
            CalendarColor::Orange,
            CalendarColor::Yellow,
            CalendarColor::Green,
            CalendarColor::Blue,
            CalendarColor::Purple,
            CalendarColor::Brown,
            CalendarColor::Pink,
            CalendarColor::Teal,
        ]
    }

    /// The word for a color.
    pub fn name(&self) -> (w: &'static str)
        ensures
            w@ == color_text(*self),
    {
        match self {
            CalendarColor::Red => "red",
            CalendarColor::Orange => "orange",
            CalendarColor::Yellow => "yellow",
            CalendarColor::Green => "green",
            CalendarColor::Blue => "blue",
            CalendarColor::Purple => "purple",
            CalendarColor::Brown => "brown",
            CalendarColor::Pink => "pink",
            CalendarColor::Teal => "teal",
        }
    }

    /// The word for the color of the palette that is nearest, given how far
    /// each is, in the palette's order. Of equally near ones the first counts.
    pub fn from_rgba(distances: &[u64; 9]) -> (w: &'static str)
        ensures
            names_nearest(distances@, w@),
    {
        let colors: [CalendarColor; 9] = CalendarColor::all();
        let mut best: usize = 0;
        let mut i: usize = 1;
        while i < 9
            invariant
                1 <= i <= 9,
                best < i,
                distances@.len() == 9,
                forall|k: int| 0 <= k < i ==> distances@[best as int] <= #[trigger] distances@[k],
                forall|k: int| 0 <= k < best ==> distances@[best as int] < #[trigger] distances@[k],
            decreases 9 - i,
        {
            if distances[i] < distances[best] {
                best = i;
            }
            i = i + 1;
        }
        assert(nearest(distances@, best as int));
        colors[best].name()
    }
}

/// There is one nearest color only.
pub proof fn nearest_is_unique(distances: Seq<u64>, a: int, b: int)
    requires
        nearest(distances, a),
        nearest(distances, b),
    ensures
        a == b,
{
    if a < b {
        assert(distances[b] < distances[a]);
    } else if b < a {
        assert(distances[a] < distances[b]);
    }
}

/// The square of the difference of two numbers.
pub open spec fn squared_gap(a: u16, b: u16) -> int {
    (a - b) * (a - b)
}

/// The squared distance of two colors, in millionths.
pub open spec fn color_distance(a: CalendarColor, b: CalendarColor) -> int {
    squared_gap(color_rgba(a).0, color_rgba(b).0) + squared_gap(color_rgba(a).1, color_rgba(b).1)
        + squared_gap(color_rgba(a).2, color_rgba(b).2)
}

/// A color at no distance is the nearest where every other lies at some
/// distance, and so the word for the nearest color is its word.
pub proof fn no_distance_is_nearest(distances: Seq<u64>, i: int, word: Seq<char>)
    requires
        0 <= i < distances.len(),
        distances[i] == 0,
        forall|k: int| 0 <= k < distances.len() && k != i ==> 0 < #[trigger] distances[k],
    ensures
        nearest(distances, i),
        names_nearest(distances, word) <==> word == color_text(palette(i)),
{
    assert(nearest(distances, i));
    if names_nearest(distances, word) {
        let best = choose|best: int| #[trigger]
            nearest(distances, best) && word == color_text(palette(best));
        nearest_is_unique(distances, best, i);
    }
}

/// A calendar that was given a color by name is shown under that name. Its
/// distance to a color of the palette may be measured in any way that gives
/// nothing for the same color and something for every other.
pub proof fn named_color_is_shown_under_its_name(
    c: CalendarColor,
    distances: Seq<u64>,
    word: Seq<char>,
)
    requires
        distances.len() == 9,
        forall|k: int|
            0 <= k < 9 ==> (#[trigger] distances[k] == 0 <==> color_distance(c, palette(k)) == 0),
        names_nearest(distances, word),
    ensures
        word == color_text(c),
{
    let i: int = match c {
        CalendarColor::Red => 0,
        CalendarColor::Orange => 1,
        CalendarColor::Yellow => 2,
        CalendarColor::Green => 3,
        CalendarColor::Blue => 4,
        CalendarColor::Purple => 5,
        CalendarColor::Brown => 6,
        CalendarColor::Pink => 7,
        CalendarColor::Teal => 8,
    };
    assert(palette(i) == c);
    assert(color_distance(c, c) == 0);
    assert forall|k: int| 0 <= k < 9 && k != i implies 0 < #[trigger] distances[k] by {
        lemma_distinct_colors(c, palette(k));
    }
    no_distance_is_nearest(distances, i, word);
}

proof fn lemma_distinct_colors(a: CalendarColor, b: CalendarColor)
    requires
        a != b,
    ensures
        0 < color_distance(a, b),
{
    lemma_square(color_rgba(a).0, color_rgba(b).0);
    lemma_square(color_rgba(a).1, color_rgba(b).1);
    lemma_square(color_rgba(a).2, color_rgba(b).2);
}

proof fn lemma_square(a: u16, b: u16)
    ensures
        squared_gap(a, b) >= 0,
        a != b ==> squared_gap(a, b) > 0,
{
    let d: int = a - b;
    assert(d * d >= 0) by (nonlinear_arith);
    if a != b {
        assert(d * d > 0) by (nonlinear_arith)
            requires
                d != 0,
        ;
    }
}

// ---------------------------------------------------------------------------
// Colors in hexadecimal
// ---------------------------------------------------------------------------

/// The value of a hexadecimal digit.
pub open spec fn hex_value(c: char) -> Option<u8> {
    if '0' <= c && c <= '9' {
        Some((c as int - '0' as int) as u8)
    } else if 'a' <= c && c <= 'f' {
        Some((c as int - 'a' as int + 10) as u8)
    } else if 'A' <= c && c <= 'F' {
        Some((c as int - 'A' as int + 10) as u8)
    } else {
        None
    }
}

/// The text is `#` and six hexadecimal digits.
pub open spec fn is_hex_color(s: Seq<char>) -> bool {
    &&& s.len() == 7
    &&& s[0] == '#'
    &&& forall|i: int| 1 <= i < 7 ==> hex_value(#[trigger] s[i]) is Some
}

/// The value of the two hexadecimal digits at a position.
pub open spec fn hex_pair(s: Seq<char>, at: int) -> int {
    hex_value(s[at])->0 * 16 + hex_value(s[at + 1])->0
}

fn digit_value(c: char) -> (value: Option<u8>)
    ensures
        value == hex_value(c),
        value matches Some(v) ==> v < 16,
{
    if '0' <= c && c <= '9' {
        Some((c as u32 - '0' as u32) as u8)
    } else if 'a' <= c && c <= 'f' {
        Some((c as u32 - 'a' as u32 + 10) as u8)
    } else if 'A' <= c && c <= 'F' {
        Some((c as u32 - 'A' as u32 + 10) as u8)
    } else {
        None
    }
}

fn pair_value(chars: &Vec<char>, at: usize) -> (value: Option<u8>)
    requires
        at + 1 < chars@.len(),
    ensures
        value is Some <==> hex_value(chars@[at as int]) is Some && hex_value(
            chars@[at + 1],
        ) is Some,
        value matches Some(v) ==> v == hex_pair(chars@, at as int),
{
    let len: usize = chars.len();
    assert(at + 1 < len);
    match (digit_value(chars[at]), digit_value(chars[at + 1])) {
        (Some(high), Some(low)) => Some(high * 16 + low),
        _ => None,
    }
}

/// Reads a color in the form `#RRGGBB`: red, green and blue.
pub fn parse_hex(s: &str) -> (r: Option<(u8, u8, u8)>)
    ensures
        r is Some <==> is_hex_color(s@),
        r matches Some((red, green, blue)) ==> red == hex_pair(s@, 1) && green == hex_pair(s@, 3)
            && blue == hex_pair(s@, 5),
{
    let chars: Vec<char> = chars_of(s);
    if chars.len() != 7 || chars[0] != '#' {
        return None;
    }
    match (pair_value(&chars, 1), pair_value(&chars, 3), pair_value(&chars, 5)) {
        (Some(red), Some(green), Some(blue)) => Some((red, green, blue)),
        _ => None,
    }
}

/// What is said of a text that is no color.
pub open spec fn bad_color(word: Seq<char>) -> Seq<char> {
    "invalid color '"@ + word
        + "'. Use red, orange, yellow, green, blue, purple, brown, pink, teal, or a hex color such as #FF0000."@
}

/// A word that names an availability is the word that is shown for it, and a
/// word that is shown for none names none.
pub proof fn availability_is_named_by_its_word(word: Seq<char>)
    ensures
        availability_named(word) matches Some(a) ==> availability_text(a) == word,
        availability_named(word) is None ==> forall|a: EventAvailability|
            #[trigger] availability_text(a) != word,
{
    if availability_named(word) is None {
        assert forall|a: EventAvailability| #[trigger] availability_text(a) != word by {
            availability_round_trip(a);
        }
    }
}

/// A word that names a frequency is the word that is shown for it, and a word
/// that is shown for none names none.
pub proof fn frequency_is_named_by_its_word(word: Seq<char>)
    ensures
        frequency_named(word) matches Some(f) ==> frequency_text(f) == word,
        frequency_named(word) is None ==> forall|f: RecurrenceFrequency|
            #[trigger] frequency_text(f) != word,
{
    if frequency_named(word) is None {
        assert forall|f: RecurrenceFrequency| #[trigger] frequency_text(f) != word by {
            frequency_round_trip(f);
        }
    }
}

/// Only the word "future" reaches later occurrences; without a word, or with
/// "this", one occurrence is meant, and no other word is a span.
pub proof fn spans_are_this_or_future(word: Option<Seq<char>>)
    ensures
        span_named(word) == Some(EventSpan::Future) <==> word == Some("future"@),
        span_named(word) == Some(EventSpan::This) <==> word is None || word == Some("this"@),
        span_named(word) is None <==> word is Some && word->0 != "this"@ && word->0 != "future"@,
{
    reveal_strlit("this");
    reveal_strlit("future");
    assert("this"@.len() != "future"@.len());
}

/// The availability is the one that a word of a request names, and absent
/// without a word.
pub open spec fn availability_is(
    word: Option<Seq<char>>,
    availability: Option<EventAvailability>,
) -> bool {
    match (word, availability) {
        (None, None) => true,
        (Some(w), Some(a)) => availability_text(a) == w,
        _ => false,
    }
}

/// The word of a request names no availability.
pub open spec fn is_no_availability(word: Option<Seq<char>>) -> bool {
    word is Some && forall|a: EventAvailability| #[trigger] availability_text(a) != word->0
}

/// The number is the one that stands for a priority, and absent without one.
pub open spec fn priority_is(priority: Option<Priority>, number: Option<usize>) -> bool {
    match priority {
        None => number is None,
        Some(Priority::Unset) => number == Some(0usize),
        Some(Priority::High) => number == Some(1usize),
        Some(Priority::Medium) => number == Some(5usize),
        Some(Priority::Low) => number == Some(9usize),
    }
}

/// What to do next is told for the worst of the two statuses: a denial before a
/// restriction, a restriction before a question not yet asked, and nothing
/// where both grant access.
pub proof fn the_worst_status_is_mended(a: AuthorizationStatus, b: AuthorizationStatus)
    ensures
        a is Denied || b is Denied ==> mend(worse(a, b)) == Some(MEND_DENIED@),
        !(a is Denied) && !(b is Denied) && (a is Restricted || b is Restricted) ==> mend(
            worse(a, b),
        ) == Some(MEND_RESTRICTED@),
        !(a is Denied) && !(b is Denied) && !(a is Restricted) && !(b is Restricted) && (
        a is NotDetermined || b is NotDetermined) ==> mend(worse(a, b)) == Some(
            MEND_NOT_DETERMINED@,
        ),
        (a is FullAccess || a is WriteOnly) && (b is FullAccess || b is WriteOnly) ==> mend(
            worse(a, b),
        ) is None,
{
}

/// Each refusal names the word that was refused.
pub proof fn refusals_name_the_word(word: Seq<char>)
    ensures
        contains_text(bad_availability(word), word),
        contains_text(bad_span(word), word),
        contains_text(bad_frequency(word), word),
        contains_text(bad_color(word), word),
{
    parts_are_held(
        "invalid availability '"@,
        word,
        "'. Use busy, free, tentative, unavailable, or not_supported."@,
    );
    parts_are_held("invalid span '"@, word, "'. Use \"this\" or \"future\"."@);
    parts_are_held(
        "Invalid frequency: '"@,
        word,
        "'. Use daily, weekly, monthly, or yearly."@,
    );
    parts_are_held(
        "invalid color '"@,
        word,
        "'. Use red, orange, yellow, green, blue, purple, brown, pink, teal, or a hex color such as #FF0000."@,
    );
}

} // verus!
