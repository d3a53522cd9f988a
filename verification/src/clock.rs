//! Points in time on the machine's clock, and the date formats that requests
//! use.
//!
//! Calendar arithmetic, date formats and the machine's time zone come from
//! `chrono`; this module holds its values as plain numbers.

use crate::text::chars_of;
use chrono::{DateTime, Datelike, FixedOffset, Local, NaiveDate, NaiveDateTime, NaiveTime, TimeDelta, TimeZone, Timelike};
use vstd::prelude::*;

verus! {

/// The first second that `chrono` can represent, in seconds since 1970.
pub const EARLIEST: i64 = -8_334_601_228_800;

/// The last second that `chrono` can represent, in seconds since 1970.
pub const LATEST: i64 = 8_210_266_876_799;

/// The day of 1970-01-01, where 0001-01-01 is day one.
pub const EPOCH_DAY: i64 = 719_163;

/// The first day that `chrono` can represent.
pub const FIRST_DAY: i32 = -95_746_129;

/// The last day that `chrono` can represent.
pub const LAST_DAY: i32 = 95_745_399;

pub const SECS_PER_DAY: i64 = 86_400;

/// A date with a time of day, to the minute.
pub const DATE_TIME: &'static str = "%Y-%m-%d %H:%M";

/// A date.
pub const DATE: &'static str = "%Y-%m-%d";

/// A time of day, to the minute.
pub const TIME: &'static str = "%H:%M";

/// What makes a date one with the time of day at which it starts.
pub const AT_MIDNIGHT: &'static str = " 00:00";

/// A date with a time of day, to the second.
pub const DATE_TIME_SECONDS: &'static str = "%Y-%m-%d %H:%M:%S";

/// A date as a heading: weekday, month by name, day and year.
pub const LONG_DATE: &'static str = "%A, %B %d, %Y";

/// Said of a wall-clock reading that the local zone has twice or not at all.
pub const INVALID_LOCAL: &'static str = "Invalid local datetime";

/// Said of a text that is no date.
pub const BAD_DATE: &'static str = "Invalid date format. Use 'YYYY-MM-DD' or 'YYYY-MM-DD HH:MM'";

/// Said of a text that is neither a date nor a time of day.
pub const BAD_MOMENT: &'static str = "Invalid date format. Use 'YYYY-MM-DD', 'YYYY-MM-DD HH:MM', or 'HH:MM' (uses today)";

/// `chrono` can represent this second.
pub open spec fn in_range(secs: int) -> bool {
    EARLIEST <= secs <= LATEST
}

/// A point in time with the offset that the local zone had there.
#[derive(Clone, Copy, PartialEq, Eq, Structural, Debug)]
pub struct LocalDateTime {
    secs: i64,
    nanos: u32,
    offset: i32,
}

impl LocalDateTime {
    /// The point lies in the range of `chrono`, on no leap second, and its
    /// offset is less than a day.
    #[verifier::type_invariant]
    pub closed spec fn valid(self) -> bool {
        &&& in_range(self.secs as int)
        &&& self.nanos < 1_000_000_000
        &&& -86_400 < self.offset < 86_400
    }

    /// Seconds since 1970 in UTC.
    pub closed spec fn unix_secs(self) -> i64 {
        self.secs
    }

    /// Nanoseconds within the second.
    pub closed spec fn sub_nanos(self) -> u32 {
        self.nanos
    }

    /// Seconds by which the local clock is ahead of UTC.
    pub closed spec fn utc_offset(self) -> i32 {
        self.offset
    }

    /// What the local clock shows: seconds since 1970 on the wall.
    pub open spec fn wall(self) -> int {
        self.unix_secs() + self.utc_offset()
    }

    /// The point `secs` seconds and `nanos` nanoseconds after 1970, on a clock
    /// that is `offset` seconds ahead of UTC.
    pub fn new(secs: i64, nanos: u32, offset: i32) -> (point: Option<LocalDateTime>)
        ensures
            point is Some <==> in_range(secs as int) && nanos < 1_000_000_000 && -86_400 < offset
                < 86_400,
            point matches Some(p) ==> p.unix_secs() == secs && p.sub_nanos() == nanos
                && p.utc_offset() == offset,
    {
        if EARLIEST <= secs && secs <= LATEST && nanos < 1_000_000_000 && -86_400 < offset && offset
            < 86_400 {
            Some(LocalDateTime { secs, nanos, offset })
        } else {
            None
        }
    }

    /// Seconds since 1970 in UTC.
    pub fn timestamp(&self) -> (secs: i64)
        ensures
            secs == self.unix_secs(),
            in_range(secs as int),
    {
        proof {
            use_type_invariant(&*self);
        }
        self.secs
    }

    /// Nanoseconds within the second.
    pub fn timestamp_subsec_nanos(&self) -> (nanos: u32)
        ensures
            nanos == self.sub_nanos(),
            nanos < 1_000_000_000,
    {
        proof {
            use_type_invariant(&*self);
        }
        self.nanos
    }

    /// Seconds by which the local clock is ahead of UTC.
    pub fn offset_seconds(&self) -> (offset: i32)
        ensures
            offset == self.utc_offset(),
            -86_400 < offset < 86_400,
    {
        proof {
            use_type_invariant(&*self);
        }
        self.offset
    }

    /// The point in RFC 3339.
    pub fn to_rfc3339(&self) -> (s: String)
        ensures
            s@ == rfc3339(self.unix_secs(), self.sub_nanos(), self.utc_offset()),
    {
        proof {
            use_type_invariant(&*self);
        }
        rfc3339_text(self)
    }

    /// The point in one of the formats of this module.
    pub fn format(&self, format: &str) -> (s: String)
        requires
            known_format(format@),
        ensures
            s@ == formatted(self.unix_secs(), self.sub_nanos(), self.utc_offset(), format@),
    {
        proof {
            use_type_invariant(&*self);
        }
        formatted_text(self, format)
    }

    /// The point `seconds` later, with the offset that the local zone has
    /// there.
    pub fn plus_seconds(&self, seconds: i64) -> (later: LocalDateTime)
        requires
            in_range(self.unix_secs() + seconds),
        ensures
            later.unix_secs() == self.unix_secs() + seconds,
            later.sub_nanos() == self.sub_nanos(),
            zone_offset(later),
    {
        proof {
            use_type_invariant(&*self);
        }
        let later: LocalDateTime = later_point(self, seconds);
        assert(call_ensures(later_point, (self, seconds), later));
        later
    }

    /// The point so many minutes later, unless it lies beyond the range of
    /// `chrono`.
    pub fn plus_minutes(&self, minutes: i64) -> (later: Option<LocalDateTime>)
        ensures
            match later {
                Some(p) => in_range(self.unix_secs() + minutes * 60) && minutes_after(
                    *self,
                    minutes,
                    p,
                ),
                None => !in_range(self.unix_secs() + minutes * 60),
            },
    {
        let at: i64 = self.timestamp();
        if minutes < -1_000_000_000_000 || minutes > 1_000_000_000_000 {
            return None;
        }
        let seconds: i64 = minutes * 60;
        if EARLIEST <= at + seconds && at + seconds <= LATEST {
            Some(self.plus_seconds(seconds))
        } else {
            None
        }
    }

    /// The point so many days of 24 hours later, unless it lies beyond the
    /// range of `chrono`.
    pub fn plus_days(&self, days: i64) -> (later: Option<LocalDateTime>)
        ensures
            match later {
                Some(p) => in_range(self.unix_secs() + days * SECS_PER_DAY) && days_after(
                    *self,
                    days,
                    p,
                ),
                None => !in_range(self.unix_secs() + days * SECS_PER_DAY),
            },
    {
        if days < -1_000_000_000 || days > 1_000_000_000 {
            proof {
                use_type_invariant(&*self);
            }
            return None;
        }
        self.plus_minutes(days * 1_440)
    }
}

/// `later` comes so many minutes after `point`, on the local clock.
pub open spec fn minutes_after(point: LocalDateTime, minutes: i64, later: LocalDateTime) -> bool {
    &&& later.unix_secs() == point.unix_secs() + minutes * 60
    &&& later.sub_nanos() == point.sub_nanos()
    &&& zone_offset(later)
}

/// `later` comes so many days of 24 hours after `point`, on the local clock.
pub open spec fn days_after(point: LocalDateTime, days: i64, later: LocalDateTime) -> bool {
    &&& later.unix_secs() == point.unix_secs() + days * SECS_PER_DAY
    &&& later.sub_nanos() == point.sub_nanos()
    &&& zone_offset(later)
}

// ---------------------------------------------------------------------------
// What the machine said
// ---------------------------------------------------------------------------

// What the zone and the clock of the machine say is no function of anything
// that the library knows. So it has no name; but that they said it can be
// stated: that the value is one that the call came back with.

/// The local zone was asked for a wall-clock reading and gave this answer: the
/// single point that shows it, or nothing where it shows twice or not at all.
pub closed spec fn zone_answers(wall: int, point: Option<LocalDateTime>) -> bool {
    in_range(wall) && call_ensures(local_point, (wall as i64,), point)
}

/// The machine's clock was read and showed this point.
pub closed spec fn clock_showed(point: LocalDateTime) -> bool {
    call_ensures(now, (), point)
}

/// The offset of the point is the one that the local zone gave for it.
pub closed spec fn zone_offset(point: LocalDateTime) -> bool {
    exists|from: &LocalDateTime, seconds: i64| #[trigger]
        call_ensures(later_point, (from, seconds), point)
}

/// Asks the local zone for a wall-clock reading.
fn ask_zone(wall: i64) -> (point: Option<LocalDateTime>)
    requires
        in_range(wall as int),
    ensures
        zone_answers(wall as int, point),
        point matches Some(p) ==> p.wall() == wall && p.sub_nanos() == 0,
{
    local_point(wall)
}

/// Reads the machine's clock.
pub(crate) fn read_clock() -> (point: LocalDateTime)
    ensures
        clock_showed(point),
        in_range(point.unix_secs() as int),
{
    let point: LocalDateTime = now();
    let at: i64 = point.timestamp();
    assert(in_range(at as int));
    point
}

// ---------------------------------------------------------------------------
// What chrono does
// ---------------------------------------------------------------------------

/// What `NaiveDateTime::parse_from_str` reads from a text in a format, in
/// seconds since 1970 on the wall.
pub uninterp spec fn parsed_datetime(text: Seq<char>, format: Seq<char>) -> Option<i64>;

/// What `NaiveDate::parse_from_str` reads from a text in a format, as a day
/// where 0001-01-01 is day one.
pub uninterp spec fn parsed_date(text: Seq<char>, format: Seq<char>) -> Option<i32>;

/// What `NaiveTime::parse_from_str` reads from a text in a format, in seconds
/// since midnight.
pub uninterp spec fn parsed_time(text: Seq<char>, format: Seq<char>) -> Option<u32>;

/// What `DateTime::parse_from_rfc3339` reads from a text, in seconds since 1970
/// in UTC and nanoseconds; a second of sixty has a billion of these and more.
pub uninterp spec fn parsed_stamp(text: Seq<char>) -> Option<(i64, u32)>;

/// What `DateTime::to_rfc3339` writes for a point in time at an offset.
pub uninterp spec fn rfc3339(secs: i64, nanos: u32, offset: i32) -> Seq<char>;

/// What `DateTime::format` writes for a point in time at an offset, in a
/// format.
pub uninterp spec fn formatted(secs: i64, nanos: u32, offset: i32, format: Seq<char>) -> Seq<char>;

/// A point to the minute, as `DateTime::format` writes it.
pub open spec fn minute_text(d: LocalDateTime) -> Seq<char> {
    formatted(d.unix_secs(), d.sub_nanos(), d.utc_offset(), DATE_TIME@)
}

/// The formats of this module, all of which `chrono` understands.
pub open spec fn known_format(format: Seq<char>) -> bool {
    ||| format == DATE_TIME@
    ||| format == DATE@
    ||| format == TIME@
    ||| format == DATE_TIME_SECONDS@
    ||| format == LONG_DATE@
}

/// Calls `chrono::NaiveDateTime::parse_from_str`. The result depends on the
/// text and the format alone, and a date and time lies in chrono's range.
#[verifier::external_body]
fn naive_datetime(text: &str, format: &str) -> (wall: Option<i64>)
    ensures
        wall == parsed_datetime(text@, format@),
        wall matches Some(w) ==> in_range(w as int),
{
    NaiveDateTime::parse_from_str(text, format).ok().map(|t| t.and_utc().timestamp())
}

/// Calls `chrono::NaiveDate::parse_from_str`. The result depends on the text
/// and the format alone, and a date lies in chrono's range. The parser takes the
/// items of a format one after the other and looks no further ahead: what it
/// reads as a date is too short for a date and time, and with midnight behind it
/// is read as that date at midnight.
#[verifier::external_body]
fn naive_date(text: &str, format: &str) -> (day: Option<i32>)
    ensures
        day == parsed_date(text@, format@),
        day matches Some(d) ==> FIRST_DAY <= d <= LAST_DAY,
        day matches Some(d) ==> format@ == DATE@ ==> starts_at_midnight(text@, d),
{
    NaiveDate::parse_from_str(text, format).ok().map(|d| d.num_days_from_ce())
}

/// Calls `chrono::NaiveTime::parse_from_str`. The result depends on the text
/// and the format alone, and a time of day is less than a day.
#[verifier::external_body]
fn naive_time(text: &str, format: &str) -> (time: Option<u32>)
    ensures
        time == parsed_time(text@, format@),
        time matches Some(t) ==> t < 86_400,
{
    NaiveTime::parse_from_str(text, format).ok().map(|t| t.num_seconds_from_midnight())
}

/// Calls `chrono::DateTime::parse_from_rfc3339`. The result depends on the text
/// alone, and a timestamp lies in chrono's range.
#[verifier::external_body]
fn stamp(text: &str) -> (point: Option<(i64, u32)>)
    ensures
        point == parsed_stamp(text@),
        point matches Some(p) ==> in_range(p.0 as int),
{
    DateTime::parse_from_rfc3339(text).ok().map(|t| (t.timestamp(), t.timestamp_subsec_nanos()))
}

/// Calls `from_local_datetime` of `chrono::Local` and keeps a single answer.
/// Whether there is one, and its offset, rest on the machine's time zone; the
/// answer shows the wall-clock reading that was asked for.
#[verifier::external_body]
fn local_point(wall: i64) -> (point: Option<LocalDateTime>)
    requires
        in_range(wall as int),
    ensures
        point matches Some(p) ==> p.wall() == wall && p.sub_nanos() == 0,
{
    let naive = DateTime::from_timestamp(wall, 0).unwrap().naive_utc();
    Local.from_local_datetime(&naive).single().map(|t| LocalDateTime {
        secs: t.timestamp(),
        nanos: t.timestamp_subsec_nanos(),
        offset: t.offset().local_minus_utc(),
    })
}

/// Calls `chrono::Local::now`. Nothing is promised of the machine's clock.
#[verifier::external_body]
pub(crate) fn now() -> LocalDateTime {
    let t = Local::now();
    LocalDateTime {
        secs: t.timestamp(),
        nanos: t.timestamp_subsec_nanos(),
        offset: t.offset().local_minus_utc(),
    }
}

/// Adds a `chrono::TimeDelta` to a `DateTime<Local>`. The point moves by that
/// many seconds; its offset rests on the machine's time zone.
#[verifier::external_body]
fn later_point(point: &LocalDateTime, seconds: i64) -> (later: LocalDateTime)
    requires
        point.valid(),
        in_range(point.unix_secs() + seconds),
    ensures
        later.unix_secs() == point.unix_secs() + seconds,
        later.sub_nanos() == point.sub_nanos(),
{
    let utc = DateTime::from_timestamp(point.secs, point.nanos).unwrap().naive_utc();
    let t = Local.from_utc_datetime(&utc) + TimeDelta::seconds(seconds);
    LocalDateTime {
        secs: t.timestamp(),
        nanos: t.timestamp_subsec_nanos(),
        offset: t.offset().local_minus_utc(),
    }
}

/// Calls `chrono::DateTime::to_rfc3339`, which depends on the point and its
/// offset alone.
#[verifier::external_body]
fn rfc3339_text(point: &LocalDateTime) -> (s: String)
    requires
        point.valid(),
    ensures
        s@ == rfc3339(point.unix_secs(), point.sub_nanos(), point.utc_offset()),
{
    let zone = FixedOffset::east_opt(point.offset).unwrap();
    zone.timestamp_opt(point.secs, point.nanos).unwrap().to_rfc3339()
}

/// Calls `chrono::DateTime::format`, which depends on the point, its offset
/// and the format alone.
#[verifier::external_body]
fn formatted_text(point: &LocalDateTime, format: &str) -> (s: String)
    requires
        point.valid(),
        known_format(format@),
    ensures
        s@ == formatted(point.unix_secs(), point.sub_nanos(), point.utc_offset(), format@),
{
    let zone = FixedOffset::east_opt(point.offset).unwrap();
    zone.timestamp_opt(point.secs, point.nanos).unwrap().format(format).to_string()
}

// ---------------------------------------------------------------------------
// Reading dates
// ---------------------------------------------------------------------------

/// Midnight of a day, in seconds since 1970 on the wall.
pub open spec fn midnight(day: int) -> int {
    (day - EPOCH_DAY) * SECS_PER_DAY
}

/// The text is no date and time, and with midnight behind it is the midnight of
/// the day.
pub open spec fn starts_at_midnight(text: Seq<char>, day: i32) -> bool {
    &&& parsed_datetime(text, DATE_TIME@) is None
    &&& parsed_datetime(text + AT_MIDNIGHT@, DATE_TIME@) is Some
    &&& parsed_datetime(text + AT_MIDNIGHT@, DATE_TIME@)->0 == midnight(day as int)
}

/// A date and time goes before a date, which stands for its midnight.
pub open spec fn first_reading(datetime: Option<i64>, date: Option<i32>) -> Option<int> {
    match (datetime, date) {
        (Some(wall), _) => Some(wall as int),
        (None, Some(day)) => Some(midnight(day as int)),
        (None, None) => None,
    }
}

/// The wall-clock reading that a text stands for: a date and time, or the
/// midnight of a date.
pub open spec fn wall_reading(text: Seq<char>) -> Option<int> {
    first_reading(parsed_datetime(text, DATE_TIME@), parsed_date(text, DATE@))
}

/// What comes of a wall-clock reading: the point that the local zone answered,
/// or the word that there is no single one where it answered none.
pub open spec fn on_wall(wall: int, outcome: Result<LocalDateTime, String>) -> bool {
    match outcome {
        Ok(p) => zone_answers(wall, Some(p)) && p.wall() == wall && p.sub_nanos() == 0,
        Err(m) => zone_answers(wall, None) && m@ == INVALID_LOCAL@,
    }
}

/// What may come of reading a date.
pub open spec fn datetime_outcome(text: Seq<char>, outcome: Result<LocalDateTime, String>) -> bool {
    match wall_reading(text) {
        Some(wall) => on_wall(wall, outcome),
        None => outcome is Err && outcome->Err_0@ == BAD_DATE@,
    }
}

/// The reading of a time of day on the date that a clock shows.
pub open spec fn wall_on_day(now: LocalDateTime, time: u32) -> int {
    midnight(now.wall() / (SECS_PER_DAY as int) + EPOCH_DAY) + time
}

/// What comes of a time of day on the date that a clock shows.
pub open spec fn on_day_of(
    now: LocalDateTime,
    time: u32,
    outcome: Result<LocalDateTime, String>,
) -> bool {
    if in_range(wall_on_day(now, time)) {
        on_wall(wall_on_day(now, time), outcome)
    } else {
        outcome is Err && outcome->Err_0@ == INVALID_LOCAL@
    }
}

/// What may come of reading a time of day on today's date, the one that the
/// machine's clock showed.
pub open spec fn time_outcome(text: Seq<char>, outcome: Result<LocalDateTime, String>) -> bool {
    match parsed_time(text, TIME@) {
        Some(time) => exists|now: LocalDateTime| #[trigger]
            clock_showed(now) && on_day_of(now, time, outcome),
        None => outcome is Err && outcome->Err_0@ == BAD_MOMENT@,
    }
}

/// What may come of reading a date or a time of day: what comes of the date,
/// and only where that gives no point, what comes of the time of day.
pub open spec fn moment_outcome(text: Seq<char>, outcome: Result<LocalDateTime, String>) -> bool {
    exists|full: Result<LocalDateTime, String>| #[trigger]
        datetime_outcome(text, full) && match full {
            Ok(_) => outcome == full,
            Err(_) => time_outcome(text, outcome),
        }
}

/// The character that stands at a position of `YYYY-MM-DDTHH:MM:SS±HH:MM`.
pub open spec fn fits_stamp(i: int, c: char) -> bool {
    if i == 4 || i == 7 {
        c == '-'
    } else if i == 10 {
        c == 'T'
    } else if i == 13 || i == 16 || i == 22 {
        c == ':'
    } else if i == 19 {
        c == '+' || c == '-'
    } else {
        '0' <= c && c <= '9'
    }
}

/// The text has the form `YYYY-MM-DDTHH:MM:SS±HH:MM`.
pub open spec fn is_stamp(text: Seq<char>) -> bool {
    &&& text.len() == 25
    &&& forall|i: int| 0 <= i < 25 ==> fits_stamp(i, #[trigger] text[i])
}

/// What may come of reading a date or a timestamp: a timestamp of that form is
/// taken where the text is no date, and stands for one point whatever the local
/// zone.
pub open spec fn stamp_outcome(text: Seq<char>, outcome: Result<LocalDateTime, String>) -> bool {
    match (wall_reading(text), parsed_stamp(text)) {
        (Some(wall), _) => on_wall(wall, outcome),
        (None, Some((secs, nanos))) if is_stamp(text) && nanos < 1_000_000_000 => outcome is Ok
            && outcome->Ok_0.unix_secs() == secs && outcome->Ok_0.sub_nanos() == nanos
            && zone_offset(outcome->Ok_0),
        _ => outcome is Err && outcome->Err_0@ == BAD_DATE@,
    }
}

/// The wall-clock reading of a date and time, or else of a date.
pub fn choose_wall(datetime: Option<i64>, date: Option<i32>) -> (wall: Option<i64>)
    requires
        datetime is Some ==> in_range(datetime->0 as int),
        date is Some ==> FIRST_DAY <= date->0 <= LAST_DAY,
    ensures
        match wall {
            Some(w) => first_reading(datetime, date) == Some(w as int) && in_range(w as int),
            None => first_reading(datetime, date) is None,
        },
{
    match (datetime, date) {
        (Some(w), _) => Some(w),
        (None, Some(day)) => Some((day as i64 - EPOCH_DAY) * SECS_PER_DAY),
        (None, None) => None,
    }
}

/// The wall-clock reading that a text stands for. A date alone and the date with
/// 00:00 behind it stand for the same reading.
pub fn read_wall(text: &str) -> (wall: Option<i64>)
    ensures
        parsed_date(text@, DATE@) matches Some(day) ==> wall_reading(text@) == Some(
            midnight(day as int),
        ) && wall_reading(text@ + AT_MIDNIGHT@) == wall_reading(text@),
        match wall {
            Some(w) => wall_reading(text@) == Some(w as int) && in_range(w as int),
            None => wall_reading(text@) is None,
        },
{
    choose_wall(naive_datetime(text, DATE_TIME), naive_date(text, DATE))
}

/// Takes the local zone's answer for a reading.
pub fn settle(point: Option<LocalDateTime>) -> (outcome: Result<LocalDateTime, String>)
    ensures
        match point {
            Some(p) => outcome == Ok::<LocalDateTime, String>(p),
            None => outcome is Err && outcome->Err_0@ == INVALID_LOCAL@,
        },
{
    match point {
        Some(p) => Ok(p),
        None => Err(INVALID_LOCAL.to_owned()),
    }
}

/// Reads a date in the form `YYYY-MM-DD` or `YYYY-MM-DD HH:MM`. What comes of a
/// date alone is what comes of the date with 00:00 behind it.
pub fn parse_datetime(text: &str) -> (outcome: Result<LocalDateTime, String>)
    ensures
        datetime_outcome(text@, outcome),
        parsed_date(text@, DATE@) is Some ==> wall_reading(text@ + AT_MIDNIGHT@) == wall_reading(
            text@,
        ) && datetime_outcome(text@ + AT_MIDNIGHT@, outcome),
{
    match read_wall(text) {
        Some(wall) => settle(ask_zone(wall)),
        None => Err(BAD_DATE.to_owned()),
    }
}

/// What a text is as a date on the local clock.
#[derive(Clone, Copy, PartialEq, Eq, Structural, Debug)]
pub enum DateRead {
    /// A date, at this point.
    Point(LocalDateTime),
    /// A date that the local clock shows twice or not at all.
    NoSinglePoint,
    /// No date.
    NotADate,
}

/// What a text may be as a date on the local clock.
pub open spec fn date_read(text: Seq<char>, read: DateRead) -> bool {
    match wall_reading(text) {
        Some(wall) => match read {
            DateRead::Point(p) => zone_answers(wall, Some(p)) && p.wall() == wall && p.sub_nanos()
                == 0,
            DateRead::NoSinglePoint => zone_answers(wall, None),
            DateRead::NotADate => false,
        },
        None => read == DateRead::NotADate,
    }
}

/// Reads a date on the local clock.
pub fn read_local(text: &str) -> (read: DateRead)
    ensures
        date_read(text@, read),
{
    match read_wall(text) {
        Some(wall) => match ask_zone(wall) {
            Some(p) => DateRead::Point(p),
            None => DateRead::NoSinglePoint,
        },
        None => DateRead::NotADate,
    }
}

/// The reading of a time of day on the date that the local clock shows.
pub fn wall_today(now: &LocalDateTime, time: u32) -> (wall: i64)
    ensures
        wall == wall_on_day(*now, time),
{
    let shown: i64 = now.timestamp() + now.offset_seconds() as i64;
    // counted from a day long before the first, so that the division is one of
    // numbers that are not negative
    let since: u64 = (shown + 100_000_000 * SECS_PER_DAY) as u64;
    let day: i64 = (since / SECS_PER_DAY as u64) as i64 - 100_000_000;
    day * SECS_PER_DAY + time as i64
}

/// Takes what came of reading the full date, and else what came of reading the
/// time of day.
pub fn choose_moment(
    full: Result<LocalDateTime, String>,
    timed: Option<Result<LocalDateTime, String>>,
) -> (outcome: Result<LocalDateTime, String>)
    ensures
        match (full, timed) {
            (Ok(p), _) => outcome == full,
            (Err(_), Some(r)) => outcome == r,
            (Err(_), None) => outcome is Err && outcome->Err_0@ == BAD_MOMENT@,
        },
{
    match full {
        Ok(p) => Ok(p),
        Err(_) => match timed {
            Some(r) => r,
            None => Err(BAD_MOMENT.to_owned()),
        },
    }
}

/// Reads a date, or a time of day `HH:MM`, for which today's date is taken.
pub fn parse_datetime_or_time(text: &str) -> (outcome: Result<LocalDateTime, String>)
    ensures
        moment_outcome(text@, outcome),
{
    let full: Result<LocalDateTime, String> = parse_datetime(text);
    assert(datetime_outcome(text@, full));
    let timed: Option<Result<LocalDateTime, String>> = match naive_time(text, TIME) {
        Some(time) => {
            let shown: LocalDateTime = read_clock();
            let wall: i64 = wall_today(&shown, time);
            let point: Option<LocalDateTime> = if EARLIEST <= wall && wall <= LATEST {
                ask_zone(wall)
            } else {
                None
            };
            let r: Result<LocalDateTime, String> = settle(point);
            assert(on_day_of(shown, time, r));
            assert(time_outcome(text@, r));
            Some(r)
        },
        None => None,
    };
    choose_moment(full, timed)
}

/// Takes a timestamp, in seconds since 1970 in UTC and nanoseconds. A second of
/// sixty is not taken.
pub fn settle_stamp(stamped: Option<(i64, u32)>) -> (outcome: Result<LocalDateTime, String>)
    ensures
        match stamped {
            Some((secs, nanos)) if in_range(secs as int) && nanos < 1_000_000_000 => outcome is Ok
                && outcome->Ok_0.unix_secs() == secs && outcome->Ok_0.sub_nanos() == nanos
                && zone_offset(outcome->Ok_0),
            _ => outcome is Err && outcome->Err_0@ == BAD_DATE@,
        },
{
    let point: Option<LocalDateTime> = match stamped {
        Some((secs, nanos)) => LocalDateTime::new(secs, nanos, 0),
        None => None,
    };
    match point {
        Some(p) => Ok(p.plus_seconds(0)),
        None => Err(BAD_DATE.to_owned()),
    }
}

/// Whether a text has the form `YYYY-MM-DDTHH:MM:SS±HH:MM`.
pub fn has_stamp_form(text: &str) -> (fits: bool)
    ensures
        fits == is_stamp(text@),
{
    let chars: Vec<char> = chars_of(text);
    if chars.len() != 25 {
        return false;
    }
    let mut i: usize = 0;
    while i < 25
        invariant
            i <= 25,
            chars@ == text@,
            chars@.len() == 25,
            forall|k: int| 0 <= k < i ==> fits_stamp(k, #[trigger] text@[k]),
        decreases 25 - i,
    {
        let c: char = chars[i];
        let fits: bool = if i == 4 || i == 7 {
            c == '-'
        } else if i == 10 {
            c == 'T'
        } else if i == 13 || i == 16 || i == 22 {
            c == ':'
        } else if i == 19 {
            c == '+' || c == '-'
        } else {
            '0' <= c && c <= '9'
        };
        if !fits {
            assert(!fits_stamp(i as int, text@[i as int]));
            return false;
        }
        i = i + 1;
    }
    true
}

/// Reads a date, or a timestamp in the form `YYYY-MM-DDTHH:MM:SS±HH:MM`.
pub fn parse_datetime_or_stamp(text: &str) -> (outcome: Result<LocalDateTime, String>)
    ensures
        stamp_outcome(text@, outcome),
{
    match read_wall(text) {
        Some(wall) => settle(ask_zone(wall)),
        None => if has_stamp_form(text) {
            settle_stamp(stamp(text))
        } else {
            Err(BAD_DATE.to_owned())
        },
    }
}

// ---------------------------------------------------------------------------
// What dates mean
// ---------------------------------------------------------------------------

/// The text is a date, with a time of day or without, and `p` is the one point
/// at which the local clock shows it.
pub open spec fn stands_for(text: Seq<char>, p: LocalDateTime) -> bool {
    &&& wall_reading(text) == Some(p.wall())
    &&& zone_answers(p.wall(), Some(p))
    &&& p.sub_nanos() == 0
}

/// The text is no date, or one that the local clock shows twice or not at all.
pub open spec fn has_no_point(text: Seq<char>) -> bool {
    wall_reading(text) is None || zone_answers(wall_reading(text)->0, None)
}

/// The text is a time of day, and `p` is that time on the date that the local
/// clock showed when it was read.
pub open spec fn stands_for_today(text: Seq<char>, p: LocalDateTime) -> bool {
    exists|now: LocalDateTime| #[trigger]
        clock_showed(now) && {
            &&& parsed_time(text, TIME@) is Some
            &&& p.wall() == now.wall() - now.wall() % 86_400 + parsed_time(text, TIME@)->0
            &&& zone_answers(p.wall(), Some(p))
            &&& p.sub_nanos() == 0
        }
}

/// The text is no time of day, or one that the local clock does not show once
/// on the date that it showed when the text was read.
pub open spec fn has_no_point_today(text: Seq<char>) -> bool {
    parsed_time(text, TIME@) is None || exists|now: LocalDateTime| #[trigger]
        clock_showed(now) && {
            let wall = now.wall() - now.wall() % 86_400 + parsed_time(text, TIME@)->0;
            !in_range(wall) || zone_answers(wall, None)
        }
}

/// The text is a timestamp, and `p` is that point on the local clock.
pub open spec fn is_stamp_of(text: Seq<char>, p: LocalDateTime) -> bool {
    &&& is_stamp(text)
    &&& parsed_stamp(text) == Some((p.unix_secs(), p.sub_nanos()))
    &&& zone_offset(p)
}

/// A date is read as the point at which the local clock shows it, and refused
/// only where there is no such point or more than one.
pub proof fn dates_are_read_where_the_clock_shows_them(
    text: Seq<char>,
    outcome: Result<LocalDateTime, String>,
)
    requires
        datetime_outcome(text, outcome),
    ensures
        outcome matches Ok(p) ==> stands_for(text, p),
        outcome is Err ==> has_no_point(text),
{
}

proof fn lemma_midnight_of(now: LocalDateTime, time: u32)
    ensures
        wall_on_day(now, time) == now.wall() - now.wall() % 86_400 + time,
{
}

/// A time of day is read on the date that the clock showed at that moment,
/// where the text is no date with a point of its own. It is refused only where
/// neither has a point.
pub proof fn times_of_day_are_todays(text: Seq<char>, outcome: Result<LocalDateTime, String>)
    requires
        moment_outcome(text, outcome),
    ensures
        outcome matches Ok(p) ==> stands_for(text, p) || has_no_point(text) && stands_for_today(
            text,
            p,
        ),
        outcome is Err ==> has_no_point(text) && has_no_point_today(text),
{
    let full = choose|full: Result<LocalDateTime, String>| #[trigger]
        datetime_outcome(text, full) && match full {
            Ok(_) => outcome == full,
            Err(_) => time_outcome(text, outcome),
        };
    if full is Err && parsed_time(text, TIME@) is Some {
        let time = parsed_time(text, TIME@)->0;
        let now = choose|now: LocalDateTime| #[trigger]
            clock_showed(now) && on_day_of(now, time, outcome);
        lemma_midnight_of(now, time);
        assert(clock_showed(now));
    }
}

/// A timestamp is the point that it names, whatever the local zone. It is
/// looked at only where the text is no date.
pub proof fn timestamps_are_the_points_they_name(
    text: Seq<char>,
    outcome: Result<LocalDateTime, String>,
)
    requires
        stamp_outcome(text, outcome),
    ensures
        outcome matches Ok(p) ==> stands_for(text, p) || wall_reading(text) is None
            && is_stamp_of(text, p),
        outcome is Err ==> has_no_point(text) && (wall_reading(text) is Some || !is_stamp(text)
            || parsed_stamp(text) is None || (parsed_stamp(text)->0).1 >= 1_000_000_000),
{
}

/// A date of a command is the point at which the local clock shows it, and it
/// has none only where there is no such point or more than one.
pub proof fn command_dates_are_read_where_the_clock_shows_them(text: Seq<char>, read: DateRead)
    requires
        date_read(text, read),
    ensures
        read matches DateRead::Point(p) ==> stands_for(text, p),
        !(read is Point) ==> has_no_point(text),
        read is NotADate <==> wall_reading(text) is None,
{
}

// ---------------------------------------------------------------------------
// What the machine said is what the calls came back with
// ---------------------------------------------------------------------------

/// A point that the local zone answers shows the reading that was asked for.
pub proof fn the_zone_answers_what_was_asked(wall: int, p: LocalDateTime)
    requires
        zone_answers(wall, Some(p)),
    ensures
        in_range(wall),
        p.wall() == wall,
        p.sub_nanos() == 0,
{
}

/// Nothing is an answer of the zone, a reading of the clock or a local offset
/// but what a call of `chrono` came back with.
proof fn the_machine_was_asked(
    wall: int,
    answer: Option<LocalDateTime>,
    now_shown: LocalDateTime,
    point: LocalDateTime,
)
    ensures
        zone_answers(wall, answer) ==> call_ensures(local_point, (wall as i64,), answer),
        clock_showed(now_shown) ==> call_ensures(now, (), now_shown),
        zone_offset(point) ==> exists|from: &LocalDateTime, seconds: i64| #[trigger]
            call_ensures(later_point, (from, seconds), point),
{
}

/// A text that is a date and time is read as that, one that is a date alone as
/// the start of the day, and one that is neither is no reading. Two days that
/// follow one another start a day apart.
pub proof fn readings_are_what_is_written(text: Seq<char>)
    ensures
        parsed_datetime(text, "%Y-%m-%d %H:%M"@) matches Some(wall) ==> wall_reading(text) == Some(
            wall as int,
        ),
        parsed_datetime(text, "%Y-%m-%d %H:%M"@) is None ==> (wall_reading(text) is Some
            <==> parsed_date(text, "%Y-%m-%d"@) is Some),
        parsed_datetime(text, "%Y-%m-%d %H:%M"@) is None ==> (parsed_date(text, "%Y-%m-%d"@)
            matches Some(day) ==> wall_reading(text) == Some((day - 719_163) * 86_400)),
{
}

} // verus!
