//! The dates that requests carry, and texts that clear a field when empty.

use crate::clock::{dates_are_read_where_the_clock_shows_them, datetime_outcome, has_no_point, has_no_point_today, is_stamp, is_stamp_of, moment_outcome, parsed_stamp, stands_for, stands_for_today, times_of_day_are_todays, timestamps_are_the_points_they_name, wall_reading, parse_datetime, parse_datetime_or_stamp, parse_datetime_or_time, stamp_outcome, LocalDateTime};
use crate::error::{invalid, mcp_invalid_because, McpError};
use vstd::prelude::*;

verus! {

/// How a date is read.
#[derive(Clone, Copy, PartialEq, Eq, Structural, Debug)]
pub enum Reading {
    /// A date, with or without a time of day.
    Date,
    /// A date, or a time of day on today's date.
    Moment,
    /// A date, or a timestamp.
    Stamp,
}

/// What may come of reading a date.
pub open spec fn reading_outcome(
    how: Reading,
    text: Seq<char>,
    o: Result<LocalDateTime, String>,
) -> bool {
    match how {
        Reading::Date => datetime_outcome(text, o),
        Reading::Moment => moment_outcome(text, o),
        Reading::Stamp => stamp_outcome(text, o),
    }
}

/// Reads a date.
pub fn read_date(how: Reading, text: &str) -> (o: Result<LocalDateTime, String>)
    ensures
        reading_outcome(how, text@, o),
{
    match how {
        Reading::Date => parse_datetime(text),
        Reading::Moment => parse_datetime_or_time(text),
        Reading::Stamp => parse_datetime_or_stamp(text),
    }
}

// ---------------------------------------------------------------------------
// Dates that may be absent
// ---------------------------------------------------------------------------

/// What may come of reading a date that may be absent.
pub open spec fn opt_outcome(
    how: Reading,
    text: Option<String>,
    o: Option<Result<LocalDateTime, String>>,
) -> bool {
    match (text, o) {
        (None, None) => true,
        (Some(t), Some(r)) => reading_outcome(how, t@, r),
        _ => false,
    }
}

/// Reads a date that may be absent.
pub fn read_opt(how: Reading, text: &Option<String>) -> (o: Option<Result<LocalDateTime, String>>)
    ensures
        opt_outcome(how, *text, o),
{
    match text {
        Some(t) => Some(read_date(how, t.as_str())),
        None => None,
    }
}

/// What a request gets from a date that may be absent: nothing, the date, or
/// an error that starts with `lead`.
pub open spec fn date_given(
    lead: Seq<char>,
    o: Option<Result<LocalDateTime, String>>,
    r: Result<Option<LocalDateTime>, McpError>,
) -> bool {
    match o {
        None => r == Ok::<Option<LocalDateTime>, McpError>(None),
        Some(Ok(p)) => r == Ok::<Option<LocalDateTime>, McpError>(Some(p)),
        Some(Err(m)) => r is Err && invalid(r->Err_0, lead + m@),
    }
}

/// Takes what came of reading a date that may be absent.
pub fn given_date(lead: &str, o: Option<Result<LocalDateTime, String>>) -> (r: Result<
    Option<LocalDateTime>,
    McpError,
>)
    ensures
        date_given(lead@, o, r),
{
    match o {
        None => Ok(None),
        Some(Ok(p)) => Ok(Some(p)),
        Some(Err(m)) => Err(mcp_invalid_because(lead, m.as_str())),
    }
}

// ---------------------------------------------------------------------------
// Texts and dates that clear a field when empty
// ---------------------------------------------------------------------------

/// The change that a text asks for: absent leaves the field as it is, empty
/// clears it, anything else sets it.
pub open spec fn patch_of(s: Option<String>) -> Option<Option<String>> {
    match s {
        None => None,
        Some(t) => if t@.len() == 0 {
            Some(None)
        } else {
            Some(Some(t))
        },
    }
}

/// The change that a text asks for.
pub fn opt_patch(s: Option<String>) -> (p: Option<Option<String>>)
    ensures
        p == patch_of(s),
{
    match s {
        None => None,
        Some(t) => if t.as_str().is_empty() {
            Some(None)
        } else {
            Some(Some(t))
        },
    }
}

/// A text, unless it is empty.
pub open spec fn unless_empty(s: Option<String>) -> Option<String> {
    match s {
        Some(t) if t@.len() > 0 => Some(t),
        _ => None,
    }
}

/// A text, unless it is empty.
pub fn drop_empty(s: Option<String>) -> (r: Option<String>)
    ensures
        r == unless_empty(s),
{
    match s {
        Some(t) => if t.as_str().is_empty() {
            None
        } else {
            Some(t)
        },
        None => None,
    }
}

/// A text that is absent changes nothing, an empty one clears, and any other
/// one sets exactly itself.
pub proof fn patch_leaves_clears_or_sets(s: Option<String>)
    ensures
        patch_of(s) is None <==> s is None,
        patch_of(s) == Some(None::<String>) <==> s is Some && s->0@.len() == 0,
        s is Some && s->0@.len() > 0 ==> patch_of(s) == Some(s),
{
}

/// What may come of reading a date that clears a field when empty.
pub open spec fn patch_outcome(
    how: Reading,
    text: Option<String>,
    o: Option<Option<Result<LocalDateTime, String>>>,
) -> bool {
    match (text, o) {
        (None, None) => true,
        (Some(t), Some(None)) => t@.len() == 0,
        (Some(t), Some(Some(r))) => t@.len() > 0 && reading_outcome(how, t@, r),
        _ => false,
    }
}

/// Reads a date that clears a field when empty.
pub fn read_patch(how: Reading, text: &Option<String>) -> (o: Option<
    Option<Result<LocalDateTime, String>>,
>)
    ensures
        patch_outcome(how, *text, o),
{
    match text {
        None => None,
        Some(t) => if t.as_str().is_empty() {
            Some(None)
        } else {
            Some(Some(read_date(how, t.as_str())))
        },
    }
}

/// The change that a request gets from a date that clears a field when empty,
/// or an error that starts with `lead`.
pub open spec fn patch_given(
    lead: Seq<char>,
    o: Option<Option<Result<LocalDateTime, String>>>,
    r: Result<Option<Option<LocalDateTime>>, McpError>,
) -> bool {
    match o {
        None => r == Ok::<Option<Option<LocalDateTime>>, McpError>(None),
        Some(None) => r == Ok::<Option<Option<LocalDateTime>>, McpError>(Some(None)),
        Some(Some(Ok(p))) => r == Ok::<Option<Option<LocalDateTime>>, McpError>(Some(Some(p))),
        Some(Some(Err(m))) => r is Err && invalid(r->Err_0, lead + m@),
    }
}

/// Takes what came of reading a date that clears a field when empty.
pub fn given_patch(lead: &str, o: Option<Option<Result<LocalDateTime, String>>>) -> (r: Result<
    Option<Option<LocalDateTime>>,
    McpError,
>)
    ensures
        patch_given(lead@, o, r),
{
    match o {
        None => Ok(None),
        Some(None) => Ok(Some(None)),
        Some(Some(Ok(p))) => Ok(Some(Some(p))),
        Some(Some(Err(m))) => Err(mcp_invalid_because(lead, m.as_str())),
    }
}

// ---------------------------------------------------------------------------
// What dates and texts mean in a request
// ---------------------------------------------------------------------------

/// `p` is the point that a text means.
pub open spec fn means(how: Reading, text: Seq<char>, p: LocalDateTime) -> bool {
    ||| stands_for(text, p)
    ||| how is Moment && stands_for_today(text, p)
    ||| how is Stamp && is_stamp_of(text, p)
}

/// A text means no point.
pub open spec fn means_nothing(how: Reading, text: Seq<char>) -> bool {
    &&& has_no_point(text)
    &&& how is Moment ==> has_no_point_today(text)
    &&& how is Stamp ==> wall_reading(text) is Some || !is_stamp(text) || parsed_stamp(text) is None
        || (parsed_stamp(text)->0).1 >= 1_000_000_000
}

/// A field is set to the point that the text means, and left alone without a
/// text.
pub open spec fn sets_date(how: Reading, text: Option<String>, set: Option<LocalDateTime>) -> bool {
    match (text, set) {
        (None, None) => true,
        (Some(t), Some(p)) => means(how, t@, p),
        _ => false,
    }
}

/// A field is left alone without a text, cleared by an empty one, and else set
/// to the point that the text means.
pub open spec fn writes_date(
    how: Reading,
    text: Option<String>,
    written: Option<Option<LocalDateTime>>,
) -> bool {
    match (text, written) {
        (None, None) => true,
        (Some(t), Some(None)) => t@.len() == 0,
        (Some(t), Some(Some(p))) => t@.len() > 0 && means(how, t@, p),
        _ => false,
    }
}

/// A field is left alone without a text, cleared by an empty one, and else set
/// to the text.
pub open spec fn writes_text(text: Option<String>, written: Option<Option<String>>) -> bool {
    match (text, written) {
        (None, None) => true,
        (Some(t), Some(None)) => t@.len() == 0,
        (Some(t), Some(Some(w))) => t@.len() > 0 && w == t,
        _ => false,
    }
}

/// A date that cannot be read means no point.
pub open spec fn bad_date(how: Reading, text: Option<String>) -> bool {
    text is Some && means_nothing(how, text->0@)
}

/// A date that cannot be read means no point; an empty one is no such date.
pub open spec fn bad_patch(how: Reading, text: Option<String>) -> bool {
    text is Some && text->0@.len() > 0 && means_nothing(how, text->0@)
}

/// Dates, times of day and timestamps are read as the points they mean, and
/// refused only where they mean none.
pub proof fn dates_are_read_as_they_are_meant(
    how: Reading,
    text: Seq<char>,
    o: Result<LocalDateTime, String>,
)
    requires
        reading_outcome(how, text, o),
    ensures
        o matches Ok(p) ==> means(how, text, p),
        o is Err ==> means_nothing(how, text),
{
    match how {
        Reading::Date => dates_are_read_where_the_clock_shows_them(text, o),
        Reading::Moment => times_of_day_are_todays(text, o),
        Reading::Stamp => timestamps_are_the_points_they_name(text, o),
    }
}

/// A date that may be absent is set where it is supplied and only there, and
/// the request is refused only where it means no point.
pub proof fn supplied_dates_are_set(
    how: Reading,
    lead: Seq<char>,
    text: Option<String>,
    o: Option<Result<LocalDateTime, String>>,
    r: Result<Option<LocalDateTime>, McpError>,
)
    requires
        opt_outcome(how, text, o),
        date_given(lead, o, r),
    ensures
        r matches Ok(set) ==> sets_date(how, text, set),
        r is Err ==> bad_date(how, text),
{
    if let Some(t) = text {
        dates_are_read_as_they_are_meant(how, t@, o->0);
    }
}

/// A date that clears when empty is written where it is supplied and only
/// there, and the request is refused only where it means no point.
pub proof fn supplied_dates_are_written(
    how: Reading,
    lead: Seq<char>,
    text: Option<String>,
    o: Option<Option<Result<LocalDateTime, String>>>,
    r: Result<Option<Option<LocalDateTime>>, McpError>,
)
    requires
        patch_outcome(how, text, o),
        patch_given(lead, o, r),
    ensures
        r matches Ok(written) ==> writes_date(how, text, written),
        r is Err ==> bad_patch(how, text),
{
    if let Some(t) = text {
        if t@.len() > 0 {
            dates_are_read_as_they_are_meant(how, t@, o->0->0);
        }
    }
}

/// A text is written where it is supplied and only there.
pub proof fn supplied_texts_are_written(text: Option<String>)
    ensures
        writes_text(text, patch_of(text)),
{
}

} // verus!
