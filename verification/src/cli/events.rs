//! The commands about events.

use crate::cli::{access_told, availability_is_as_given, availability_read, bad_point, bad_word, has_line, lines_of_parts, sets_point, span_is_as_given, calendars_printed, no_date, no_date_text, opt_line, parse_datetime, point_of, prints, push_line, push_opt, push_pair, read_availability, read_opt_local, read_span, refusal, refuse, shorten, shortened, span_read, store_failed, tell_access, print_calendars, AccessEnd, CliError};
use crate::clock::{command_dates_are_read_where_the_clock_shows_them, date_read, formatted, has_no_point, in_range, minute_text, stands_for, zone_offset, DateRead, LocalDateTime, DATE, DATE_TIME, LONG_DATE, SECS_PER_DAY, TIME};
use crate::dates::{opt_patch, patch_of, supplied_texts_are_written, writes_text};
use crate::listing::{keep, lemma_filter_all, what_passes_is_kept, window_asked, window_now, EventQuery};
use crate::model::{CalendarInfo, EventAvailability, EventDraft, EventItem, EventPatch, EventSpan, StoreError};
use crate::text::{decimal, opt_str_view, opt_view, push_decimal, same_text, views};
use crate::words::availability_is;
use vstd::prelude::*;
use vstd::string::*;

verus! {

// ---------------------------------------------------------------------------
// Access and calendars
// ---------------------------------------------------------------------------

/// What is printed before access is asked for.
pub const ASKING_CALENDAR: &'static str = "Requesting access to Calendar...";

/// Prints what came of asking for access.
pub fn cmd_events_authorize(reply: Result<bool, StoreError>) -> (end: AccessEnd)
    ensures
        access_told(reply, "System Settings > Privacy & Security > Calendars"@, end),
{
    tell_access(reply, "System Settings > Privacy & Security > Calendars")
}

/// Prints the calendars, and the default one where it is known.
pub fn cmd_events_calendars(
    reply: Result<Vec<CalendarInfo>, StoreError>,
    default: Option<CalendarInfo>,
) -> (r: Result<Vec<String>, CliError>)
    ensures
        match reply {
            Ok(calendars) => prints(
                r,
                calendars_printed(
                    calendars@,
                    default,
                    "No calendars found."@,
                    "Calendars:\n"@,
                    "\nDefault calendar: "@,
                ),
            ),
            Err(e) => store_failed(r, e),
        },
{
    match reply {
        Ok(calendars) => Ok(
            print_calendars(
                &calendars,
                &default,
                "No calendars found.",
                "Calendars:\n",
                "\nDefault calendar: ",
            ),
        ),
        Err(e) => Err(CliError::Store(e)),
    }
}

// ---------------------------------------------------------------------------
// Listing
// ---------------------------------------------------------------------------

/// Lists events: what to ask of the store. There is nothing to ask for where
/// the days lead beyond the range of the clock. Today's events are asked for in
/// all calendars; the reply is narrowed to those that are named.
pub fn cmd_events_list(today: bool, days: i64, calendars: Option<Vec<String>>) -> (query: Option<
    EventQuery,
>)
    ensures
        today ==> query == Some(EventQuery::Today),
        !today && calendars is None ==> query == Some(EventQuery::Upcoming(days)),
        !today && calendars is Some ==> window_asked(days, calendars, query),
{
    if today {
        return Some(EventQuery::Today);
    }
    match calendars {
        Some(c) => window_now(days, Some(c)),
        None => Some(EventQuery::Upcoming(days)),
    }
}

/// A point in a format.
pub open spec fn in_format(d: LocalDateTime, format: Seq<char>) -> Seq<char> {
    formatted(d.unix_secs(), d.sub_nanos(), d.utc_offset(), format)
}

/// The day on which an event starts.
pub open spec fn day_text(e: EventItem) -> Seq<char> {
    in_format(e.start_date, DATE@)
}

/// The day of the event before the one at `i`.
pub open spec fn day_before(items: Seq<EventItem>, i: int) -> Seq<char> {
    if i == 0 {
        Seq::empty()
    } else {
        day_text(items[i - 1])
    }
}

/// The lines with details about an event.
pub open spec fn event_details(e: EventItem) -> Seq<Seq<char>> {
    opt_line("        📍 "@, opt_view(e.location)) + opt_line(
        "        📝 "@,
        match e.notes {
            Some(n) => Some(shortened(n@, 50)),
            None => None,
        },
    ) + opt_line("        🗂  "@, opt_view(e.calendar_title)) + seq![
        "        ID: "@ + e.identifier@,
    ]
}

/// The lines about an event, given the texts of its dates: the day, the day as
/// a heading, and the times of its start and its end. There is a heading where
/// the day is not that of the event before.
pub open spec fn block_of(
    e: EventItem,
    day: Seq<char>,
    heading: Seq<char>,
    start: Seq<char>,
    end: Seq<char>,
    before: Seq<char>,
    all: bool,
) -> Seq<Seq<char>> {
    let first = if day == before {
        Seq::empty()
    } else {
        seq!["\n  📅 "@ + heading]
    };
    let time = if e.all_day {
        "All day"@
    } else {
        start + " - "@ + end
    };
    first + seq!["     "@ + time + " "@ + e.title@] + (if all {
        event_details(e)
    } else {
        Seq::empty()
    })
}

/// The lines about an event.
pub open spec fn event_block(e: EventItem, before: Seq<char>, all: bool) -> Seq<Seq<char>> {
    block_of(
        e,
        day_text(e),
        in_format(e.start_date, LONG_DATE@),
        in_format(e.start_date, TIME@),
        in_format(e.end_date, TIME@),
        before,
        all,
    )
}

/// The lines about the first `n` events.
pub open spec fn event_blocks(items: Seq<EventItem>, all: bool, n: nat) -> Seq<Seq<char>>
    decreases n,
{
    if n == 0 {
        Seq::empty()
    } else {
        event_blocks(items, all, (n - 1) as nat) + event_block(
            items[n - 1],
            day_before(items, n - 1),
            all,
        )
    }
}

/// What is printed about events.
pub open spec fn events_printed(items: Seq<EventItem>, all: bool) -> Seq<Seq<char>> {
    if items.len() == 0 {
        seq!["No events found."@]
    } else {
        seq!["Events ("@ + decimal(items.len()) + "):\n"@] + event_blocks(items, all, items.len())
            + (if all {
            Seq::empty()
        } else {
            seq!["\nUse --all to see more details."@]
        })
    }
}

/// The dates of an event as they are printed.
#[derive(PartialEq, Eq, Debug)]
pub struct EventTimes {
    /// The day of the start.
    pub day: String,
    /// The day of the start, as a heading.
    pub heading: String,
    /// The time of the start.
    pub start: String,
    /// The time of the end.
    pub end: String,
}

/// The lines about an event, given its dates as they are printed and the day
/// of the event before it.
pub fn event_lines(e: &EventItem, times: &EventTimes, before: &str, all: bool) -> (lines: Vec<
    String,
>)
    ensures
        views(lines@) == block_of(
            *e,
            times.day@,
            times.heading@,
            times.start@,
            times.end@,
            before@,
            all,
        ),
{
    let mut lines: Vec<String> = Vec::new();
    if !same_text(times.day.as_str(), before) {
        push_pair(&mut lines, "\n  📅 ", times.heading.as_str());
    }
    let mut line: String = "     ".to_owned();
    let mut time: String = if e.all_day {
        "All day".to_owned()
    } else {
        times.start.clone()
    };
    if !e.all_day {
        time.append(" - ");
        time.append(times.end.as_str());
    }
    line.append(time.as_str());
    line.append(" ");
    line.append(e.title.as_str());
    push_line(&mut lines, line.as_str());
    if all {
        let ghost so_far = views(lines@);
        push_opt(&mut lines, "        📍 ", &e.location);
        if let Some(n) = &e.notes {
            push_pair(&mut lines, "        📝 ", shorten(n.as_str(), 50).as_str());
        }
        push_opt(&mut lines, "        🗂  ", &e.calendar_title);
        push_pair(&mut lines, "        ID: ", e.identifier.as_str());
        assert(views(lines@) =~= so_far + event_details(*e));
    }
    lines
}

fn push_event(out: &mut Vec<String>, e: &EventItem, before: &str, all: bool) -> (day: String)
    ensures
        views(final(out)@) == views(old(out)@) + event_block(*e, before@, all),
        day@ == day_text(*e),
{
    let times: EventTimes = EventTimes {
        day: e.start_date.format(DATE),
        heading: e.start_date.format(LONG_DATE),
        start: e.start_date.format(TIME),
        end: e.end_date.format(TIME),
    };
    let mut lines: Vec<String> = event_lines(e, &times, before, all);
    let ghost block = views(lines@);
    let ghost pushed = lines@;
    out.append(&mut lines);
    proof {
        assert(block =~= event_block(*e, before@, all));
        assert(views(out@) =~= views(old(out)@) + views(pushed));
    }
    times.day
}

/// The event is in a calendar that is named, or none is named.
pub open spec fn in_named_calendar(e: EventItem, calendars: Option<Vec<String>>) -> bool {
    match calendars {
        Some(names) => e.calendar_title is Some && views(names@).contains(e.calendar_title->0@),
        None => true,
    }
}

fn names_calendar(names: &Vec<String>, title: &Option<String>) -> (found: bool)
    ensures
        found == (title is Some && views(names@).contains(title->0@)),
{
    let wanted: &String = match title {
        Some(t) => t,
        None => return false,
    };
    let mut i: usize = 0;
    while i < names.len()
        invariant
            i <= names@.len(),
            *title == Some(*wanted),
            forall|k: int| 0 <= k < i ==> views(names@)[k] != wanted@,
        decreases names@.len() - i,
    {
        assert(views(names@)[i as int] == names@[i as int]@);
        if same_text(names[i].as_str(), wanted.as_str()) {
            return true;
        }
        i = i + 1;
    }
    false
}

fn keep_named(items: Vec<EventItem>, calendars: &Option<Vec<String>>) -> (kept: Vec<EventItem>)
    ensures
        kept@ == items@.filter(|e: EventItem| in_named_calendar(e, *calendars)),
{
    let passes = |e: &EventItem| -> (b: bool)
        ensures
            b == in_named_calendar(*e, *calendars),
        {
            match calendars {
                Some(names) => names_calendar(names, &e.calendar_title),
                None => true,
            }
        };
    keep(items, passes, Ghost(|e: EventItem| in_named_calendar(e, *calendars)))
}

/// The events that are listed. Today's are narrowed to the calendars that are
/// named; for other days the store was asked for these calendars.
pub open spec fn listed(
    items: Seq<EventItem>,
    today: bool,
    calendars: Option<Vec<String>>,
) -> Seq<EventItem> {
    if today {
        items.filter(|e: EventItem| in_named_calendar(e, calendars))
    } else {
        items
    }
}

/// Lists events: what to print.
pub fn cmd_events_list_reply(
    today: bool,
    calendars: &Option<Vec<String>>,
    reply: Result<Vec<EventItem>, StoreError>,
    all: bool,
) -> (r: Result<Vec<String>, CliError>)
    ensures
        match reply {
            Ok(items) => prints(r, events_printed(listed(items@, today, *calendars), all)),
            Err(e) => store_failed(r, e),
        },
{
    let items: Vec<EventItem> = match reply {
        Ok(items) => if today {
            keep_named(items, calendars)
        } else {
            items
        },
        Err(e) => return Err(CliError::Store(e)),
    };
    let mut lines: Vec<String> = Vec::new();
    if items.is_empty() {
        push_line(&mut lines, "No events found.");
        assert(views(lines@) =~= events_printed(items@, all));
        return Ok(lines);
    }
    let mut heading: String = "Events (".to_owned();
    push_decimal(&mut heading, items.len() as u64);
    heading.append("):\n");
    push_line(&mut lines, heading.as_str());
    let mut day: String = String::new();
    let mut i: usize = 0;
    assert(day@ =~= day_before(items@, 0));
    while i < items.len()
        invariant
            i <= items@.len(),
            day@ == day_before(items@, i as int),
            views(lines@) == seq![heading@] + event_blocks(items@, all, i as nat),
        decreases items@.len() - i,
    {
        day = push_event(&mut lines, &items[i], day.as_str(), all);
        assert(views(lines@) =~= seq![heading@] + event_blocks(items@, all, (i + 1) as nat));
        i = i + 1;
    }
    if !all {
        push_line(&mut lines, "\nUse --all to see more details.");
    }
    assert(views(lines@) =~= events_printed(items@, all));
    Ok(lines)
}

// ---------------------------------------------------------------------------
// Creating
// ---------------------------------------------------------------------------

/// The arguments that describe a new event.
#[derive(Debug)]
pub struct NewEvent {
    pub title: String,
    pub start: String,
    pub end: Option<String>,
    /// Minutes, where there is no end.
    pub duration: i64,
    pub notes: Option<String>,
    pub location: Option<String>,
    pub calendar: Option<String>,
    pub all_day: bool,
    pub url: Option<String>,
    pub availability: Option<String>,
}

/// Said of a start that cannot be read.
pub const BAD_START: &'static str = "Invalid start date format. Use YYYY-MM-DD HH:MM or YYYY-MM-DD";

/// Said of an end that cannot be read.
pub const BAD_END: &'static str = "Invalid end date format. Use YYYY-MM-DD HH:MM or YYYY-MM-DD";

/// Where there is no end, an event ends a day after its start if it lasts all
/// day, and else after its duration.
pub open spec fn length_of(args: NewEvent) -> int {
    if args.all_day {
        SECS_PER_DAY as int
    } else {
        args.duration * 60
    }
}

/// `end` is the end of an event that has none of its own.
pub open spec fn ends_at(args: NewEvent, start: LocalDateTime, end: LocalDateTime) -> bool {
    &&& end.unix_secs() == start.unix_secs() + length_of(args)
    &&& end.sub_nanos() == start.sub_nanos()
    &&& zone_offset(end)
}

/// The end of an event that has none of its own, unless it lies beyond the
/// range of the clock.
pub fn default_end(args: &NewEvent, start: &LocalDateTime) -> (end: Option<LocalDateTime>)
    ensures
        match end {
            Some(e) => in_range(start.unix_secs() + length_of(*args)) && ends_at(*args, *start, e),
            None => !in_range(start.unix_secs() + length_of(*args)),
        },
{
    if args.all_day {
        start.plus_days(1)
    } else {
        start.plus_minutes(args.duration)
    }
}

/// The event to create, given its start and its end.
pub open spec fn add_decided(
    args: NewEvent,
    start: LocalDateTime,
    end: LocalDateTime,
    r: Result<EventDraft, CliError>,
) -> bool {
    exists|availability: Result<Option<EventAvailability>, CliError>| #[trigger]
        availability_read(opt_view(args.availability), availability) && match availability {
            Err(e) => r == Err::<EventDraft, CliError>(e),
            Ok(a) => r == Ok::<EventDraft, CliError>(
                EventDraft {
                    title: args.title,
                    start,
                    end,
                    notes: args.notes,
                    location: args.location,
                    calendar_title: args.calendar,
                    all_day: args.all_day,
                    URL: args.url,
                    availability: a,
                    structured_location: None,
                },
            ),
        }
}

/// The event to create, given its start and its end.
pub fn decide_add(args: NewEvent, start: LocalDateTime, end: LocalDateTime) -> (r: Result<
    EventDraft,
    CliError,
>)
    ensures
        add_decided(args, start, end, r),
{
    let word: Option<&str> = match &args.availability {
        Some(w) => Some(w.as_str()),
        None => None,
    };
    let availability: Result<Option<EventAvailability>, CliError> = read_availability(word);
    assert(opt_str_view(word) == opt_view(args.availability));
    assert(availability_read(opt_view(args.availability), availability));
    match availability {
        Err(e) => Err(e),
        Ok(a) => Ok(
            EventDraft {
                title: args.title,
                start,
                end,
                notes: args.notes,
                location: args.location,
                calendar_title: args.calendar,
                all_day: args.all_day,
                URL: args.url,
                availability: a,
                structured_location: None,
            },
        ),
    }
}

/// What may come of the arguments once the start is read.
pub open spec fn add_from(
    args: NewEvent,
    start: LocalDateTime,
    r: Option<Result<EventDraft, CliError>>,
) -> bool {
    match args.end {
        Some(text) => exists|read: DateRead| #[trigger]
            date_read(text@, read) && r is Some && match point_of(read) {
                Some(end) => add_decided(args, start, end, r->0),
                None => r->0 is Err && refusal(r->0->Err_0, None, BAD_END@),
            },
        None => if in_range(start.unix_secs() + length_of(args)) {
            exists|end: LocalDateTime| #[trigger]
                ends_at(args, start, end) && r is Some && add_decided(args, start, end, r->0)
        } else {
            r is None
        },
    }
}

/// What may come of the arguments.
pub open spec fn add_outcome(args: NewEvent, r: Option<Result<EventDraft, CliError>>) -> bool {
    exists|read: DateRead| #[trigger]
        date_read(args.start@, read) && match point_of(read) {
            Some(start) => add_from(args, start, r),
            None => r is Some && r->0 is Err && refusal(r->0->Err_0, None, BAD_START@),
        }
}

/// Creates an event: what to create. There is nothing to create where its
/// length leads beyond the range of the clock.
pub fn cmd_events_add(args: NewEvent) -> (r: Option<Result<EventDraft, CliError>>)
    ensures
        add_outcome(args, r),
{
    let start: LocalDateTime = match parse_datetime(args.start.as_str()) {
        Some(s) => s,
        None => return Some(Err(refuse(BAD_START.to_owned()))),
    };
    let end: LocalDateTime = match &args.end {
        Some(text) => match parse_datetime(text.as_str()) {
            Some(e) => e,
            None => {
                let r: Option<Result<EventDraft, CliError>> = Some(
                    Err(refuse(BAD_END.to_owned())),
                );
                assert(add_from(args, start, r));
                return r;
            },
        },
        None => match default_end(&args, &start) {
            Some(e) => e,
            None => {
                assert(add_from(args, start, None));
                return None;
            },
        },
    };
    let r: Result<EventDraft, CliError> = decide_add(args, start, end);
    assert(args.end is None ==> ends_at(args, start, end));
    assert(add_from(args, start, Some(r)));
    Some(r)
}

/// Creates an event: what to print.
pub fn cmd_events_add_reply(reply: Result<EventItem, StoreError>) -> (r: Result<
    Vec<String>,
    CliError,
>)
    ensures
        match reply {
            Ok(e) => prints(
                r,
                seq![
                    "✓ Created event: "@ + e.title@,
                    "  Start: "@ + minute_text(e.start_date),
                    "  End:   "@ + minute_text(e.end_date),
                    "  ID: "@ + e.identifier@,
                ] + opt_line("  Calendar: "@, opt_view(e.calendar_title)),
            ),
            Err(e) => store_failed(r, e),
        },
{
    let e: EventItem = match reply {
        Ok(e) => e,
        Err(e) => return Err(CliError::Store(e)),
    };
    let mut lines: Vec<String> = Vec::new();
    push_pair(&mut lines, "✓ Created event: ", e.title.as_str());
    push_pair(&mut lines, "  Start: ", e.start_date.format(DATE_TIME).as_str());
    push_pair(&mut lines, "  End:   ", e.end_date.format(DATE_TIME).as_str());
    push_pair(&mut lines, "  ID: ", e.identifier.as_str());
    push_opt(&mut lines, "  Calendar: ", &e.calendar_title);
    assert(views(lines@) =~= seq![
        "✓ Created event: "@ + e.title@,
        "  Start: "@ + minute_text(e.start_date),
        "  End:   "@ + minute_text(e.end_date),
        "  ID: "@ + e.identifier@,
    ] + opt_line("  Calendar: "@, opt_view(e.calendar_title)));
    Ok(lines)
}

// ---------------------------------------------------------------------------
// Deleting
// ---------------------------------------------------------------------------

/// What a deletion does.
#[derive(PartialEq, Eq, Debug)]
pub enum EventRemoval {
    /// Ask for confirmation with these lines, and delete nothing.
    Confirm(Vec<String>),
    /// Delete, with the later occurrences or without.
    Go { affect_future: bool },
}

/// Deletes an event: what to do once it is known. Without force nothing is
/// deleted, and the span is not looked at.
pub fn cmd_events_delete(item: &EventItem, force: bool, span: &str) -> (r: Result<
    EventRemoval,
    CliError,
>)
    ensures
        !force ==> r is Ok && r->Ok_0 is Confirm && views(r->Ok_0->Confirm_0@) == seq![
            "Delete event: \""@ + item.title@ + "\"?"@,
            "This action cannot be undone. Use --force to skip this prompt."@,
        ],
        force ==> exists|future: Result<bool, CliError>| #[trigger]
            span_read(span@, future) && match future {
                Ok(affect_future) => r == Ok::<EventRemoval, CliError>(
                    EventRemoval::Go { affect_future },
                ),
                Err(e) => r == Err::<EventRemoval, CliError>(e),
            },
{
    if !force {
        let mut lines: Vec<String> = Vec::new();
        let mut question: String = "Delete event: \"".to_owned();
        question.append(item.title.as_str());
        question.append("\"?");
        push_line(&mut lines, question.as_str());
        push_line(&mut lines, "This action cannot be undone. Use --force to skip this prompt.");
        return Ok(EventRemoval::Confirm(lines));
    }
    let future: Result<bool, CliError> = read_span(span);
    assert(span_read(span@, future));
    match future {
        Ok(affect_future) => Ok(EventRemoval::Go { affect_future }),
        Err(e) => Err(e),
    }
}

/// Deletes an event: what to print.
pub fn cmd_events_delete_reply(title: &str, affect_future: bool, reply: Result<(), StoreError>) -> (r:
    Result<Vec<String>, CliError>)
    ensures
        match reply {
            Ok(_) => prints(
                r,
                seq![
                    "✓ Deleted: "@ + title@ + if affect_future {
                        " (and future occurrences)"@
                    } else {
                        ""@
                    },
                ],
            ),
            Err(e) => store_failed(r, e),
        },
{
    if let Err(e) = reply {
        return Err(CliError::Store(e));
    }
    let mut line: String = "✓ Deleted: ".to_owned();
    line.append(title);
    if affect_future {
        line.append(" (and future occurrences)");
    } else {
        line.append("");
    }
    let mut lines: Vec<String> = Vec::new();
    push_line(&mut lines, line.as_str());
    assert(views(lines@) =~= seq![line@]);
    Ok(lines)
}

// ---------------------------------------------------------------------------
// Updating
// ---------------------------------------------------------------------------

/// The arguments that describe a change to an event.
#[derive(Debug)]
pub struct EventChange {
    pub title: Option<String>,
    /// Empty clears.
    pub notes: Option<String>,
    /// Empty clears.
    pub location: Option<String>,
    pub start: Option<String>,
    pub end: Option<String>,
    pub all_day: Option<bool>,
    pub calendar: Option<String>,
    /// Empty clears.
    pub url: Option<String>,
    pub availability: Option<String>,
    /// "this" or "future".
    pub span: String,
}

/// What an update does.
#[derive(PartialEq, Eq, Debug)]
pub enum EventUpdate {
    /// Nothing is to be updated; this is said on the error stream.
    Nothing(&'static str),
    /// The store is to update the event.
    Apply(EventPatch),
}

/// Said where nothing is to be updated.
pub const NO_EVENT_UPDATES: &'static str = "No updates specified. Use one of --title/--notes/--location/--start/--end/--all-day/--calendar/--url/--availability.";

/// Nothing is to be updated.
pub open spec fn is_empty_change(args: EventChange) -> bool {
    &&& args.title is None
    &&& args.notes is None
    &&& args.location is None
    &&& args.start is None
    &&& args.end is None
    &&& args.all_day is None
    &&& args.calendar is None
    &&& args.url is None
    &&& args.availability is None
}

/// What an update gets from a date that may be absent.
pub open spec fn change_date(
    label: Seq<char>,
    raw: Option<Seq<char>>,
    read: Option<DateRead>,
    r: Result<Option<LocalDateTime>, CliError>,
) -> bool {
    match (raw, read) {
        (Some(t), Some(d)) => match point_of(d) {
            Some(p) => r == Ok::<Option<LocalDateTime>, CliError>(Some(p)),
            None => r is Err && refusal(r->Err_0, None, no_date(label, t)),
        },
        _ => r == Ok::<Option<LocalDateTime>, CliError>(None),
    }
}

fn take_date(label: &str, raw: Option<&str>, read: Option<DateRead>) -> (r: Result<
    Option<LocalDateTime>,
    CliError,
>)
    ensures
        change_date(label@, opt_str_view(raw), read, r),
{
    match (raw, read) {
        (Some(t), Some(d)) => match d {
            DateRead::Point(p) => Ok(Some(p)),
            _ => Err(refuse(no_date_text(label, t))),
        },
        _ => Ok(None),
    }
}

/// What an update does, given what came of its words. The start is looked at
/// first, then the end, the availability and the span.
pub open spec fn change_decided(
    args: EventChange,
    start: Result<Option<LocalDateTime>, CliError>,
    end: Result<Option<LocalDateTime>, CliError>,
    availability: Result<Option<EventAvailability>, CliError>,
    future: Result<bool, CliError>,
    r: Result<EventUpdate, CliError>,
) -> bool {
    if is_empty_change(args) {
        r is Ok && r->Ok_0 is Nothing && r->Ok_0->Nothing_0@ == NO_EVENT_UPDATES@
    } else {
        match (start, end, availability, future) {
            (Err(e), _, _, _) => r == Err::<EventUpdate, CliError>(e),
            (Ok(_), Err(e), _, _) => r == Err::<EventUpdate, CliError>(e),
            (Ok(_), Ok(_), Err(e), _) => r == Err::<EventUpdate, CliError>(e),
            (Ok(_), Ok(_), Ok(_), Err(e)) => r == Err::<EventUpdate, CliError>(e),
            (Ok(s), Ok(t), Ok(a), Ok(f)) => r == Ok::<EventUpdate, CliError>(
                EventUpdate::Apply(
                    EventPatch {
                        title: args.title,
                        notes: patch_of(args.notes),
                        location: patch_of(args.location),
                        start: s,
                        end: t,
                        all_day: args.all_day,
                        calendar_title: args.calendar,
                        URL: patch_of(args.url),
                        availability: a,
                        structured_location: None,
                        span: if f {
                            EventSpan::Future
                        } else {
                            EventSpan::This
                        },
                    },
                ),
            ),
        }
    }
}

/// What an update does, given what came of its words.
pub fn decide_change(
    args: EventChange,
    start: Result<Option<LocalDateTime>, CliError>,
    end: Result<Option<LocalDateTime>, CliError>,
    availability: Result<Option<EventAvailability>, CliError>,
    future: Result<bool, CliError>,
) -> (r: Result<EventUpdate, CliError>)
    ensures
        change_decided(args, start, end, availability, future, r),
{
    if args.title.is_none() && args.notes.is_none() && args.location.is_none()
        && args.start.is_none() && args.end.is_none() && args.all_day.is_none()
        && args.calendar.is_none() && args.url.is_none() && args.availability.is_none() {
        return Ok(EventUpdate::Nothing(NO_EVENT_UPDATES));
    }
    let start: Option<LocalDateTime> = match start {
        Ok(s) => s,
        Err(e) => return Err(e),
    };
    let end: Option<LocalDateTime> = match end {
        Ok(t) => t,
        Err(e) => return Err(e),
    };
    let availability: Option<EventAvailability> = match availability {
        Ok(a) => a,
        Err(e) => return Err(e),
    };
    let span: EventSpan = match future {
        Ok(f) => if f {
            EventSpan::Future
        } else {
            EventSpan::This
        },
        Err(e) => return Err(e),
    };
    Ok(
        EventUpdate::Apply(
            EventPatch {
                title: args.title,
                notes: opt_patch(args.notes),
                location: opt_patch(args.location),
                start,
                end,
                all_day: args.all_day,
                calendar_title: args.calendar,
                URL: opt_patch(args.url),
                availability,
                structured_location: None,
                span,
            },
        ),
    )
}

/// What an update may do.
pub open spec fn change_outcome(args: EventChange, r: Result<EventUpdate, CliError>) -> bool {
    exists|
        start_read: Option<DateRead>,
        end_read: Option<DateRead>,
        start: Result<Option<LocalDateTime>, CliError>,
        end: Result<Option<LocalDateTime>, CliError>,
        availability: Result<Option<EventAvailability>, CliError>,
        future: Result<bool, CliError>,
    |
        {
            &&& opt_date_read(args.start, start_read)
            &&& opt_date_read(args.end, end_read)
            &&& #[trigger] change_date("--start"@, opt_view(args.start), start_read, start)
            &&& #[trigger] change_date("--end"@, opt_view(args.end), end_read, end)
            &&& #[trigger] availability_read(opt_view(args.availability), availability)
            &&& #[trigger] span_read(args.span@, future)
            &&& change_decided(args, start, end, availability, future, r)
        }
}

/// What may come of reading a date that may be absent.
pub open spec fn opt_date_read(s: Option<String>, read: Option<DateRead>) -> bool {
    match (s, read) {
        (None, None) => true,
        (Some(t), Some(r)) => date_read(t@, r),
        _ => false,
    }
}

fn as_text(s: &Option<String>) -> (t: Option<&str>)
    ensures
        opt_str_view(t) == opt_view(*s),
{
    match s {
        Some(w) => Some(w.as_str()),
        None => None,
    }
}

/// Updates an event: what to do.
pub fn cmd_events_update(args: EventChange) -> (r: Result<EventUpdate, CliError>)
    ensures
        change_outcome(args, r),
{
    let start_read: Option<DateRead> = read_opt_local(as_text(&args.start));
    let end_read: Option<DateRead> = read_opt_local(as_text(&args.end));
    let start: Result<Option<LocalDateTime>, CliError> = take_date(
        "--start",
        as_text(&args.start),
        start_read,
    );
    let end: Result<Option<LocalDateTime>, CliError> = take_date(
        "--end",
        as_text(&args.end),
        end_read,
    );
    let availability: Result<Option<EventAvailability>, CliError> = read_availability(
        as_text(&args.availability),
    );
    let future: Result<bool, CliError> = read_span(args.span.as_str());
    let ghost given = (start, end, availability, future);
    let r: Result<EventUpdate, CliError> = decide_change(args, start, end, availability, future);
    assert(change_date("--start"@, opt_view(args.start), start_read, given.0));
    assert(change_date("--end"@, opt_view(args.end), end_read, given.1));
    assert(availability_read(opt_view(args.availability), given.2));
    assert(span_read(args.span@, given.3));
    r
}

/// Updates an event: what to print.
pub fn cmd_events_update_reply(span: EventSpan, reply: Result<EventItem, StoreError>) -> (r: Result<
    Vec<String>,
    CliError,
>)
    ensures
        match reply {
            Ok(e) => prints(
                r,
                seq![
                    "✓ Updated event: "@ + e.title@ + if span == EventSpan::Future {
                        " (this and future occurrences)"@
                    } else {
                        ""@
                    },
                ],
            ),
            Err(e) => store_failed(r, e),
        },
{
    let e: EventItem = match reply {
        Ok(e) => e,
        Err(e) => return Err(CliError::Store(e)),
    };
    let mut line: String = "✓ Updated event: ".to_owned();
    line.append(e.title.as_str());
    if span == EventSpan::Future {
        line.append(" (this and future occurrences)");
    } else {
        line.append("");
    }
    let mut lines: Vec<String> = Vec::new();
    push_line(&mut lines, line.as_str());
    assert(views(lines@) =~= seq![line@]);
    Ok(lines)
}

// ---------------------------------------------------------------------------
// Showing
// ---------------------------------------------------------------------------

/// What is printed about one event.
pub open spec fn event_printed(e: EventItem) -> Seq<Seq<char>> {
    seq![
        "Event Details:\n"@,
        "  Title:     "@ + e.title@,
        "  Start:     "@ + minute_text(e.start_date),
        "  End:       "@ + minute_text(e.end_date),
        "  All Day:   "@ + if e.all_day {
            "Yes"@
        } else {
            "No"@
        },
    ] + opt_line("  Location:  "@, opt_view(e.location)) + opt_line(
        "  Notes:     "@,
        opt_view(e.notes),
    ) + opt_line("  Calendar:  "@, opt_view(e.calendar_title)) + seq![
        "  ID:        "@ + e.identifier@,
    ]
}

/// Prints one event.
pub fn cmd_events_show(reply: Result<EventItem, StoreError>) -> (r: Result<Vec<String>, CliError>)
    ensures
        match reply {
            Ok(e) => prints(r, event_printed(e)),
            Err(e) => store_failed(r, e),
        },
{
    let e: EventItem = match reply {
        Ok(e) => e,
        Err(e) => return Err(CliError::Store(e)),
    };
    let mut lines: Vec<String> = Vec::new();
    push_line(&mut lines, "Event Details:\n");
    push_pair(&mut lines, "  Title:     ", e.title.as_str());
    push_pair(&mut lines, "  Start:     ", e.start_date.format(DATE_TIME).as_str());
    push_pair(&mut lines, "  End:       ", e.end_date.format(DATE_TIME).as_str());
    if e.all_day {
        push_pair(&mut lines, "  All Day:   ", "Yes");
    } else {
        push_pair(&mut lines, "  All Day:   ", "No");
    }
    push_opt(&mut lines, "  Location:  ", &e.location);
    push_opt(&mut lines, "  Notes:     ", &e.notes);
    push_opt(&mut lines, "  Calendar:  ", &e.calendar_title);
    push_pair(&mut lines, "  ID:        ", e.identifier.as_str());
    assert(views(lines@) =~= event_printed(e));
    Ok(lines)
}

// ---------------------------------------------------------------------------
// What the arguments ask for is what is done
// ---------------------------------------------------------------------------

proof fn lemma_add_read(args: NewEvent, r: Option<Result<EventDraft, CliError>>) -> (start: Option<
    LocalDateTime,
>)
    requires
        add_outcome(args, r),
    ensures
        start matches Some(s) ==> stands_for(args.start@, s) && add_from(args, s, r),
        start is None ==> has_no_point(args.start@) && r is Some && r->0 is Err,
{
    let read = choose|read: DateRead| #[trigger]
        date_read(args.start@, read) && match point_of(read) {
            Some(start) => add_from(args, start, r),
            None => r is Some && r->0 is Err && refusal(r->0->Err_0, None, BAD_START@),
        };
    command_dates_are_read_where_the_clock_shows_them(args.start@, read);
    point_of(read)
}

/// An event is created as the arguments describe it: with the texts and the
/// availability that are given, from the point that its start stands for to the
/// point that its end stands for. Without an end it lasts a day if it lasts all
/// day, and else as many minutes as are given.
pub proof fn event_is_added_as_given(args: NewEvent, draft: EventDraft)
    requires
        add_outcome(args, Some(Ok(draft))),
    ensures
        draft.title == args.title,
        draft.notes == args.notes,
        draft.location == args.location,
        draft.calendar_title == args.calendar,
        draft.all_day == args.all_day,
        draft.URL == args.url,
        draft.structured_location is None,
        availability_is(opt_view(args.availability), draft.availability),
        stands_for(args.start@, draft.start),
        args.end matches Some(text) ==> stands_for(text@, draft.end),
        args.end is None && args.all_day ==> draft.end.unix_secs() - draft.start.unix_secs()
            == 86_400,
        args.end is None && !args.all_day ==> draft.end.unix_secs() - draft.start.unix_secs()
            == args.duration * 60,
        args.end is None ==> zone_offset(draft.end),
{
    let r: Option<Result<EventDraft, CliError>> = Some(Ok(draft));
    let start = lemma_add_read(args, r);
    let end = if let Some(text) = args.end {
        let read = choose|read: DateRead| #[trigger]
            date_read(text@, read) && r is Some && match point_of(read) {
                Some(end) => add_decided(args, start->0, end, r->0),
                None => r->0 is Err && refusal(r->0->Err_0, None, BAD_END@),
            };
        command_dates_are_read_where_the_clock_shows_them(text@, read);
        point_of(read)->0
    } else {
        choose|end: LocalDateTime| #[trigger]
            ends_at(args, start->0, end) && r is Some && add_decided(args, start->0, end, r->0)
    };
    let availability = choose|availability: Result<Option<EventAvailability>, CliError>| #[trigger]
        availability_read(opt_view(args.availability), availability) && match availability {
            Err(e) => r->0 == Err::<EventDraft, CliError>(e),
            Ok(a) => r->0->Ok_0.availability == a && r->0->Ok_0.start == start->0 && r->0->Ok_0.end
                == end,
        };
    availability_is_as_given(opt_view(args.availability), availability);
}

/// An event is created unless its start or its end has no point, its
/// availability is none, or its length leads beyond the range of the clock.
pub proof fn event_is_added_unless_it_cannot_be(
    args: NewEvent,
    r: Option<Result<EventDraft, CliError>>,
)
    requires
        add_outcome(args, r),
    ensures
        r is Some && r->0 is Err ==> has_no_point(args.start@) || args.end is Some && has_no_point(
            args.end->0@,
        ) || bad_word(opt_view(args.availability)),
        r is None ==> args.end is None && exists|start: LocalDateTime|
            #[trigger] stands_for(args.start@, start) && !in_range(
                start.unix_secs() + (if args.all_day {
                    86_400
                } else {
                    args.duration * 60
                }),
            ),
{
    let start = lemma_add_read(args, r);
    if start is Some {
        assert(stands_for(args.start@, start->0));
        if let Some(text) = args.end {
            let read = choose|read: DateRead| #[trigger]
                date_read(text@, read) && r is Some && match point_of(read) {
                    Some(end) => add_decided(args, start->0, end, r->0),
                    None => r->0 is Err && refusal(r->0->Err_0, None, BAD_END@),
                };
            command_dates_are_read_where_the_clock_shows_them(text@, read);
        }
        if r is Some && r->0 is Err && (args.end is None || !has_no_point(args.end->0@)) {
            let e = r->0->Err_0;
            let end = choose|end: LocalDateTime| #[trigger]
                add_decided(args, start->0, end, r->0);
            assert(add_decided(args, start->0, end, r->0));
            let availability = choose|
                availability: Result<Option<EventAvailability>, CliError>,
            | #[trigger]
                availability_read(opt_view(args.availability), availability) && match availability {
                    Err(f) => r->0 == Err::<EventDraft, CliError>(f),
                    Ok(a) => r->0 is Ok,
                };
            availability_is_as_given(opt_view(args.availability), availability);
        }
    }
}

proof fn lemma_change_read(args: EventChange, r: Result<EventUpdate, CliError>) -> (given: (
    Result<Option<LocalDateTime>, CliError>,
    Result<Option<LocalDateTime>, CliError>,
    Result<Option<EventAvailability>, CliError>,
    Result<bool, CliError>,
))
    requires
        change_outcome(args, r),
    ensures
        change_decided(args, given.0, given.1, given.2, given.3, r),
        given.0 matches Ok(set) ==> sets_point(opt_view(args.start), set),
        given.0 is Err ==> bad_point(opt_view(args.start)),
        given.1 matches Ok(set) ==> sets_point(opt_view(args.end), set),
        given.1 is Err ==> bad_point(opt_view(args.end)),
        given.2 matches Ok(a) ==> availability_is(opt_view(args.availability), a),
        given.2 is Err ==> bad_word(opt_view(args.availability)),
        given.3 matches Ok(future) ==> (future <==> args.span@ == "future"@),
        given.3 is Err ==> args.span@ != "this"@ && args.span@ != "future"@,
{
    let (start_read, end_read, start, end, availability, future) = choose|
        start_read: Option<DateRead>,
        end_read: Option<DateRead>,
        start: Result<Option<LocalDateTime>, CliError>,
        end: Result<Option<LocalDateTime>, CliError>,
        availability: Result<Option<EventAvailability>, CliError>,
        future: Result<bool, CliError>,
    |
        {
            &&& opt_date_read(args.start, start_read)
            &&& opt_date_read(args.end, end_read)
            &&& #[trigger] change_date("--start"@, opt_view(args.start), start_read, start)
            &&& #[trigger] change_date("--end"@, opt_view(args.end), end_read, end)
            &&& #[trigger] availability_read(opt_view(args.availability), availability)
            &&& #[trigger] span_read(args.span@, future)
            &&& change_decided(args, start, end, availability, future, r)
        };
    if let Some(t) = args.start {
        command_dates_are_read_where_the_clock_shows_them(t@, start_read->0);
    }
    if let Some(t) = args.end {
        command_dates_are_read_where_the_clock_shows_them(t@, end_read->0);
    }
    availability_is_as_given(opt_view(args.availability), availability);
    span_is_as_given(args.span@, future);
    (start, end, availability, future)
}

/// An update of the command line writes what is given and nothing else, for
/// the occurrences that are named. An empty text clears.
pub proof fn event_is_changed_as_given(args: EventChange, patch: EventPatch)
    requires
        change_outcome(args, Ok(EventUpdate::Apply(patch))),
    ensures
        patch.title == args.title,
        patch.all_day == args.all_day,
        patch.calendar_title == args.calendar,
        sets_point(opt_view(args.start), patch.start),
        sets_point(opt_view(args.end), patch.end),
        availability_is(opt_view(args.availability), patch.availability),
        writes_text(args.notes, patch.notes),
        writes_text(args.location, patch.location),
        writes_text(args.url, patch.URL),
        patch.structured_location is None,
        patch.span is Future <==> args.span@ == "future"@,
{
    let given = lemma_change_read(args, Ok(EventUpdate::Apply(patch)));
    supplied_texts_are_written(args.notes);
    supplied_texts_are_written(args.location);
    supplied_texts_are_written(args.url);
}

/// An event is updated unless nothing is given to update, one of its dates has
/// no point, its availability is none or its span is none.
pub proof fn event_is_changed_unless_it_cannot_be(
    args: EventChange,
    r: Result<EventUpdate, CliError>,
)
    requires
        change_outcome(args, r),
    ensures
        r is Ok && r->Ok_0 is Nothing <==> args.title is None && args.notes is None
            && args.location is None && args.start is None && args.end is None
            && args.all_day is None && args.calendar is None && args.url is None
            && args.availability is None,
        r is Err ==> bad_point(opt_view(args.start)) || bad_point(opt_view(args.end)) || bad_word(
            opt_view(args.availability),
        ) || args.span@ != "this"@ && args.span@ != "future"@,
{
    let given = lemma_change_read(args, r);
}

// ---------------------------------------------------------------------------
// Every event is printed
// ---------------------------------------------------------------------------

/// Today's events are listed exactly where no calendar is named or theirs is;
/// of other days every event that the store gives is listed.
pub proof fn listed_events_are_of_the_named_calendars(
    items: Seq<EventItem>,
    today: bool,
    calendars: Option<Vec<String>>,
)
    ensures
        !today || calendars is None ==> listed(items, today, calendars) == items,
        forall|i: int|
            0 <= i < listed(items, today, calendars).len() ==> items.contains(
                #[trigger] listed(items, today, calendars)[i],
            ),
        today && calendars is Some ==> forall|i: int|
            0 <= i < listed(items, today, calendars).len() ==> {
                let e = #[trigger] listed(items, today, calendars)[i];
                e.calendar_title is Some && exists|k: int|
                    0 <= k < calendars->0@.len() && #[trigger] calendars->0@[k]@
                        == e.calendar_title->0@
            },
        today && calendars is Some ==> forall|i: int, k: int|
            0 <= i < items.len() && 0 <= k < calendars->0@.len() && (#[trigger] items[i]).calendar_title
                is Some && (#[trigger] calendars->0@[k])@ == items[i].calendar_title->0@
                ==> listed(items, today, calendars).contains(items[i]),
{
    let pred = |e: EventItem| in_named_calendar(e, calendars);
    what_passes_is_kept(items, pred);
    let kept = items.filter(pred);
    if calendars is None {
        lemma_filter_all(items, pred);
    }
    assert forall|i: int| 0 <= i < listed(items, today, calendars).len() implies items.contains(
        #[trigger] listed(items, today, calendars)[i],
    ) by {
        if !today {
            assert(items[i] == listed(items, today, calendars)[i]);
        } else {
            assert(items.contains(kept[i]));
        }
    }
    if today && calendars is Some {
        let names = calendars->0@;
        assert forall|i: int| 0 <= i < listed(items, today, calendars).len() implies ({
            let e = #[trigger] listed(items, today, calendars)[i];
            e.calendar_title is Some && exists|k: int|
                0 <= k < names.len() && #[trigger] names[k]@ == e.calendar_title->0@
        }) by {
            let e = listed(items, today, calendars)[i];
            assert(pred(kept[i]));
            let k = choose|k: int| 0 <= k < views(names).len() && views(names)[k]
                == e.calendar_title->0@;
            assert(names[k]@ == e.calendar_title->0@);
        }
        assert forall|i: int, k: int|
            0 <= i < items.len() && 0 <= k < names.len() && (#[trigger] items[i]).calendar_title
                is Some && (#[trigger] names[k])@ == items[i].calendar_title->0@ implies listed(
            items,
            today,
            calendars,
        ).contains(items[i]) by {
            assert(views(names)[k] == items[i].calendar_title->0@);
            assert(pred(items[i]));
        }
    }
}

proof fn lemma_event_has_lines(items: Seq<EventItem>, all: bool, n: nat, k: int, line: Seq<char>)
    requires
        0 <= k < n <= items.len(),
        has_line(event_block(items[k], day_before(items, k), all), line),
    ensures
        has_line(event_blocks(items, all, n), line),
    decreases n,
{
    let before = event_blocks(items, all, (n - 1) as nat);
    let last = event_block(items[n - 1], day_before(items, n - 1), all);
    if k < n - 1 {
        lemma_event_has_lines(items, all, (n - 1) as nat, k, line);
        lines_of_parts(Seq::empty(), before, last);
        assert(Seq::<Seq<char>>::empty() + before + last =~= before + last);
    } else {
        lines_of_parts(before, last, Seq::empty());
        assert(before + last + Seq::<Seq<char>>::empty() =~= before + last);
    }
}

/// Every event that is listed is printed with its times and its title, under a
/// heading that counts them; with details, also its location, its calendar and
/// its identifier.
pub proof fn every_listed_event_is_printed(items: Seq<EventItem>, all: bool, k: int)
    requires
        0 <= k < items.len(),
    ensures
        ({
            let e = items[k];
            let lines = events_printed(items, all);
            let clock = |d: LocalDateTime|
                formatted(d.unix_secs(), d.sub_nanos(), d.utc_offset(), "%H:%M"@);
            &&& lines[0] == "Events ("@ + decimal(items.len()) + "):\n"@
            &&& e.all_day ==> has_line(lines, "     "@ + "All day"@ + " "@ + e.title@)
            &&& !e.all_day ==> has_line(
                lines,
                "     "@ + (clock(e.start_date) + " - "@ + clock(e.end_date)) + " "@ + e.title@,
            )
            &&& all ==> has_line(lines, "        ID: "@ + e.identifier@)
            &&& all && e.location is Some ==> has_line(lines, "        📍 "@ + e.location->0@)
            &&& all && e.calendar_title is Some ==> has_line(
                lines,
                "        🗂  "@ + e.calendar_title->0@,
            )
            &&& k == 0 && day_text(e).len() > 0 ==> has_line(
                lines,
                "\n  📅 "@ + in_format(e.start_date, "%A, %B %d, %Y"@),
            )
            &&& k > 0 && day_text(e) != day_text(items[k - 1]) ==> has_line(
                lines,
                "\n  📅 "@ + in_format(e.start_date, "%A, %B %d, %Y"@),
            )
        }),
{
    let e = items[k];
    let block = event_block(e, day_before(items, k), all);
    let head = seq!["Events ("@ + decimal(items.len()) + "):\n"@];
    let all_blocks = event_blocks(items, all, items.len());
    let foot: Seq<Seq<char>> = if all {
        Seq::empty()
    } else {
        seq!["\nUse --all to see more details."@]
    };
    assert forall|line: Seq<char>| has_line(block, line) implies #[trigger] has_line(
        events_printed(items, all),
        line,
    ) by {
        lemma_event_has_lines(items, all, items.len(), k, line);
        lines_of_parts(head, all_blocks, foot);
    }
    let first: Seq<Seq<char>> = if day_text(e) == day_before(items, k) {
        Seq::empty()
    } else {
        seq!["\n  📅 "@ + in_format(e.start_date, LONG_DATE@)]
    };
    let time = if e.all_day {
        "All day"@
    } else {
        in_format(e.start_date, TIME@) + " - "@ + in_format(e.end_date, TIME@)
    };
    let title = seq!["     "@ + time + " "@ + e.title@];
    let details: Seq<Seq<char>> = if all {
        event_details(e)
    } else {
        Seq::empty()
    };
    assert(block == first + title + details);
    assert(has_line(title, title[0]));
    lines_of_parts(first, title, details);
    if first.len() > 0 {
        assert(has_line(first, first[0]));
        lines_of_parts(Seq::empty(), first, title + details);
        assert(Seq::<Seq<char>>::empty() + first + (title + details) =~= block);
    }
    if all {
        let places = opt_line("        📍 "@, opt_view(e.location));
        let notes = opt_line(
            "        📝 "@,
            match e.notes {
                Some(n) => Some(shortened(n@, 50)),
                None => None,
            },
        );
        let calendar = opt_line("        🗂  "@, opt_view(e.calendar_title));
        let id = seq!["        ID: "@ + e.identifier@];
        assert(has_line(id, id[0]));
        lines_of_parts(places + notes + calendar, id, Seq::empty());
        assert(places + notes + calendar + id + Seq::<Seq<char>>::empty() =~= event_details(e));
        if e.location is Some {
            assert(has_line(places, places[0]));
            lines_of_parts(Seq::empty(), places, notes + calendar + id);
            assert(Seq::<Seq<char>>::empty() + places + (notes + calendar + id) =~= event_details(e));
        }
        if e.calendar_title is Some {
            assert(has_line(calendar, calendar[0]));
            lines_of_parts(places + notes, calendar, id);
        }
        lines_of_parts(first + title, details, Seq::empty());
        assert(first + title + details + Seq::<Seq<char>>::empty() =~= block);
    }
}

/// One event is printed with its title, its times, whether it lasts all day and
/// its identifier, and with its location, its notes and its calendar where it
/// has them.
pub proof fn event_is_printed_in_full(e: EventItem)
    ensures
        has_line(event_printed(e), "  Title:     "@ + e.title@),
        has_line(event_printed(e), "  Start:     "@ + minute_text(e.start_date)),
        has_line(event_printed(e), "  End:       "@ + minute_text(e.end_date)),
        e.all_day ==> has_line(event_printed(e), "  All Day:   "@ + "Yes"@),
        !e.all_day ==> has_line(event_printed(e), "  All Day:   "@ + "No"@),
        has_line(event_printed(e), "  ID:        "@ + e.identifier@),
        e.location matches Some(l) ==> has_line(event_printed(e), "  Location:  "@ + l@),
        e.notes matches Some(n) ==> has_line(event_printed(e), "  Notes:     "@ + n@),
        e.calendar_title matches Some(c) ==> has_line(event_printed(e), "  Calendar:  "@ + c@),
{
    let lines = event_printed(e);
    let location = opt_line("  Location:  "@, opt_view(e.location));
    let notes = opt_line("  Notes:     "@, opt_view(e.notes));
    let calendar = opt_line("  Calendar:  "@, opt_view(e.calendar_title));
    let n = 5 + location.len();
    assert(lines[1] == "  Title:     "@ + e.title@);
    assert(lines[2] == "  Start:     "@ + minute_text(e.start_date));
    assert(lines[3] == "  End:       "@ + minute_text(e.end_date));
    assert(has_line(lines, lines[4]));
    assert(lines.last() == "  ID:        "@ + e.identifier@);
    assert(has_line(lines, lines[lines.len() - 1]));
    if e.location is Some {
        assert(lines[5] == location[0]);
    }
    if e.notes is Some {
        assert(lines[n as int] == notes[0]);
    }
    if e.calendar_title is Some {
        assert(lines[(n + notes.len()) as int] == calendar[0]);
    }
}

} // verus!
