//! The tools that answer with one event.
//!
//! A tool starts with an [`EventStep`]. Each step but the last names one call
//! on the event store; its method takes the store's reply and says what comes
//! next.

use crate::clock::{dates_are_read_where_the_clock_shows_them, datetime_outcome, has_no_point, in_range, minutes_after, parse_datetime, rfc3339, stands_for, zone_offset, LocalDateTime};
use crate::dates::{bad_date, date_given, given_date, opt_outcome, opt_patch, patch_of, read_opt, sets_date, supplied_dates_are_set, supplied_texts_are_written, unless_empty, writes_text, Reading};
use crate::edits::{alarm_edits, count_held, is_place, later_edits, later_edits_are_as_supplied, opt_place_of, place_is_as_supplied, plan_alarms, plan_later, to_place, Edit};
use crate::recurrence::{cannot_recur, rule_is_as_supplied};
use crate::error::{invalid, mcp_err, mcp_invalid, mcp_invalid_because, reports, McpError};
use crate::model::{AlarmInfo, EventAvailability, EventDraft, EventItem, EventPatch, EventSpan, RecurrenceRule, StoreError, StructuredLocation};
use crate::output::{event_shown, EventOutput};
use crate::request::{AlarmParam, CreateEventRequest, EventIdRequest, RecurrenceParam, SetEventAvailabilityRequest, StructuredLocationInput, UpdateEventRequest};
use crate::server::EventKitServer;
use crate::text::opt_view;
use crate::words::{availability_is, availability_is_named_by_its_word, availability_named, bad_availability, bad_span, is_no_availability, parse_availability, parse_span, span_named, spans_are_this_or_future};
use vstd::prelude::*;

verus! {

/// Where a tool stands.
#[derive(Debug)]
pub enum EventStep {
    /// Create an event.
    Create(CreateEvent),
    /// Update an event.
    Update(UpdateEvent),
    /// Set the availability of an event.
    SetAvailability(SetAvailability),
    /// Read the alarms that are to be replaced.
    HeldAlarms(HeldEventAlarms),
    /// Edit a saved event.
    Edit(EditEvent),
    /// Read the event once more.
    Reread(RereadEvent),
    /// Read the event.
    Fetch(FetchEvent),
    /// Read the alarms that the answer shows.
    Alarms(EventAlarms),
    /// Read the recurrence rules that the answer shows.
    Rules(EventRules),
    /// The tool's answer.
    Done(Result<EventOutput, McpError>),
}

/// Wants an event created.
#[derive(Debug)]
pub struct CreateEvent {
    pub draft: EventDraft,
    pub alarms: Option<Vec<AlarmParam>>,
    pub recurrence: Option<RecurrenceParam>,
}

/// Wants an event updated.
#[derive(Debug)]
pub struct UpdateEvent {
    pub id: String,
    pub patch: EventPatch,
    pub alarms: Option<Vec<AlarmParam>>,
    pub recurrence: Option<RecurrenceParam>,
}

/// Wants the availability of an event set.
#[derive(Debug)]
pub struct SetAvailability {
    pub id: String,
    pub availability: EventAvailability,
}

/// Wants the alarms of a saved event.
#[derive(Debug)]
pub struct HeldEventAlarms {
    pub item: EventItem,
    pub alarms: Vec<AlarmParam>,
    pub later: Vec<Edit>,
}

/// Wants one edit of a saved event; the others follow.
#[derive(Debug)]
pub struct EditEvent {
    pub item: EventItem,
    pub edit: Edit,
    pub rest: Vec<Edit>,
}

/// Wants a saved event once more.
#[derive(Debug)]
pub struct RereadEvent {
    pub item: EventItem,
}

/// Wants an event.
#[derive(Debug)]
pub struct FetchEvent {
    pub id: String,
}

/// Wants the alarms of an event.
#[derive(Debug)]
pub struct EventAlarms {
    pub item: EventItem,
}

/// Wants the recurrence rules of an event.
#[derive(Debug)]
pub struct EventRules {
    pub item: EventItem,
    pub alarms: Vec<AlarmInfo>,
}

// ---------------------------------------------------------------------------
// Every tool ends
// ---------------------------------------------------------------------------

impl EventStep {
    /// How many kinds of steps may still follow.
    pub open spec fn phase(self) -> nat {
        match self {
            EventStep::Create(_) | EventStep::Update(_) | EventStep::SetAvailability(_) => 6,
            EventStep::HeldAlarms(_) => 5,
            EventStep::Edit(_) => 4,
            EventStep::Reread(_) | EventStep::Fetch(_) => 3,
            EventStep::Alarms(_) => 2,
            EventStep::Rules(_) => 1,
            EventStep::Done(_) => 0,
        }
    }

    /// How many edits are left behind the one at hand.
    pub open spec fn edits_left(self) -> nat {
        match self {
            EventStep::Edit(s) => s.rest@.len(),
            _ => 0,
        }
    }

    /// This step is nearer to the answer than `before`.
    pub open spec fn nearer_than(self, before: EventStep) -> bool {
        ||| self.phase() < before.phase()
        ||| self.phase() == before.phase() && self.edits_left() < before.edits_left()
    }
}

/// Steps cannot go on for ever: what counts down is a pair of numbers, the
/// kinds of steps to come and the edits to come.
pub proof fn event_steps_end(a: EventStep, b: EventStep)
    requires
        b.nearer_than(a),
    ensures
        decreases_to!(a.phase(), a.edits_left() => b.phase(), b.edits_left()),
        !(a is Done),
{
}

// ---------------------------------------------------------------------------
// The answer
// ---------------------------------------------------------------------------

/// The tool answers with an error of the store.
pub open spec fn failed(step: EventStep, cause: StoreError) -> bool {
    step is Done && step->Done_0 is Err && reports(step->Done_0->Err_0, cause)
}

/// The tool refuses the request.
pub open spec fn refused(step: EventStep, message: Seq<char>) -> bool {
    step is Done && step->Done_0 is Err && invalid(step->Done_0->Err_0, message)
}

/// The tool answers with an error.
pub open spec fn answers_err(step: EventStep, e: McpError) -> bool {
    step == EventStep::Done(Err(e))
}

/// The tool answers with an event, its alarms and its recurrence rules.
pub open spec fn shows(
    step: EventStep,
    item: EventItem,
    alarms: Seq<AlarmInfo>,
    rules: Seq<RecurrenceRule>,
) -> bool {
    step is Done && step->Done_0 is Ok && event_shown(item, alarms, rules, step->Done_0->Ok_0)
}

/// What was read, or nothing where it could not be read.
pub open spec fn or_none<T>(reply: Result<Vec<T>, StoreError>) -> Seq<T> {
    match reply {
        Ok(items) => items@,
        Err(_) => Seq::empty(),
    }
}

/// Shows an event in full: its alarms are read, then its recurrence rules.
pub fn detail_event(item: EventItem) -> (next: EventStep)
    ensures
        next == EventStep::Alarms(EventAlarms { item }),
{
    EventStep::Alarms(EventAlarms { item })
}

impl EventAlarms {
    /// Takes the alarms; alarms that cannot be read are left out.
    pub fn with_alarms(self, reply: Result<Vec<AlarmInfo>, StoreError>) -> (next: EventStep)
        ensures
            next is Rules,
            next->Rules_0.item == self.item,
            next->Rules_0.alarms@ == or_none(reply),
            next.nearer_than(EventStep::Alarms(self)),
    {
        let alarms: Vec<AlarmInfo> = match reply {
            Ok(a) => a,
            Err(_) => Vec::new(),
        };
        EventStep::Rules(EventRules { item: self.item, alarms })
    }
}

impl EventRules {
    /// Takes the recurrence rules; rules that cannot be read are left out.
    pub fn with_rules(self, reply: Result<Vec<RecurrenceRule>, StoreError>) -> (next: EventStep)
        ensures
            shows(next, self.item, self.alarms@, or_none(reply)),
            next.nearer_than(EventStep::Rules(self)),
    {
        let rules: Vec<RecurrenceRule> = match reply {
            Ok(r) => r,
            Err(_) => Vec::new(),
        };
        EventStep::Done(Ok(EventOutput::from_item(&self.item, &self.alarms, &rules)))
    }
}

/// What follows the reply to a fetch: the details of the event, or the store's
/// error as the answer.
pub open spec fn after_fetch(next: EventStep, reply: Result<EventItem, StoreError>) -> bool {
    match reply {
        Ok(item) => next == EventStep::Alarms(EventAlarms { item }),
        Err(e) => failed(next, e),
    }
}

impl FetchEvent {
    /// Takes the event.
    pub fn with_item(self, reply: Result<EventItem, StoreError>) -> (next: EventStep)
        ensures
            after_fetch(next, reply),
            next.nearer_than(EventStep::Fetch(self)),
    {
        match reply {
            Ok(item) => detail_event(item),
            Err(e) => EventStep::Done(Err(mcp_err(&e))),
        }
    }
}

impl RereadEvent {
    /// Takes the event; where it cannot be read, it is shown as it was saved.
    pub fn with_item(self, reply: Result<EventItem, StoreError>) -> (next: EventStep)
        ensures
            match reply {
                Ok(item) => next == EventStep::Alarms(EventAlarms { item }),
                Err(_) => next == EventStep::Alarms(EventAlarms { item: self.item }),
            },
            next.nearer_than(EventStep::Reread(self)),
    {
        match reply {
            Ok(item) => detail_event(item),
            Err(_) => detail_event(self.item),
        }
    }
}

// ---------------------------------------------------------------------------
// Edits of a saved event
// ---------------------------------------------------------------------------

/// The edits are carried out one by one; then the event is read once more.
pub open spec fn edits_next(step: EventStep, item: EventItem, edits: Seq<Edit>) -> bool {
    if edits.len() == 0 {
        step == EventStep::Reread(RereadEvent { item })
    } else {
        &&& step is Edit
        &&& step->Edit_0.item == item
        &&& step->Edit_0.edit == edits[0]
        &&& step->Edit_0.rest@ == edits.drop_first()
    }
}

fn run_edits(item: EventItem, edits: Vec<Edit>) -> (next: EventStep)
    ensures
        edits_next(next, item, edits@),
        next.phase() <= 4,
        next is Edit ==> next.edits_left() < edits@.len(),
{
    if edits.is_empty() {
        EventStep::Reread(RereadEvent { item })
    } else {
        let mut rest: Vec<Edit> = edits;
        let edit: Edit = rest.remove(0);
        assert(rest@ =~= edits@.drop_first());
        EventStep::Edit(EditEvent { item, edit, rest })
    }
}

/// Where there are alarms to set, those that the event has are read first.
pub open spec fn saved_next(
    step: EventStep,
    item: EventItem,
    alarms: Option<Vec<AlarmParam>>,
    later: Seq<Edit>,
) -> bool {
    match alarms {
        Some(params) => {
            &&& step is HeldAlarms
            &&& step->HeldAlarms_0.item == item
            &&& step->HeldAlarms_0.alarms == params
            &&& step->HeldAlarms_0.later@ == later
        },
        None => edits_next(step, item, later),
    }
}

/// What follows the reply to a save.
pub open spec fn after_save(
    step: EventStep,
    reply: Result<EventItem, StoreError>,
    alarms: Option<Vec<AlarmParam>>,
    recurrence: Option<RecurrenceParam>,
    clearable: bool,
) -> bool {
    match reply {
        Ok(item) => exists|later: Seq<Edit>| #[trigger]
            later_edits(None, recurrence, clearable, later) && saved_next(
                step,
                item,
                alarms,
                later,
            ),
        Err(e) => failed(step, e),
    }
}

/// Goes on with a saved event, given the edits that follow those of the
/// alarms.
pub fn follow_save(
    reply: Result<EventItem, StoreError>,
    alarms: Option<Vec<AlarmParam>>,
    later: Vec<Edit>,
) -> (next: EventStep)
    ensures
        match reply {
            Ok(item) => saved_next(next, item, alarms, later@),
            Err(e) => failed(next, e),
        },
        next.phase() <= 5,
{
    match reply {
        Ok(item) => match alarms {
            Some(params) => EventStep::HeldAlarms(
                HeldEventAlarms { item, alarms: params, later },
            ),
            None => run_edits(item, later),
        },
        Err(e) => EventStep::Done(Err(mcp_err(&e))),
    }
}

impl CreateEvent {
    /// Takes the event that was created.
    pub fn with_item(self, reply: Result<EventItem, StoreError>) -> (next: EventStep)
        ensures
            after_save(next, reply, self.alarms, self.recurrence, false),
            next.nearer_than(EventStep::Create(self)),
    {
        let later: Vec<Edit> = plan_later(None, &self.recurrence, false);
        assert(later_edits(None, self.recurrence, false, later@));
        follow_save(reply, self.alarms, later)
    }
}

impl UpdateEvent {
    /// Takes the event that was updated.
    pub fn with_item(self, reply: Result<EventItem, StoreError>) -> (next: EventStep)
        ensures
            after_save(next, reply, self.alarms, self.recurrence, true),
            next.nearer_than(EventStep::Update(self)),
    {
        let later: Vec<Edit> = plan_later(None, &self.recurrence, true);
        assert(later_edits(None, self.recurrence, true, later@));
        follow_save(reply, self.alarms, later)
    }
}

impl HeldEventAlarms {
    /// Takes the alarms that are to be replaced.
    pub fn with_alarms(self, reply: Result<Vec<AlarmInfo>, StoreError>) -> (next: EventStep)
        ensures
            edits_next(
                next,
                self.item,
                alarm_edits(count_held(reply), self.alarms@) + self.later@,
            ),
            next.nearer_than(EventStep::HeldAlarms(self)),
    {
        let mut edits: Vec<Edit> = plan_alarms(&reply, &self.alarms);
        let mut later: Vec<Edit> = self.later;
        edits.append(&mut later);
        run_edits(self.item, edits)
    }
}

impl EditEvent {
    /// Goes on after an edit, which is passed over if it failed.
    pub fn with_reply(self, _reply: Result<(), StoreError>) -> (next: EventStep)
        ensures
            edits_next(next, self.item, self.rest@),
            next.nearer_than(EventStep::Edit(self)),
    {
        run_edits(self.item, self.rest)
    }
}

/// The edits that a step still wants carried out.
pub open spec fn edits_wanted(step: EventStep) -> Seq<Edit> {
    match step {
        EventStep::Edit(s) => seq![s.edit] + s.rest@,
        _ => Seq::empty(),
    }
}

/// Every edit that was planned is wanted once, in the order of the plan, until
/// none is left.
pub proof fn planned_edits_run_in_order(step: EditEvent, next: EventStep)
    requires
        edits_next(next, step.item, step.rest@),
    ensures
        edits_wanted(EventStep::Edit(step))[0] == step.edit,
        edits_wanted(next) == edits_wanted(EventStep::Edit(step)).drop_first(),
{
    assert(edits_wanted(EventStep::Edit(step)).drop_first() =~= step.rest@);
    assert(edits_wanted(next) =~= step.rest@);
}

impl SetAvailability {
    /// Takes the reply to a change of availability.
    pub fn with_reply(self, reply: Result<(), StoreError>) -> (next: EventStep)
        ensures
            match reply {
                Ok(_) => next == EventStep::Fetch(FetchEvent { id: self.id }),
                Err(e) => failed(next, e),
            },
            next.nearer_than(EventStep::SetAvailability(self)),
    {
        match reply {
            Ok(_) => EventStep::Fetch(FetchEvent { id: self.id }),
            Err(e) => EventStep::Done(Err(mcp_err(&e))),
        }
    }
}

// ---------------------------------------------------------------------------
// Availability and span
// ---------------------------------------------------------------------------

/// What a request gets from an availability that may be absent.
pub open spec fn availability_given(
    word: Option<String>,
    r: Result<Option<EventAvailability>, McpError>,
) -> bool {
    match word {
        None => r == Ok::<Option<EventAvailability>, McpError>(None),
        Some(w) => match availability_named(w@) {
            Some(a) => r == Ok::<Option<EventAvailability>, McpError>(Some(a)),
            None => r is Err && invalid(r->Err_0, bad_availability(w@)),
        },
    }
}

/// Reads an availability that may be absent.
pub fn given_availability(word: &Option<String>) -> (r: Result<
    Option<EventAvailability>,
    McpError,
>)
    ensures
        availability_given(*word, r),
{
    match word {
        None => Ok(None),
        Some(w) => match parse_availability(w.as_str()) {
            Ok(a) => Ok(Some(a)),
            Err(m) => Err(mcp_invalid(m)),
        },
    }
}

/// What a request gets from a span that may be absent.
pub open spec fn span_given(word: Option<String>, r: Result<EventSpan, McpError>) -> bool {
    match span_named(opt_view(word)) {
        Some(span) => r == Ok::<EventSpan, McpError>(span),
        None => r is Err && word is Some && invalid(r->Err_0, bad_span(word->0@)),
    }
}

/// Reads a span that may be absent.
pub fn given_span(word: &Option<String>) -> (r: Result<EventSpan, McpError>)
    ensures
        span_given(*word, r),
{
    let read: Result<EventSpan, String> = match word {
        Some(w) => parse_span(Some(w.as_str())),
        None => parse_span(None),
    };
    match read {
        Ok(span) => Ok(span),
        Err(m) => Err(mcp_invalid(m)),
    }
}

// ---------------------------------------------------------------------------
// Creating
// ---------------------------------------------------------------------------

/// The event that a request describes.
pub open spec fn draft_of(
    params: CreateEventRequest,
    start: LocalDateTime,
    end: LocalDateTime,
    availability: Option<EventAvailability>,
) -> EventDraft {
    EventDraft {
        title: params.title,
        start,
        end,
        notes: params.notes,
        location: params.location,
        calendar_title: params.calendar_name,
        all_day: params.all_day,
        URL: params.URL,
        availability,
        structured_location: opt_place_of(params.structured_location),
    }
}

/// How a request starts, given its start and its end.
pub open spec fn create_next(
    step: EventStep,
    params: CreateEventRequest,
    start: LocalDateTime,
    end: LocalDateTime,
) -> bool {
    match params.availability {
        Some(w) if availability_named(w@) is None => refused(step, bad_availability(w@)),
        _ => {
            let availability = match params.availability {
                Some(w) => availability_named(w@),
                None => None,
            };
            step == EventStep::Create(
                CreateEvent {
                    draft: draft_of(params, start, end, availability),
                    alarms: params.alarms,
                    recurrence: params.recurrence,
                },
            )
        },
    }
}

/// Starts to create an event, given its start and its end.
pub fn decide_create(params: CreateEventRequest, start: LocalDateTime, end: LocalDateTime) -> (step:
    EventStep)
    ensures
        create_next(step, params, start, end),
{
    let availability: Option<EventAvailability> = match given_availability(&params.availability) {
        Ok(a) => a,
        Err(e) => return EventStep::Done(Err(e)),
    };
    EventStep::Create(
        CreateEvent {
            draft: EventDraft {
                title: params.title,
                start,
                end,
                notes: params.notes,
                location: params.location,
                calendar_title: params.calendar_name,
                all_day: params.all_day,
                URL: params.URL,
                availability,
                structured_location: to_place(params.structured_location),
            },
            alarms: params.alarms,
            recurrence: params.recurrence,
        },
    )
}

/// How a request may start once its start is read. It does not start at all
/// where its duration leads beyond the range of the clock.
pub open spec fn create_from(
    step: Option<EventStep>,
    params: CreateEventRequest,
    start: LocalDateTime,
) -> bool {
    match params.end {
        Some(text) => exists|read: Result<LocalDateTime, String>| #[trigger]
            datetime_outcome(text@, read) && step is Some && match read {
                Ok(end) => create_next(step->0, params, start, end),
                Err(m) => refused(step->0, "Error: "@ + m@),
            },
        None => if in_range(start.unix_secs() + params.duration_minutes * 60) {
            exists|end: LocalDateTime| #[trigger]
                minutes_after(start, params.duration_minutes, end) && step is Some && create_next(
                    step->0,
                    params,
                    start,
                    end,
                )
        } else {
            step is None
        },
    }
}

/// How a request may start.
pub open spec fn create_outcome(step: Option<EventStep>, params: CreateEventRequest) -> bool {
    exists|read: Result<LocalDateTime, String>| #[trigger]
        datetime_outcome(params.start@, read) && match read {
            Ok(start) => create_from(step, params, start),
            Err(m) => step is Some && refused(step->0, "Error: "@ + m@),
        }
}

// ---------------------------------------------------------------------------
// Updating
// ---------------------------------------------------------------------------

/// The change of place that a request asks for: absent leaves it as it is,
/// nothing clears it.
pub open spec fn place_patch(place: Option<Option<StructuredLocationInput>>) -> Option<
    Option<StructuredLocation>,
> {
    match place {
        Some(p) => Some(opt_place_of(p)),
        None => None,
    }
}

/// The change that a request describes.
pub open spec fn patch_from(
    params: UpdateEventRequest,
    start: Option<LocalDateTime>,
    end: Option<LocalDateTime>,
    availability: Option<EventAvailability>,
    span: EventSpan,
) -> EventPatch {
    EventPatch {
        title: params.title,
        notes: patch_of(params.notes),
        location: patch_of(params.location),
        start,
        end,
        all_day: params.all_day,
        calendar_title: params.calendar_name,
        URL: patch_of(params.URL),
        availability,
        structured_location: place_patch(params.structured_location),
        span,
    }
}

/// How a request starts, given what came of its four words. The start is
/// looked at first, then the end, the availability and the span.
pub open spec fn update_start(
    step: EventStep,
    params: UpdateEventRequest,
    start: Result<Option<LocalDateTime>, McpError>,
    end: Result<Option<LocalDateTime>, McpError>,
    availability: Result<Option<EventAvailability>, McpError>,
    span: Result<EventSpan, McpError>,
) -> bool {
    match (start, end, availability, span) {
        (Err(e), _, _, _) => answers_err(step, e),
        (Ok(_), Err(e), _, _) => answers_err(step, e),
        (Ok(_), Ok(_), Err(e), _) => answers_err(step, e),
        (Ok(_), Ok(_), Ok(_), Err(e)) => answers_err(step, e),
        (Ok(s), Ok(e), Ok(a), Ok(sp)) => step == EventStep::Update(
            UpdateEvent {
                id: params.event_id,
                patch: patch_from(params, s, e, a, sp),
                alarms: params.alarms,
                recurrence: params.recurrence,
            },
        ),
    }
}

/// How a request may start.
pub open spec fn update_outcome(step: EventStep, params: UpdateEventRequest) -> bool {
    exists|
        start_read: Option<Result<LocalDateTime, String>>,
        end_read: Option<Result<LocalDateTime, String>>,
        start: Result<Option<LocalDateTime>, McpError>,
        end: Result<Option<LocalDateTime>, McpError>,
        availability: Result<Option<EventAvailability>, McpError>,
        span: Result<EventSpan, McpError>,
    |
        {
            &&& opt_outcome(Reading::Date, params.start, start_read)
            &&& opt_outcome(Reading::Date, params.end, end_read)
            &&& #[trigger] date_given("Error: "@, start_read, start)
            &&& #[trigger] date_given("Error: "@, end_read, end)
            &&& #[trigger] availability_given(params.availability, availability)
            &&& #[trigger] span_given(params.span, span)
            &&& update_start(step, params, start, end, availability, span)
        }
}

/// Starts an update, given what came of its four words.
pub fn decide_update(
    params: UpdateEventRequest,
    start: Result<Option<LocalDateTime>, McpError>,
    end: Result<Option<LocalDateTime>, McpError>,
    availability: Result<Option<EventAvailability>, McpError>,
    span: Result<EventSpan, McpError>,
) -> (step: EventStep)
    ensures
        update_start(step, params, start, end, availability, span),
{
    let start: Option<LocalDateTime> = match start {
        Ok(s) => s,
        Err(e) => return EventStep::Done(Err(e)),
    };
    let end: Option<LocalDateTime> = match end {
        Ok(t) => t,
        Err(e) => return EventStep::Done(Err(e)),
    };
    let availability: Option<EventAvailability> = match availability {
        Ok(a) => a,
        Err(e) => return EventStep::Done(Err(e)),
    };
    let span: EventSpan = match span {
        Ok(s) => s,
        Err(e) => return EventStep::Done(Err(e)),
    };
    let structured_location: Option<Option<StructuredLocation>> = match params.structured_location {
        Some(p) => Some(to_place(p)),
        None => None,
    };
    EventStep::Update(
        UpdateEvent {
            id: params.event_id,
            patch: EventPatch {
                title: params.title,
                notes: opt_patch(params.notes),
                location: opt_patch(params.location),
                start,
                end,
                all_day: params.all_day,
                calendar_title: params.calendar_name,
                URL: opt_patch(params.URL),
                availability,
                structured_location,
                span,
            },
            alarms: params.alarms,
            recurrence: params.recurrence,
        },
    )
}

/// An update writes the fields that the request supplies and no others, for
/// the occurrences that it names.
pub proof fn update_writes_what_is_supplied(
    params: UpdateEventRequest,
    start_read: Option<Result<LocalDateTime, String>>,
    end_read: Option<Result<LocalDateTime, String>>,
    start: Option<LocalDateTime>,
    end: Option<LocalDateTime>,
    availability: Option<EventAvailability>,
    span: EventSpan,
)
    requires
        opt_outcome(Reading::Date, params.start, start_read),
        opt_outcome(Reading::Date, params.end, end_read),
        date_given("Error: "@, start_read, Ok(start)),
        date_given("Error: "@, end_read, Ok(end)),
        availability_given(params.availability, Ok(availability)),
        span_given(params.span, Ok(span)),
    ensures
        ({
            let patch = patch_from(params, start, end, availability, span);
            &&& patch.title == params.title
            &&& patch.all_day == params.all_day
            &&& patch.calendar_title == params.calendar_name
            &&& patch.start is Some <==> params.start is Some
            &&& patch.end is Some <==> params.end is Some
            &&& patch.availability is Some <==> params.availability is Some
            &&& patch.notes is Some <==> params.notes is Some
            &&& patch.location is Some <==> params.location is Some
            &&& patch.URL is Some <==> params.URL is Some
            &&& patch.structured_location is Some <==> params.structured_location is Some
            &&& params.notes is Some && params.notes->0@.len() == 0 ==> patch.notes == Some(
                None::<String>,
            )
            &&& params.location is Some && params.location->0@.len() == 0 ==> patch.location
                == Some(None::<String>)
            &&& params.URL is Some && params.URL->0@.len() == 0 ==> patch.URL == Some(
                None::<String>,
            )
            &&& params.structured_location == Some(None::<StructuredLocationInput>)
                ==> patch.structured_location == Some(None::<StructuredLocation>)
            &&& params.span is None ==> patch.span == EventSpan::This
        }),
{
}

/// The event holds what a change writes to its title, notes, location, URL,
/// calendar and whether it lasts all day.
pub open spec fn carries(item: EventItem, patch: EventPatch) -> bool {
    &&& patch.title is Some ==> item.title == patch.title->0
    &&& patch.notes is Some ==> item.notes == patch.notes->0
    &&& patch.location is Some ==> item.location == patch.location->0
    &&& patch.URL is Some ==> item.URL == patch.URL->0
    &&& patch.calendar_title is Some ==> item.calendar_title == patch.calendar_title
    &&& patch.all_day is Some ==> item.all_day == patch.all_day->0
}

/// An update is read back: where the store holds what the update wrote, a tool
/// that then shows the event answers with what the request supplied. A text
/// that was supplied empty is absent.
pub proof fn update_is_read_back(
    params: UpdateEventRequest,
    start: Option<LocalDateTime>,
    end: Option<LocalDateTime>,
    availability: Option<EventAvailability>,
    span: EventSpan,
    item: EventItem,
    alarms: Seq<AlarmInfo>,
    rules: Seq<RecurrenceRule>,
    answer: EventStep,
)
    requires
        carries(item, patch_from(params, start, end, availability, span)),
        shows(answer, item, alarms, rules),
    ensures
        answer is Done,
        answer->Done_0 is Ok,
        ({
            let shown = answer->Done_0->Ok_0;
            &&& params.title is Some ==> shown.title == params.title->0
            &&& params.notes is Some ==> shown.notes == unless_empty(params.notes)
            &&& params.location is Some ==> shown.location == unless_empty(params.location)
            &&& params.URL is Some ==> shown.URL == unless_empty(params.URL)
            &&& params.calendar_name is Some ==> shown.calendar_name == params.calendar_name
            &&& params.all_day is Some ==> shown.all_day == params.all_day->0
        }),
{
}

// ---------------------------------------------------------------------------
// The tools
// ---------------------------------------------------------------------------

impl EventKitServer {
    /// Creates an event. Nothing starts where the duration leads beyond the
    /// range of the clock.
    pub fn create_event(&self, params: CreateEventRequest) -> (step: Option<EventStep>)
        ensures
            create_outcome(step, params),
    {
        let start_read: Result<LocalDateTime, String> = parse_datetime(params.start.as_str());
        assert(datetime_outcome(params.start@, start_read));
        let start: LocalDateTime = match start_read {
            Ok(s) => s,
            Err(m) => return Some(
                EventStep::Done(Err(mcp_invalid_because("Error: ", m.as_str()))),
            ),
        };
        let end: LocalDateTime = match &params.end {
            Some(text) => {
                let end_read: Result<LocalDateTime, String> = parse_datetime(text.as_str());
                assert(datetime_outcome(text@, end_read));
                match end_read {
                    Ok(e) => e,
                    Err(m) => return Some(
                        EventStep::Done(Err(mcp_invalid_because("Error: ", m.as_str()))),
                    ),
                }
            },
            None => match start.plus_minutes(params.duration_minutes) {
                Some(e) => e,
                None => return None,
            },
        };
        let step: EventStep = decide_create(params, start, end);
        proof {
            let read: Result<LocalDateTime, String> = Ok(end);
            assert(params.end is Some ==> datetime_outcome(params.end->0@, read));
            assert(params.end is None ==> minutes_after(start, params.duration_minutes, end));
            assert(create_from(Some(step), params, start));
        }
        Some(step)
    }

    /// Updates an event.
    pub fn update_event(&self, params: UpdateEventRequest) -> (step: EventStep)
        ensures
            update_outcome(step, params),
    {
        let start_read: Option<Result<LocalDateTime, String>> = read_opt(
            Reading::Date,
            &params.start,
        );
        let end_read: Option<Result<LocalDateTime, String>> = read_opt(Reading::Date, &params.end);
        let ghost sr = start_read;
        let ghost er = end_read;
        let start: Result<Option<LocalDateTime>, McpError> = given_date("Error: ", start_read);
        let end: Result<Option<LocalDateTime>, McpError> = given_date("Error: ", end_read);
        let availability: Result<Option<EventAvailability>, McpError> = given_availability(
            &params.availability,
        );
        let span: Result<EventSpan, McpError> = given_span(&params.span);
        let ghost s = start;
        let ghost e = end;
        let ghost a = availability;
        let ghost sp = span;
        let step: EventStep = decide_update(params, start, end, availability, span);
        assert(date_given("Error: "@, sr, s));
        assert(date_given("Error: "@, er, e));
        assert(availability_given(params.availability, a));
        assert(span_given(params.span, sp));
        step
    }

    /// Shows an event.
    pub fn get_event(&self, params: EventIdRequest) -> (step: EventStep)
        ensures
            step == EventStep::Fetch(FetchEvent { id: params.event_id }),
    {
        EventStep::Fetch(FetchEvent { id: params.event_id })
    }

    /// Sets the availability of an event.
    pub fn set_event_availability(&self, params: SetEventAvailabilityRequest) -> (step: EventStep)
        ensures
            match availability_named(params.availability@) {
                Some(availability) => step == EventStep::SetAvailability(
                    SetAvailability { id: params.event_id, availability },
                ),
                None => refused(step, bad_availability(params.availability@)),
            },
    {
        match parse_availability(params.availability.as_str()) {
            Ok(availability) => EventStep::SetAvailability(
                SetAvailability { id: params.event_id, availability },
            ),
            Err(m) => EventStep::Done(Err(mcp_invalid(m))),
        }
    }
}

// ---------------------------------------------------------------------------
// What a request asks for is what is done
// ---------------------------------------------------------------------------

/// An event is created as it is requested: with the texts, the availability and
/// the place that are supplied, from the point that its start means to the
/// point that its end means or, without an end, for as many minutes as it
/// lasts. Its alarms and its recurrence go with it.
pub proof fn event_is_created_as_requested(step: EventStep, params: CreateEventRequest)
    requires
        create_outcome(Some(step), params),
        step is Create,
    ensures
        ({
            let draft = step->Create_0.draft;
            &&& draft.title == params.title
            &&& draft.notes == params.notes
            &&& draft.location == params.location
            &&& draft.calendar_title == params.calendar_name
            &&& draft.all_day == params.all_day
            &&& draft.URL == params.URL
            &&& stands_for(params.start@, draft.start)
            &&& params.end matches Some(text) ==> stands_for(text@, draft.end)
            &&& params.end is None ==> draft.end.unix_secs() - draft.start.unix_secs()
                == params.duration_minutes * 60 && zone_offset(draft.end)
            &&& availability_is(opt_view(params.availability), draft.availability)
            &&& (draft.structured_location is Some <==> params.structured_location is Some)
            &&& params.structured_location matches Some(p) ==> is_place(
                draft.structured_location->0,
                p.title@,
                p.latitude,
                p.longitude,
                p.radius_meters,
            )
            &&& step->Create_0.alarms == params.alarms
            &&& step->Create_0.recurrence == params.recurrence
        }),
{
    let read = choose|read: Result<LocalDateTime, String>| #[trigger]
        datetime_outcome(params.start@, read) && match read {
            Ok(start) => create_from(Some(step), params, start),
            Err(m) => refused(step, "Error: "@ + m@),
        };
    dates_are_read_where_the_clock_shows_them(params.start@, read);
    if let Some(text) = params.end {
        let end = choose|end: Result<LocalDateTime, String>| #[trigger]
            datetime_outcome(text@, end) && match end {
                Ok(e) => create_next(step, params, read->Ok_0, e),
                Err(m) => refused(step, "Error: "@ + m@),
            };
        dates_are_read_where_the_clock_shows_them(text@, end);
    }
    if let Some(w) = params.availability {
        availability_is_named_by_its_word(w@);
    }
    place_is_as_supplied(params.structured_location);
}

/// An event is created unless its start or its end means no point, its
/// availability is none, or its length leads beyond the range of the clock:
/// nothing else about a request keeps it from being created, and what is not
/// created is answered with an error.
pub proof fn event_is_created_unless_it_cannot_be_read(
    step: Option<EventStep>,
    params: CreateEventRequest,
)
    requires
        create_outcome(step, params),
        !(step is Some && step->0 is Create),
    ensures
        step is Some ==> step->0 is Done && step->0->Done_0 is Err,
        step is Some ==> has_no_point(params.start@) || params.end is Some && has_no_point(
            params.end->0@,
        ) || is_no_availability(opt_view(params.availability)),
        step is None ==> params.end is None && exists|start: LocalDateTime|
            #[trigger] stands_for(params.start@, start) && !in_range(
                start.unix_secs() + params.duration_minutes * 60,
            ),
{
    let read = choose|read: Result<LocalDateTime, String>| #[trigger]
        datetime_outcome(params.start@, read) && match read {
            Ok(start) => create_from(step, params, start),
            Err(m) => step is Some && refused(step->0, "Error: "@ + m@),
        };
    dates_are_read_where_the_clock_shows_them(params.start@, read);
    if read is Ok {
        assert(stands_for(params.start@, read->Ok_0));
        if let Some(text) = params.end {
            let end = choose|end: Result<LocalDateTime, String>| #[trigger]
                datetime_outcome(text@, end) && step is Some && match end {
                    Ok(e) => create_next(step->0, params, read->Ok_0, e),
                    Err(m) => refused(step->0, "Error: "@ + m@),
                };
            dates_are_read_where_the_clock_shows_them(text@, end);
        }
    }
    if let Some(w) = params.availability {
        availability_is_named_by_its_word(w@);
    }
}

proof fn lemma_update_read(step: EventStep, params: UpdateEventRequest) -> (given: (
    Result<Option<LocalDateTime>, McpError>,
    Result<Option<LocalDateTime>, McpError>,
    Result<Option<EventAvailability>, McpError>,
    Result<EventSpan, McpError>,
))
    requires
        update_outcome(step, params),
    ensures
        update_start(step, params, given.0, given.1, given.2, given.3),
        given.0 matches Ok(set) ==> sets_date(Reading::Date, params.start, set),
        given.0 is Err ==> bad_date(Reading::Date, params.start),
        given.1 matches Ok(set) ==> sets_date(Reading::Date, params.end, set),
        given.1 is Err ==> bad_date(Reading::Date, params.end),
        given.2 matches Ok(a) ==> availability_is(opt_view(params.availability), a),
        given.2 is Err ==> is_no_availability(opt_view(params.availability)),
        span_given(params.span, given.3),
{
    let (start_read, end_read, start, end, availability, span) = choose|
        start_read: Option<Result<LocalDateTime, String>>,
        end_read: Option<Result<LocalDateTime, String>>,
        start: Result<Option<LocalDateTime>, McpError>,
        end: Result<Option<LocalDateTime>, McpError>,
        availability: Result<Option<EventAvailability>, McpError>,
        span: Result<EventSpan, McpError>,
    |
        {
            &&& opt_outcome(Reading::Date, params.start, start_read)
            &&& opt_outcome(Reading::Date, params.end, end_read)
            &&& #[trigger] date_given("Error: "@, start_read, start)
            &&& #[trigger] date_given("Error: "@, end_read, end)
            &&& #[trigger] availability_given(params.availability, availability)
            &&& #[trigger] span_given(params.span, span)
            &&& update_start(step, params, start, end, availability, span)
        };
    supplied_dates_are_set(Reading::Date, "Error: "@, params.start, start_read, start);
    supplied_dates_are_set(Reading::Date, "Error: "@, params.end, end_read, end);
    if let Some(w) = params.availability {
        availability_is_named_by_its_word(w@);
    }
    (start, end, availability, span)
}

/// An update writes what is supplied and nothing else, to the event that is
/// named, for the occurrences that are named. An empty text clears.
pub proof fn event_is_updated_as_requested(step: EventStep, params: UpdateEventRequest)
    requires
        update_outcome(step, params),
        step is Update,
    ensures
        ({
            let patch = step->Update_0.patch;
            &&& step->Update_0.id == params.event_id
            &&& patch.title == params.title
            &&& writes_text(params.notes, patch.notes)
            &&& writes_text(params.location, patch.location)
            &&& writes_text(params.URL, patch.URL)
            &&& sets_date(Reading::Date, params.start, patch.start)
            &&& sets_date(Reading::Date, params.end, patch.end)
            &&& patch.all_day == params.all_day
            &&& patch.calendar_title == params.calendar_name
            &&& availability_is(opt_view(params.availability), patch.availability)
            &&& (patch.structured_location is Some <==> params.structured_location is Some)
            &&& params.structured_location is Some ==> (patch.structured_location->0 is Some
                <==> params.structured_location->0 is Some)
            &&& params.structured_location is Some && params.structured_location->0 is Some ==> {
                let p = params.structured_location->0->0;
                is_place(
                    patch.structured_location->0->0,
                    p.title@,
                    p.latitude,
                    p.longitude,
                    p.radius_meters,
                )
            }
            &&& (patch.span is Future <==> opt_view(params.span) == Some("future"@))
            &&& step->Update_0.alarms == params.alarms
            &&& step->Update_0.recurrence == params.recurrence
        }),
{
    let given = lemma_update_read(step, params);
    supplied_texts_are_written(params.notes);
    supplied_texts_are_written(params.location);
    supplied_texts_are_written(params.URL);
    spans_are_this_or_future(opt_view(params.span));
    if let Some(p) = params.structured_location {
        place_is_as_supplied(p);
    }
}

/// An event is updated unless one of its dates means no point, its
/// availability is none or its span is none: nothing else about a request keeps
/// it from being updated, and what is not updated is answered with an error.
pub proof fn event_is_updated_unless_it_cannot_be_read(step: EventStep, params: UpdateEventRequest)
    requires
        update_outcome(step, params),
        !(step is Update),
    ensures
        step is Done && step->Done_0 is Err,
        bad_date(Reading::Date, params.start) || bad_date(Reading::Date, params.end)
            || is_no_availability(opt_view(params.availability)) || params.span is Some
            && params.span->0@ != "this"@ && params.span->0@ != "future"@,
{
    let given = lemma_update_read(step, params);
    spans_are_this_or_future(opt_view(params.span));
}

/// What follows a save is shown for the event that was saved. The alarms that
/// are supplied are set first, then the recurrence that is supplied; where
/// neither is supplied nothing is edited.
pub proof fn saved_event_gets_its_edits(
    step: EventStep,
    item: EventItem,
    alarms: Option<Vec<AlarmParam>>,
    recurrence: Option<RecurrenceParam>,
    clearable: bool,
)
    requires
        after_save(step, Ok(item), alarms, recurrence, clearable),
    ensures
        alarms matches Some(params) ==> {
            &&& step is HeldAlarms
            &&& step->HeldAlarms_0.item == item
            &&& step->HeldAlarms_0.alarms == params
            &&& later_edits(None, recurrence, clearable, step->HeldAlarms_0.later@)
        },
        alarms is None ==> {
            &&& step is Edit || step is Reread
            &&& later_edits(None, recurrence, clearable, edits_wanted(step))
            &&& step is Edit ==> step->Edit_0.item == item
            &&& step is Reread ==> step->Reread_0.item == item
        },
        alarms is None && recurrence is None ==> step is Reread,
{
    let later = choose|later: Seq<Edit>| #[trigger]
        later_edits(None, recurrence, clearable, later) && saved_next(step, item, alarms, later);
    if alarms is None {
        assert(edits_wanted(step) =~= later);
    }
}

/// Where a recurrence is supplied that describes a rule, the saved event is
/// given that rule: the last edit that is wanted sets it.
pub proof fn saved_event_recurs_as_requested(
    step: EventStep,
    item: EventItem,
    recurrence: RecurrenceParam,
    clearable: bool,
)
    requires
        after_save(step, Ok(item), None, Some(recurrence), clearable),
        recurrence.frequency@.len() > 0,
        !cannot_recur(recurrence),
    ensures
        edits_wanted(step).len() > 0,
        edits_wanted(step).last() is SetRecurrence,
        rule_is_as_supplied(recurrence, edits_wanted(step).last()->SetRecurrence_0),
{
    saved_event_gets_its_edits(step, item, None, Some(recurrence), clearable);
    later_edits_are_as_supplied(None, Some(recurrence), clearable, edits_wanted(step));
}

/// The event holds what it was created with.
pub open spec fn was_created(item: EventItem, draft: EventDraft) -> bool {
    &&& item.title == draft.title
    &&& item.notes == draft.notes
    &&& item.location == draft.location
    &&& item.URL == draft.URL
    &&& item.all_day == draft.all_day
    &&& item.start_date == draft.start
    &&& item.end_date == draft.end
    &&& draft.calendar_title is Some ==> item.calendar_title == draft.calendar_title
    &&& draft.availability is Some ==> item.availability == draft.availability->0
    &&& item.structured_location == draft.structured_location
}

/// A created event is read back: where the store holds what was created, a
/// tool that then shows the event answers with what the request supplied.
pub proof fn created_event_is_read_back(
    step: EventStep,
    params: CreateEventRequest,
    item: EventItem,
    alarms: Seq<AlarmInfo>,
    rules: Seq<RecurrenceRule>,
    answer: EventStep,
)
    requires
        create_outcome(Some(step), params),
        step is Create,
        was_created(item, step->Create_0.draft),
        shows(answer, item, alarms, rules),
    ensures
        answer is Done,
        answer->Done_0 is Ok,
        ({
            let shown = answer->Done_0->Ok_0;
            &&& shown.id == item.identifier
            &&& shown.title == params.title
            &&& shown.notes == params.notes
            &&& shown.location == params.location
            &&& shown.URL == params.URL
            &&& shown.all_day == params.all_day
            &&& params.calendar_name is Some ==> shown.calendar_name == params.calendar_name
            &&& params.availability matches Some(w) ==> shown.availability@ == w@
            &&& shown.start@ == rfc3339(
                item.start_date.unix_secs(),
                item.start_date.sub_nanos(),
                item.start_date.utc_offset(),
            )
            &&& stands_for(params.start@, item.start_date)
            &&& shown.end@ == rfc3339(
                item.end_date.unix_secs(),
                item.end_date.sub_nanos(),
                item.end_date.utc_offset(),
            )
            &&& (shown.structured_location is Some <==> params.structured_location is Some)
            &&& params.structured_location matches Some(p) ==> {
                let place = shown.structured_location->0;
                &&& place.title@ == p.title@
                &&& place.latitude == p.latitude
                &&& place.longitude == p.longitude
                &&& place.radius_meters == p.radius_meters
            }
        }),
{
    event_is_created_as_requested(step, params);
}

/// The edits that follow one another are edits of the same event, and it is
/// that event which is read once more.
pub proof fn edits_stay_with_their_event(step: EditEvent, next: EventStep)
    requires
        edits_next(next, step.item, step.rest@),
    ensures
        next is Edit <==> step.rest@.len() > 0,
        next is Edit ==> next->Edit_0.item == step.item && next->Edit_0.edit == step.rest@[0],
        next is Reread <==> step.rest@.len() == 0,
        next is Reread ==> next->Reread_0.item == step.item,
{
}

} // verus!
