//! The tools that answer with one reminder.
//!
//! A tool starts with a [`ReminderStep`]. Each step but the last names one call
//! on the event store; its method takes the store's reply and says what comes
//! next.

use crate::clock::{rfc3339, LocalDateTime};
use crate::dates::{bad_date, bad_patch, date_given, drop_empty, given_date, given_patch, means, opt_outcome, opt_patch, patch_given, patch_of, patch_outcome, read_opt, read_patch, sets_date, supplied_dates_are_set, supplied_dates_are_written, supplied_texts_are_written, unless_empty, writes_date, writes_text, Reading};
use crate::edits::{alarm_edits, count_held, geofence_of, later_edits, later_edits_are_as_supplied, plan_alarms, plan_later, to_geofence, Edit};
use crate::error::{invalid, mcp_err, mcp_invalid, mcp_invalid_because, reports, McpError};
use crate::lists::{a_list_is_known_by_its_title, has_title, knows_title, missing_list, missing_list_text};
use crate::model::{AlarmInfo, AlarmProximity, CalendarInfo, RecurrenceRule, ReminderDraft, ReminderItem, ReminderPatch, StoreError, StructuredLocation};
use crate::output::{reminder_shown, ReminderOutput};
use crate::recurrence::{cannot_recur, rule_is_as_supplied};
use crate::request::{AlarmParam, CreateReminderRequest, GeofenceInput, RecurrenceParam, ReminderIdRequest, SetReminderDueTimezoneRequest, SetReminderGeofenceRequest, UpdateReminderRequest};
use crate::server::EventKitServer;
use crate::words::{opt_priority_number, priority_is, priority_name, priority_round_trip, priority_value};
use vstd::prelude::*;

verus! {

/// Where a tool stands.
#[derive(Debug)]
pub enum ReminderStep {
    /// List the reminder lists, to create a reminder in one of them.
    FindList(FindList),
    /// List the reminder lists, to see that one exists.
    CheckList(CheckList),
    /// Create a reminder.
    Create(CreateReminder),
    /// Update a reminder.
    Update(UpdateReminder),
    /// Change one thing about a reminder.
    Change(ChangeReminder),
    /// Read the alarms that are to be replaced.
    HeldAlarms(HeldAlarms),
    /// Edit a saved reminder.
    Edit(EditReminder),
    /// Read the reminder once more.
    Reread(RereadReminder),
    /// Read the reminder.
    Fetch(FetchReminder),
    /// Read the alarms that the answer shows.
    Alarms(ReminderAlarms),
    /// Read the recurrence rules that the answer shows.
    Rules(ReminderRules),
    /// The tool's answer.
    Done(Result<ReminderOutput, McpError>),
}

/// Wants the reminder lists.
#[derive(Debug)]
pub struct FindList {
    pub params: CreateReminderRequest,
}

/// Wants the reminder lists; `update` is what follows if one has the name.
#[derive(Debug)]
pub struct CheckList {
    pub list_name: String,
    pub update: Result<UpdateReminder, McpError>,
}

/// Wants a reminder created.
#[derive(Debug)]
pub struct CreateReminder {
    pub draft: ReminderDraft,
    pub alarms: Option<Vec<AlarmParam>>,
    pub geofence: Option<GeofenceInput>,
    pub recurrence: Option<RecurrenceParam>,
}

/// Wants a reminder updated.
#[derive(Debug)]
pub struct UpdateReminder {
    pub id: String,
    pub patch: ReminderPatch,
    pub alarms: Option<Vec<AlarmParam>>,
    pub recurrence: Option<RecurrenceParam>,
}

/// One thing to change about a reminder.
#[derive(PartialEq, Eq, Debug)]
pub enum ReminderChange {
    /// Set the due date's timezone, or clear it.
    DueTimezone(Option<String>),
    /// Attach a geofence, or clear it.
    Geofence(Option<(StructuredLocation, AlarmProximity)>),
    /// Mark the reminder completed.
    Complete,
    /// Mark the reminder not completed.
    Uncomplete,
}

/// Wants one thing about a reminder changed.
#[derive(Debug)]
pub struct ChangeReminder {
    pub id: String,
    pub change: ReminderChange,
}

/// Wants the alarms of a saved reminder.
#[derive(Debug)]
pub struct HeldAlarms {
    pub item: ReminderItem,
    pub alarms: Vec<AlarmParam>,
    pub later: Vec<Edit>,
}

/// Wants one edit of a saved reminder; the others follow.
#[derive(Debug)]
pub struct EditReminder {
    pub item: ReminderItem,
    pub edit: Edit,
    pub rest: Vec<Edit>,
}

/// Wants a saved reminder once more.
#[derive(Debug)]
pub struct RereadReminder {
    pub item: ReminderItem,
}

/// Wants a reminder.
#[derive(Debug)]
pub struct FetchReminder {
    pub id: String,
}

/// Wants the alarms of a reminder.
#[derive(Debug)]
pub struct ReminderAlarms {
    pub item: ReminderItem,
}

/// Wants the recurrence rules of a reminder.
#[derive(Debug)]
pub struct ReminderRules {
    pub item: ReminderItem,
    pub alarms: Vec<AlarmInfo>,
}

// ---------------------------------------------------------------------------
// Every tool ends
// ---------------------------------------------------------------------------

impl ReminderStep {
    /// How many kinds of steps may still follow.
    pub open spec fn phase(self) -> nat {
        match self {
            ReminderStep::FindList(_) | ReminderStep::CheckList(_) => 7,
            ReminderStep::Create(_) | ReminderStep::Update(_) | ReminderStep::Change(_) => 6,
            ReminderStep::HeldAlarms(_) => 5,
            ReminderStep::Edit(_) => 4,
            ReminderStep::Reread(_) | ReminderStep::Fetch(_) => 3,
            ReminderStep::Alarms(_) => 2,
            ReminderStep::Rules(_) => 1,
            ReminderStep::Done(_) => 0,
        }
    }

    /// How many edits are left behind the one at hand.
    pub open spec fn edits_left(self) -> nat {
        match self {
            ReminderStep::Edit(s) => s.rest@.len(),
            _ => 0,
        }
    }

    /// This step is nearer to the answer than `before`.
    pub open spec fn nearer_than(self, before: ReminderStep) -> bool {
        ||| self.phase() < before.phase()
        ||| self.phase() == before.phase() && self.edits_left() < before.edits_left()
    }
}

/// Steps cannot go on for ever: what counts down is a pair of numbers, the
/// kinds of steps to come and the edits to come.
pub proof fn reminder_steps_end(a: ReminderStep, b: ReminderStep)
    requires
        b.nearer_than(a),
    ensures
        decreases_to!(a.phase(), a.edits_left() => b.phase(), b.edits_left()),
        !(a is Done),
{
}

// ---------------------------------------------------------------------------
// The answer
// ---------------------------------------------------------------------------

/// The tool answers with an error of the store.
pub open spec fn failed(step: ReminderStep, cause: StoreError) -> bool {
    step is Done && step->Done_0 is Err && reports(step->Done_0->Err_0, cause)
}

/// The tool refuses the request.
pub open spec fn refused(step: ReminderStep, message: Seq<char>) -> bool {
    step is Done && step->Done_0 is Err && invalid(step->Done_0->Err_0, message)
}

/// The tool answers with an error.
pub open spec fn answers_err(step: ReminderStep, e: McpError) -> bool {
    step == ReminderStep::Done(Err(e))
}

/// The tool answers with a reminder, its alarms and its recurrence rules.
pub open spec fn shows(
    step: ReminderStep,
    item: ReminderItem,
    alarms: Seq<AlarmInfo>,
    rules: Seq<RecurrenceRule>,
) -> bool {
    step is Done && step->Done_0 is Ok && reminder_shown(item, alarms, rules, step->Done_0->Ok_0)
}

/// The recurrence rules are read, if the reminder has any.
pub open spec fn rules_next(
    step: ReminderStep,
    item: ReminderItem,
    alarms: Seq<AlarmInfo>,
) -> bool {
    if item.has_recurrence_rules {
        step is Rules && step->Rules_0.item == item && step->Rules_0.alarms@ == alarms
    } else {
        shows(step, item, alarms, Seq::empty())
    }
}

/// The alarms are read, if the reminder has any.
pub open spec fn detail_next(step: ReminderStep, item: ReminderItem) -> bool {
    if item.has_alarms {
        step is Alarms && step->Alarms_0.item == item
    } else {
        rules_next(step, item, Seq::empty())
    }
}

fn show_rest(item: ReminderItem, alarms: Vec<AlarmInfo>) -> (next: ReminderStep)
    ensures
        rules_next(next, item, alarms@),
        next.phase() <= 1,
{
    if item.has_recurrence_rules {
        ReminderStep::Rules(ReminderRules { item, alarms })
    } else {
        let none: Vec<RecurrenceRule> = Vec::new();
        ReminderStep::Done(Ok(ReminderOutput::from_item(&item, &alarms, &none)))
    }
}

/// Shows a reminder in full.
pub fn detail_reminder(item: ReminderItem) -> (next: ReminderStep)
    ensures
        detail_next(next, item),
        next.phase() <= 2,
{
    if item.has_alarms {
        ReminderStep::Alarms(ReminderAlarms { item })
    } else {
        show_rest(item, Vec::new())
    }
}

/// What was read, or nothing where it could not be read.
pub open spec fn or_none<T>(reply: Result<Vec<T>, StoreError>) -> Seq<T> {
    match reply {
        Ok(items) => items@,
        Err(_) => Seq::empty(),
    }
}

impl ReminderAlarms {
    /// Takes the alarms; alarms that cannot be read are left out.
    pub fn with_alarms(self, reply: Result<Vec<AlarmInfo>, StoreError>) -> (next: ReminderStep)
        ensures
            rules_next(next, self.item, or_none(reply)),
            next.nearer_than(ReminderStep::Alarms(self)),
    {
        let alarms: Vec<AlarmInfo> = match reply {
            Ok(a) => a,
            Err(_) => Vec::new(),
        };
        show_rest(self.item, alarms)
    }
}

impl ReminderRules {
    /// Takes the recurrence rules; rules that cannot be read are left out.
    pub fn with_rules(self, reply: Result<Vec<RecurrenceRule>, StoreError>) -> (next: ReminderStep)
        ensures
            shows(next, self.item, self.alarms@, or_none(reply)),
            next.nearer_than(ReminderStep::Rules(self)),
    {
        let rules: Vec<RecurrenceRule> = match reply {
            Ok(r) => r,
            Err(_) => Vec::new(),
        };
        ReminderStep::Done(Ok(ReminderOutput::from_item(&self.item, &self.alarms, &rules)))
    }
}

impl FetchReminder {
    /// Takes the reminder.
    pub fn with_item(self, reply: Result<ReminderItem, StoreError>) -> (next: ReminderStep)
        ensures
            match reply {
                Ok(item) => detail_next(next, item),
                Err(e) => failed(next, e),
            },
            next.nearer_than(ReminderStep::Fetch(self)),
    {
        match reply {
            Ok(item) => detail_reminder(item),
            Err(e) => ReminderStep::Done(Err(mcp_err(&e))),
        }
    }
}

impl RereadReminder {
    /// Takes the reminder; where it cannot be read, it is shown as it was
    /// saved.
    pub fn with_item(self, reply: Result<ReminderItem, StoreError>) -> (next: ReminderStep)
        ensures
            match reply {
                Ok(item) => detail_next(next, item),
                Err(_) => detail_next(next, self.item),
            },
            next.nearer_than(ReminderStep::Reread(self)),
    {
        match reply {
            Ok(item) => detail_reminder(item),
            Err(_) => detail_reminder(self.item),
        }
    }
}

// ---------------------------------------------------------------------------
// Edits of a saved reminder
// ---------------------------------------------------------------------------

/// The edits are carried out one by one; then the reminder is read once more.
pub open spec fn edits_next(step: ReminderStep, item: ReminderItem, edits: Seq<Edit>) -> bool {
    if edits.len() == 0 {
        step == ReminderStep::Reread(RereadReminder { item })
    } else {
        &&& step is Edit
        &&& step->Edit_0.item == item
        &&& step->Edit_0.edit == edits[0]
        &&& step->Edit_0.rest@ == edits.drop_first()
    }
}

fn run_edits(item: ReminderItem, edits: Vec<Edit>) -> (next: ReminderStep)
    ensures
        edits_next(next, item, edits@),
        next.phase() <= 4,
        next is Edit ==> next.edits_left() < edits@.len(),
{
    if edits.is_empty() {
        ReminderStep::Reread(RereadReminder { item })
    } else {
        let mut rest: Vec<Edit> = edits;
        let edit: Edit = rest.remove(0);
        assert(rest@ =~= edits@.drop_first());
        ReminderStep::Edit(EditReminder { item, edit, rest })
    }
}

/// Where there are alarms to set, those that the reminder has are read first.
pub open spec fn saved_next(
    step: ReminderStep,
    item: ReminderItem,
    alarms: Option<Vec<AlarmParam>>,
    later: Seq<Edit>,
) -> bool {
    match alarms {
        Some(params) => {
            &&& step is HeldAlarms
            &&& step->HeldAlarms_0.item == item
            &&& step->HeldAlarms_0.alarms == params
            &&& step->HeldAlarms_0.later@ == later
        },
        None => edits_next(step, item, later),
    }
}

/// What follows the reply to a save.
pub open spec fn after_save(
    step: ReminderStep,
    reply: Result<ReminderItem, StoreError>,
    alarms: Option<Vec<AlarmParam>>,
    geofence: Option<GeofenceInput>,
    recurrence: Option<RecurrenceParam>,
    clearable: bool,
) -> bool {
    match reply {
        Ok(item) => exists|later: Seq<Edit>| #[trigger]
            later_edits(geofence, recurrence, clearable, later) && saved_next(
                step,
                item,
                alarms,
                later,
            ),
        Err(e) => failed(step, e),
    }
}

/// Goes on with a saved reminder, given the edits that follow those of the
/// alarms.
pub fn follow_save(
    reply: Result<ReminderItem, StoreError>,
    alarms: Option<Vec<AlarmParam>>,
    later: Vec<Edit>,
) -> (next: ReminderStep)
    ensures
        match reply {
            Ok(item) => saved_next(next, item, alarms, later@),
            Err(e) => failed(next, e),
        },
        next.phase() <= 5,
{
    match reply {
        Ok(item) => match alarms {
            Some(params) => ReminderStep::HeldAlarms(HeldAlarms { item, alarms: params, later }),
            None => run_edits(item, later),
        },
        Err(e) => ReminderStep::Done(Err(mcp_err(&e))),
    }
}

impl CreateReminder {
    /// Takes the reminder that was created.
    pub fn with_item(self, reply: Result<ReminderItem, StoreError>) -> (next: ReminderStep)
        ensures
            after_save(next, reply, self.alarms, self.geofence, self.recurrence, false),
            next.nearer_than(ReminderStep::Create(self)),
    {
        let later: Vec<Edit> = plan_later(self.geofence, &self.recurrence, false);
        assert(later_edits(self.geofence, self.recurrence, false, later@));
        follow_save(reply, self.alarms, later)
    }
}

impl UpdateReminder {
    /// Takes the reminder that was updated.
    pub fn with_item(self, reply: Result<ReminderItem, StoreError>) -> (next: ReminderStep)
        ensures
            after_save(next, reply, self.alarms, None, self.recurrence, true),
            next.nearer_than(ReminderStep::Update(self)),
    {
        let later: Vec<Edit> = plan_later(None, &self.recurrence, true);
        assert(later_edits(None, self.recurrence, true, later@));
        follow_save(reply, self.alarms, later)
    }
}

impl HeldAlarms {
    /// Takes the alarms that are to be replaced.
    pub fn with_alarms(self, reply: Result<Vec<AlarmInfo>, StoreError>) -> (next: ReminderStep)
        ensures
            edits_next(
                next,
                self.item,
                alarm_edits(count_held(reply), self.alarms@) + self.later@,
            ),
            next.nearer_than(ReminderStep::HeldAlarms(self)),
    {
        let mut edits: Vec<Edit> = plan_alarms(&reply, &self.alarms);
        let mut later: Vec<Edit> = self.later;
        edits.append(&mut later);
        run_edits(self.item, edits)
    }
}

impl EditReminder {
    /// Takes the reply to an edit. A geofence that could not be attached ends
    /// the tool; any other edit that failed is passed over.
    pub fn with_reply(self, reply: Result<(), StoreError>) -> (next: ReminderStep)
        ensures
            match reply {
                Err(e) if self.edit is SetGeofence => failed(next, e),
                _ => edits_next(next, self.item, self.rest@),
            },
            next.nearer_than(ReminderStep::Edit(self)),
    {
        if let Err(e) = &reply {
            if let Edit::SetGeofence(_, _) = &self.edit {
                return ReminderStep::Done(Err(mcp_err(e)));
            }
        }
        run_edits(self.item, self.rest)
    }
}

/// The edits that a step still wants carried out.
pub open spec fn edits_wanted(step: ReminderStep) -> Seq<Edit> {
    match step {
        ReminderStep::Edit(s) => seq![s.edit] + s.rest@,
        _ => Seq::empty(),
    }
}

/// Every edit that was planned is wanted once, in the order of the plan, until
/// none is left; only a geofence that could not be attached cuts it short.
pub proof fn planned_edits_run_in_order(
    step: EditReminder,
    reply: Result<(), StoreError>,
    next: ReminderStep,
)
    requires
        match reply {
            Err(e) if step.edit is SetGeofence => failed(next, e),
            _ => edits_next(next, step.item, step.rest@),
        },
    ensures
        edits_wanted(ReminderStep::Edit(step))[0] == step.edit,
        reply is Ok || !(step.edit is SetGeofence) ==> edits_wanted(next) == edits_wanted(
            ReminderStep::Edit(step),
        ).drop_first(),
        reply is Err && step.edit is SetGeofence ==> next is Done,
{
    assert(edits_wanted(ReminderStep::Edit(step)).drop_first() =~= step.rest@);
    if reply is Ok || !(step.edit is SetGeofence) {
        assert(edits_wanted(next) =~= step.rest@);
    }
}

impl ChangeReminder {
    /// Takes the reply to a change.
    pub fn with_reply(self, reply: Result<(), StoreError>) -> (next: ReminderStep)
        ensures
            match reply {
                Ok(_) => next == ReminderStep::Fetch(FetchReminder { id: self.id }),
                Err(e) => failed(next, e),
            },
            next.nearer_than(ReminderStep::Change(self)),
    {
        match reply {
            Ok(_) => ReminderStep::Fetch(FetchReminder { id: self.id }),
            Err(e) => ReminderStep::Done(Err(mcp_err(&e))),
        }
    }
}

// ---------------------------------------------------------------------------
// Creating
// ---------------------------------------------------------------------------

/// The reminder that a request describes.
pub open spec fn draft_of(
    params: CreateReminderRequest,
    due: Option<LocalDateTime>,
    start: Option<LocalDateTime>,
) -> ReminderDraft {
    ReminderDraft {
        title: params.title,
        notes: params.notes,
        calendar_title: Some(params.list_name),
        priority: opt_priority_number(params.priority),
        due_date: due,
        start_date: start,
        due_date_timezone: params.due_date_timezone,
    }
}

/// What follows the reply to the question for the lists, given what came of
/// the two dates. The list is looked at first, then the due date, then the
/// start date.
pub open spec fn create_next(
    step: ReminderStep,
    params: CreateReminderRequest,
    reply: Result<Vec<CalendarInfo>, StoreError>,
    due: Result<Option<LocalDateTime>, McpError>,
    start: Result<Option<LocalDateTime>, McpError>,
) -> bool {
    match reply {
        Err(e) => refused(step, "Error listing calendars: "@ + e.text@),
        Ok(lists) => if !has_title(lists@, params.list_name@) {
            refused(step, missing_list(lists@, params.list_name@))
        } else {
            match (due, start) {
                (Err(e), _) => answers_err(step, e),
                (Ok(_), Err(e)) => answers_err(step, e),
                (Ok(d), Ok(s)) => step == ReminderStep::Create(
                    CreateReminder {
                        draft: draft_of(params, d, s),
                        alarms: params.alarms,
                        geofence: params.geofence,
                        recurrence: params.recurrence,
                    },
                ),
            }
        },
    }
}

/// What may follow the reply to the question for the lists.
pub open spec fn create_outcome(
    step: ReminderStep,
    params: CreateReminderRequest,
    reply: Result<Vec<CalendarInfo>, StoreError>,
) -> bool {
    exists|
        due_read: Option<Result<LocalDateTime, String>>,
        start_read: Option<Result<LocalDateTime, String>>,
        due: Result<Option<LocalDateTime>, McpError>,
        start: Result<Option<LocalDateTime>, McpError>,
    |
        {
            &&& opt_outcome(Reading::Moment, params.due_date, due_read)
            &&& opt_outcome(Reading::Date, params.start_date, start_read)
            &&& #[trigger] date_given("Error parsing due_date: "@, due_read, due)
            &&& #[trigger] date_given("Error parsing start_date: "@, start_read, start)
            &&& create_next(step, params, reply, due, start)
        }
}

/// Goes on with the reply to the question for the lists, given what came of
/// the two dates.
pub fn decide_create(
    params: CreateReminderRequest,
    reply: Result<Vec<CalendarInfo>, StoreError>,
    due: Result<Option<LocalDateTime>, McpError>,
    start: Result<Option<LocalDateTime>, McpError>,
) -> (next: ReminderStep)
    ensures
        create_next(next, params, reply, due, start),
        next.phase() <= 6,
{
    let lists: Vec<CalendarInfo> = match reply {
        Ok(l) => l,
        Err(e) => return ReminderStep::Done(
            Err(mcp_invalid_because("Error listing calendars: ", e.text.as_str())),
        ),
    };
    if !knows_title(&lists, params.list_name.as_str()) {
        return ReminderStep::Done(
            Err(mcp_invalid(missing_list_text(&lists, params.list_name.as_str()))),
        );
    }
    let due_date: Option<LocalDateTime> = match due {
        Ok(d) => d,
        Err(e) => return ReminderStep::Done(Err(e)),
    };
    let start_date: Option<LocalDateTime> = match start {
        Ok(s) => s,
        Err(e) => return ReminderStep::Done(Err(e)),
    };
    let priority: Option<usize> = priority_value(&params.priority);
    ReminderStep::Create(
        CreateReminder {
            draft: ReminderDraft {
                title: params.title,
                notes: params.notes,
                calendar_title: Some(params.list_name),
                priority,
                due_date,
                start_date,
                due_date_timezone: params.due_date_timezone,
            },
            alarms: params.alarms,
            geofence: params.geofence,
            recurrence: params.recurrence,
        },
    )
}

impl FindList {
    /// Takes the reminder lists.
    pub fn with_lists(self, reply: Result<Vec<CalendarInfo>, StoreError>) -> (next: ReminderStep)
        ensures
            create_outcome(next, self.params, reply),
            next.nearer_than(ReminderStep::FindList(self)),
    {
        let due_read: Option<Result<LocalDateTime, String>> = read_opt(
            Reading::Moment,
            &self.params.due_date,
        );
        let ghost dr = due_read;
        let start_read: Option<Result<LocalDateTime, String>> = read_opt(
            Reading::Date,
            &self.params.start_date,
        );
        let ghost sr = start_read;
        let due: Result<Option<LocalDateTime>, McpError> = given_date(
            "Error parsing due_date: ",
            due_read,
        );
        let start: Result<Option<LocalDateTime>, McpError> = given_date(
            "Error parsing start_date: ",
            start_read,
        );
        let ghost d = due;
        let ghost s = start;
        let next: ReminderStep = decide_create(self.params, reply, due, start);
        assert(date_given("Error parsing due_date: "@, dr, d));
        assert(date_given("Error parsing start_date: "@, sr, s));
        next
    }
}

/// A reminder is created exactly when the list exists and both dates can be
/// read, and it is created in that list.
pub proof fn create_only_when_all_is_well(
    step: ReminderStep,
    params: CreateReminderRequest,
    reply: Result<Vec<CalendarInfo>, StoreError>,
    due: Result<Option<LocalDateTime>, McpError>,
    start: Result<Option<LocalDateTime>, McpError>,
)
    requires
        create_next(step, params, reply, due, start),
    ensures
        step is Create <==> reply is Ok && has_title(reply->Ok_0@, params.list_name@) && due is Ok
            && start is Ok,
        !(step is Create) ==> step is Done && step->Done_0 is Err,
        step is Create ==> step->Create_0.draft.calendar_title == Some(params.list_name),
{
}

// ---------------------------------------------------------------------------
// Updating
// ---------------------------------------------------------------------------

/// The change that a request describes.
pub open spec fn patch_from(
    params: UpdateReminderRequest,
    due: Option<Option<LocalDateTime>>,
    start: Option<Option<LocalDateTime>>,
    completion: Option<Option<LocalDateTime>>,
) -> ReminderPatch {
    ReminderPatch {
        title: params.title,
        notes: params.notes,
        completed: params.completed,
        priority: opt_priority_number(params.priority),
        due_date: due,
        start_date: start,
        calendar_title: params.list_name,
        due_date_timezone: patch_of(params.due_date_timezone),
        completion_date: completion,
    }
}

/// What is to be updated, or the error of the completion date.
pub open spec fn update_of(
    params: UpdateReminderRequest,
    due: Option<Option<LocalDateTime>>,
    start: Option<Option<LocalDateTime>>,
    completion: Result<Option<Option<LocalDateTime>>, McpError>,
) -> Result<UpdateReminder, McpError> {
    match completion {
        Ok(c) => Ok(
            UpdateReminder {
                id: params.reminder_id,
                patch: patch_from(params, due, start, c),
                alarms: params.alarms,
                recurrence: params.recurrence,
            },
        ),
        Err(e) => Err(e),
    }
}

/// An update, or the error that stands in its place.
pub open spec fn update_step(update: Result<UpdateReminder, McpError>) -> ReminderStep {
    match update {
        Ok(u) => ReminderStep::Update(u),
        Err(e) => ReminderStep::Done(Err(e)),
    }
}

/// How a request starts, given what came of the three dates. The due date is
/// looked at first, then the start date, then the list to move to, then the
/// completion date.
pub open spec fn update_start(
    step: ReminderStep,
    params: UpdateReminderRequest,
    due: Result<Option<Option<LocalDateTime>>, McpError>,
    start: Result<Option<Option<LocalDateTime>>, McpError>,
    completion: Result<Option<Option<LocalDateTime>>, McpError>,
) -> bool {
    match (due, start) {
        (Err(e), _) => answers_err(step, e),
        (Ok(_), Err(e)) => answers_err(step, e),
        (Ok(d), Ok(s)) => {
            let update = update_of(params, d, s, completion);
            match params.list_name {
                Some(name) => {
                    &&& step is CheckList
                    &&& step->CheckList_0.list_name@ == name@
                    &&& step->CheckList_0.update == update
                },
                None => step == update_step(update),
            }
        },
    }
}

/// How a request may start.
pub open spec fn update_outcome(step: ReminderStep, params: UpdateReminderRequest) -> bool {
    exists|
        due_read: Option<Option<Result<LocalDateTime, String>>>,
        start_read: Option<Option<Result<LocalDateTime, String>>>,
        completion_read: Option<Option<Result<LocalDateTime, String>>>,
        due: Result<Option<Option<LocalDateTime>>, McpError>,
        start: Result<Option<Option<LocalDateTime>>, McpError>,
        completion: Result<Option<Option<LocalDateTime>>, McpError>,
    |
        {
            &&& patch_outcome(Reading::Moment, params.due_date, due_read)
            &&& patch_outcome(Reading::Date, params.start_date, start_read)
            &&& patch_outcome(Reading::Stamp, params.completion_date, completion_read)
            &&& #[trigger] patch_given("Error parsing due_date: "@, due_read, due)
            &&& #[trigger] patch_given("Error parsing start_date: "@, start_read, start)
            &&& #[trigger] patch_given(
                "Error parsing completion_date: "@,
                completion_read,
                completion,
            )
            &&& update_start(step, params, due, start, completion)
        }
}

/// Starts an update, given what came of the three dates.
pub fn decide_update(
    params: UpdateReminderRequest,
    due: Result<Option<Option<LocalDateTime>>, McpError>,
    start: Result<Option<Option<LocalDateTime>>, McpError>,
    completion: Result<Option<Option<LocalDateTime>>, McpError>,
) -> (step: ReminderStep)
    ensures
        update_start(step, params, due, start, completion),
{
    let due_date: Option<Option<LocalDateTime>> = match due {
        Ok(d) => d,
        Err(e) => return ReminderStep::Done(Err(e)),
    };
    let start_date: Option<Option<LocalDateTime>> = match start {
        Ok(s) => s,
        Err(e) => return ReminderStep::Done(Err(e)),
    };
    let list: Option<String> = params.list_name.clone();
    let priority: Option<usize> = priority_value(&params.priority);
    let update: Result<UpdateReminder, McpError> = match completion {
        Ok(completion_date) => Ok(
            UpdateReminder {
                id: params.reminder_id,
                patch: ReminderPatch {
                    title: params.title,
                    notes: params.notes,
                    completed: params.completed,
                    priority,
                    due_date,
                    start_date,
                    calendar_title: params.list_name,
                    due_date_timezone: opt_patch(params.due_date_timezone),
                    completion_date,
                },
                alarms: params.alarms,
                recurrence: params.recurrence,
            },
        ),
        Err(e) => Err(e),
    };
    match list {
        Some(list_name) => ReminderStep::CheckList(CheckList { list_name, update }),
        None => match update {
            Ok(u) => ReminderStep::Update(u),
            Err(e) => ReminderStep::Done(Err(e)),
        },
    }
}

impl CheckList {
    /// Takes the reminder lists.
    pub fn with_lists(self, reply: Result<Vec<CalendarInfo>, StoreError>) -> (next: ReminderStep)
        ensures
            match reply {
                Err(e) => refused(next, "Error: "@ + e.text@),
                Ok(lists) => if has_title(lists@, self.list_name@) {
                    next == update_step(self.update)
                } else {
                    refused(next, missing_list(lists@, self.list_name@))
                },
            },
            next.nearer_than(ReminderStep::CheckList(self)),
    {
        let lists: Vec<CalendarInfo> = match reply {
            Ok(l) => l,
            Err(e) => return ReminderStep::Done(
                Err(mcp_invalid_because("Error: ", e.text.as_str())),
            ),
        };
        if !knows_title(&lists, self.list_name.as_str()) {
            return ReminderStep::Done(
                Err(mcp_invalid(missing_list_text(&lists, self.list_name.as_str()))),
            );
        }
        match self.update {
            Ok(u) => ReminderStep::Update(u),
            Err(e) => ReminderStep::Done(Err(e)),
        }
    }
}

/// A reminder is updated, or the list asked for, only where both dates that are
/// looked at first can be read; else the request is answered with an error.
pub proof fn update_only_when_dates_are_well(
    step: ReminderStep,
    params: UpdateReminderRequest,
    due: Result<Option<Option<LocalDateTime>>, McpError>,
    start: Result<Option<Option<LocalDateTime>>, McpError>,
    completion: Result<Option<Option<LocalDateTime>>, McpError>,
)
    requires
        update_start(step, params, due, start, completion),
    ensures
        step is CheckList <==> due is Ok && start is Ok && params.list_name is Some,
        step is Update <==> due is Ok && start is Ok && params.list_name is None
            && completion is Ok,
        !(step is CheckList) && !(step is Update) ==> step is Done && step->Done_0 is Err,
{
}

/// An update writes the fields that the request supplies and no others; an
/// empty date or timezone clears.
pub proof fn update_writes_what_is_supplied(
    params: UpdateReminderRequest,
    due_read: Option<Option<Result<LocalDateTime, String>>>,
    start_read: Option<Option<Result<LocalDateTime, String>>>,
    completion_read: Option<Option<Result<LocalDateTime, String>>>,
    due: Option<Option<LocalDateTime>>,
    start: Option<Option<LocalDateTime>>,
    completion: Option<Option<LocalDateTime>>,
)
    requires
        patch_outcome(Reading::Moment, params.due_date, due_read),
        patch_outcome(Reading::Date, params.start_date, start_read),
        patch_outcome(Reading::Stamp, params.completion_date, completion_read),
        patch_given("Error parsing due_date: "@, due_read, Ok(due)),
        patch_given("Error parsing start_date: "@, start_read, Ok(start)),
        patch_given("Error parsing completion_date: "@, completion_read, Ok(completion)),
    ensures
        ({
            let patch = patch_from(params, due, start, completion);
            &&& patch.title == params.title
            &&& patch.notes == params.notes
            &&& patch.completed == params.completed
            &&& patch.priority is Some <==> params.priority is Some
            &&& patch.calendar_title == params.list_name
            &&& patch.due_date is Some <==> params.due_date is Some
            &&& patch.start_date is Some <==> params.start_date is Some
            &&& patch.completion_date is Some <==> params.completion_date is Some
            &&& patch.due_date_timezone is Some <==> params.due_date_timezone is Some
            &&& patch.due_date == Some(None::<LocalDateTime>) <==> params.due_date is Some
                && params.due_date->0@.len() == 0
            &&& patch.start_date == Some(None::<LocalDateTime>) <==> params.start_date is Some
                && params.start_date->0@.len() == 0
            &&& patch.completion_date == Some(None::<LocalDateTime>)
                <==> params.completion_date is Some && params.completion_date->0@.len() == 0
            &&& patch.due_date_timezone == Some(None::<String>)
                <==> params.due_date_timezone is Some && params.due_date_timezone->0@.len() == 0
        }),
{
}

// ---------------------------------------------------------------------------
// The tools
// ---------------------------------------------------------------------------

impl EventKitServer {
    /// Creates a reminder in a list.
    pub fn create_reminder(&self, params: CreateReminderRequest) -> (step: ReminderStep)
        ensures
            step == ReminderStep::FindList(FindList { params }),
    {
        ReminderStep::FindList(FindList { params })
    }

    /// Updates a reminder.
    pub fn update_reminder(&self, params: UpdateReminderRequest) -> (step: ReminderStep)
        ensures
            update_outcome(step, params),
    {
        let due_read: Option<Option<Result<LocalDateTime, String>>> = read_patch(
            Reading::Moment,
            &params.due_date,
        );
        let start_read: Option<Option<Result<LocalDateTime, String>>> = read_patch(
            Reading::Date,
            &params.start_date,
        );
        let completion_read: Option<Option<Result<LocalDateTime, String>>> = read_patch(
            Reading::Stamp,
            &params.completion_date,
        );
        let ghost dr = due_read;
        let ghost sr = start_read;
        let ghost cr = completion_read;
        let due: Result<Option<Option<LocalDateTime>>, McpError> = given_patch(
            "Error parsing due_date: ",
            due_read,
        );
        let start: Result<Option<Option<LocalDateTime>>, McpError> = given_patch(
            "Error parsing start_date: ",
            start_read,
        );
        let completion: Result<Option<Option<LocalDateTime>>, McpError> = given_patch(
            "Error parsing completion_date: ",
            completion_read,
        );
        let ghost d = due;
        let ghost s = start;
        let ghost c = completion;
        let step: ReminderStep = decide_update(params, due, start, completion);
        assert(patch_given("Error parsing due_date: "@, dr, d));
        assert(patch_given("Error parsing start_date: "@, sr, s));
        assert(patch_given("Error parsing completion_date: "@, cr, c));
        step
    }

    /// Marks a reminder completed.
    pub fn complete_reminder(&self, params: ReminderIdRequest) -> (step: ReminderStep)
        ensures
            step == ReminderStep::Change(
                ChangeReminder { id: params.reminder_id, change: ReminderChange::Complete },
            ),
    {
        ReminderStep::Change(
            ChangeReminder { id: params.reminder_id, change: ReminderChange::Complete },
        )
    }

    /// Marks a reminder not completed.
    pub fn uncomplete_reminder(&self, params: ReminderIdRequest) -> (step: ReminderStep)
        ensures
            step == ReminderStep::Change(
                ChangeReminder { id: params.reminder_id, change: ReminderChange::Uncomplete },
            ),
    {
        ReminderStep::Change(
            ChangeReminder { id: params.reminder_id, change: ReminderChange::Uncomplete },
        )
    }

    /// Shows a reminder.
    pub fn get_reminder(&self, params: ReminderIdRequest) -> (step: ReminderStep)
        ensures
            step == ReminderStep::Fetch(FetchReminder { id: params.reminder_id }),
    {
        ReminderStep::Fetch(FetchReminder { id: params.reminder_id })
    }

    /// Sets the timezone of a reminder's due date, or clears it.
    pub fn set_reminder_due_timezone(&self, params: SetReminderDueTimezoneRequest) -> (step:
        ReminderStep)
        ensures
            step == ReminderStep::Change(
                ChangeReminder {
                    id: params.reminder_id,
                    change: ReminderChange::DueTimezone(unless_empty(params.timezone)),
                },
            ),
    {
        ReminderStep::Change(
            ChangeReminder {
                id: params.reminder_id,
                change: ReminderChange::DueTimezone(drop_empty(params.timezone)),
            },
        )
    }

    /// Attaches a geofence to a reminder, or clears it.
    pub fn set_reminder_geofence(&self, params: SetReminderGeofenceRequest) -> (step: ReminderStep)
        ensures
            step == ReminderStep::Change(
                ChangeReminder {
                    id: params.reminder_id,
                    change: ReminderChange::Geofence(geofence_of(params.geofence)),
                },
            ),
    {
        ReminderStep::Change(
            ChangeReminder {
                id: params.reminder_id,
                change: ReminderChange::Geofence(to_geofence(params.geofence)),
            },
        )
    }
}

// ---------------------------------------------------------------------------
// What a request asks for is what is done
// ---------------------------------------------------------------------------

/// One of the lists has this name.
pub open spec fn is_among(lists: Seq<CalendarInfo>, name: Seq<char>) -> bool {
    exists|i: int| 0 <= i < lists.len() && (#[trigger] lists[i]).title@ == name
}

proof fn lemma_create_read(
    step: ReminderStep,
    params: CreateReminderRequest,
    reply: Result<Vec<CalendarInfo>, StoreError>,
) -> (given: (Result<Option<LocalDateTime>, McpError>, Result<Option<LocalDateTime>, McpError>))
    requires
        create_outcome(step, params, reply),
    ensures
        create_next(step, params, reply, given.0, given.1),
        given.0 matches Ok(set) ==> sets_date(Reading::Moment, params.due_date, set),
        given.0 is Err ==> bad_date(Reading::Moment, params.due_date),
        given.1 matches Ok(set) ==> sets_date(Reading::Date, params.start_date, set),
        given.1 is Err ==> bad_date(Reading::Date, params.start_date),
{
    let (due_read, start_read, due, start) = choose|
        due_read: Option<Result<LocalDateTime, String>>,
        start_read: Option<Result<LocalDateTime, String>>,
        due: Result<Option<LocalDateTime>, McpError>,
        start: Result<Option<LocalDateTime>, McpError>,
    |
        {
            &&& opt_outcome(Reading::Moment, params.due_date, due_read)
            &&& opt_outcome(Reading::Date, params.start_date, start_read)
            &&& #[trigger] date_given("Error parsing due_date: "@, due_read, due)
            &&& #[trigger] date_given("Error parsing start_date: "@, start_read, start)
            &&& create_next(step, params, reply, due, start)
        };
    supplied_dates_are_set(
        Reading::Moment,
        "Error parsing due_date: "@,
        params.due_date,
        due_read,
        due,
    );
    supplied_dates_are_set(
        Reading::Date,
        "Error parsing start_date: "@,
        params.start_date,
        start_read,
        start,
    );
    (due, start)
}

/// A reminder is created as it is requested, in the list that is named, which
/// exists. Its dates are the points that the request means; a time of day is
/// one on today's date. Alarms, geofence and recurrence go with it.
pub proof fn reminder_is_created_as_requested(
    step: ReminderStep,
    params: CreateReminderRequest,
    reply: Result<Vec<CalendarInfo>, StoreError>,
)
    requires
        create_outcome(step, params, reply),
        step is Create,
    ensures
        reply is Ok,
        is_among(reply->Ok_0@, params.list_name@),
        ({
            let draft = step->Create_0.draft;
            &&& draft.title == params.title
            &&& draft.notes == params.notes
            &&& draft.calendar_title == Some(params.list_name)
            &&& priority_is(params.priority, draft.priority)
            &&& sets_date(Reading::Moment, params.due_date, draft.due_date)
            &&& sets_date(Reading::Date, params.start_date, draft.start_date)
            &&& draft.due_date_timezone == params.due_date_timezone
            &&& step->Create_0.alarms == params.alarms
            &&& step->Create_0.geofence == params.geofence
            &&& step->Create_0.recurrence == params.recurrence
        }),
{
    let given = lemma_create_read(step, params, reply);
    a_list_is_known_by_its_title(reply->Ok_0@, params.list_name@);
}

/// A reminder is created unless the lists cannot be read, none has the name, or
/// one of the dates means no point: nothing else about a request keeps it from
/// being created, and what is not created is answered with an error.
pub proof fn reminder_is_created_unless_it_cannot_be(
    step: ReminderStep,
    params: CreateReminderRequest,
    reply: Result<Vec<CalendarInfo>, StoreError>,
)
    requires
        create_outcome(step, params, reply),
        !(step is Create),
    ensures
        step is Done && step->Done_0 is Err,
        reply is Err || !is_among(reply->Ok_0@, params.list_name@) || bad_date(
            Reading::Moment,
            params.due_date,
        ) || bad_date(Reading::Date, params.start_date),
{
    let given = lemma_create_read(step, params, reply);
    if reply is Ok {
        a_list_is_known_by_its_title(reply->Ok_0@, params.list_name@);
    }
}

/// An update writes what is supplied and nothing else, to the reminder that is
/// named. An empty date or timezone clears.
pub open spec fn is_requested_update(update: UpdateReminder, params: UpdateReminderRequest) -> bool {
    &&& update.id == params.reminder_id
    &&& update.patch.title == params.title
    &&& update.patch.notes == params.notes
    &&& update.patch.completed == params.completed
    &&& priority_is(params.priority, update.patch.priority)
    &&& writes_date(Reading::Moment, params.due_date, update.patch.due_date)
    &&& writes_date(Reading::Date, params.start_date, update.patch.start_date)
    &&& writes_date(Reading::Stamp, params.completion_date, update.patch.completion_date)
    &&& writes_text(params.due_date_timezone, update.patch.due_date_timezone)
    &&& update.patch.calendar_title == params.list_name
    &&& update.alarms == params.alarms
    &&& update.recurrence == params.recurrence
}

proof fn lemma_update_read(step: ReminderStep, params: UpdateReminderRequest) -> (given: (
    Result<Option<Option<LocalDateTime>>, McpError>,
    Result<Option<Option<LocalDateTime>>, McpError>,
    Result<Option<Option<LocalDateTime>>, McpError>,
))
    requires
        update_outcome(step, params),
    ensures
        update_start(step, params, given.0, given.1, given.2),
        given.0 matches Ok(w) ==> writes_date(Reading::Moment, params.due_date, w),
        given.0 is Err ==> bad_patch(Reading::Moment, params.due_date),
        given.1 matches Ok(w) ==> writes_date(Reading::Date, params.start_date, w),
        given.1 is Err ==> bad_patch(Reading::Date, params.start_date),
        given.2 matches Ok(w) ==> writes_date(Reading::Stamp, params.completion_date, w),
        given.2 is Err ==> bad_patch(Reading::Stamp, params.completion_date),
{
    let (due_read, start_read, completion_read, due, start, completion) = choose|
        due_read: Option<Option<Result<LocalDateTime, String>>>,
        start_read: Option<Option<Result<LocalDateTime, String>>>,
        completion_read: Option<Option<Result<LocalDateTime, String>>>,
        due: Result<Option<Option<LocalDateTime>>, McpError>,
        start: Result<Option<Option<LocalDateTime>>, McpError>,
        completion: Result<Option<Option<LocalDateTime>>, McpError>,
    |
        {
            &&& patch_outcome(Reading::Moment, params.due_date, due_read)
            &&& patch_outcome(Reading::Date, params.start_date, start_read)
            &&& patch_outcome(Reading::Stamp, params.completion_date, completion_read)
            &&& #[trigger] patch_given("Error parsing due_date: "@, due_read, due)
            &&& #[trigger] patch_given("Error parsing start_date: "@, start_read, start)
            &&& #[trigger] patch_given(
                "Error parsing completion_date: "@,
                completion_read,
                completion,
            )
            &&& update_start(step, params, due, start, completion)
        };
    supplied_dates_are_written(
        Reading::Moment,
        "Error parsing due_date: "@,
        params.due_date,
        due_read,
        due,
    );
    supplied_dates_are_written(
        Reading::Date,
        "Error parsing start_date: "@,
        params.start_date,
        start_read,
        start,
    );
    supplied_dates_are_written(
        Reading::Stamp,
        "Error parsing completion_date: "@,
        params.completion_date,
        completion_read,
        completion,
    );
    (due, start, completion)
}

/// A reminder is updated as it is requested. With a list to move to, that list
/// is looked for first; without one the update comes at once.
pub proof fn reminder_is_updated_as_requested(step: ReminderStep, params: UpdateReminderRequest)
    requires
        update_outcome(step, params),
    ensures
        step is Update ==> params.list_name is None && is_requested_update(step->Update_0, params),
        step is CheckList ==> {
            &&& params.list_name is Some
            &&& step->CheckList_0.list_name@ == params.list_name->0@
            &&& step->CheckList_0.update matches Ok(update) ==> is_requested_update(update, params)
            &&& step->CheckList_0.update is Err ==> bad_patch(
                Reading::Stamp,
                params.completion_date,
            )
        },
{
    let given = lemma_update_read(step, params);
    supplied_texts_are_written(params.due_date_timezone);
}

/// A reminder is updated unless one of its dates means no point: nothing else
/// about a request keeps it from being updated, and what is not updated is
/// answered with an error.
pub proof fn reminder_is_updated_unless_it_cannot_be_read(
    step: ReminderStep,
    params: UpdateReminderRequest,
)
    requires
        update_outcome(step, params),
        !(step is Update),
        !(step is CheckList),
    ensures
        step is Done && step->Done_0 is Err,
        bad_patch(Reading::Moment, params.due_date) || bad_patch(Reading::Date, params.start_date)
            || bad_patch(Reading::Stamp, params.completion_date),
{
    let given = lemma_update_read(step, params);
}

/// What follows a save is done for the reminder that was saved. The alarms that
/// are supplied are set first, then the geofence and the recurrence that are
/// supplied; where none is supplied nothing is edited.
pub proof fn saved_reminder_gets_its_edits(
    step: ReminderStep,
    item: ReminderItem,
    alarms: Option<Vec<AlarmParam>>,
    geofence: Option<GeofenceInput>,
    recurrence: Option<RecurrenceParam>,
    clearable: bool,
)
    requires
        after_save(step, Ok(item), alarms, geofence, recurrence, clearable),
    ensures
        alarms matches Some(params) ==> {
            &&& step is HeldAlarms
            &&& step->HeldAlarms_0.item == item
            &&& step->HeldAlarms_0.alarms == params
            &&& later_edits(geofence, recurrence, clearable, step->HeldAlarms_0.later@)
        },
        alarms is None ==> {
            &&& step is Edit || step is Reread
            &&& later_edits(geofence, recurrence, clearable, edits_wanted(step))
            &&& step is Edit ==> step->Edit_0.item == item
            &&& step is Reread ==> step->Reread_0.item == item
        },
        alarms is None && geofence is None && recurrence is None ==> step is Reread,
{
    let later = choose|later: Seq<Edit>| #[trigger]
        later_edits(geofence, recurrence, clearable, later) && saved_next(
            step,
            item,
            alarms,
            later,
        );
    if alarms is None {
        assert(edits_wanted(step) =~= later);
    }
}

/// Where a geofence is supplied, attaching it is the first edit that is wanted;
/// where a recurrence is supplied that describes a rule, setting it is the
/// last.
pub proof fn saved_reminder_is_edited_as_requested(
    step: ReminderStep,
    item: ReminderItem,
    geofence: Option<GeofenceInput>,
    recurrence: RecurrenceParam,
    clearable: bool,
)
    requires
        after_save(step, Ok(item), None, geofence, Some(recurrence), clearable),
        recurrence.frequency@.len() > 0,
        !cannot_recur(recurrence),
    ensures
        edits_wanted(step).len() > 0,
        edits_wanted(step).last() is SetRecurrence,
        rule_is_as_supplied(recurrence, edits_wanted(step).last()->SetRecurrence_0),
        geofence is Some ==> edits_wanted(step)[0] is SetGeofence,
{
    saved_reminder_gets_its_edits(step, item, None, geofence, Some(recurrence), clearable);
    later_edits_are_as_supplied(geofence, Some(recurrence), clearable, edits_wanted(step));
}

/// The alarms and the rules of a reminder are read exactly where it has any,
/// and it is that reminder which is shown.
pub proof fn details_are_read_where_there_are_any(step: ReminderStep, item: ReminderItem)
    requires
        detail_next(step, item),
    ensures
        step is Alarms <==> item.has_alarms,
        step is Alarms ==> step->Alarms_0.item == item,
        step is Rules <==> !item.has_alarms && item.has_recurrence_rules,
        step is Rules ==> step->Rules_0.item == item && step->Rules_0.alarms@.len() == 0,
        !item.has_alarms && !item.has_recurrence_rules ==> shows(
            step,
            item,
            Seq::empty(),
            Seq::empty(),
        ),
{
}

/// The reminder holds what was written to it.
pub open spec fn carries(item: ReminderItem, patch: ReminderPatch) -> bool {
    &&& patch.title is Some ==> item.title == patch.title->0
    &&& patch.notes is Some ==> item.notes == patch.notes
    &&& patch.completed is Some ==> item.completed == patch.completed->0
    &&& patch.priority is Some ==> item.priority == patch.priority->0
    &&& patch.calendar_title is Some ==> item.calendar_title == patch.calendar_title
    &&& patch.due_date is Some ==> item.due_date == patch.due_date->0
    &&& patch.start_date is Some ==> item.start_date == patch.start_date->0
    &&& patch.due_date_timezone is Some ==> item.due_date_timezone == patch.due_date_timezone->0
}

/// An update is read back: where the store holds what the update wrote, a tool
/// that then shows the reminder answers with what the request supplied. A date
/// or a timezone that was supplied empty is absent.
pub proof fn reminder_update_is_read_back(
    step: ReminderStep,
    params: UpdateReminderRequest,
    item: ReminderItem,
    alarms: Seq<AlarmInfo>,
    rules: Seq<RecurrenceRule>,
    answer: ReminderStep,
)
    requires
        update_outcome(step, params),
        step is Update,
        carries(item, step->Update_0.patch),
        shows(answer, item, alarms, rules),
    ensures
        answer is Done,
        answer->Done_0 is Ok,
        ({
            let shown = answer->Done_0->Ok_0;
            &&& shown.id == item.identifier
            &&& params.title is Some ==> shown.title == params.title->0
            &&& params.notes is Some ==> shown.notes == params.notes
            &&& params.completed is Some ==> shown.completed == params.completed->0
            &&& params.priority matches Some(p) ==> shown.priority@ == priority_name(p)
            &&& params.due_date is Some && params.due_date->0@.len() == 0 ==> shown.due_date is None
            &&& params.due_date is Some && params.due_date->0@.len() > 0 ==> shown.due_date is Some
                && exists|p: LocalDateTime|
                #[trigger] means(Reading::Moment, params.due_date->0@, p)
                    && shown.due_date->0@ == rfc3339(p.unix_secs(), p.sub_nanos(), p.utc_offset())
            &&& params.start_date is Some && params.start_date->0@.len() == 0
                ==> shown.start_date is None
            &&& params.start_date is Some && params.start_date->0@.len() > 0
                ==> shown.start_date is Some && exists|p: LocalDateTime|
                #[trigger] means(Reading::Date, params.start_date->0@, p)
                    && shown.start_date->0@ == rfc3339(p.unix_secs(), p.sub_nanos(), p.utc_offset())
            &&& params.due_date_timezone is Some ==> shown.due_date_timezone == unless_empty(
                params.due_date_timezone,
            )
        }),
{
    reminder_is_updated_as_requested(step, params);
    let patch = step->Update_0.patch;
    let shown = answer->Done_0->Ok_0;
    if let Some(p) = params.priority {
        priority_round_trip(p);
    }
    if params.due_date is Some && params.due_date->0@.len() > 0 {
        let p = patch.due_date->0->0;
        assert(means(Reading::Moment, params.due_date->0@, p));
        assert(item.due_date == Some(p));
    }
    if params.start_date is Some && params.start_date->0@.len() > 0 {
        let p = patch.start_date->0->0;
        assert(means(Reading::Date, params.start_date->0@, p));
        assert(item.start_date == Some(p));
    }
}

/// The reminder holds what it was created with.
pub open spec fn was_created(item: ReminderItem, draft: ReminderDraft) -> bool {
    &&& item.title == draft.title
    &&& item.notes == draft.notes
    &&& draft.priority is Some ==> item.priority == draft.priority->0
    &&& draft.calendar_title is Some ==> item.calendar_title == draft.calendar_title
    &&& item.due_date == draft.due_date
    &&& item.start_date == draft.start_date
    &&& item.due_date_timezone == draft.due_date_timezone
}

/// A created reminder is read back: where the store holds what was created, a
/// tool that then shows the reminder answers with what the request supplied.
pub proof fn created_reminder_is_read_back(
    step: ReminderStep,
    params: CreateReminderRequest,
    reply: Result<Vec<CalendarInfo>, StoreError>,
    item: ReminderItem,
    alarms: Seq<AlarmInfo>,
    rules: Seq<RecurrenceRule>,
    answer: ReminderStep,
)
    requires
        create_outcome(step, params, reply),
        step is Create,
        was_created(item, step->Create_0.draft),
        shows(answer, item, alarms, rules),
    ensures
        answer is Done,
        answer->Done_0 is Ok,
        ({
            let shown = answer->Done_0->Ok_0;
            &&& shown.id == item.identifier
            &&& shown.title == params.title
            &&& shown.notes == params.notes
            &&& shown.list_name == Some(params.list_name)
            &&& params.priority matches Some(p) ==> shown.priority@ == priority_name(p)
            &&& (shown.due_date is Some <==> params.due_date is Some)
            &&& (shown.start_date is Some <==> params.start_date is Some)
            &&& params.due_date is Some ==> exists|p: LocalDateTime|
                #[trigger] means(Reading::Moment, params.due_date->0@, p)
                    && shown.due_date->0@ == rfc3339(p.unix_secs(), p.sub_nanos(), p.utc_offset())
            &&& params.start_date is Some ==> exists|p: LocalDateTime|
                #[trigger] means(Reading::Date, params.start_date->0@, p)
                    && shown.start_date->0@ == rfc3339(p.unix_secs(), p.sub_nanos(), p.utc_offset())
            &&& shown.due_date_timezone == params.due_date_timezone
        }),
{
    reminder_is_created_as_requested(step, params, reply);
    let draft = step->Create_0.draft;
    if let Some(p) = params.priority {
        priority_round_trip(p);
    }
    if params.due_date is Some {
        assert(means(Reading::Moment, params.due_date->0@, draft.due_date->0));
    }
    if params.start_date is Some {
        assert(means(Reading::Date, params.start_date->0@, draft.start_date->0));
    }
}

/// The edits that follow one another are edits of the same reminder, and it is
/// that reminder which is read once more.
pub proof fn edits_stay_with_their_reminder(step: EditReminder, next: ReminderStep)
    requires
        edits_next(next, step.item, step.rest@),
    ensures
        next is Edit <==> step.rest@.len() > 0,
        next is Edit ==> next->Edit_0.item == step.item && next->Edit_0.edit == step.rest@[0],
        next is Reread <==> step.rest@.len() == 0,
        next is Reread ==> next->Reread_0.item == step.item,
{
}

/// A reminder that is to be moved is updated exactly where a list has the name
/// and the update can be made; else the request is answered with an error.
pub proof fn reminder_is_moved_where_the_list_exists(
    check: CheckList,
    lists: Vec<CalendarInfo>,
    next: ReminderStep,
)
    requires
        if has_title(lists@, check.list_name@) {
            next == update_step(check.update)
        } else {
            refused(next, missing_list(lists@, check.list_name@))
        },
    ensures
        next is Update <==> is_among(lists@, check.list_name@) && check.update is Ok,
        next is Update ==> next->Update_0 == check.update->Ok_0,
        !(next is Update) ==> next is Done && next->Done_0 is Err,
{
    a_list_is_known_by_its_title(lists@, check.list_name@);
}

} // verus!
