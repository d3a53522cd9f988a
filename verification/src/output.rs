//! What the tool server answers.

use crate::clock::{rfc3339, LocalDateTime};
use crate::model::{AlarmInfo, AlarmProximity, CalendarInfo, EventItem, ParticipantInfo, Real, RecurrenceEndCondition, RecurrenceRule, ReminderItem, SourceInfo, StructuredLocation};
use crate::edits::{alarm_is_as_supplied, alarm_of};
use crate::recurrence::{copy_bytes, copy_list, held, is_rule, same_list};
use crate::request::{AlarmParam, CalendarColor, Priority, RecurrenceParam};
use crate::text::{lowercase, opt_view, to_lowercase};
use crate::words::{alarm_type_text, alarm_type_word, availability_named, availability_round_trip, availability_text, availability_word, frequency_named, frequency_round_trip, frequency_text, frequency_word, names_nearest, priority_text, proximity_text, status_text, status_word};
use vstd::prelude::*;
use vstd::string::*;

verus! {

/// A list with its length.
#[derive(Debug)]
pub struct ListResponse<T> {
    pub count: usize,
    pub items: Vec<T>,
}

/// What was deleted.
#[derive(Debug)]
pub struct DeletedResponse {
    pub id: String,
}

/// How a batch went.
#[derive(Debug)]
pub struct BatchResponse {
    pub total: usize,
    pub succeeded: usize,
    pub failed: usize,
    pub errors: Vec<BatchItemError>,
}

/// What went wrong with one item of a batch.
#[derive(Debug)]
pub struct BatchItemError {
    pub item_id: String,
    pub message: String,
}

/// What a search found.
#[derive(Debug)]
pub struct SearchResponse {
    pub query: String,
    pub reminders: Option<ListResponse<ReminderOutput>>,
    pub events: Option<ListResponse<EventOutput>>,
}

/// The permissions of the two entities.
#[derive(Debug)]
pub struct AuthStatusOutput {
    pub reminders: &'static str,
    pub events: &'static str,
    /// Next step; absent when both statuses grant access.
    pub remediation: Option<String>,
}

/// What came of asking for access.
#[derive(Debug)]
pub struct RequestAccessOutput {
    pub granted: bool,
    /// Status after the request.
    pub status: &'static str,
}

/// Where the user is.
#[derive(Debug)]
pub struct CoordinateOutput {
    pub latitude: Real,
    pub longitude: Real,
}

/// A place.
#[derive(Debug)]
pub struct LocationOutput {
    pub title: String,
    pub latitude: Real,
    pub longitude: Real,
    pub radius_meters: Real,
}

/// An alarm.
#[derive(Debug)]
pub struct AlarmOutput {
    pub relative_offset_seconds: Option<Real>,
    pub absolute_date: Option<String>,
    pub proximity: Option<String>,
    pub location: Option<LocationOutput>,
    pub email_address: Option<String>,
    pub sound_name: Option<String>,
    pub url: Option<String>,
    pub alarm_type: String,
}

/// A recurrence rule.
#[derive(Debug)]
pub struct RecurrenceRuleOutput {
    pub frequency: String,
    pub interval: usize,
    pub days_of_week: Option<Vec<u8>>,
    pub days_of_month: Option<Vec<i32>>,
    pub months_of_year: Option<Vec<i32>>,
    pub weeks_of_year: Option<Vec<i32>>,
    pub days_of_year: Option<Vec<i32>>,
    pub set_positions: Option<Vec<i32>>,
    pub end: RecurrenceEndOutput,
}

/// The end of a recurrence.
#[derive(Debug)]
pub enum RecurrenceEndOutput {
    Never,
    AfterCount { count: usize },
    OnDate { date: String },
}

/// Someone who takes part in an event.
#[derive(Debug)]
pub struct AttendeeOutput {
    pub name: Option<String>,
    pub role: String,
    pub status: String,
    pub is_current_user: bool,
}

/// A reminder.
#[allow(non_snake_case)]
#[derive(Debug)]
pub struct ReminderOutput {
    pub id: String,
    pub title: String,
    pub completed: bool,
    pub priority: String,
    pub list_name: Option<String>,
    pub list_id: Option<String>,
    pub due_date: Option<String>,
    pub start_date: Option<String>,
    pub completion_date: Option<String>,
    pub notes: Option<String>,
    pub URL: Option<String>,
    pub location: Option<String>,
    pub due_date_timezone: Option<String>,
    pub geofence: Option<LocationOutput>,
    pub parent_id: Option<String>,
    pub attachments_count: usize,
    pub alarms: Vec<AlarmOutput>,
    pub recurrence_rules: Vec<RecurrenceRuleOutput>,
}

/// An event.
#[allow(non_snake_case)]
#[derive(Debug)]
pub struct EventOutput {
    pub id: String,
    pub title: String,
    pub start: String,
    pub end: String,
    pub all_day: bool,
    pub calendar_name: Option<String>,
    pub calendar_id: Option<String>,
    pub notes: Option<String>,
    pub location: Option<String>,
    pub URL: Option<String>,
    pub availability: String,
    pub status: String,
    pub structured_location: Option<LocationOutput>,
    pub alarms: Vec<AlarmOutput>,
    pub recurrence_rules: Vec<RecurrenceRuleOutput>,
    pub attendees: Vec<AttendeeOutput>,
    pub organizer: Option<AttendeeOutput>,
    pub is_detached: bool,
    pub occurrence_date: Option<String>,
    pub creation_date: Option<String>,
    pub last_modified_date: Option<String>,
    pub external_identifier: Option<String>,
    pub timezone: Option<String>,
    pub attachments_count: usize,
}

/// A calendar or a reminder list.
#[derive(Debug)]
pub struct CalendarOutput {
    pub id: String,
    pub title: String,
    pub color: String,
    pub source: Option<String>,
    pub source_id: Option<String>,
    pub allows_modifications: bool,
    pub is_immutable: bool,
    pub is_subscribed: bool,
    pub entity_types: Vec<String>,
    pub supported_event_availabilities: Vec<String>,
}

/// An account.
#[derive(Debug)]
pub struct SourceOutput {
    pub id: String,
    pub title: String,
    pub source_type: String,
}

// ---------------------------------------------------------------------------
// Dates and places
// ---------------------------------------------------------------------------

/// A date as answers show it.
pub open spec fn date_text(d: LocalDateTime) -> Seq<char> {
    rfc3339(d.unix_secs(), d.sub_nanos(), d.utc_offset())
}

/// An optional date as answers show it.
pub open spec fn opt_date_text(d: Option<LocalDateTime>) -> Option<Seq<char>> {
    match d {
        Some(p) => Some(date_text(p)),
        None => None,
    }
}

fn show_date(d: &Option<LocalDateTime>) -> (s: Option<String>)
    ensures
        opt_view(s) == opt_date_text(*d),
{
    match d {
        Some(p) => Some(p.to_rfc3339()),
        None => None,
    }
}

/// A place as answers show it.
pub open spec fn location_of(l: StructuredLocation) -> LocationOutput {
    LocationOutput {
        title: l.title,
        latitude: l.latitude,
        longitude: l.longitude,
        radius_meters: l.radius,
    }
}

/// An optional place as answers show it.
pub open spec fn opt_location_of(l: Option<StructuredLocation>) -> Option<LocationOutput> {
    match l {
        Some(p) => Some(location_of(p)),
        None => None,
    }
}

fn show_location(l: &Option<StructuredLocation>) -> (o: Option<LocationOutput>)
    ensures
        o == opt_location_of(*l),
{
    match l {
        Some(p) => Some(
            LocationOutput {
                title: p.title.clone(),
                latitude: p.latitude,
                longitude: p.longitude,
                radius_meters: p.radius,
            },
        ),
        None => None,
    }
}

// ---------------------------------------------------------------------------
// Alarms and recurrence
// ---------------------------------------------------------------------------

/// `o` shows the alarm `a`.
pub open spec fn alarm_shown(a: AlarmInfo, o: AlarmOutput) -> bool {
    &&& o.relative_offset_seconds == a.relative_offset
    &&& opt_view(o.absolute_date) == opt_date_text(a.absolute_date)
    &&& opt_view(o.proximity) == proximity_text(a.proximity)
    &&& o.location == opt_location_of(a.location)
    &&& o.email_address == a.email_address
    &&& o.sound_name == a.sound_name
    &&& o.url == a.url
    &&& o.alarm_type@ == alarm_type_text(a.alarm_type)
}

/// `outs` shows the alarms `infos`, in their order.
pub open spec fn alarms_shown(infos: Seq<AlarmInfo>, outs: Seq<AlarmOutput>) -> bool {
    &&& outs.len() == infos.len()
    &&& forall|i: int| 0 <= i < infos.len() ==> #[trigger] alarm_shown(infos[i], outs[i])
}

impl AlarmOutput {
    /// Shows an alarm.
    pub fn from_info(a: &AlarmInfo) -> (o: AlarmOutput)
        ensures
            alarm_shown(*a, o),
    {
        AlarmOutput {
            relative_offset_seconds: a.relative_offset,
            absolute_date: show_date(&a.absolute_date),
            proximity: match a.proximity {
                AlarmProximity::Enter => Some("enter".to_owned()),
                AlarmProximity::Leave => Some("leave".to_owned()),
                AlarmProximity::Off => None,
            },
            location: show_location(&a.location),
            email_address: a.email_address.clone(),
            sound_name: a.sound_name.clone(),
            url: a.url.clone(),
            alarm_type: alarm_type_word(a.alarm_type).to_owned(),
        }
    }
}

/// Shows alarms.
pub fn show_alarms(infos: &Vec<AlarmInfo>) -> (outs: Vec<AlarmOutput>)
    ensures
        alarms_shown(infos@, outs@),
{
    let mut outs: Vec<AlarmOutput> = Vec::new();
    let mut i: usize = 0;
    while i < infos.len()
        invariant
            i <= infos@.len(),
            alarms_shown(infos@.take(i as int), outs@),
        decreases infos@.len() - i,
    {
        outs.push(AlarmOutput::from_info(&infos[i]));
        proof {
            let n = i as int;
            assert forall|k: int| 0 <= k <= n implies #[trigger] alarm_shown(
                infos@.take(n + 1)[k],
                outs@[k],
            ) by {
                if k < n {
                    assert(alarm_shown(infos@.take(n)[k], outs@.drop_last()[k]));
                }
            }
        }
        i = i + 1;
    }
    assert(infos@.take(i as int) =~= infos@);
    outs
}

/// `o` shows the end of a recurrence.
pub open spec fn end_shown(e: RecurrenceEndCondition, o: RecurrenceEndOutput) -> bool {
    match (e, o) {
        (RecurrenceEndCondition::Never, RecurrenceEndOutput::Never) => true,
        (
            RecurrenceEndCondition::AfterCount(n),
            RecurrenceEndOutput::AfterCount { count },
        ) => count == n,
        (RecurrenceEndCondition::OnDate(d), RecurrenceEndOutput::OnDate { date }) => date@
            == date_text(d),
        _ => false,
    }
}

/// `o` shows the recurrence rule `r`.
pub open spec fn rule_shown(r: RecurrenceRule, o: RecurrenceRuleOutput) -> bool {
    &&& o.frequency@ == frequency_text(r.frequency)
    &&& o.interval == r.interval
    &&& same_list(o.days_of_week, r.days_of_week)
    &&& same_list(o.days_of_month, r.days_of_month)
    &&& same_list(o.months_of_year, r.months_of_year)
    &&& same_list(o.weeks_of_year, r.weeks_of_year)
    &&& same_list(o.days_of_year, r.days_of_year)
    &&& same_list(o.set_positions, r.set_positions)
    &&& end_shown(r.end, o.end)
}

/// `outs` shows the recurrence rules `rules`, in their order.
pub open spec fn rules_shown(rules: Seq<RecurrenceRule>, outs: Seq<RecurrenceRuleOutput>) -> bool {
    &&& outs.len() == rules.len()
    &&& forall|i: int| 0 <= i < rules.len() ==> #[trigger] rule_shown(rules[i], outs[i])
}

impl RecurrenceRuleOutput {
    /// Shows a recurrence rule.
    pub fn from_rule(r: &RecurrenceRule) -> (o: RecurrenceRuleOutput)
        ensures
            rule_shown(*r, o),
    {
        RecurrenceRuleOutput {
            frequency: frequency_word(r.frequency).to_owned(),
            interval: r.interval,
            days_of_week: copy_bytes(&r.days_of_week),
            days_of_month: copy_list(&r.days_of_month),
            months_of_year: copy_list(&r.months_of_year),
            weeks_of_year: copy_list(&r.weeks_of_year),
            days_of_year: copy_list(&r.days_of_year),
            set_positions: copy_list(&r.set_positions),
            end: match &r.end {
                RecurrenceEndCondition::Never => RecurrenceEndOutput::Never,
                RecurrenceEndCondition::AfterCount(n) => RecurrenceEndOutput::AfterCount {
                    count: *n,
                },
                RecurrenceEndCondition::OnDate(d) => RecurrenceEndOutput::OnDate {
                    date: d.to_rfc3339(),
                },
            },
        }
    }
}

/// Shows recurrence rules.
pub fn show_rules(rules: &Vec<RecurrenceRule>) -> (outs: Vec<RecurrenceRuleOutput>)
    ensures
        rules_shown(rules@, outs@),
{
    let mut outs: Vec<RecurrenceRuleOutput> = Vec::new();
    let mut i: usize = 0;
    while i < rules.len()
        invariant
            i <= rules@.len(),
            rules_shown(rules@.take(i as int), outs@),
        decreases rules@.len() - i,
    {
        outs.push(RecurrenceRuleOutput::from_rule(&rules[i]));
        proof {
            let n = i as int;
            assert forall|k: int| 0 <= k <= n implies #[trigger] rule_shown(
                rules@.take(n + 1)[k],
                outs@[k],
            ) by {
                if k < n {
                    assert(rule_shown(rules@.take(n)[k], outs@.drop_last()[k]));
                }
            }
        }
        i = i + 1;
    }
    assert(rules@.take(i as int) =~= rules@);
    outs
}

/// An accepted recurrence request is shown as it was sent: the same frequency
/// word, the same interval and the same lists.
pub proof fn recurrence_is_shown_as_sent(
    params: RecurrenceParam,
    end: RecurrenceEndCondition,
    rule: RecurrenceRule,
    o: RecurrenceRuleOutput,
)
    requires
        frequency_named(params.frequency@) is Some,
        is_rule(params, frequency_named(params.frequency@)->0, end, rule),
        rule_shown(rule, o),
    ensures
        o.frequency@ == params.frequency@,
        o.interval == params.interval,
        same_list(o.days_of_week, params.days_of_week),
        same_list(o.days_of_month, params.days_of_month),
        same_list(o.months_of_year, params.months_of_year),
        same_list(o.weeks_of_year, params.weeks_of_year),
        same_list(o.days_of_year, params.days_of_year),
        same_list(o.set_positions, params.set_positions),
        end_shown(end, o.end),
{
}

// ---------------------------------------------------------------------------
// Attendees
// ---------------------------------------------------------------------------

/// `o` shows the participant `p`.
pub open spec fn attendee_shown(p: ParticipantInfo, o: AttendeeOutput) -> bool {
    &&& o.name == p.name
    &&& o.role@ == lowercase(p.role@)
    &&& o.status@ == lowercase(p.status@)
    &&& o.is_current_user == p.is_current_user
}

/// `outs` shows the participants `infos`, in their order.
pub open spec fn attendees_shown(infos: Seq<ParticipantInfo>, outs: Seq<AttendeeOutput>) -> bool {
    &&& outs.len() == infos.len()
    &&& forall|i: int| 0 <= i < infos.len() ==> #[trigger] attendee_shown(infos[i], outs[i])
}

/// `o` shows an optional participant.
pub open spec fn organizer_shown(p: Option<ParticipantInfo>, o: Option<AttendeeOutput>) -> bool {
    match (p, o) {
        (Some(q), Some(s)) => attendee_shown(q, s),
        (None, None) => true,
        _ => false,
    }
}

impl AttendeeOutput {
    /// Shows a participant.
    pub fn from_info(p: &ParticipantInfo) -> (o: AttendeeOutput)
        ensures
            attendee_shown(*p, o),
    {
        AttendeeOutput {
            name: p.name.clone(),
            role: to_lowercase(p.role.as_str()),
            status: to_lowercase(p.status.as_str()),
            is_current_user: p.is_current_user,
        }
    }
}

fn show_attendees(infos: &Vec<ParticipantInfo>) -> (outs: Vec<AttendeeOutput>)
    ensures
        attendees_shown(infos@, outs@),
{
    let mut outs: Vec<AttendeeOutput> = Vec::new();
    let mut i: usize = 0;
    while i < infos.len()
        invariant
            i <= infos@.len(),
            attendees_shown(infos@.take(i as int), outs@),
        decreases infos@.len() - i,
    {
        outs.push(AttendeeOutput::from_info(&infos[i]));
        proof {
            let n = i as int;
            assert forall|k: int| 0 <= k <= n implies #[trigger] attendee_shown(
                infos@.take(n + 1)[k],
                outs@[k],
            ) by {
                if k < n {
                    assert(attendee_shown(infos@.take(n)[k], outs@.drop_last()[k]));
                }
            }
        }
        i = i + 1;
    }
    assert(infos@.take(i as int) =~= infos@);
    outs
}

// ---------------------------------------------------------------------------
// Reminders
// ---------------------------------------------------------------------------

/// `o` shows the reminder `r`, whatever it says of alarms and recurrence.
pub open spec fn reminder_fields_shown(r: ReminderItem, o: ReminderOutput) -> bool {
    &&& o.id == r.identifier
    &&& o.title == r.title
    &&& o.completed == r.completed
    &&& o.priority@ == priority_text(r.priority)
    &&& o.list_name == r.calendar_title
    &&& o.list_id == r.calendar_id
    &&& opt_view(o.due_date) == opt_date_text(r.due_date)
    &&& opt_view(o.start_date) == opt_date_text(r.start_date)
    &&& opt_view(o.completion_date) == opt_date_text(r.completion_date)
    &&& o.notes == r.notes
    &&& o.URL == r.URL
    &&& o.location == r.location
    &&& o.due_date_timezone == r.due_date_timezone
    &&& o.geofence == opt_location_of(r.structured_location)
    &&& o.parent_id == r.parent_id
    &&& o.attachments_count == r.attachments_count
}

/// `o` shows the reminder `r` with its alarms and recurrence rules.
pub open spec fn reminder_shown(
    r: ReminderItem,
    alarms: Seq<AlarmInfo>,
    rules: Seq<RecurrenceRule>,
    o: ReminderOutput,
) -> bool {
    &&& reminder_fields_shown(r, o)
    &&& alarms_shown(alarms, o.alarms@)
    &&& rules_shown(rules, o.recurrence_rules@)
}

/// `o` shows the reminder `r` without alarms and recurrence rules.
pub open spec fn reminder_summary(r: ReminderItem, o: ReminderOutput) -> bool {
    &&& reminder_fields_shown(r, o)
    &&& o.alarms@.len() == 0
    &&& o.recurrence_rules@.len() == 0
}

/// `outs` shows the reminders `items` without alarms and recurrence rules, in
/// their order.
pub open spec fn reminder_summaries(items: Seq<ReminderItem>, outs: Seq<ReminderOutput>) -> bool {
    &&& outs.len() == items.len()
    &&& forall|i: int| 0 <= i < items.len() ==> #[trigger] reminder_summary(items[i], outs[i])
}

impl ReminderOutput {
    /// Shows a reminder with its alarms and recurrence rules.
    pub fn from_item(
        r: &ReminderItem,
        alarms: &Vec<AlarmInfo>,
        rules: &Vec<RecurrenceRule>,
    ) -> (o: ReminderOutput)
        ensures
            reminder_shown(*r, alarms@, rules@, o),
    {
        let mut o: ReminderOutput = ReminderOutput::from_item_summary(r);
        o.alarms = show_alarms(alarms);
        o.recurrence_rules = show_rules(rules);
        o
    }

    /// Shows a reminder without alarms and recurrence rules.
    pub fn from_item_summary(r: &ReminderItem) -> (o: ReminderOutput)
        ensures
            reminder_summary(*r, o),
    {
        ReminderOutput {
            id: r.identifier.clone(),
            title: r.title.clone(),
            completed: r.completed,
            priority: Priority::label(r.priority).to_owned(),
            list_name: r.calendar_title.clone(),
            list_id: r.calendar_id.clone(),
            due_date: show_date(&r.due_date),
            start_date: show_date(&r.start_date),
            completion_date: show_date(&r.completion_date),
            notes: r.notes.clone(),
            URL: r.URL.clone(),
            location: r.location.clone(),
            due_date_timezone: r.due_date_timezone.clone(),
            geofence: show_location(&r.structured_location),
            parent_id: r.parent_id.clone(),
            attachments_count: r.attachments_count,
            alarms: Vec::new(),
            recurrence_rules: Vec::new(),
        }
    }
}

/// Shows reminders without alarms and recurrence rules.
pub fn show_reminders(items: &Vec<ReminderItem>) -> (outs: Vec<ReminderOutput>)
    ensures
        reminder_summaries(items@, outs@),
{
    let mut outs: Vec<ReminderOutput> = Vec::new();
    let mut i: usize = 0;
    while i < items.len()
        invariant
            i <= items@.len(),
            reminder_summaries(items@.take(i as int), outs@),
        decreases items@.len() - i,
    {
        outs.push(ReminderOutput::from_item_summary(&items[i]));
        proof {
            let n = i as int;
            assert forall|k: int| 0 <= k <= n implies #[trigger] reminder_summary(
                items@.take(n + 1)[k],
                outs@[k],
            ) by {
                if k < n {
                    assert(reminder_summary(items@.take(n)[k], outs@.drop_last()[k]));
                }
            }
        }
        i = i + 1;
    }
    assert(items@.take(i as int) =~= items@);
    outs
}

// ---------------------------------------------------------------------------
// Events
// ---------------------------------------------------------------------------

/// `o` shows the event `e`, whatever it says of alarms and recurrence.
pub open spec fn event_fields_shown(e: EventItem, o: EventOutput) -> bool {
    &&& o.id == e.identifier
    &&& o.title == e.title
    &&& o.start@ == date_text(e.start_date)
    &&& o.end@ == date_text(e.end_date)
    &&& o.all_day == e.all_day
    &&& o.calendar_name == e.calendar_title
    &&& o.calendar_id == e.calendar_id
    &&& o.notes == e.notes
    &&& o.location == e.location
    &&& o.URL == e.URL
    &&& o.availability@ == availability_text(e.availability)
    &&& o.status@ == status_text(e.status)
    &&& o.structured_location == opt_location_of(e.structured_location)
    &&& attendees_shown(e.attendees@, o.attendees@)
    &&& organizer_shown(e.organizer, o.organizer)
    &&& o.is_detached == e.is_detached
    &&& opt_view(o.occurrence_date) == opt_date_text(e.occurrence_date)
    &&& opt_view(o.creation_date) == opt_date_text(e.creation_date)
    &&& opt_view(o.last_modified_date) == opt_date_text(e.last_modified_date)
    &&& o.external_identifier == e.external_identifier
    &&& o.timezone == e.timezone
    &&& o.attachments_count == e.attachments_count
}

/// `o` shows the event `e` with its alarms and recurrence rules.
pub open spec fn event_shown(
    e: EventItem,
    alarms: Seq<AlarmInfo>,
    rules: Seq<RecurrenceRule>,
    o: EventOutput,
) -> bool {
    &&& event_fields_shown(e, o)
    &&& alarms_shown(alarms, o.alarms@)
    &&& rules_shown(rules, o.recurrence_rules@)
}

/// `o` shows the event `e` without alarms and recurrence rules.
pub open spec fn event_summary(e: EventItem, o: EventOutput) -> bool {
    &&& event_fields_shown(e, o)
    &&& o.alarms@.len() == 0
    &&& o.recurrence_rules@.len() == 0
}

/// `outs` shows the events `items` without alarms and recurrence rules, in
/// their order.
pub open spec fn event_summaries(items: Seq<EventItem>, outs: Seq<EventOutput>) -> bool {
    &&& outs.len() == items.len()
    &&& forall|i: int| 0 <= i < items.len() ==> #[trigger] event_summary(items[i], outs[i])
}

impl EventOutput {
    /// Shows an event with its alarms and recurrence rules.
    pub fn from_item(
        e: &EventItem,
        alarms: &Vec<AlarmInfo>,
        rules: &Vec<RecurrenceRule>,
    ) -> (o: EventOutput)
        ensures
            event_shown(*e, alarms@, rules@, o),
    {
        let mut o: EventOutput = EventOutput::from_item_summary(e);
        o.alarms = show_alarms(alarms);
        o.recurrence_rules = show_rules(rules);
        o
    }

    /// Shows an event without alarms and recurrence rules.
    pub fn from_item_summary(e: &EventItem) -> (o: EventOutput)
        ensures
            event_summary(*e, o),
    {
        EventOutput {
            id: e.identifier.clone(),
            title: e.title.clone(),
            start: e.start_date.to_rfc3339(),
            end: e.end_date.to_rfc3339(),
            all_day: e.all_day,
            calendar_name: e.calendar_title.clone(),
            calendar_id: e.calendar_id.clone(),
            notes: e.notes.clone(),
            location: e.location.clone(),
            URL: e.URL.clone(),
            availability: availability_word(e.availability).to_owned(),
            status: status_word(e.status).to_owned(),
            structured_location: show_location(&e.structured_location),
            alarms: Vec::new(),
            recurrence_rules: Vec::new(),
            attendees: show_attendees(&e.attendees),
            organizer: match &e.organizer {
                Some(p) => Some(AttendeeOutput::from_info(p)),
                None => None,
            },
            is_detached: e.is_detached,
            occurrence_date: show_date(&e.occurrence_date),
            creation_date: show_date(&e.creation_date),
            last_modified_date: show_date(&e.last_modified_date),
            external_identifier: e.external_identifier.clone(),
            timezone: e.timezone.clone(),
            attachments_count: e.attachments_count,
        }
    }
}

/// Shows events without alarms and recurrence rules.
pub fn show_events(items: &Vec<EventItem>) -> (outs: Vec<EventOutput>)
    ensures
        event_summaries(items@, outs@),
{
    let mut outs: Vec<EventOutput> = Vec::new();
    let mut i: usize = 0;
    while i < items.len()
        invariant
            i <= items@.len(),
            event_summaries(items@.take(i as int), outs@),
        decreases items@.len() - i,
    {
        outs.push(EventOutput::from_item_summary(&items[i]));
        proof {
            let n = i as int;
            assert forall|k: int| 0 <= k <= n implies #[trigger] event_summary(
                items@.take(n + 1)[k],
                outs@[k],
            ) by {
                if k < n {
                    assert(event_summary(items@.take(n)[k], outs@.drop_last()[k]));
                }
            }
        }
        i = i + 1;
    }
    assert(items@.take(i as int) =~= items@);
    outs
}

// ---------------------------------------------------------------------------
// Calendars and accounts
// ---------------------------------------------------------------------------

/// `w` is the word for a calendar's color: the nearest color of the palette,
/// or "none" for a calendar without one.
pub open spec fn color_shown(color: Option<[u64; 9]>, w: Seq<char>) -> bool {
    match color {
        Some(distances) => names_nearest(distances@, w),
        None => w == "none"@,
    }
}

/// `o` shows the calendar `c`.
pub open spec fn calendar_shown(c: CalendarInfo, o: CalendarOutput) -> bool {
    &&& o.id == c.identifier
    &&& o.title == c.title
    &&& color_shown(c.color, o.color@)
    &&& o.source == c.source
    &&& o.source_id == c.source_id
    &&& o.allows_modifications == c.allows_modifications
    &&& o.is_immutable == c.is_immutable
    &&& o.is_subscribed == c.is_subscribed
    &&& o.entity_types@ == c.allowed_entity_types@
    &&& o.supported_event_availabilities@ == c.supported_event_availabilities@
}

/// `outs` shows the calendars `infos`, in their order.
pub open spec fn calendars_shown(infos: Seq<CalendarInfo>, outs: Seq<CalendarOutput>) -> bool {
    &&& outs.len() == infos.len()
    &&& forall|i: int| 0 <= i < infos.len() ==> #[trigger] calendar_shown(infos[i], outs[i])
}

impl CalendarOutput {
    /// Shows a calendar.
    pub fn from_info(c: &CalendarInfo) -> (o: CalendarOutput)
        ensures
            calendar_shown(*c, o),
    {
        CalendarOutput {
            id: c.identifier.clone(),
            title: c.title.clone(),
            color: match &c.color {
                Some(distances) => CalendarColor::from_rgba(distances).to_owned(),
                None => "none".to_owned(),
            },
            source: c.source.clone(),
            source_id: c.source_id.clone(),
            allows_modifications: c.allows_modifications,
            is_immutable: c.is_immutable,
            is_subscribed: c.is_subscribed,
            entity_types: c.allowed_entity_types.clone(),
            supported_event_availabilities: c.supported_event_availabilities.clone(),
        }
    }
}

/// Shows calendars.
pub fn show_calendars(infos: &Vec<CalendarInfo>) -> (outs: Vec<CalendarOutput>)
    ensures
        calendars_shown(infos@, outs@),
{
    let mut outs: Vec<CalendarOutput> = Vec::new();
    let mut i: usize = 0;
    while i < infos.len()
        invariant
            i <= infos@.len(),
            calendars_shown(infos@.take(i as int), outs@),
        decreases infos@.len() - i,
    {
        outs.push(CalendarOutput::from_info(&infos[i]));
        proof {
            let n = i as int;
            assert forall|k: int| 0 <= k <= n implies #[trigger] calendar_shown(
                infos@.take(n + 1)[k],
                outs@[k],
            ) by {
                if k < n {
                    assert(calendar_shown(infos@.take(n)[k], outs@.drop_last()[k]));
                }
            }
        }
        i = i + 1;
    }
    assert(infos@.take(i as int) =~= infos@);
    outs
}

/// An account as answers show it.
pub open spec fn source_of(s: SourceInfo) -> SourceOutput {
    SourceOutput { id: s.identifier, title: s.title, source_type: s.source_type }
}

impl SourceOutput {
    /// Shows an account.
    pub fn from_info(s: &SourceInfo) -> (o: SourceOutput)
        ensures
            o == source_of(*s),
    {
        SourceOutput {
            id: s.identifier.clone(),
            title: s.title.clone(),
            source_type: s.source_type.clone(),
        }
    }
}

/// Shows accounts.
pub fn show_sources(infos: &Vec<SourceInfo>) -> (outs: Vec<SourceOutput>)
    ensures
        outs@ == infos@.map_values(|s: SourceInfo| source_of(s)),
{
    let mut outs: Vec<SourceOutput> = Vec::new();
    let mut i: usize = 0;
    while i < infos.len()
        invariant
            i <= infos@.len(),
            outs@ == infos@.take(i as int).map_values(|s: SourceInfo| source_of(s)),
        decreases infos@.len() - i,
    {
        outs.push(SourceOutput::from_info(&infos[i]));
        i = i + 1;
    }
    assert(infos@.take(i as int) =~= infos@);
    outs
}

/// Whether a count is zero, in which case answers leave it out.
pub fn is_zero(n: &usize) -> (zero: bool)
    ensures
        zero == (*n == 0),
{
    *n == 0
}

// ---------------------------------------------------------------------------
// What is shown is what there is
// ---------------------------------------------------------------------------

/// A date is shown as the point that it is.
pub open spec fn shows_point(shown: Option<String>, d: Option<LocalDateTime>) -> bool {
    match (shown, d) {
        (None, None) => true,
        (Some(s), Some(p)) => s@ == rfc3339(p.unix_secs(), p.sub_nanos(), p.utc_offset()),
        _ => false,
    }
}

/// A place is shown as the place that it is.
pub open spec fn shows_place(shown: Option<LocationOutput>, l: Option<StructuredLocation>) -> bool {
    match (shown, l) {
        (None, None) => true,
        (Some(s), Some(p)) => s.title@ == p.title@ && s.latitude == p.latitude && s.longitude
            == p.longitude && s.radius_meters == p.radius,
        _ => false,
    }
}

/// An event is shown with everything that the store says of it: its texts, its
/// dates, its place, everyone who takes part, every alarm and every rule.
pub proof fn events_are_shown_in_full(
    e: EventItem,
    alarms: Seq<AlarmInfo>,
    rules: Seq<RecurrenceRule>,
    o: EventOutput,
)
    requires
        event_shown(e, alarms, rules, o),
    ensures
        o.id == e.identifier,
        o.title == e.title,
        o.notes == e.notes,
        o.location == e.location,
        o.URL == e.URL,
        o.all_day == e.all_day,
        o.calendar_name == e.calendar_title,
        o.calendar_id == e.calendar_id,
        shows_point(Some(o.start), Some(e.start_date)),
        shows_point(Some(o.end), Some(e.end_date)),
        availability_named(o.availability@) == Some(e.availability),
        e.status is Confirmed <==> o.status@ == "confirmed"@,
        e.status is Tentative <==> o.status@ == "tentative"@,
        e.status is Canceled <==> o.status@ == "canceled"@,
        shows_place(o.structured_location, e.structured_location),
        o.attendees@.len() == e.attendees@.len(),
        forall|i: int|
            0 <= i < e.attendees@.len() ==> (#[trigger] o.attendees@[i]).name == e.attendees@[i].name
                && o.attendees@[i].role@ == lowercase(e.attendees@[i].role@)
                && o.attendees@[i].status@ == lowercase(e.attendees@[i].status@)
                && o.attendees@[i].is_current_user == e.attendees@[i].is_current_user,
        o.organizer is Some <==> e.organizer is Some,
        e.organizer matches Some(p) ==> o.organizer->0.name == p.name,
        o.is_detached == e.is_detached,
        shows_point(o.occurrence_date, e.occurrence_date),
        shows_point(o.creation_date, e.creation_date),
        shows_point(o.last_modified_date, e.last_modified_date),
        o.external_identifier == e.external_identifier,
        o.timezone == e.timezone,
        o.attachments_count == e.attachments_count,
        o.alarms@.len() == alarms.len(),
        o.recurrence_rules@.len() == rules.len(),
{
    availability_round_trip(e.availability);
    reveal_strlit("confirmed");
    reveal_strlit("tentative");
    reveal_strlit("canceled");
    reveal_strlit("none");
    assert("confirmed"@[0] == 'c' && "tentative"@[0] == 't' && "none"@[0] == 'n');
    assert("confirmed"@.len() == 9 && "canceled"@.len() == 8);
    assert forall|i: int| 0 <= i < e.attendees@.len() implies attendee_shown(
        e.attendees@[i],
        #[trigger] o.attendees@[i],
    ) by {}
}

/// A reminder is shown with everything that the store says of it.
pub proof fn reminders_are_shown_in_full(
    r: ReminderItem,
    alarms: Seq<AlarmInfo>,
    rules: Seq<RecurrenceRule>,
    o: ReminderOutput,
)
    requires
        reminder_shown(r, alarms, rules, o),
    ensures
        o.id == r.identifier,
        o.title == r.title,
        o.notes == r.notes,
        o.completed == r.completed,
        r.priority == 0 || r.priority > 9 <==> o.priority@ == "none"@,
        1 <= r.priority <= 4 <==> o.priority@ == "high"@,
        r.priority == 5 <==> o.priority@ == "medium"@,
        6 <= r.priority <= 9 <==> o.priority@ == "low"@,
        o.list_name == r.calendar_title,
        o.list_id == r.calendar_id,
        shows_point(o.due_date, r.due_date),
        shows_point(o.start_date, r.start_date),
        shows_point(o.completion_date, r.completion_date),
        o.URL == r.URL,
        o.location == r.location,
        o.due_date_timezone == r.due_date_timezone,
        shows_place(o.geofence, r.structured_location),
        o.parent_id == r.parent_id,
        o.attachments_count == r.attachments_count,
        o.alarms@.len() == alarms.len(),
        o.recurrence_rules@.len() == rules.len(),
{
    reveal_strlit("none");
    reveal_strlit("high");
    reveal_strlit("medium");
    reveal_strlit("low");
    assert("none"@[0] == 'n' && "high"@[0] == 'h' && "medium"@[0] == 'm' && "low"@[0] == 'l');
}

/// Alarms are shown all, in their order, each with everything that the store
/// says of it. A crossing is shown exactly where there is one.
pub proof fn alarms_are_shown_in_full(infos: Seq<AlarmInfo>, outs: Seq<AlarmOutput>)
    requires
        alarms_shown(infos, outs),
    ensures
        outs.len() == infos.len(),
        forall|i: int|
            0 <= i < infos.len() ==> {
                let o = #[trigger] outs[i];
                &&& o.relative_offset_seconds == infos[i].relative_offset
                &&& shows_point(o.absolute_date, infos[i].absolute_date)
                &&& (infos[i].proximity is Enter <==> opt_view(o.proximity) == Some("enter"@))
                &&& (infos[i].proximity is Leave <==> opt_view(o.proximity) == Some("leave"@))
                &&& (infos[i].proximity is Off <==> o.proximity is None)
                &&& shows_place(o.location, infos[i].location)
                &&& o.email_address == infos[i].email_address
                &&& o.sound_name == infos[i].sound_name
                &&& o.url == infos[i].url
            },
{
    reveal_strlit("enter");
    reveal_strlit("leave");
    assert("enter"@[0] != "leave"@[0]);
    assert forall|i: int| 0 <= i < infos.len() implies alarm_shown(infos[i], #[trigger] outs[i]) by {
    }
}

/// Recurrence rules are shown all, in their order, each with its frequency, its
/// interval, its lists and its end.
pub proof fn rules_are_shown_in_full(rules: Seq<RecurrenceRule>, outs: Seq<RecurrenceRuleOutput>)
    requires
        rules_shown(rules, outs),
    ensures
        outs.len() == rules.len(),
        forall|i: int|
            0 <= i < rules.len() ==> {
                let o = #[trigger] outs[i];
                &&& frequency_named(o.frequency@) == Some(rules[i].frequency)
                &&& o.interval == rules[i].interval
                &&& held(o.days_of_week) == held(rules[i].days_of_week)
                &&& held(o.days_of_month) == held(rules[i].days_of_month)
                &&& held(o.months_of_year) == held(rules[i].months_of_year)
                &&& held(o.weeks_of_year) == held(rules[i].weeks_of_year)
                &&& held(o.days_of_year) == held(rules[i].days_of_year)
                &&& held(o.set_positions) == held(rules[i].set_positions)
                &&& (o.end is Never <==> rules[i].end is Never)
                &&& rules[i].end matches RecurrenceEndCondition::AfterCount(n) ==> o.end
                    == RecurrenceEndOutput::AfterCount { count: n }
                &&& rules[i].end matches RecurrenceEndCondition::OnDate(d) ==> o.end is OnDate
                    && shows_point(Some(o.end->date), Some(d))
            },
{
    assert forall|i: int| 0 <= i < rules.len() implies {
        let o = #[trigger] outs[i];
        rule_shown(rules[i], o) && frequency_named(o.frequency@) == Some(rules[i].frequency)
    } by {
        assert(rule_shown(rules[i], outs[i]));
        frequency_round_trip(rules[i].frequency);
    }
}

/// An alarm that is sent is shown as it was sent, where the store holds what
/// was sent.
pub proof fn alarm_is_shown_as_sent(param: AlarmParam, info: AlarmInfo, o: AlarmOutput)
    requires
        info.relative_offset == alarm_of(param).relative_offset,
        info.proximity == alarm_of(param).proximity,
        info.location == alarm_of(param).location,
        info.email_address == alarm_of(param).email_address,
        info.sound_name == alarm_of(param).sound_name,
        info.url == alarm_of(param).url,
        alarm_shown(info, o),
    ensures
        o.relative_offset_seconds == param.relative_offset,
        o.email_address == param.email_address,
        o.sound_name == param.sound_name,
        o.url == param.url,
        opt_view(param.proximity) == Some("enter"@) || opt_view(param.proximity) == Some("leave"@)
            ==> opt_view(o.proximity) == opt_view(param.proximity),
        o.location is Some <==> param.location_title is Some && param.latitude is Some
            && param.longitude is Some,
        o.location matches Some(l) ==> l.title@ == param.location_title->0@ && l.latitude
            == param.latitude->0 && l.longitude == param.longitude->0 && (param.radius is Some
            ==> l.radius_meters == param.radius->0),
{
    alarm_is_as_supplied(param);
}

} // verus!
