//! The values that go to the event store and come back from it.

use crate::clock::LocalDateTime;
use vstd::prelude::*;

verus! {

/// A double-precision number, carried by its bit pattern.
#[derive(Clone, Copy, PartialEq, Eq, Structural, Debug)]
pub struct Real {
    pub bits: u64,
}

/// The number one hundred.
pub const ONE_HUNDRED_BITS: u64 = 0x4059_0000_0000_0000;

/// What the user has decided about access to reminders or events.
#[derive(Clone, Copy, PartialEq, Eq, Structural, Debug)]
pub enum AuthorizationStatus {
    NotDetermined,
    Restricted,
    Denied,
    FullAccess,
    WriteOnly,
}

/// What went wrong in the event store.
#[derive(PartialEq, Eq, Debug)]
pub enum EventKitError {
    AuthorizationDenied,
    AuthorizationRestricted,
    AuthorizationNotDetermined,
    AuthorizationRequestFailed(String),
    ItemNotFound(String),
    SaveFailed(String),
    /// Any other failure.
    Other,
}

/// An error of the event store, with the text that it displays.
#[derive(PartialEq, Eq, Debug)]
pub struct StoreError {
    pub error: EventKitError,
    pub text: String,
}

/// How an event shows on the timeline.
#[derive(Clone, Copy, PartialEq, Eq, Structural, Debug)]
pub enum EventAvailability {
    NotSupported,
    Busy,
    Free,
    Tentative,
    Unavailable,
}

/// Which occurrences of a recurring event a change applies to.
#[derive(Clone, Copy, PartialEq, Eq, Structural, Debug)]
pub enum EventSpan {
    /// This occurrence.
    This,
    /// This occurrence and every later one.
    Future,
}

/// Whether an event takes place.
#[derive(Clone, Copy, PartialEq, Eq, Structural, Debug)]
pub enum EventStatus {
    Unset,
    Confirmed,
    Tentative,
    Canceled,
}

/// Which crossing of a geofence sets an alarm off.
#[derive(Clone, Copy, PartialEq, Eq, Structural, Debug)]
pub enum AlarmProximity {
    Off,
    Enter,
    Leave,
}

/// How an alarm makes itself known.
#[derive(Clone, Copy, PartialEq, Eq, Structural, Debug)]
pub enum AlarmType {
    Display,
    Audio,
    Procedure,
    Email,
    Unknown,
}

/// A titled place with a radius in meters.
#[derive(PartialEq, Eq, Debug)]
pub struct StructuredLocation {
    pub title: String,
    pub latitude: Real,
    pub longitude: Real,
    pub radius: Real,
}

/// An alarm as the store reports it.
#[derive(PartialEq, Eq, Debug)]
pub struct AlarmInfo {
    pub relative_offset: Option<Real>,
    pub absolute_date: Option<LocalDateTime>,
    pub proximity: AlarmProximity,
    pub location: Option<StructuredLocation>,
    pub email_address: Option<String>,
    pub sound_name: Option<String>,
    pub url: Option<String>,
    pub alarm_type: AlarmType,
}

/// An alarm to be added. What is not named here keeps the store's default.
#[derive(PartialEq, Eq, Debug)]
pub struct AlarmDraft {
    pub relative_offset: Option<Real>,
    pub proximity: AlarmProximity,
    pub location: Option<StructuredLocation>,
    pub email_address: Option<String>,
    pub sound_name: Option<String>,
    pub url: Option<String>,
}

/// How often something recurs.
#[derive(Clone, Copy, PartialEq, Eq, Structural, Debug)]
pub enum RecurrenceFrequency {
    Daily,
    Weekly,
    Monthly,
    Yearly,
}

/// When something stops recurring.
#[derive(Clone, Copy, PartialEq, Eq, Structural, Debug)]
pub enum RecurrenceEndCondition {
    Never,
    AfterCount(usize),
    OnDate(LocalDateTime),
}

/// A recurrence rule.
#[derive(PartialEq, Eq, Debug)]
pub struct RecurrenceRule {
    pub frequency: RecurrenceFrequency,
    pub interval: usize,
    pub end: RecurrenceEndCondition,
    pub days_of_week: Option<Vec<u8>>,
    pub days_of_month: Option<Vec<i32>>,
    pub months_of_year: Option<Vec<i32>>,
    pub weeks_of_year: Option<Vec<i32>>,
    pub days_of_year: Option<Vec<i32>>,
    pub set_positions: Option<Vec<i32>>,
}

/// Someone who takes part in an event. Role and status are held by the name
/// of their variant.
#[derive(PartialEq, Eq, Debug)]
pub struct ParticipantInfo {
    pub name: Option<String>,
    pub role: String,
    pub status: String,
    pub is_current_user: bool,
}

/// A reminder as the store reports it.
#[allow(non_snake_case)]
#[derive(PartialEq, Eq, Debug)]
pub struct ReminderItem {
    pub identifier: String,
    pub title: String,
    pub notes: Option<String>,
    pub completed: bool,
    pub priority: usize,
    pub calendar_title: Option<String>,
    pub calendar_id: Option<String>,
    pub due_date: Option<LocalDateTime>,
    pub start_date: Option<LocalDateTime>,
    pub completion_date: Option<LocalDateTime>,
    pub URL: Option<String>,
    pub location: Option<String>,
    pub due_date_timezone: Option<String>,
    pub structured_location: Option<StructuredLocation>,
    pub parent_id: Option<String>,
    pub attachments_count: usize,
    pub has_alarms: bool,
    pub has_recurrence_rules: bool,
    pub has_notes: bool,
    pub has_attendees: bool,
    pub external_identifier: Option<String>,
    pub creation_date: Option<LocalDateTime>,
    pub last_modified_date: Option<LocalDateTime>,
    pub timezone: Option<String>,
}

/// An event as the store reports it.
#[allow(non_snake_case)]
#[derive(PartialEq, Eq, Debug)]
pub struct EventItem {
    pub identifier: String,
    pub title: String,
    pub start_date: LocalDateTime,
    pub end_date: LocalDateTime,
    pub all_day: bool,
    pub calendar_title: Option<String>,
    pub calendar_id: Option<String>,
    pub notes: Option<String>,
    pub location: Option<String>,
    pub URL: Option<String>,
    pub availability: EventAvailability,
    pub status: EventStatus,
    pub structured_location: Option<StructuredLocation>,
    pub attendees: Vec<ParticipantInfo>,
    pub organizer: Option<ParticipantInfo>,
    pub is_detached: bool,
    pub occurrence_date: Option<LocalDateTime>,
    pub creation_date: Option<LocalDateTime>,
    pub last_modified_date: Option<LocalDateTime>,
    pub external_identifier: Option<String>,
    pub timezone: Option<String>,
    pub attachments_count: usize,
}

/// A calendar or a reminder list as the store reports it.
#[derive(PartialEq, Eq, Debug)]
pub struct CalendarInfo {
    pub identifier: String,
    pub title: String,
    /// How far the calendar's color lies from each color of the palette, in
    /// the palette's order: squared distances, each a non-negative
    /// double-precision number by its bit pattern.
    pub color: Option<[u64; 9]>,
    pub source: Option<String>,
    pub source_id: Option<String>,
    pub allows_modifications: bool,
    pub is_immutable: bool,
    pub is_subscribed: bool,
    pub allowed_entity_types: Vec<String>,
    pub supported_event_availabilities: Vec<String>,
}

/// An account as the store reports it.
#[derive(PartialEq, Eq, Debug)]
pub struct SourceInfo {
    pub identifier: String,
    pub title: String,
    pub source_type: String,
}

/// A reminder to be created.
#[derive(PartialEq, Eq, Debug)]
pub struct ReminderDraft {
    pub title: String,
    pub notes: Option<String>,
    pub calendar_title: Option<String>,
    pub priority: Option<usize>,
    pub due_date: Option<LocalDateTime>,
    pub start_date: Option<LocalDateTime>,
    pub due_date_timezone: Option<String>,
}

/// A change to a reminder. An absent field is left as it is; where a field
/// holds an option, `Some(None)` clears it.
#[derive(PartialEq, Eq, Debug)]
pub struct ReminderPatch {
    pub title: Option<String>,
    pub notes: Option<String>,
    pub completed: Option<bool>,
    pub priority: Option<usize>,
    pub due_date: Option<Option<LocalDateTime>>,
    pub start_date: Option<Option<LocalDateTime>>,
    pub calendar_title: Option<String>,
    pub due_date_timezone: Option<Option<String>>,
    pub completion_date: Option<Option<LocalDateTime>>,
}

/// An event to be created.
#[allow(non_snake_case)]
#[derive(PartialEq, Eq, Debug)]
pub struct EventDraft {
    pub title: String,
    pub start: LocalDateTime,
    pub end: LocalDateTime,
    pub notes: Option<String>,
    pub location: Option<String>,
    pub calendar_title: Option<String>,
    pub all_day: bool,
    pub URL: Option<String>,
    pub availability: Option<EventAvailability>,
    pub structured_location: Option<StructuredLocation>,
}

/// A change to an event. An absent field is left as it is; where a field holds
/// an option, `Some(None)` clears it.
#[allow(non_snake_case)]
#[derive(PartialEq, Eq, Debug)]
pub struct EventPatch {
    pub title: Option<String>,
    pub notes: Option<Option<String>>,
    pub location: Option<Option<String>>,
    pub start: Option<LocalDateTime>,
    pub end: Option<LocalDateTime>,
    pub all_day: Option<bool>,
    pub calendar_title: Option<String>,
    pub URL: Option<Option<String>>,
    pub availability: Option<EventAvailability>,
    pub structured_location: Option<Option<StructuredLocation>>,
    pub span: EventSpan,
}

} // verus!
