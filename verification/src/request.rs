//! What clients of the tool server send.

use crate::model::Real;
use vstd::prelude::*;

verus! {

/// The two kinds of item that access is asked for.
#[derive(Clone, Copy, PartialEq, Eq, Structural, Debug)]
pub enum AccessEntity {
    Reminder,
    Event,
}

#[derive(Debug)]
pub struct RequestAccessRequest {
    /// Which entity to request access for.
    pub entity: AccessEntity,
}

#[derive(Debug)]
pub struct SetReminderDueTimezoneRequest {
    pub reminder_id: String,
    /// IANA zone name, e.g. `America/Los_Angeles`. Absent or empty clears.
    pub timezone: Option<String>,
}

/// Which crossing of a geofence triggers.
#[derive(Clone, Copy, PartialEq, Eq, Structural, Debug)]
pub enum GeofenceProximity {
    Enter,
    Leave,
}

#[derive(Debug)]
pub struct GeofenceInput {
    pub title: String,
    pub latitude: Real,
    pub longitude: Real,
    /// Radius in meters.
    pub radius_meters: Real,
    /// Trigger when entering vs leaving the radius.
    pub proximity: GeofenceProximity,
}

#[derive(Debug)]
pub struct SetReminderGeofenceRequest {
    pub reminder_id: String,
    /// The geofence to attach; absent clears any that is there.
    pub geofence: Option<GeofenceInput>,
}

/// A place for an event: title, position and a display radius.
#[derive(Debug)]
pub struct StructuredLocationInput {
    pub title: String,
    pub latitude: Real,
    pub longitude: Real,
    /// Display radius in meters (0 = labeled point with no radius).
    pub radius_meters: Real,
}

#[derive(Debug)]
pub struct SetEventAvailabilityRequest {
    pub event_id: String,
    /// "busy", "free", "tentative" or "unavailable".
    pub availability: String,
}

/// Priority level for reminders.
#[derive(Clone, Copy, PartialEq, Eq, Structural, Debug)]
pub enum Priority {
    /// No priority (0)
    Unset,
    /// Low priority (9)
    Low,
    /// Medium priority (5)
    Medium,
    /// High priority (1)
    High,
}

/// Which kind of item a tool that serves both is asked for.
#[derive(Clone, Copy, PartialEq, Eq, Structural, Debug)]
pub enum ItemType {
    Reminder,
    Event,
}

/// Alarm configuration for inline use in create and update.
#[derive(Debug)]
pub struct AlarmParam {
    /// Offset in seconds before the due date (negative = before).
    pub relative_offset: Option<Real>,
    /// Proximity trigger: "enter" or "leave".
    pub proximity: Option<String>,
    /// Title of the location for geofenced alarms.
    pub location_title: Option<String>,
    /// Latitude of the location.
    pub latitude: Option<Real>,
    /// Longitude of the location.
    pub longitude: Option<Real>,
    /// Geofence radius in meters (default: 100).
    pub radius: Option<Real>,
    /// Makes it an email alarm.
    pub email_address: Option<String>,
    /// Makes it an audio alarm.
    pub sound_name: Option<String>,
    /// Makes it a procedure alarm.
    pub url: Option<String>,
}

/// Recurrence configuration for inline use in create and update.
#[derive(Debug)]
pub struct RecurrenceParam {
    /// "daily", "weekly", "monthly" or "yearly".
    pub frequency: String,
    /// Repeat every N intervals.
    pub interval: usize,
    /// Days of the week (1=Sun, ..., 7=Sat).
    pub days_of_week: Option<Vec<u8>>,
    /// Days of the month (1..=31, or negatives counting from the end).
    pub days_of_month: Option<Vec<i32>>,
    /// Months of the year (1..=12).
    pub months_of_year: Option<Vec<i32>>,
    /// Weeks of the year (1..=53, or negatives counting from the end).
    pub weeks_of_year: Option<Vec<i32>>,
    /// Days of the year (1..=366, or negatives counting from the end).
    pub days_of_year: Option<Vec<i32>>,
    /// Set positions, applied after the other fields.
    pub set_positions: Option<Vec<i32>>,
    /// End after this many occurrences.
    pub end_after_count: Option<usize>,
    /// End on this date.
    pub end_date: Option<String>,
}

#[derive(Debug)]
pub struct ListRemindersRequest {
    /// Show completed reminders too. Ignored when a `completed_*` filter is
    /// supplied.
    pub show_completed: bool,
    /// Filter to a specific reminder list by name.
    pub list_name: Option<String>,
    /// Only incomplete reminders due at or after this time.
    pub due_after: Option<String>,
    /// Only incomplete reminders due before this time.
    pub due_before: Option<String>,
    /// Only reminders completed at or after this time.
    pub completed_after: Option<String>,
    /// Only reminders completed before this time.
    pub completed_before: Option<String>,
}

#[derive(Debug)]
pub struct CreateReminderRequest {
    pub title: String,
    /// The reminder list to add to.
    pub list_name: String,
    pub notes: Option<String>,
    pub priority: Option<Priority>,
    /// Due date, or a time of day today.
    pub due_date: Option<String>,
    pub start_date: Option<String>,
    /// IANA timezone of the due date.
    pub due_date_timezone: Option<String>,
    pub geofence: Option<GeofenceInput>,
    pub alarms: Option<Vec<AlarmParam>>,
    pub recurrence: Option<RecurrenceParam>,
}

#[derive(Debug)]
pub struct UpdateReminderRequest {
    pub reminder_id: String,
    /// The reminder list to move to.
    pub list_name: Option<String>,
    pub title: Option<String>,
    pub notes: Option<String>,
    pub completed: Option<bool>,
    pub priority: Option<Priority>,
    /// New due date; empty clears.
    pub due_date: Option<String>,
    /// New start date; empty clears.
    pub start_date: Option<String>,
    /// IANA timezone of the due date; empty clears.
    pub due_date_timezone: Option<String>,
    /// Completion time, a date as elsewhere or a timestamp in the form
    /// `YYYY-MM-DDTHH:MM:SS±HH:MM`; empty clears completion.
    pub completion_date: Option<String>,
    /// Replaces all alarms when present.
    pub alarms: Option<Vec<AlarmParam>>,
    /// Replaces the recurrence rule when present; an empty frequency clears.
    pub recurrence: Option<RecurrenceParam>,
}

#[derive(Debug)]
pub struct CreateReminderListRequest {
    pub name: String,
}

/// Predefined colors for calendars and reminder lists.
#[derive(Clone, Copy, PartialEq, Eq, Structural, Debug)]
pub enum CalendarColor {
    Red,
    Orange,
    Yellow,
    Green,
    Blue,
    Purple,
    Brown,
    Pink,
    Teal,
}

/// The color that a request asks for.
#[derive(Debug)]
pub enum ColorChoice {
    /// One of the predefined colors.
    Named(CalendarColor),
    /// A color of its own, as `#RRGGBB` in hexadecimal.
    Hex(String),
}

#[derive(Debug)]
pub struct UpdateReminderListRequest {
    pub list_id: String,
    pub name: Option<String>,
    pub color: Option<ColorChoice>,
}

#[derive(Debug)]
pub struct UpdateEventCalendarRequest {
    pub calendar_id: String,
    pub name: Option<String>,
    pub color: Option<ColorChoice>,
}

#[derive(Debug)]
pub struct DeleteReminderListRequest {
    pub list_id: String,
}

#[derive(Debug)]
pub struct ReminderIdRequest {
    pub reminder_id: String,
}

#[derive(Debug)]
pub struct ListEventsRequest {
    /// Number of days from today.
    pub days: i64,
    /// Filter to a specific calendar by ID.
    pub calendar_id: Option<String>,
}

#[allow(non_snake_case)]
#[derive(Debug)]
pub struct CreateEventRequest {
    pub title: String,
    pub start: String,
    /// End; where absent, the duration counts.
    pub end: Option<String>,
    pub duration_minutes: i64,
    pub notes: Option<String>,
    pub location: Option<String>,
    pub calendar_name: Option<String>,
    pub all_day: bool,
    pub URL: Option<String>,
    pub availability: Option<String>,
    pub structured_location: Option<StructuredLocationInput>,
    pub alarms: Option<Vec<AlarmParam>>,
    pub recurrence: Option<RecurrenceParam>,
}

#[derive(Debug)]
pub struct EventIdRequest {
    pub event_id: String,
    /// "this" (default) or "future".
    pub span: Option<String>,
    /// Alias for `span: "future"`.
    pub affect_future: bool,
}

#[allow(non_snake_case)]
#[derive(Debug)]
pub struct UpdateEventRequest {
    pub event_id: String,
    pub title: Option<String>,
    /// Empty clears.
    pub notes: Option<String>,
    /// Empty clears.
    pub location: Option<String>,
    pub start: Option<String>,
    pub end: Option<String>,
    pub all_day: Option<bool>,
    /// Calendar to move to.
    pub calendar_name: Option<String>,
    /// Empty clears.
    pub URL: Option<String>,
    pub availability: Option<String>,
    /// Absent keeps the place, `Some(None)` clears it.
    pub structured_location: Option<Option<StructuredLocationInput>>,
    /// "this" (default) or "future".
    pub span: Option<String>,
    /// Replaces all alarms when present.
    pub alarms: Option<Vec<AlarmParam>>,
    /// Replaces the recurrence rule when present; an empty frequency clears.
    pub recurrence: Option<RecurrenceParam>,
}

#[derive(Debug)]
pub struct BatchDeleteRequest {
    pub item_type: ItemType,
    pub item_ids: Vec<String>,
    /// For recurring events: delete every later occurrence too.
    pub affect_future: bool,
}

#[derive(Debug)]
pub struct BatchMoveRequest {
    pub reminder_ids: Vec<String>,
    pub destination_list_name: String,
}

#[derive(Debug)]
pub struct BatchUpdateItem {
    pub item_id: String,
    pub title: Option<String>,
    pub notes: Option<String>,
    /// Reminders only.
    pub completed: Option<bool>,
    /// Reminders only.
    pub priority: Option<Priority>,
    /// Reminders only; empty clears.
    pub due_date: Option<String>,
}

#[derive(Debug)]
pub struct BatchUpdateRequest {
    pub item_type: ItemType,
    pub updates: Vec<BatchUpdateItem>,
}

#[derive(Debug)]
pub struct SearchRequest {
    /// Text to search for in titles and notes, in any case.
    pub query: String,
    /// Which items to search; both where absent.
    pub item_type: Option<ItemType>,
    /// Search completed reminders too.
    pub include_completed: bool,
    /// For events: number of days from now.
    pub days: i64,
}

#[derive(Debug)]
pub struct ListRemindersPromptArgs {
    pub list_name: Option<String>,
}

#[derive(Debug)]
pub struct MoveReminderPromptArgs {
    pub reminder_id: String,
    pub destination_list: String,
}

#[derive(Debug)]
pub struct CreateReminderPromptArgs {
    pub title: String,
    pub notes: Option<String>,
    pub list_name: Option<String>,
    /// Priority (0 = none, 1-4 = high, 5 = medium, 6-9 = low).
    pub priority: Option<u8>,
    pub due_date: Option<String>,
}

/// The number of days that events are listed for by default.
pub fn default_days() -> (days: i64)
    ensures
        days == 1,
{
    1
}

/// The length of an event by default, in minutes.
pub fn default_duration() -> (minutes: i64)
    ensures
        minutes == 60,
{
    60
}

/// The number of days that events are searched for by default.
pub fn default_search_days() -> (days: i64)
    ensures
        days == 30,
{
    30
}

/// The interval of a recurrence by default.
pub fn default_interval() -> (interval: usize)
    ensures
        interval == 1,
{
    1
}

} // verus!
