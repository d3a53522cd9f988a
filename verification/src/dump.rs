//! The objects that are dumped for debugging, before they are written out.

use crate::event::{detail_event, EventAlarms, EventStep};
use crate::model::{CalendarInfo, EventItem, ReminderItem, SourceInfo, StoreError};
use crate::output::{calendars_shown, event_summaries, reminder_summaries, show_calendars, show_events, show_reminders, show_sources, source_of, CalendarOutput, EventOutput, ReminderOutput, SourceOutput};
use crate::prompts::{in_list, keep_in_list};
use crate::reminder::{detail_next, detail_reminder, ReminderStep};
use crate::text::opt_str_view;
use vstd::prelude::*;

verus! {

/// Dumps a reminder with its alarms and recurrence rules: the steps that read
/// them.
pub fn dump_reminder(reply: Result<ReminderItem, StoreError>) -> (r: Result<
    ReminderStep,
    StoreError,
>)
    ensures
        match reply {
            Ok(item) => r is Ok && detail_next(r->Ok_0, item),
            Err(e) => r == Err::<ReminderStep, StoreError>(e),
        },
{
    match reply {
        Ok(item) => Ok(detail_reminder(item)),
        Err(e) => Err(e),
    }
}

/// Dumps the reminders of a list, or all of them, without alarms and
/// recurrence rules.
pub fn dump_reminders(
    list_name: Option<&str>,
    reply: Result<Vec<ReminderItem>, StoreError>,
) -> (r: Result<Vec<ReminderOutput>, StoreError>)
    ensures
        match reply {
            Ok(items) => r is Ok && reminder_summaries(
                items@.filter(|i: ReminderItem| in_list(i, opt_str_view(list_name))),
                r->Ok_0@,
            ),
            Err(e) => r == Err::<Vec<ReminderOutput>, StoreError>(e),
        },
{
    match reply {
        Ok(items) => {
            let kept: Vec<ReminderItem> = keep_in_list(items, list_name);
            Ok(show_reminders(&kept))
        },
        Err(e) => Err(e),
    }
}

/// Dumps an event with its alarms and recurrence rules: the steps that read
/// them.
pub fn dump_event(reply: Result<EventItem, StoreError>) -> (r: Result<EventStep, StoreError>)
    ensures
        match reply {
            Ok(item) => r == Ok::<EventStep, StoreError>(EventStep::Alarms(EventAlarms { item })),
            Err(e) => r == Err::<EventStep, StoreError>(e),
        },
{
    match reply {
        Ok(item) => Ok(detail_event(item)),
        Err(e) => Err(e),
    }
}

/// Dumps events without alarms and recurrence rules.
pub fn dump_events(reply: Result<Vec<EventItem>, StoreError>) -> (r: Result<
    Vec<EventOutput>,
    StoreError,
>)
    ensures
        match reply {
            Ok(items) => r is Ok && event_summaries(items@, r->Ok_0@),
            Err(e) => r == Err::<Vec<EventOutput>, StoreError>(e),
        },
{
    match reply {
        Ok(items) => Ok(show_events(&items)),
        Err(e) => Err(e),
    }
}

/// Dumps the reminder lists.
pub fn dump_reminder_lists(reply: Result<Vec<CalendarInfo>, StoreError>) -> (r: Result<
    Vec<CalendarOutput>,
    StoreError,
>)
    ensures
        match reply {
            Ok(lists) => r is Ok && calendars_shown(lists@, r->Ok_0@),
            Err(e) => r == Err::<Vec<CalendarOutput>, StoreError>(e),
        },
{
    match reply {
        Ok(lists) => Ok(show_calendars(&lists)),
        Err(e) => Err(e),
    }
}

/// Dumps the event calendars.
pub fn dump_calendars(reply: Result<Vec<CalendarInfo>, StoreError>) -> (r: Result<
    Vec<CalendarOutput>,
    StoreError,
>)
    ensures
        match reply {
            Ok(calendars) => r is Ok && calendars_shown(calendars@, r->Ok_0@),
            Err(e) => r == Err::<Vec<CalendarOutput>, StoreError>(e),
        },
{
    match reply {
        Ok(calendars) => Ok(show_calendars(&calendars)),
        Err(e) => Err(e),
    }
}

/// Dumps the accounts.
pub fn dump_sources(reply: Result<Vec<SourceInfo>, StoreError>) -> (r: Result<
    Vec<SourceOutput>,
    StoreError,
>)
    ensures
        match reply {
            Ok(sources) => r is Ok && r->Ok_0@ == sources@.map_values(
                |s: SourceInfo| source_of(s),
            ),
            Err(e) => r == Err::<Vec<SourceOutput>, StoreError>(e),
        },
{
    match reply {
        Ok(sources) => Ok(show_sources(&sources)),
        Err(e) => Err(e),
    }
}

} // verus!
