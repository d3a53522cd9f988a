use chrono::Local;
use eventkit_core::clock::{parse_datetime, LocalDateTime};
use eventkit_core::error::McpErrorKind;
use eventkit_core::listing::{
    choose_query, event_window, holds_query, plan_search, DateFilters, EventQuery, ReminderQuery, ReminderScope,
};
use eventkit_core::model::{
    EventAvailability, EventItem, EventKitError, EventStatus, ReminderItem, StoreError,
};
use eventkit_core::request::{ItemType, ListEventsRequest, ListRemindersRequest, SearchRequest};
use eventkit_core::server::EventKitServer;

fn text(s: &str) -> Option<String> {
    Some(s.to_string())
}

fn failure(message: &str) -> StoreError {
    StoreError { error: EventKitError::Other, text: message.to_string() }
}

fn point(s: &str) -> LocalDateTime {
    parse_datetime(s).unwrap()
}

fn reminder(id: &str, title: &str, notes: Option<String>) -> ReminderItem {
    ReminderItem {
        identifier: id.to_string(),
        title: title.to_string(),
        notes,
        completed: false,
        priority: 0,
        calendar_title: None,
        calendar_id: None,
        due_date: None,
        start_date: None,
        completion_date: None,
        URL: None,
        location: None,
        due_date_timezone: None,
        structured_location: None,
        parent_id: None,
        attachments_count: 0,
        has_alarms: true,
        has_recurrence_rules: true,
        has_notes: false,
        has_attendees: false,
        external_identifier: None,
        creation_date: None,
        last_modified_date: None,
        timezone: None,
    }
}

fn event(id: &str, title: &str, calendar_id: Option<String>) -> EventItem {
    EventItem {
        identifier: id.to_string(),
        title: title.to_string(),
        start_date: point("2026-03-22 14:00"),
        end_date: point("2026-03-22 15:00"),
        all_day: false,
        calendar_title: None,
        calendar_id,
        notes: None,
        location: None,
        URL: None,
        availability: EventAvailability::Busy,
        status: EventStatus::Unset,
        structured_location: None,
        attendees: vec![],
        organizer: None,
        is_detached: false,
        occurrence_date: None,
        creation_date: None,
        last_modified_date: None,
        external_identifier: None,
        timezone: None,
        attachments_count: 0,
    }
}

fn request() -> ListRemindersRequest {
    ListRemindersRequest {
        show_completed: false,
        list_name: None,
        due_after: None,
        due_before: None,
        completed_after: None,
        completed_before: None,
    }
}

fn search(item_type: Option<ItemType>) -> SearchRequest {
    SearchRequest {
        query: "MILK".to_string(),
        item_type,
        include_completed: false,
        days: 30,
    }
}

#[test]
fn incomplete_reminders_are_the_default() {
    let query = EventKitServer::new().list_reminders(request()).unwrap();
    assert_eq!(query, ReminderQuery::Incomplete { after: None, before: None, lists: None });
    let mut params = request();
    params.show_completed = true;
    params.list_name = text("Work");
    let query = EventKitServer::new().list_reminders(params).unwrap();
    assert_eq!(query, ReminderQuery::Every { lists: Some(vec!["Work".to_string()]) });
}

#[test]
fn due_filters_ask_for_incomplete_reminders() {
    let mut params = request();
    params.show_completed = true;
    params.due_after = text("2026-05-25");
    params.due_before = text("2026-06-01 12:00");
    let query = EventKitServer::new().list_reminders(params).unwrap();
    assert_eq!(
        query,
        ReminderQuery::Incomplete {
            after: Some(point("2026-05-25")),
            before: Some(point("2026-06-01 12:00")),
            lists: None,
        }
    );
}

#[test]
fn completion_filters_ask_for_completed_reminders() {
    for show_completed in [false, true] {
        let mut params = request();
        params.show_completed = show_completed;
        params.due_after = text("2026-05-25");
        params.completed_before = text("2026-05-21");
        let query = EventKitServer::new().list_reminders(params).unwrap();
        assert_eq!(
            query,
            ReminderQuery::Completed {
                after: None,
                before: Some(point("2026-05-21")),
                lists: None,
            }
        );
    }
}

#[test]
fn the_first_bad_date_is_told() {
    let mut params = request();
    params.due_before = text("x");
    params.completed_after = text("y");
    let err = EventKitServer::new().list_reminders(params).unwrap_err();
    assert_eq!(err.kind, McpErrorKind::InvalidParams);
    assert!(err.message.starts_with("Error parsing due_before: Invalid date format."));
    for (i, label) in ["due_after", "due_before", "completed_after", "completed_before"]
        .iter()
        .enumerate()
    {
        let mut params = request();
        let bad = text("x");
        match i {
            0 => params.due_after = bad,
            1 => params.due_before = bad,
            2 => params.completed_after = bad,
            _ => params.completed_before = bad,
        }
        let err = EventKitServer::new().list_reminders(params).unwrap_err();
        assert!(err.message.starts_with(&format!("Error parsing {label}: ")));
    }
    let mut params = request();
    params.due_after = text("08:00");
    assert!(EventKitServer::new().list_reminders(params).is_ok());
}

#[test]
fn queries_are_chosen_by_the_filters() {
    let none = DateFilters {
        due_after: None,
        due_before: None,
        completed_after: None,
        completed_before: None,
    };
    assert_eq!(choose_query(none, true, None), ReminderQuery::Every { lists: None });
    let p = point("2026-01-01");
    let both = DateFilters { due_before: Some(p), completed_after: Some(p), ..none };
    assert_eq!(
        choose_query(both, true, None),
        ReminderQuery::Completed { after: Some(p), before: None, lists: None }
    );
}

#[test]
fn listed_reminders_are_counted_and_have_no_details() {
    let server = EventKitServer::new();
    let items = vec![reminder("a", "A", None), reminder("b", "B", None)];
    let list = server.list_reminders_reply(Ok(items)).unwrap();
    assert_eq!(list.count, 2);
    assert_eq!(list.items[0].id, "a");
    assert_eq!(list.items[1].id, "b");
    assert!(list.items[0].alarms.is_empty() && list.items[0].recurrence_rules.is_empty());
    let err = server.list_reminders_reply(Err(failure("down"))).unwrap_err();
    assert_eq!(err.message, "down");
}

#[test]
fn one_day_of_events_is_today() {
    let server = EventKitServer::new();
    let params = |days| ListEventsRequest { days, calendar_id: None };
    assert_eq!(server.list_events(&params(1)), Some(EventQuery::Today));
    let before = Local::now().timestamp();
    let query = server.list_events(&params(3)).unwrap();
    let after = Local::now().timestamp();
    let EventQuery::Window { start, end, calendars } = query else { panic!() };
    assert!(before <= start.timestamp() && start.timestamp() <= after);
    assert_eq!(end.timestamp(), start.timestamp() + 3 * 86_400);
    assert_eq!(calendars, None);
    assert_eq!(server.list_events(&params(i64::MAX)), None);
    let query = server.list_events(&params(-1)).unwrap();
    let EventQuery::Window { start, end, .. } = query else { panic!() };
    assert_eq!(end.timestamp(), start.timestamp() - 86_400);
}

#[test]
fn windows_last_so_many_days() {
    let p = point("2026-03-22 14:00");
    let names = Some(vec!["Work".to_string()]);
    let Some(EventQuery::Window { start, end, calendars }) = event_window(p, 7, names) else {
        panic!()
    };
    assert_eq!(start, p);
    assert_eq!(end.timestamp(), p.timestamp() + 7 * 86_400);
    assert_eq!(calendars, Some(vec!["Work".to_string()]));
    assert_eq!(event_window(p, i64::MIN, None), None);
}

#[test]
fn listed_events_are_filtered_by_calendar() {
    let server = EventKitServer::new();
    let items = || {
        vec![
            event("a", "A", text("1")),
            event("b", "B", None),
            event("c", "C", text("2")),
            event("d", "D", text("1")),
        ]
    };
    let all = ListEventsRequest { days: 1, calendar_id: None };
    let list = server.list_events_reply(&all, Ok(items())).unwrap();
    assert_eq!(list.count, 4);
    let one = ListEventsRequest { days: 1, calendar_id: text("1") };
    let list = server.list_events_reply(&one, Ok(items())).unwrap();
    let ids: Vec<&str> = list.items.iter().map(|e| e.id.as_str()).collect();
    assert_eq!(ids, vec!["a", "d"]);
    assert_eq!(list.count, 2);
    assert!(server.list_events_reply(&one, Err(failure("no"))).is_err());
}

#[test]
fn searches_ask_for_what_is_wanted() {
    let p = point("2026-03-22");
    let plan = plan_search(&search(None), p).unwrap();
    assert_eq!(plan.reminders, Some(ReminderScope::Incomplete));
    assert_eq!(plan.events, event_window(p, 30, None));
    let plan = plan_search(&search(Some(ItemType::Event)), p).unwrap();
    assert_eq!(plan.reminders, None);
    assert!(plan.events.is_some());
    let mut params = search(Some(ItemType::Reminder));
    params.include_completed = true;
    params.days = i64::MAX;
    let plan = plan_search(&params, p).unwrap();
    assert_eq!(plan.reminders, Some(ReminderScope::All));
    assert_eq!(plan.events, None);
    let mut params = search(None);
    params.days = i64::MAX;
    assert!(plan_search(&params, p).is_none());
    assert!(EventKitServer::new().search(&search(None)).is_some());
    let mut params = search(None);
    params.days = 0;
    assert!(EventKitServer::new().search(&params).is_some());
}

#[test]
fn searches_ignore_case() {
    let reminders = vec![
        reminder("a", "Buy milk", None),
        reminder("b", "Bread", text("and Milk, too")),
        reminder("c", "Eggs", text("none")),
        reminder("d", "ÉCLAIR", None),
    ];
    let events = vec![event("e", "Milking", None), event("f", "Silk", None)];
    let found = EventKitServer::new().search_reply(
        search(None),
        Some(Ok(reminders)),
        Some(Ok(events)),
    );
    assert_eq!(found.query, "MILK");
    let list = found.reminders.unwrap();
    let ids: Vec<&str> = list.items.iter().map(|r| r.id.as_str()).collect();
    assert_eq!(ids, vec!["a", "b"]);
    assert_eq!(list.count, 2);
    assert_eq!(found.events.unwrap().count, 1);
    let mut params = search(None);
    params.query = "éclair".to_string();
    let found = EventKitServer::new().search_reply(
        params,
        Some(Ok(vec![reminder("d", "ÉCLAIR", None)])),
        None,
    );
    assert_eq!(found.reminders.unwrap().count, 1);
}

#[test]
fn titles_and_notes_are_searched() {
    assert!(holds_query("buy milk", &None, "milk"));
    assert!(holds_query("bread", &text("and milk"), "milk"));
    assert!(!holds_query("bread", &None, "milk"));
    assert!(!holds_query("Milk", &text("MILK"), "milk"));
    assert!(holds_query("", &None, ""));
}

#[test]
fn searches_leave_out_what_cannot_be_read() {
    let found =
        EventKitServer::new().search_reply(search(None), Some(Err(failure("no"))), None);
    assert!(found.reminders.is_none() && found.events.is_none());
}
