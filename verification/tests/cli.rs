use eventkit_core::cli::events::{
    cmd_events_add, cmd_events_add_reply, cmd_events_authorize, cmd_events_calendars,
    cmd_events_delete, cmd_events_delete_reply, cmd_events_list, cmd_events_list_reply,
    cmd_events_show, cmd_events_update, cmd_events_update_reply, decide_change, default_end,
    event_lines, EventChange, EventRemoval, EventTimes, EventUpdate, NewEvent, NO_EVENT_UPDATES,
};
use eventkit_core::cli::reminders::{
    cmd_reminders_add, cmd_reminders_add_reply, cmd_reminders_authorize,
    cmd_reminders_clear_geofence, cmd_reminders_complete, cmd_reminders_delete,
    cmd_reminders_delete_reply, cmd_reminders_list, cmd_reminders_list_reply,
    cmd_reminders_lists, cmd_reminders_set_URL, cmd_reminders_set_URL_reply,
    cmd_reminders_set_due_tz, cmd_reminders_set_due_tz_reply, cmd_reminders_set_geofence,
    cmd_reminders_set_geofence_reply, cmd_reminders_show, cmd_reminders_uncomplete,
    cmd_reminders_update, cmd_reminders_update_reply, decide_update, parse_cli_date, Deletion,
    ListFlags, ReminderUpdate, NO_REMINDER_UPDATES,
};
use eventkit_core::cli::{cmd_status, parse_datetime, CliError};
use eventkit_core::clock::{DateRead, LocalDateTime};
use eventkit_core::listing::{EventQuery, ReminderQuery};
use eventkit_core::model::{
    AlarmProximity, AuthorizationStatus, CalendarInfo, EventAvailability, EventItem,
    EventKitError, EventSpan, EventStatus, Real, ReminderItem, StoreError,
};

fn text(s: &str) -> Option<String> {
    Some(s.to_string())
}

fn failure(message: &str) -> StoreError {
    StoreError { error: EventKitError::Other, text: message.to_string() }
}

fn point(s: &str) -> LocalDateTime {
    parse_datetime(s).unwrap()
}

fn refused(notice: Option<&str>, message: &str) -> CliError {
    CliError::Refused {
        notice: notice.map(|n| n.to_string()),
        message: message.to_string(),
    }
}

fn calendar(title: &str, source: Option<&str>, modifiable: bool) -> CalendarInfo {
    CalendarInfo {
        identifier: format!("id-{title}"),
        title: title.to_string(),
        color: None,
        source: source.map(|s| s.to_string()),
        source_id: None,
        allows_modifications: modifiable,
        is_immutable: false,
        is_subscribed: false,
        allowed_entity_types: vec![],
        supported_event_availabilities: vec![],
    }
}

fn reminder(id: &str, completed: bool, priority: usize) -> ReminderItem {
    ReminderItem {
        identifier: id.to_string(),
        title: format!("Do {id}"),
        notes: None,
        completed,
        priority,
        calendar_title: None,
        calendar_id: None,
        due_date: None,
        start_date: None,
        completion_date: None,
        URL: None,
        location: None,
        due_date_timezone: None,
        structured_location: None,
        parent_id: None,
        attachments_count: 0,
        has_alarms: false,
        has_recurrence_rules: true,
        has_notes: false,
        has_attendees: false,
        external_identifier: None,
        creation_date: None,
        last_modified_date: None,
        timezone: None,
    }
}

fn event(id: &str, start: &str, end: &str) -> EventItem {
    EventItem {
        identifier: id.to_string(),
        title: format!("Meet {id}"),
        start_date: point(start),
        end_date: point(end),
        all_day: false,
        calendar_title: None,
        calendar_id: None,
        notes: None,
        location: None,
        URL: None,
        availability: EventAvailability::Busy,
        status: EventStatus::Unset,
        structured_location: None,
        attendees: vec![],
        organizer: None,
        is_detached: false,
        occurrence_date: None,
        creation_date: None,
        last_modified_date: None,
        external_identifier: None,
        timezone: None,
        attachments_count: 0,
    }
}

const PLAIN: ListFlags =
    ListFlags { incomplete: false, completed: false, all: false, debug: false };

const EVERY: ReminderQuery = ReminderQuery::Every { lists: None };

fn new_event() -> NewEvent {
    NewEvent {
        title: "Meeting".to_string(),
        start: "2026-03-22 14:00".to_string(),
        end: None,
        duration: 60,
        notes: None,
        location: None,
        calendar: None,
        all_day: false,
        url: None,
        availability: None,
    }
}

fn no_change() -> EventChange {
    EventChange {
        title: None,
        notes: None,
        location: None,
        start: None,
        end: None,
        all_day: None,
        calendar: None,
        url: None,
        availability: None,
        span: "this".to_string(),
    }
}

#[test]
fn status_is_explained() {
    let lines = cmd_status(false, AuthorizationStatus::NotDetermined, "Not Determined");
    assert_eq!(
        lines,
        vec![
            "Reminders Authorization Status: Not Determined",
            "\nUse 'eventkit reminders authorize' to request access.",
        ]
    );
    let lines = cmd_status(true, AuthorizationStatus::NotDetermined, "?");
    assert_eq!(lines[1], "\nUse 'eventkit events authorize' to request access.");
    let lines = cmd_status(true, AuthorizationStatus::Denied, "Denied");
    assert_eq!(
        lines,
        vec![
            "Calendar Events Authorization Status: Denied",
            "\nAccess was denied. Please enable access in:",
            "System Settings > Privacy & Security > Calendars",
        ]
    );
    let lines = cmd_status(false, AuthorizationStatus::Denied, "Denied");
    assert_eq!(lines[2], "System Settings > Privacy & Security > Reminders");
    let last = |s| cmd_status(false, s, "x").pop().unwrap();
    assert_eq!(last(AuthorizationStatus::Restricted), "\nAccess is restricted by system policy.");
    assert_eq!(last(AuthorizationStatus::FullAccess), "\nFull access granted.");
    assert_eq!(last(AuthorizationStatus::WriteOnly), "\nWrite-only access granted.");
}

#[test]
fn access_is_told() {
    let end = cmd_reminders_authorize(Ok(true));
    assert_eq!(end.lines, vec!["✓ Access granted!"]);
    assert_eq!(end.result, Ok(()));
    let end = cmd_reminders_authorize(Ok(false));
    assert_eq!(
        end.lines,
        vec![
            "✗ Access denied.",
            "\nTo grant access, go to:",
            "System Settings > Privacy & Security > Reminders",
        ]
    );
    assert_eq!(end.result, Err(CliError::AccessDenied));
    let end = cmd_events_authorize(Ok(false));
    assert_eq!(end.lines[2], "System Settings > Privacy & Security > Calendars");
    let end = cmd_events_authorize(Err(failure("no")));
    assert_eq!(end.lines, vec!["✗ Failed to request access: no"]);
    assert_eq!(end.result, Err(CliError::Store(failure("no"))));
}

#[test]
fn calendars_are_printed() {
    let calendars = vec![calendar("Home", Some("iCloud"), true), calendar("Work", None, false)];
    let lines =
        cmd_reminders_lists(Ok(calendars), Some(calendar("Home", None, true))).unwrap();
    assert_eq!(
        lines,
        vec![
            "Reminder Lists:\n",
            "  • Home [iCloud]",
            "    ID: id-Home",
            "  • Work [Unknown] (read-only)",
            "    ID: id-Work",
            "\nDefault list: Home",
        ]
    );
    let lines = cmd_events_calendars(Ok(vec![calendar("Home", None, true)]), None).unwrap();
    assert_eq!(lines, vec!["Calendars:\n", "  • Home [Unknown]", "    ID: id-Home"]);
    let lines = cmd_events_calendars(
        Ok(vec![calendar("Home", None, true)]),
        Some(calendar("Home", None, true)),
    );
    assert_eq!(lines.unwrap()[3], "\nDefault calendar: Home");
    assert_eq!(cmd_reminders_lists(Ok(vec![]), None).unwrap(), vec!["No reminder lists found."]);
    assert_eq!(cmd_events_calendars(Ok(vec![]), None).unwrap(), vec!["No calendars found."]);
    assert_eq!(
        cmd_events_calendars(Err(failure("no")), None).unwrap_err(),
        CliError::Store(failure("no"))
    );
}

#[test]
fn list_asks_by_dates_and_switches() {
    let lists = || Some(vec!["Work".to_string()]);
    let query = cmd_reminders_list(lists(), PLAIN, None, None, None, None).unwrap();
    assert_eq!(query, ReminderQuery::Every { lists: lists() });
    let flags = ListFlags { incomplete: true, ..PLAIN };
    let query = cmd_reminders_list(None, flags, None, None, None, None).unwrap();
    assert_eq!(query, ReminderQuery::Incomplete { after: None, before: None, lists: None });
    let query =
        cmd_reminders_list(None, PLAIN, Some("2026-05-25"), Some("2026-06-01 10:00"), None, None);
    assert_eq!(
        query.unwrap(),
        ReminderQuery::Incomplete {
            after: Some(point("2026-05-25")),
            before: Some(point("2026-06-01 10:00")),
            lists: None,
        }
    );
    let query = cmd_reminders_list(None, flags, Some("2026-05-25"), None, Some("2026-05-19"), None);
    assert_eq!(
        query.unwrap(),
        ReminderQuery::Completed { after: Some(point("2026-05-19")), before: None, lists: None }
    );
}

#[test]
fn list_refuses_bad_dates() {
    let err = cmd_reminders_list(None, PLAIN, None, Some("x"), Some("y"), None).unwrap_err();
    assert_eq!(
        err,
        refused(None, "Invalid --due-before: 'x'. Use YYYY-MM-DD or YYYY-MM-DD HH:MM.")
    );
    let err = cmd_reminders_list(None, PLAIN, None, None, None, Some("")).unwrap_err();
    assert_eq!(
        err,
        refused(None, "Invalid --completed-before: ''. Use YYYY-MM-DD or YYYY-MM-DD HH:MM.")
    );
    let err = parse_cli_date("--due-after", Some("2026-03-29 02:30"), Some(DateRead::NoSinglePoint));
    assert_eq!(err.unwrap_err(), refused(None, "Invalid --due-after: 2026-03-29 02:30"));
    assert_eq!(parse_cli_date("--due-after", None, None).unwrap(), None);
}

#[test]
fn list_prints_what_is_wanted() {
    let items = || vec![reminder("a", false, 0), reminder("b", true, 4), reminder("c", false, 5)];
    let lines = cmd_reminders_list_reply(&EVERY, PLAIN, Ok(items())).unwrap();
    assert_eq!(
        lines,
        vec![
            "Reminders (2):\n",
            "  ○ Do a",
            "  ○ Do c !!",
            "\nUse --all to see more details.",
        ]
    );
    let flags = ListFlags { completed: true, ..PLAIN };
    let lines = cmd_reminders_list_reply(&EVERY, flags, Ok(items())).unwrap();
    assert_eq!(lines[..2], ["Reminders (1):\n", "  ✓ Do b !!!"]);
    let flags = ListFlags { all: true, ..PLAIN };
    let lines = cmd_reminders_list_reply(&EVERY, flags, Ok(items())).unwrap();
    assert_eq!(
        lines,
        vec![
            "Reminders (3):\n",
            "  ○ Do a",
            "      ID: a",
            "  ✓ Do b !!!",
            "      ID: b",
            "  ○ Do c !!",
            "      ID: c",
        ]
    );
    let flags = ListFlags { incomplete: true, ..PLAIN };
    let lines = cmd_reminders_list_reply(&EVERY, flags, Ok(vec![reminder("d", false, 6)])).unwrap();
    assert_eq!(lines[1], "  ○ Do d !");
    let lines = cmd_reminders_list_reply(&EVERY, PLAIN, Ok(vec![])).unwrap();
    assert_eq!(lines, vec!["No reminders found."]);
    assert_eq!(
        cmd_reminders_list_reply(&EVERY, PLAIN, Err(failure("no"))).unwrap_err(),
        CliError::Store(failure("no"))
    );
}

#[test]
fn completion_filter_prints_completed_reminders() {
    let query = cmd_reminders_list(None, PLAIN, None, None, Some("2026-05-19"), Some("2026-05-21"))
        .unwrap();
    let items = || vec![reminder("a", true, 0), reminder("b", false, 0)];
    for flags in [PLAIN, ListFlags { all: true, ..PLAIN }, ListFlags { incomplete: true, ..PLAIN }] {
        let lines = cmd_reminders_list_reply(&query, flags, Ok(items())).unwrap();
        assert_eq!(lines[..2], ["Reminders (1):\n", "  ✓ Do a"]);
    }
}

#[test]
fn details_are_shortened() {
    let flags = ListFlags { all: true, ..PLAIN };
    let mut r = reminder("a", false, 0);
    r.notes = Some("x".repeat(61));
    r.calendar_title = text("Work");
    let lines = cmd_reminders_list_reply(&EVERY, flags, Ok(vec![r])).unwrap();
    assert_eq!(lines[2], format!("      Notes: {}...", "x".repeat(60)));
    assert_eq!(lines[3], "      List: Work");
    let mut r = reminder("a", false, 0);
    r.notes = Some("x".repeat(60));
    let lines = cmd_reminders_list_reply(&EVERY, flags, Ok(vec![r])).unwrap();
    assert_eq!(lines[2], format!("      Notes: {}", "x".repeat(60)));
    // dots go by bytes, the cut by characters
    let mut r = reminder("a", false, 0);
    r.notes = Some("é".repeat(31));
    let lines = cmd_reminders_list_reply(&EVERY, flags, Ok(vec![r])).unwrap();
    assert_eq!(lines[2], format!("      Notes: {}...", "é".repeat(31)));
}

#[test]
fn debug_prints_every_field() {
    let flags = ListFlags { all: true, debug: true, ..PLAIN };
    let mut r = reminder("a", true, 7);
    r.notes = text("n");
    r.calendar_title = text("Work");
    r.external_identifier = text("x");
    r.location = text("l");
    r.URL = text("u");
    r.timezone = text("UTC");
    r.due_date = Some(point("2026-03-22 14:05"));
    r.has_notes = true;
    let lines = cmd_reminders_list_reply(&EVERY, flags, Ok(vec![r])).unwrap();
    assert_eq!(
        lines,
        vec![
            "Reminders (1):\n",
            "  ✓ Do a !",
            "      Notes: n",
            "      List: Work",
            "      ID: a",
            "      Completed: true",
            "      Priority: 7",
            "      Due Date: 2026-03-22 14:05:00",
            "      Start Date: None",
            "      Completion Date: None",
            "      Notes: n",
            "      Has Notes: true",
            "      Calendar/List: Work",
            "      External ID: x",
            "      Location: l",
            "      URL: u",
            "      Creation Date: None",
            "      Last Modified Date: None",
            "      Timezone: UTC",
            "      Has Alarms: false",
            "      Has Recurrence Rules: true",
            "      Has Attendees: false",
        ]
    );
}

#[test]
fn add_checks_the_priority() {
    let draft = cmd_reminders_add("T".to_string(), text("n"), text("l"), Some(9), text("UTC"));
    let draft = draft.unwrap();
    assert_eq!(draft.title, "T");
    assert_eq!(draft.notes, text("n"));
    assert_eq!(draft.calendar_title, text("l"));
    assert_eq!(draft.priority, Some(9));
    assert_eq!(draft.due_date_timezone, text("UTC"));
    let err = cmd_reminders_add("T".to_string(), None, None, Some(10), None).unwrap_err();
    assert_eq!(err, refused(Some("Priority must be between 0 and 9"), "Invalid priority value"));
    let mut made = reminder("a", false, 0);
    made.calendar_title = text("Work");
    let lines = cmd_reminders_add_reply(Ok(made)).unwrap();
    assert_eq!(lines, vec!["✓ Created reminder: Do a", "  ID: a", "  List: Work"]);
    assert_eq!(cmd_reminders_add_reply(Ok(reminder("a", false, 0))).unwrap().len(), 2);
    assert!(cmd_reminders_add_reply(Err(failure("no"))).is_err());
}

#[test]
fn update_decides_what_to_write() {
    assert_eq!(
        cmd_reminders_update(None, None, None, None).unwrap(),
        ReminderUpdate::Nothing(NO_REMINDER_UPDATES)
    );
    let r = cmd_reminders_update(text("T"), None, None, None).unwrap();
    let ReminderUpdate::Apply(patch) = r else { panic!() };
    assert_eq!(patch.title, text("T"));
    assert_eq!(patch.completion_date, None);
    let r = cmd_reminders_update(None, None, None, Some("")).unwrap();
    let ReminderUpdate::Apply(patch) = r else { panic!() };
    assert_eq!(patch.completion_date, Some(None));
    let r = cmd_reminders_update(None, None, Some(3), Some("2026-05-20 10:00")).unwrap();
    let ReminderUpdate::Apply(patch) = r else { panic!() };
    assert_eq!(patch.priority, Some(3));
    assert_eq!(patch.completion_date, Some(Some(point("2026-05-20 10:00"))));
    let err = cmd_reminders_update(None, None, Some(10), Some("x")).unwrap_err();
    assert_eq!(err, refused(Some("Priority must be between 0 and 9"), "Invalid priority value"));
    let err = cmd_reminders_update(None, None, None, Some("x")).unwrap_err();
    assert_eq!(
        err,
        refused(None, "Invalid --completion-date 'x'. Use YYYY-MM-DD or YYYY-MM-DD HH:MM.")
    );
    let err = decide_update(None, None, None, Some("d"), Some(DateRead::NoSinglePoint));
    assert_eq!(err.unwrap_err(), refused(None, "Ambiguous local datetime"));
}

#[test]
fn changes_of_reminders_are_told() {
    let done = || Ok(reminder("a", false, 0));
    assert_eq!(cmd_reminders_update_reply(done()).unwrap(), vec!["✓ Updated reminder: Do a"]);
    assert_eq!(cmd_reminders_complete(done()).unwrap(), vec!["✓ Completed: Do a"]);
    assert_eq!(cmd_reminders_uncomplete(done()).unwrap(), vec!["○ Marked incomplete: Do a"]);
    assert_eq!(
        cmd_reminders_complete(Err(failure("no"))).unwrap_err(),
        CliError::Store(failure("no"))
    );
    assert_eq!(cmd_reminders_set_URL("".to_string()), None);
    assert_eq!(cmd_reminders_set_URL("u".to_string()), text("u"));
    assert_eq!(cmd_reminders_set_URL_reply(true, Ok(())).unwrap(), vec!["✓ Set URL"]);
    assert_eq!(cmd_reminders_set_URL_reply(false, Ok(())).unwrap(), vec!["✓ Cleared URL"]);
    assert_eq!(cmd_reminders_set_due_tz("".to_string()), None);
    assert_eq!(cmd_reminders_set_due_tz("UTC".to_string()), text("UTC"));
    assert_eq!(
        cmd_reminders_set_due_tz_reply(true, Ok(())).unwrap(),
        vec!["✓ Set due-date timezone"]
    );
    assert_eq!(
        cmd_reminders_set_due_tz_reply(false, Ok(())).unwrap(),
        vec!["✓ Cleared due-date timezone"]
    );
    assert!(cmd_reminders_set_due_tz_reply(false, Err(failure("no"))).is_err());
}

#[test]
fn geofences_are_read_from_words() {
    let set = |word: &str| {
        cmd_reminders_set_geofence(
            "Home".to_string(),
            Real { bits: 1 },
            Real { bits: 2 },
            Real { bits: 3 },
            word,
        )
    };
    for word in ["enter", "Arrive", "ARRIVAL"] {
        let (place, proximity) = set(word).unwrap();
        assert_eq!(proximity, AlarmProximity::Enter);
        assert_eq!(place.title, "Home");
        assert_eq!(place.radius, Real { bits: 3 });
    }
    for word in ["leave", "Exit", "DEPARTURE"] {
        assert_eq!(set(word).unwrap().1, AlarmProximity::Leave);
    }
    assert_eq!(
        set("Near\t\"it\"").unwrap_err(),
        refused(
            Some("--proximity must be 'enter' or 'leave', got \"near\\t\\\"it\\\"\""),
            "Invalid proximity value"
        )
    );
    assert_eq!(
        cmd_reminders_set_geofence_reply("r", Ok(())).unwrap(),
        vec!["✓ Geofence set on r"]
    );
    assert_eq!(
        cmd_reminders_clear_geofence("r", Ok(())).unwrap(),
        vec!["✓ Cleared geofence on r"]
    );
    assert!(cmd_reminders_clear_geofence("r", Err(failure("no"))).is_err());
}

#[test]
fn nothing_is_deleted_without_force() {
    assert_eq!(
        cmd_reminders_delete(&reminder("a", false, 0), false),
        Deletion::Confirm(vec![
            "Delete reminder: \"Do a\"?".to_string(),
            "This action cannot be undone. Use --force to skip this prompt.".to_string(),
        ])
    );
    assert_eq!(cmd_reminders_delete(&reminder("a", false, 0), true), Deletion::Go);
    assert_eq!(cmd_reminders_delete_reply("Do a", Ok(())).unwrap(), vec!["✓ Deleted: Do a"]);
    let e = event("a", "2026-03-22 14:00", "2026-03-22 15:00");
    let r = cmd_events_delete(&e, false, "nonsense").unwrap();
    assert_eq!(
        r,
        EventRemoval::Confirm(vec![
            "Delete event: \"Meet a\"?".to_string(),
            "This action cannot be undone. Use --force to skip this prompt.".to_string(),
        ])
    );
    assert_eq!(
        cmd_events_delete(&e, true, "this").unwrap(),
        EventRemoval::Go { affect_future: false }
    );
    assert_eq!(
        cmd_events_delete(&e, true, "future").unwrap(),
        EventRemoval::Go { affect_future: true }
    );
    assert_eq!(
        cmd_events_delete(&e, true, "past").unwrap_err(),
        refused(None, "--span must be 'this' or 'future', got \"past\"")
    );
    assert_eq!(
        cmd_events_delete_reply("Meet a", true, Ok(())).unwrap(),
        vec!["✓ Deleted: Meet a (and future occurrences)"]
    );
    assert_eq!(
        cmd_events_delete_reply("Meet a", false, Ok(())).unwrap(),
        vec!["✓ Deleted: Meet a"]
    );
    assert!(cmd_events_delete_reply("Meet a", false, Err(failure("no"))).is_err());
}

#[test]
fn one_reminder_is_shown() {
    let mut r = reminder("a", false, 3);
    r.notes = text("n");
    r.calendar_title = text("Work");
    let lines = cmd_reminders_show(Ok(r)).unwrap();
    assert_eq!(
        lines,
        vec![
            "Reminder Details:\n",
            "  Title:     Do a",
            "  Status:    Incomplete",
            "  Priority:  High (3)",
            "  Notes:     n",
            "  List:      Work",
            "  ID:        a",
        ]
    );
    let priority = |p| cmd_reminders_show(Ok(reminder("a", true, p))).unwrap()[3].clone();
    assert_eq!(priority(0), "  Priority:  None");
    assert_eq!(priority(5), "  Priority:  Medium");
    assert_eq!(priority(9), "  Priority:  Low (9)");
    assert_eq!(cmd_reminders_show(Ok(reminder("a", true, 0))).unwrap()[2], "  Status:    Completed");
    assert!(cmd_reminders_show(Err(failure("no"))).is_err());
}

#[test]
fn events_are_asked_for() {
    assert_eq!(cmd_events_list(true, 7, None), Some(EventQuery::Today));
    assert_eq!(cmd_events_list(false, 7, None), Some(EventQuery::Upcoming(7)));
    let query = cmd_events_list(false, 7, Some(vec!["Work".to_string()])).unwrap();
    let EventQuery::Window { start, end, calendars } = query else { panic!() };
    assert_eq!(end.timestamp(), start.timestamp() + 7 * 86_400);
    assert_eq!(calendars, Some(vec!["Work".to_string()]));
    assert_eq!(cmd_events_list(false, i64::MAX, Some(vec![])), None);
    let query = cmd_events_list(false, 0, Some(vec![])).unwrap();
    let EventQuery::Window { start, end, .. } = query else { panic!() };
    assert_eq!(end.timestamp(), start.timestamp());
}

#[test]
fn todays_events_are_narrowed_to_the_named_calendars() {
    let named = Some(vec!["Home".to_string(), "Work".to_string()]);
    assert_eq!(cmd_events_list(true, 7, named.clone()), Some(EventQuery::Today));
    let of = |id: &str, calendar: Option<&str>| {
        let mut e = event(id, "2026-03-22 14:00", "2026-03-22 15:00");
        e.calendar_title = calendar.map(str::to_string);
        e
    };
    let today = || {
        Ok(vec![
            of("a", Some("Work")),
            of("b", Some("work")),
            of("c", None),
            of("d", Some("Home")),
        ])
    };
    assert_eq!(
        cmd_events_list_reply(true, &named, today(), false).unwrap(),
        vec![
            "Events (2):\n",
            "\n  📅 Sunday, March 22, 2026",
            "     14:00 - 15:00 Meet a",
            "     14:00 - 15:00 Meet d",
            "\nUse --all to see more details.",
        ]
    );
    assert_eq!(
        cmd_events_list_reply(true, &Some(vec!["Other".to_string()]), today(), true).unwrap(),
        vec!["No events found."]
    );
    assert_eq!(cmd_events_list_reply(true, &None, today(), false).unwrap()[0], "Events (4):\n");
    // for other days the store does the narrowing
    assert_eq!(cmd_events_list_reply(false, &named, today(), false).unwrap()[0], "Events (4):\n");
}

#[test]
fn events_are_printed_by_day() {
    let mut second = event("b", "2026-03-22 16:00", "2026-03-22 17:30");
    second.all_day = true;
    second.location = text("Room 4");
    second.notes = Some("y".repeat(51));
    second.calendar_title = text("Work");
    let items = vec![
        event("a", "2026-03-22 14:00", "2026-03-22 15:00"),
        second,
        event("c", "2026-03-23 09:00", "2026-03-23 09:15"),
    ];
    let lines = cmd_events_list_reply(true, &None, Ok(items), true).unwrap();
    assert_eq!(
        lines,
        vec![
            "Events (3):\n".to_string(),
            "\n  📅 Sunday, March 22, 2026".to_string(),
            "     14:00 - 15:00 Meet a".to_string(),
            "        ID: a".to_string(),
            "     All day Meet b".to_string(),
            "        📍 Room 4".to_string(),
            format!("        📝 {}...", "y".repeat(50)),
            "        🗂  Work".to_string(),
            "        ID: b".to_string(),
            "\n  📅 Monday, March 23, 2026".to_string(),
            "     09:00 - 09:15 Meet c".to_string(),
            "        ID: c".to_string(),
        ]
    );
    let items = vec![event("a", "2026-03-22 14:00", "2026-03-22 15:00")];
    let lines = cmd_events_list_reply(false, &None, Ok(items), false).unwrap();
    assert_eq!(lines.len(), 4);
    assert_eq!(lines[3], "\nUse --all to see more details.");
    assert_eq!(cmd_events_list_reply(true, &None, Ok(vec![]), false).unwrap(), vec!["No events found."]);
    assert!(cmd_events_list_reply(true, &None, Err(failure("no")), false).is_err());
}

#[test]
fn a_new_day_gets_a_heading() {
    let e = event("a", "2026-03-22 14:00", "2026-03-22 15:00");
    let times = EventTimes {
        day: "day".to_string(),
        heading: "heading".to_string(),
        start: "start".to_string(),
        end: "end".to_string(),
    };
    assert_eq!(event_lines(&e, &times, "day", false), vec!["     start - end Meet a"]);
    assert_eq!(
        event_lines(&e, &times, "", true),
        vec!["\n  📅 heading", "     start - end Meet a", "        ID: a"]
    );
}

#[test]
fn new_events_end_when_they_should() {
    let draft = cmd_events_add(new_event()).unwrap().unwrap();
    assert_eq!(draft.start, point("2026-03-22 14:00"));
    assert_eq!(draft.end.timestamp(), draft.start.timestamp() + 3_600);
    let mut args = new_event();
    args.all_day = true;
    args.duration = i64::MAX;
    let draft = cmd_events_add(args).unwrap().unwrap();
    assert_eq!(draft.end.timestamp(), draft.start.timestamp() + 86_400);
    assert!(draft.all_day);
    let mut args = new_event();
    args.end = text("2026-03-23");
    args.availability = text("unavailable");
    args.url = text("u");
    let draft = cmd_events_add(args).unwrap().unwrap();
    assert_eq!(draft.end, point("2026-03-23"));
    assert_eq!(draft.availability, Some(EventAvailability::Unavailable));
    assert_eq!(draft.URL, text("u"));
    assert_eq!(draft.structured_location, None);
    let mut args = new_event();
    args.duration = i64::MAX;
    assert!(default_end(&args, &point("2026-03-22")).is_none());
    assert!(cmd_events_add(args).is_none());
}

#[test]
fn new_events_are_refused() {
    let message = |args| cmd_events_add(args).unwrap().unwrap_err();
    let mut args = new_event();
    args.start = "x".to_string();
    assert_eq!(
        message(args),
        refused(None, "Invalid start date format. Use YYYY-MM-DD HH:MM or YYYY-MM-DD")
    );
    let mut args = new_event();
    args.end = text("x");
    assert_eq!(
        message(args),
        refused(None, "Invalid end date format. Use YYYY-MM-DD HH:MM or YYYY-MM-DD")
    );
    let mut args = new_event();
    args.availability = text("not_supported");
    assert_eq!(
        message(args),
        refused(
            None,
            "--availability must be busy|free|tentative|unavailable, got \"not_supported\""
        )
    );
}

#[test]
fn new_events_are_told() {
    let mut e = event("a", "2026-03-22 14:00", "2026-03-22 15:00");
    e.calendar_title = text("Work");
    let lines = cmd_events_add_reply(Ok(e)).unwrap();
    assert_eq!(
        lines,
        vec![
            "✓ Created event: Meet a",
            "  Start: 2026-03-22 14:00",
            "  End:   2026-03-22 15:00",
            "  ID: a",
            "  Calendar: Work",
        ]
    );
    assert!(cmd_events_add_reply(Err(failure("no"))).is_err());
}

#[test]
fn event_updates_are_decided() {
    let mut args = no_change();
    args.span = "nonsense".to_string();
    assert_eq!(cmd_events_update(args).unwrap(), EventUpdate::Nothing(NO_EVENT_UPDATES));
    let mut args = no_change();
    args.notes = text("");
    args.location = text("Room 4");
    args.url = text("");
    args.start = text("2026-03-22");
    args.availability = text("free");
    args.span = "future".to_string();
    let EventUpdate::Apply(patch) = cmd_events_update(args).unwrap() else { panic!() };
    assert_eq!(patch.notes, Some(None));
    assert_eq!(patch.location, Some(text("Room 4")));
    assert_eq!(patch.URL, Some(None));
    assert_eq!(patch.start, Some(point("2026-03-22")));
    assert_eq!(patch.end, None);
    assert_eq!(patch.availability, Some(EventAvailability::Free));
    assert_eq!(patch.span, EventSpan::Future);
    assert_eq!(patch.structured_location, None);
    let mut args = no_change();
    args.all_day = Some(true);
    let EventUpdate::Apply(patch) = cmd_events_update(args).unwrap() else { panic!() };
    assert_eq!(patch.all_day, Some(true));
    assert_eq!(patch.span, EventSpan::This);
}

#[test]
fn event_updates_are_refused_in_order() {
    let bad = || {
        let mut args = no_change();
        args.start = text("x");
        args.end = text("y");
        args.availability = text("z");
        args.span = "w".to_string();
        args
    };
    assert_eq!(
        cmd_events_update(bad()).unwrap_err(),
        refused(None, "Invalid --start: 'x'. Use YYYY-MM-DD or YYYY-MM-DD HH:MM.")
    );
    let mut args = bad();
    args.start = None;
    assert_eq!(
        cmd_events_update(args).unwrap_err(),
        refused(None, "Invalid --end: 'y'. Use YYYY-MM-DD or YYYY-MM-DD HH:MM.")
    );
    let mut args = bad();
    args.start = None;
    args.end = None;
    assert_eq!(
        cmd_events_update(args).unwrap_err(),
        refused(None, "--availability must be busy|free|tentative|unavailable, got \"z\"")
    );
    let mut args = bad();
    args.start = None;
    args.end = None;
    args.availability = None;
    args.title = text("t");
    assert_eq!(
        cmd_events_update(args).unwrap_err(),
        refused(None, "--span must be 'this' or 'future', got \"w\"")
    );
    let mut args = no_change();
    args.title = text("t");
    let own = refused(None, "own");
    assert_eq!(
        decide_change(args, Ok(None), Err(own), Ok(None), Ok(false)).unwrap_err(),
        refused(None, "own")
    );
}

#[test]
fn event_updates_are_told() {
    let e = || Ok(event("a", "2026-03-22 14:00", "2026-03-22 15:00"));
    assert_eq!(
        cmd_events_update_reply(EventSpan::Future, e()).unwrap(),
        vec!["✓ Updated event: Meet a (this and future occurrences)"]
    );
    assert_eq!(
        cmd_events_update_reply(EventSpan::This, e()).unwrap(),
        vec!["✓ Updated event: Meet a"]
    );
    assert!(cmd_events_update_reply(EventSpan::This, Err(failure("no"))).is_err());
}

#[test]
fn one_event_is_shown() {
    let mut e = event("a", "2026-03-22 14:00", "2026-03-22 15:00");
    e.location = text("Room 4");
    e.notes = text("n");
    e.calendar_title = text("Work");
    let lines = cmd_events_show(Ok(e)).unwrap();
    assert_eq!(
        lines,
        vec![
            "Event Details:\n",
            "  Title:     Meet a",
            "  Start:     2026-03-22 14:00",
            "  End:       2026-03-22 15:00",
            "  All Day:   No",
            "  Location:  Room 4",
            "  Notes:     n",
            "  Calendar:  Work",
            "  ID:        a",
        ]
    );
    let mut e = event("a", "2026-03-22", "2026-03-23");
    e.all_day = true;
    let lines = cmd_events_show(Ok(e)).unwrap();
    assert_eq!(lines.len(), 6);
    assert_eq!(lines[4], "  All Day:   Yes");
    assert!(cmd_events_show(Err(failure("no"))).is_err());
}
