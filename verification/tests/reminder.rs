use eventkit_core::clock::{parse_datetime, LocalDateTime};
use eventkit_core::edits::Edit;
use eventkit_core::error::{McpError, McpErrorKind};
use eventkit_core::model::{
    AlarmInfo, AlarmProximity, AlarmType, CalendarInfo, EventKitError, Real,
    RecurrenceEndCondition, RecurrenceFrequency, RecurrenceRule, ReminderItem, StoreError,
};
use eventkit_core::output::ReminderOutput;
use eventkit_core::reminder::{ReminderChange, ReminderStep};
use eventkit_core::request::{
    AlarmParam, CreateReminderRequest, GeofenceInput, GeofenceProximity, Priority,
    RecurrenceParam, ReminderIdRequest, SetReminderDueTimezoneRequest,
    SetReminderGeofenceRequest, UpdateReminderRequest,
};
use eventkit_core::server::EventKitServer;

fn text(s: &str) -> Option<String> {
    Some(s.to_string())
}

fn failure(message: &str) -> StoreError {
    StoreError { error: EventKitError::Other, text: message.to_string() }
}

fn list(title: &str) -> CalendarInfo {
    CalendarInfo {
        identifier: format!("id-{title}"),
        title: title.to_string(),
        color: None,
        source: None,
        source_id: None,
        allows_modifications: true,
        is_immutable: false,
        is_subscribed: false,
        allowed_entity_types: vec![],
        supported_event_availabilities: vec![],
    }
}

fn item(id: &str) -> ReminderItem {
    ReminderItem {
        identifier: id.to_string(),
        title: format!("title of {id}"),
        notes: None,
        completed: false,
        priority: 0,
        calendar_title: text("Work"),
        calendar_id: None,
        due_date: None,
        start_date: None,
        completion_date: None,
        URL: None,
        location: None,
        due_date_timezone: None,
        structured_location: None,
        parent_id: None,
        attachments_count: 0,
        has_alarms: false,
        has_recurrence_rules: false,
        has_notes: false,
        has_attendees: false,
        external_identifier: None,
        creation_date: None,
        last_modified_date: None,
        timezone: None,
    }
}

fn alarm() -> AlarmInfo {
    AlarmInfo {
        relative_offset: None,
        absolute_date: None,
        proximity: AlarmProximity::Off,
        location: None,
        email_address: None,
        sound_name: None,
        url: None,
        alarm_type: AlarmType::Display,
    }
}

fn alarm_param() -> AlarmParam {
    AlarmParam {
        relative_offset: Some(Real { bits: (-60.0f64).to_bits() }),
        proximity: None,
        location_title: None,
        latitude: None,
        longitude: None,
        radius: None,
        email_address: None,
        sound_name: None,
        url: None,
    }
}

fn recurrence(frequency: &str) -> RecurrenceParam {
    RecurrenceParam {
        frequency: frequency.to_string(),
        interval: 1,
        days_of_week: None,
        days_of_month: None,
        months_of_year: None,
        weeks_of_year: None,
        days_of_year: None,
        set_positions: None,
        end_after_count: None,
        end_date: None,
    }
}

fn rule() -> RecurrenceRule {
    RecurrenceRule {
        frequency: RecurrenceFrequency::Yearly,
        interval: 4,
        end: RecurrenceEndCondition::Never,
        days_of_week: None,
        days_of_month: None,
        months_of_year: None,
        weeks_of_year: None,
        days_of_year: None,
        set_positions: None,
    }
}

fn geofence() -> GeofenceInput {
    GeofenceInput {
        title: "Home".to_string(),
        latitude: Real { bits: 1 },
        longitude: Real { bits: 2 },
        radius_meters: Real { bits: 3 },
        proximity: GeofenceProximity::Enter,
    }
}

fn create(list_name: &str) -> CreateReminderRequest {
    CreateReminderRequest {
        title: "Call".to_string(),
        list_name: list_name.to_string(),
        notes: text("now"),
        priority: Some(Priority::High),
        due_date: text("2026-03-22 09:00"),
        start_date: text("2026-03-21"),
        due_date_timezone: text("Europe/Paris"),
        geofence: None,
        alarms: None,
        recurrence: None,
    }
}

fn update() -> UpdateReminderRequest {
    UpdateReminderRequest {
        reminder_id: "r".to_string(),
        list_name: None,
        title: None,
        notes: None,
        completed: None,
        priority: None,
        due_date: None,
        start_date: None,
        due_date_timezone: None,
        completion_date: None,
        alarms: None,
        recurrence: None,
    }
}

fn point(s: &str) -> LocalDateTime {
    parse_datetime(s).unwrap()
}

fn answer(step: ReminderStep) -> Result<ReminderOutput, McpError> {
    match step {
        ReminderStep::Done(r) => r,
        other => panic!("not done: {other:?}"),
    }
}

fn refused(step: ReminderStep) -> McpError {
    answer(step).unwrap_err()
}

fn find_list(params: CreateReminderRequest, reply: Result<Vec<CalendarInfo>, StoreError>) -> ReminderStep {
    match EventKitServer::new().create_reminder(params) {
        ReminderStep::FindList(s) => s.with_lists(reply),
        other => panic!("unexpected {other:?}"),
    }
}

#[test]
fn create_names_the_lists_where_one_is_missing() {
    let err = refused(find_list(create("Play"), Ok(vec![list("Home"), list("Work")])));
    assert_eq!(err.kind, McpErrorKind::InvalidParams);
    assert_eq!(err.message, "List 'Play' not found. Available lists: Home, Work");
    let err = refused(find_list(create("Play"), Ok(vec![])));
    assert_eq!(err.message, "List 'Play' not found. Available lists: ");
    let err = refused(find_list(create("Play"), Err(failure("no access"))));
    assert_eq!(err.kind, McpErrorKind::InvalidParams);
    assert_eq!(err.message, "Error listing calendars: no access");
}

#[test]
fn create_reads_the_dates_in_order() {
    let mut params = create("Work");
    params.due_date = text("never");
    params.start_date = text("never");
    let err = refused(find_list(params, Ok(vec![list("Work")])));
    assert!(err.message.starts_with("Error parsing due_date: Invalid date format."));
    let mut params = create("Work");
    params.start_date = text("10:00");
    let err = refused(find_list(params, Ok(vec![list("Work")])));
    assert_eq!(
        err.message,
        "Error parsing start_date: Invalid date format. Use 'YYYY-MM-DD' or 'YYYY-MM-DD HH:MM'"
    );
    // a time of day is a due date
    let mut params = create("Work");
    params.due_date = text("10:00");
    assert!(matches!(find_list(params, Ok(vec![list("Work")])), ReminderStep::Create(_)));
}

#[test]
fn create_asks_for_what_the_request_says() {
    let step = find_list(create("Work"), Ok(vec![list("Home"), list("Work")]));
    let ReminderStep::Create(s) = step else { panic!("{step:?}") };
    assert_eq!(s.draft.title, "Call");
    assert_eq!(s.draft.notes, text("now"));
    assert_eq!(s.draft.calendar_title, text("Work"));
    assert_eq!(s.draft.priority, Some(1));
    assert_eq!(s.draft.due_date, Some(point("2026-03-22 09:00")));
    assert_eq!(s.draft.start_date, Some(point("2026-03-21")));
    assert_eq!(s.draft.due_date_timezone, text("Europe/Paris"));
    let err = refused(s.with_item(Err(failure("full"))));
    assert_eq!(err.kind, McpErrorKind::Internal);
    assert_eq!(err.message, "full");
}

#[test]
fn create_edits_and_answers() {
    let mut params = create("Work");
    params.alarms = Some(vec![alarm_param()]);
    params.geofence = Some(geofence());
    params.recurrence = Some(recurrence("daily"));
    let step = find_list(params, Ok(vec![list("Work")]));
    let ReminderStep::Create(s) = step else { panic!("{step:?}") };
    let ReminderStep::HeldAlarms(s) = s.with_item(Ok(item("a"))) else { panic!() };
    assert_eq!(s.item.identifier, "a");
    let mut step = s.with_alarms(Ok(vec![alarm(), alarm()]));
    let mut seen: Vec<String> = Vec::new();
    while let ReminderStep::Edit(s) = step {
        assert_eq!(s.item.identifier, "a");
        seen.push(match &s.edit {
            Edit::RemoveAlarm(i) => format!("remove {i}"),
            Edit::AddAlarm(_) => "add".to_string(),
            Edit::SetGeofence(place, _) => format!("geofence {}", place.title),
            Edit::SetRecurrence(r) => format!("every {}", r.interval),
            Edit::ClearRecurrence => "clear".to_string(),
        });
        // edits of alarms and recurrence that fail are passed over
        let reply = if matches!(s.edit, Edit::SetGeofence(_, _)) {
            Ok(())
        } else {
            Err(failure("ignored"))
        };
        step = s.with_reply(reply);
    }
    assert_eq!(seen, vec!["remove 1", "remove 0", "add", "geofence Home", "every 1"]);
    let ReminderStep::Reread(s) = step else { panic!("{step:?}") };
    let shown = answer(s.with_item(Err(failure("gone")))).unwrap();
    assert_eq!(shown.id, "a");
}

#[test]
fn a_geofence_that_fails_ends_the_tool() {
    let mut params = create("Work");
    params.geofence = Some(geofence());
    params.recurrence = Some(recurrence("daily"));
    let step = find_list(params, Ok(vec![list("Work")]));
    let ReminderStep::Create(s) = step else { panic!("{step:?}") };
    let ReminderStep::Edit(s) = s.with_item(Ok(item("a"))) else { panic!() };
    assert!(matches!(s.edit, Edit::SetGeofence(_, AlarmProximity::Enter)));
    let err = refused(s.with_reply(Err(failure("no location"))));
    assert_eq!(err.message, "no location");
}

#[test]
fn the_answer_shows_alarms_and_rules() {
    let step = EventKitServer::new().get_reminder(ReminderIdRequest { reminder_id: "x".to_string() });
    let ReminderStep::Fetch(s) = step else { panic!("{step:?}") };
    assert_eq!(s.id, "x");
    let mut found = item("x");
    found.has_alarms = true;
    found.has_recurrence_rules = true;
    let ReminderStep::Alarms(s) = s.with_item(Ok(found)) else { panic!() };
    let ReminderStep::Rules(s) = s.with_alarms(Ok(vec![alarm()])) else { panic!() };
    let shown = answer(s.with_rules(Ok(vec![rule()]))).unwrap();
    assert_eq!(shown.alarms.len(), 1);
    assert_eq!(shown.recurrence_rules.len(), 1);
    assert_eq!(shown.recurrence_rules[0].frequency, "yearly");
    assert_eq!(shown.recurrence_rules[0].interval, 4);
}

#[test]
fn details_that_cannot_be_read_are_left_out() {
    let server = EventKitServer::default();
    let step = server.get_reminder(ReminderIdRequest { reminder_id: "x".to_string() });
    let ReminderStep::Fetch(s) = step else { panic!("{step:?}") };
    let mut found = item("x");
    found.has_alarms = true;
    let ReminderStep::Alarms(s) = s.with_item(Ok(found)) else { panic!() };
    let shown = answer(s.with_alarms(Err(failure("no")))).unwrap();
    assert!(shown.alarms.is_empty() && shown.recurrence_rules.is_empty());
    let step = server.get_reminder(ReminderIdRequest { reminder_id: "x".to_string() });
    let ReminderStep::Fetch(s) = step else { panic!("{step:?}") };
    assert_eq!(refused(s.with_item(Err(failure("missing")))).message, "missing");
}

#[test]
fn update_leaves_what_is_absent() {
    let step = EventKitServer::new().update_reminder(update());
    let ReminderStep::Update(s) = step else { panic!("{step:?}") };
    assert_eq!(s.id, "r");
    let p = s.patch;
    assert!(p.title.is_none() && p.notes.is_none() && p.completed.is_none());
    assert!(p.priority.is_none() && p.due_date.is_none() && p.start_date.is_none());
    assert!(p.calendar_title.is_none() && p.due_date_timezone.is_none());
    assert!(p.completion_date.is_none());
}

#[test]
fn update_clears_what_is_empty() {
    let mut params = update();
    params.due_date = text("");
    params.start_date = text("");
    params.completion_date = text("");
    params.due_date_timezone = text("");
    params.notes = text("");
    let step = EventKitServer::new().update_reminder(params);
    let ReminderStep::Update(s) = step else { panic!("{step:?}") };
    assert_eq!(s.patch.due_date, Some(None));
    assert_eq!(s.patch.start_date, Some(None));
    assert_eq!(s.patch.completion_date, Some(None));
    assert_eq!(s.patch.due_date_timezone, Some(None));
    assert_eq!(s.patch.notes, text(""));
}

#[test]
fn update_sets_what_is_given() {
    let mut params = update();
    params.title = text("New");
    params.completed = Some(true);
    params.priority = Some(Priority::Medium);
    params.due_date = text("2026-05-20 10:00");
    params.start_date = text("2026-05-19");
    params.due_date_timezone = text("Asia/Tokyo");
    params.completion_date = text("2026-05-20T08:00:00+00:00");
    let step = EventKitServer::new().update_reminder(params);
    let ReminderStep::Update(s) = step else { panic!("{step:?}") };
    assert_eq!(s.patch.title, text("New"));
    assert_eq!(s.patch.completed, Some(true));
    assert_eq!(s.patch.priority, Some(5));
    assert_eq!(s.patch.due_date, Some(Some(point("2026-05-20 10:00"))));
    assert_eq!(s.patch.start_date, Some(Some(point("2026-05-19"))));
    assert_eq!(s.patch.due_date_timezone, Some(text("Asia/Tokyo")));
    assert_eq!(s.patch.completion_date.unwrap().unwrap().timestamp(), 1_779_264_000);
}

#[test]
fn update_refuses_in_order() {
    let mut params = update();
    params.due_date = text("x");
    params.start_date = text("x");
    params.completion_date = text("x");
    params.list_name = text("Work");
    let server = EventKitServer::new();
    let err = refused(server.update_reminder(params));
    assert!(err.message.starts_with("Error parsing due_date: "));
    let mut params = update();
    params.start_date = text("x");
    params.completion_date = text("x");
    params.list_name = text("Work");
    let err = refused(server.update_reminder(params));
    assert!(err.message.starts_with("Error parsing start_date: "));
    // the list is looked at before the completion date
    let asks = || {
        let mut params = update();
        params.completion_date = text("x");
        params.list_name = text("Work");
        match server.update_reminder(params) {
            ReminderStep::CheckList(s) => s,
            other => panic!("unexpected {other:?}"),
        }
    };
    let err = refused(asks().with_lists(Err(failure("down"))));
    assert_eq!(err.message, "Error: down");
    let err = refused(asks().with_lists(Ok(vec![list("Home")])));
    assert_eq!(err.message, "List 'Work' not found. Available lists: Home");
    let err = refused(asks().with_lists(Ok(vec![list("Work")])));
    assert!(err.message.starts_with("Error parsing completion_date: "));
    let mut params = update();
    params.completion_date = text("10:00");
    let err = refused(server.update_reminder(params));
    assert!(err.message.starts_with("Error parsing completion_date: "));
}

#[test]
fn update_moves_to_a_list() {
    let mut params = update();
    params.list_name = text("Work");
    params.recurrence = Some(recurrence(""));
    params.alarms = Some(vec![]);
    let step = EventKitServer::new().update_reminder(params);
    let ReminderStep::CheckList(s) = step else { panic!("{step:?}") };
    let step = s.with_lists(Ok(vec![list("Work")]));
    let ReminderStep::Update(s) = step else { panic!("{step:?}") };
    assert_eq!(s.patch.calendar_title, text("Work"));
    let ReminderStep::HeldAlarms(s) = s.with_item(Ok(item("r"))) else { panic!() };
    let ReminderStep::Edit(s) = s.with_alarms(Ok(vec![alarm()])) else { panic!() };
    assert_eq!(s.edit, Edit::RemoveAlarm(0));
    let ReminderStep::Edit(s) = s.with_reply(Ok(())) else { panic!() };
    assert_eq!(s.edit, Edit::ClearRecurrence);
    let ReminderStep::Reread(s) = s.with_reply(Ok(())) else { panic!() };
    let shown = answer(s.with_item(Ok(item("fresh")))).unwrap();
    assert_eq!(shown.id, "fresh");
}

#[test]
fn single_changes_read_the_reminder_back() {
    let server = EventKitServer::new();
    let id = || ReminderIdRequest { reminder_id: "r".to_string() };
    let timezone = |t: Option<String>| {
        server.set_reminder_due_timezone(SetReminderDueTimezoneRequest {
            reminder_id: "r".to_string(),
            timezone: t,
        })
    };
    let fence = |g: Option<GeofenceInput>| {
        server.set_reminder_geofence(SetReminderGeofenceRequest {
            reminder_id: "r".to_string(),
            geofence: g,
        })
    };
    for (step, expected) in [
        (server.complete_reminder(id()), ReminderChange::Complete),
        (server.uncomplete_reminder(id()), ReminderChange::Uncomplete),
        (timezone(text("UTC")), ReminderChange::DueTimezone(text("UTC"))),
        (timezone(text("")), ReminderChange::DueTimezone(None)),
        (timezone(None), ReminderChange::DueTimezone(None)),
        (fence(None), ReminderChange::Geofence(None)),
    ] {
        let ReminderStep::Change(s) = step else { panic!("{step:?}") };
        assert_eq!(s.id, "r");
        assert_eq!(s.change, expected);
        let ReminderStep::Fetch(s) = s.with_reply(Ok(())) else { panic!() };
        assert_eq!(s.id, "r");
        assert_eq!(answer(s.with_item(Ok(item("r")))).unwrap().id, "r");
    }
    let step = fence(Some(geofence()));
    let ReminderStep::Change(s) = step else { panic!("{step:?}") };
    match &s.change {
        ReminderChange::Geofence(Some((place, proximity))) => {
            assert_eq!(place.title, "Home");
            assert_eq!(*proximity, AlarmProximity::Enter);
        }
        other => panic!("unexpected {other:?}"),
    }
    assert_eq!(refused(s.with_reply(Err(failure("no")))).message, "no");
}
