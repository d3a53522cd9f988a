use eventkit_core::clock::{parse_datetime, LocalDateTime};
use eventkit_core::edits::Edit;
use eventkit_core::error::{McpError, McpErrorKind};
use eventkit_core::event::EventStep;
use eventkit_core::model::{
    AlarmInfo, AlarmProximity, AlarmType, EventAvailability, EventItem, EventKitError, EventSpan,
    EventStatus, Real, StoreError,
};
use eventkit_core::output::EventOutput;
use eventkit_core::request::{
    AlarmParam, CreateEventRequest, EventIdRequest, RecurrenceParam, SetEventAvailabilityRequest,
    StructuredLocationInput, UpdateEventRequest,
};
use eventkit_core::server::EventKitServer;

fn text(s: &str) -> Option<String> {
    Some(s.to_string())
}

fn failure(message: &str) -> StoreError {
    StoreError { error: EventKitError::Other, text: message.to_string() }
}

fn point(s: &str) -> LocalDateTime {
    parse_datetime(s).unwrap()
}

fn item(id: &str) -> EventItem {
    EventItem {
        identifier: id.to_string(),
        title: format!("title of {id}"),
        start_date: point("2026-03-22 14:00"),
        end_date: point("2026-03-22 15:00"),
        all_day: false,
        calendar_title: None,
        calendar_id: None,
        notes: None,
        location: None,
        URL: None,
        availability: EventAvailability::Busy,
        status: EventStatus::Unset,
        structured_location: None,
        attendees: vec![],
        organizer: None,
        is_detached: false,
        occurrence_date: None,
        creation_date: None,
        last_modified_date: None,
        external_identifier: None,
        timezone: None,
        attachments_count: 0,
    }
}

fn alarm() -> AlarmInfo {
    AlarmInfo {
        relative_offset: None,
        absolute_date: None,
        proximity: AlarmProximity::Off,
        location: None,
        email_address: None,
        sound_name: None,
        url: None,
        alarm_type: AlarmType::Audio,
    }
}

fn alarm_param() -> AlarmParam {
    AlarmParam {
        relative_offset: Some(Real { bits: 0 }),
        proximity: None,
        location_title: None,
        latitude: None,
        longitude: None,
        radius: None,
        email_address: None,
        sound_name: None,
        url: None,
    }
}

fn recurrence(frequency: &str) -> RecurrenceParam {
    RecurrenceParam {
        frequency: frequency.to_string(),
        interval: 1,
        days_of_week: None,
        days_of_month: None,
        months_of_year: None,
        weeks_of_year: None,
        days_of_year: None,
        set_positions: None,
        end_after_count: None,
        end_date: None,
    }
}

fn place(title: &str) -> StructuredLocationInput {
    StructuredLocationInput {
        title: title.to_string(),
        latitude: Real { bits: 1 },
        longitude: Real { bits: 2 },
        radius_meters: Real { bits: 3 },
    }
}

fn create() -> CreateEventRequest {
    CreateEventRequest {
        title: "Plan".to_string(),
        start: "2026-06-01 14:00".to_string(),
        end: None,
        duration_minutes: 45,
        notes: text("n"),
        location: text("l"),
        calendar_name: text("Work"),
        all_day: false,
        URL: text("https://example.com"),
        availability: text("tentative"),
        structured_location: Some(place("Office")),
        alarms: None,
        recurrence: None,
    }
}

fn update() -> UpdateEventRequest {
    UpdateEventRequest {
        event_id: "e".to_string(),
        title: None,
        notes: None,
        location: None,
        start: None,
        end: None,
        all_day: None,
        calendar_name: None,
        URL: None,
        availability: None,
        structured_location: None,
        span: None,
        alarms: None,
        recurrence: None,
    }
}

fn answer(step: EventStep) -> Result<EventOutput, McpError> {
    match step {
        EventStep::Done(r) => r,
        other => panic!("not done: {other:?}"),
    }
}

#[test]
fn create_event_uses_the_duration_without_an_end() {
    let step = EventKitServer::new().create_event(create()).unwrap();
    let EventStep::Create(s) = step else { panic!("{step:?}") };
    let d = &s.draft;
    assert_eq!(d.title, "Plan");
    assert_eq!(d.start, point("2026-06-01 14:00"));
    assert_eq!(d.end.timestamp(), d.start.timestamp() + 45 * 60);
    assert_eq!(d.notes, text("n"));
    assert_eq!(d.location, text("l"));
    assert_eq!(d.calendar_title, text("Work"));
    assert_eq!(d.URL, text("https://example.com"));
    assert_eq!(d.availability, Some(EventAvailability::Tentative));
    assert_eq!(d.structured_location.as_ref().unwrap().title, "Office");
    assert!(!d.all_day);
    assert_eq!(answer(s.with_item(Err(failure("full")))).unwrap_err().message, "full");
}

#[test]
fn create_event_takes_the_end_that_is_given() {
    let mut params = create();
    params.end = text("2026-06-02");
    params.duration_minutes = i64::MAX;
    params.availability = None;
    params.structured_location = None;
    let step = EventKitServer::new().create_event(params).unwrap();
    let EventStep::Create(s) = step else { panic!("{step:?}") };
    assert_eq!(s.draft.end, point("2026-06-02"));
    assert_eq!(s.draft.availability, None);
    assert_eq!(s.draft.structured_location, None);
}

#[test]
fn create_event_refuses_what_cannot_be_read() {
    let server = EventKitServer::new();
    let mut params = create();
    params.start = "soon".to_string();
    let err = answer(server.create_event(params).unwrap()).unwrap_err();
    assert_eq!(err.kind, McpErrorKind::InvalidParams);
    assert_eq!(
        err.message,
        "Error: Invalid date format. Use 'YYYY-MM-DD' or 'YYYY-MM-DD HH:MM'"
    );
    let mut params = create();
    params.end = text("12:00");
    let err = answer(server.create_event(params).unwrap()).unwrap_err();
    assert!(err.message.starts_with("Error: Invalid date format."));
    let mut params = create();
    params.availability = text("asleep");
    let err = answer(server.create_event(params).unwrap()).unwrap_err();
    assert!(err.message.starts_with("invalid availability 'asleep'."));
}

#[test]
fn create_event_does_not_start_beyond_the_clock() {
    let mut params = create();
    params.duration_minutes = i64::MAX;
    assert!(EventKitServer::new().create_event(params).is_none());
}

#[test]
fn update_event_leaves_clears_and_sets() {
    let server = EventKitServer::new();
    let step = server.update_event(update());
    let EventStep::Update(s) = step else { panic!("{step:?}") };
    let p = s.patch;
    assert!(p.title.is_none() && p.notes.is_none() && p.location.is_none());
    assert!(p.start.is_none() && p.end.is_none() && p.all_day.is_none());
    assert!(p.calendar_title.is_none() && p.URL.is_none() && p.availability.is_none());
    assert!(p.structured_location.is_none());
    assert_eq!(p.span, EventSpan::This);
    let mut params = update();
    params.notes = text("");
    params.location = text("");
    params.URL = text("");
    params.structured_location = Some(None);
    let step = server.update_event(params);
    let EventStep::Update(s) = step else { panic!("{step:?}") };
    assert_eq!(s.patch.notes, Some(None));
    assert_eq!(s.patch.location, Some(None));
    assert_eq!(s.patch.URL, Some(None));
    assert_eq!(s.patch.structured_location, Some(None));
    let mut params = update();
    params.title = text("T");
    params.notes = text("N");
    params.start = text("2026-06-01");
    params.end = text("2026-06-01 10:30");
    params.all_day = Some(true);
    params.calendar_name = text("Work");
    params.availability = text("free");
    params.span = text("future");
    params.structured_location = Some(Some(place("Pier 1")));
    let step = server.update_event(params);
    let EventStep::Update(s) = step else { panic!("{step:?}") };
    assert_eq!(s.id, "e");
    assert_eq!(s.patch.title, text("T"));
    assert_eq!(s.patch.notes, Some(text("N")));
    assert_eq!(s.patch.start, Some(point("2026-06-01")));
    assert_eq!(s.patch.end, Some(point("2026-06-01 10:30")));
    assert_eq!(s.patch.all_day, Some(true));
    assert_eq!(s.patch.calendar_title, text("Work"));
    assert_eq!(s.patch.availability, Some(EventAvailability::Free));
    assert_eq!(s.patch.span, EventSpan::Future);
    assert_eq!(s.patch.structured_location.unwrap().unwrap().title, "Pier 1");
}

#[test]
fn update_event_refuses_in_order() {
    let server = EventKitServer::new();
    let bad = || {
        let mut params = update();
        params.start = text("x");
        params.end = text("y");
        params.availability = text("z");
        params.span = text("w");
        params
    };
    let message = |params| answer(server.update_event(params)).unwrap_err().message;
    assert!(message(bad()).starts_with("Error: Invalid date format."));
    let mut params = bad();
    params.start = None;
    assert!(message(params).starts_with("Error: Invalid date format."));
    let mut params = bad();
    params.start = None;
    params.end = None;
    assert!(message(params).starts_with("invalid availability 'z'."));
    let mut params = bad();
    params.start = None;
    params.end = None;
    params.availability = None;
    assert_eq!(message(params), "invalid span 'w'. Use \"this\" or \"future\".");
}

#[test]
fn saved_events_are_edited_read_and_shown() {
    let mut params = update();
    params.alarms = Some(vec![alarm_param()]);
    params.recurrence = Some(recurrence("weekly"));
    let step = EventKitServer::new().update_event(params);
    let EventStep::Update(s) = step else { panic!("{step:?}") };
    let EventStep::HeldAlarms(s) = s.with_item(Ok(item("e"))) else { panic!() };
    let EventStep::Edit(s) = s.with_alarms(Ok(vec![alarm()])) else { panic!() };
    assert_eq!(s.edit, Edit::RemoveAlarm(0));
    let EventStep::Edit(s) = s.with_reply(Err(failure("ignored"))) else { panic!() };
    assert!(matches!(s.edit, Edit::AddAlarm(_)));
    let EventStep::Edit(s) = s.with_reply(Ok(())) else { panic!() };
    assert!(matches!(s.edit, Edit::SetRecurrence(_)));
    let EventStep::Reread(s) = s.with_reply(Err(failure("ignored"))) else { panic!() };
    let EventStep::Alarms(s) = s.with_item(Ok(item("fresh"))) else { panic!() };
    let EventStep::Rules(s) = s.with_alarms(Ok(vec![alarm()])) else { panic!() };
    let shown = answer(s.with_rules(Err(failure("no")))).unwrap();
    assert_eq!(shown.id, "fresh");
    assert_eq!(shown.alarms.len(), 1);
    assert_eq!(shown.alarms[0].alarm_type, "audio");
    assert!(shown.recurrence_rules.is_empty());
}

#[test]
fn a_created_event_that_cannot_be_read_is_shown_as_saved() {
    let mut params = create();
    params.recurrence = Some(recurrence(""));
    let step = EventKitServer::new().create_event(params).unwrap();
    let EventStep::Create(s) = step else { panic!("{step:?}") };
    let EventStep::Reread(s) = s.with_item(Ok(item("new"))) else { panic!() };
    let EventStep::Alarms(s) = s.with_item(Err(failure("gone"))) else { panic!() };
    let EventStep::Rules(s) = s.with_alarms(Err(failure("no"))) else { panic!() };
    assert_eq!(answer(s.with_rules(Ok(vec![]))).unwrap().id, "new");
}

#[test]
fn empty_frequency_clears_on_update_of_events() {
    let mut params = update();
    params.recurrence = Some(recurrence(""));
    let step = EventKitServer::new().update_event(params);
    let EventStep::Update(s) = step else { panic!("{step:?}") };
    let EventStep::Edit(s) = s.with_item(Ok(item("e"))) else { panic!() };
    assert_eq!(s.edit, Edit::ClearRecurrence);
}

#[test]
fn availability_is_set_and_read_back() {
    let server = EventKitServer::new();
    let set = |word: &str| {
        server.set_event_availability(SetEventAvailabilityRequest {
            event_id: "e".to_string(),
            availability: word.to_string(),
        })
    };
    let step = set("free");
    let EventStep::SetAvailability(s) = step else { panic!("{step:?}") };
    assert_eq!(s.id, "e");
    assert_eq!(s.availability, EventAvailability::Free);
    let EventStep::Fetch(s) = s.with_reply(Ok(())) else { panic!() };
    assert_eq!(answer(s.with_item(Err(failure("gone")))).unwrap_err().message, "gone");
    let EventStep::SetAvailability(s) = set("busy") else { panic!() };
    assert_eq!(answer(s.with_reply(Err(failure("no")))).unwrap_err().message, "no");
    let err = answer(set("FREE")).unwrap_err();
    assert_eq!(err.kind, McpErrorKind::InvalidParams);
    let step = server.get_event(EventIdRequest {
        event_id: "e".to_string(),
        span: None,
        affect_future: false,
    });
    assert!(matches!(step, EventStep::Fetch(_)));
}

#[test]
fn an_update_is_read_back() {
    let server = EventKitServer::new();
    let mut params = update();
    params.title = text("Updated");
    params.notes = text("a note");
    params.location = text("");
    params.all_day = Some(true);
    params.calendar_name = text("Work");
    let step = server.update_event(params);
    let EventStep::Update(s) = step else { panic!("{step:?}") };
    let mut held = item("a");
    held.location = text("Room 4");
    held.title = s.patch.title.unwrap();
    held.notes = s.patch.notes.unwrap();
    held.location = s.patch.location.unwrap();
    held.all_day = s.patch.all_day.unwrap();
    held.calendar_title = s.patch.calendar_title;
    let get = || server.get_event(EventIdRequest {
        event_id: "a".to_string(),
        span: None,
        affect_future: false,
    });
    let EventStep::Fetch(fetch) = get() else { panic!() };
    let EventStep::Alarms(alarms) = fetch.with_item(Ok(held)) else { panic!() };
    let EventStep::Rules(rules) = alarms.with_alarms(Ok(vec![])) else { panic!() };
    let shown = answer(rules.with_rules(Ok(vec![]))).unwrap();
    assert_eq!(shown.title, "Updated");
    assert_eq!(shown.notes, text("a note"));
    assert_eq!(shown.location, None);
    assert!(shown.all_day);
    assert_eq!(shown.calendar_name, text("Work"));
}

#[test]
fn a_deleted_series_is_not_shown() {
    let server = EventKitServer::new();
    let id = || EventIdRequest {
        event_id: "a".to_string(),
        span: text("future"),
        affect_future: false,
    };
    let deletion = server.delete_event(id()).unwrap();
    assert_eq!((deletion.id.as_str(), deletion.affect_future), ("a", true));
    let EventStep::Fetch(fetch) = server.get_event(id()) else { panic!() };
    assert_eq!(fetch.id, "a");
    assert_eq!(answer(fetch.with_item(Err(failure("gone")))).unwrap_err().message, "gone");
}
