use eventkit_core::calendars::{EventDeletion, Rgba};
use eventkit_core::clock::LocalDateTime;
use eventkit_core::dump::{
    dump_calendars, dump_event, dump_events, dump_reminder, dump_reminder_lists, dump_reminders,
    dump_sources,
};
use eventkit_core::error::McpErrorKind;
use eventkit_core::event::EventStep;
use eventkit_core::model::{
    AlarmInfo, AlarmProximity, AlarmType, AuthorizationStatus, CalendarInfo, EventAvailability,
    EventItem, EventKitError, EventStatus, ParticipantInfo, Real, ReminderItem, SourceInfo,
    StoreError, StructuredLocation,
};
use eventkit_core::output::{
    is_zero, AlarmOutput, AttendeeOutput, CalendarOutput, EventOutput, ReminderOutput,
    SourceOutput,
};
use eventkit_core::reminder::ReminderStep;
use eventkit_core::request::{
    CalendarColor, ColorChoice, DeleteReminderListRequest, EventIdRequest, ReminderIdRequest,
    UpdateEventCalendarRequest, UpdateReminderListRequest,
};
use eventkit_core::server::EventKitServer;

fn text(s: &str) -> Option<String> {
    Some(s.to_string())
}

fn failure(message: &str) -> StoreError {
    StoreError { error: EventKitError::Other, text: message.to_string() }
}

fn at(secs: i64) -> LocalDateTime {
    LocalDateTime::new(secs, 0, 3_600).unwrap()
}

fn place(title: &str) -> StructuredLocation {
    StructuredLocation {
        title: title.to_string(),
        latitude: Real { bits: 1 },
        longitude: Real { bits: 2 },
        radius: Real { bits: 3 },
    }
}

fn person(name: &str) -> ParticipantInfo {
    ParticipantInfo {
        name: text(name),
        role: "NonParticipant".to_string(),
        status: "Accepted".to_string(),
        is_current_user: true,
    }
}

fn calendar(title: &str) -> CalendarInfo {
    CalendarInfo {
        identifier: format!("id-{title}"),
        title: title.to_string(),
        color: Some([9, 9, 9, 4, 9, 9, 9, 9, 9]),
        source: text("iCloud"),
        source_id: text("s"),
        allows_modifications: true,
        is_immutable: false,
        is_subscribed: true,
        allowed_entity_types: vec!["event".to_string()],
        supported_event_availabilities: vec!["busy".to_string(), "free".to_string()],
    }
}

fn reminder(id: &str) -> ReminderItem {
    ReminderItem {
        identifier: id.to_string(),
        title: "T".to_string(),
        notes: text("n"),
        completed: true,
        priority: 5,
        calendar_title: text("Work"),
        calendar_id: text("c"),
        due_date: Some(at(0)),
        start_date: Some(at(60)),
        completion_date: Some(at(120)),
        URL: text("u"),
        location: text("l"),
        due_date_timezone: text("UTC"),
        structured_location: Some(place("Home")),
        parent_id: text("p"),
        attachments_count: 2,
        has_alarms: false,
        has_recurrence_rules: false,
        has_notes: true,
        has_attendees: false,
        external_identifier: None,
        creation_date: None,
        last_modified_date: None,
        timezone: None,
    }
}

fn event(id: &str) -> EventItem {
    EventItem {
        identifier: id.to_string(),
        title: "E".to_string(),
        start_date: at(0),
        end_date: at(3_600),
        all_day: true,
        calendar_title: text("Work"),
        calendar_id: text("c"),
        notes: text("n"),
        location: text("l"),
        URL: text("u"),
        availability: EventAvailability::Free,
        status: EventStatus::Canceled,
        structured_location: Some(place("Office")),
        attendees: vec![person("A"), person("B")],
        organizer: Some(person("O")),
        is_detached: true,
        occurrence_date: Some(at(1)),
        creation_date: Some(at(2)),
        last_modified_date: Some(at(3)),
        external_identifier: text("x"),
        timezone: text("UTC"),
        attachments_count: 1,
    }
}

#[test]
fn alarms_are_shown() {
    let shown = AlarmOutput::from_info(&AlarmInfo {
        relative_offset: Some(Real { bits: 7 }),
        absolute_date: Some(at(0)),
        proximity: AlarmProximity::Leave,
        location: Some(place("Home")),
        email_address: text("a@b.c"),
        sound_name: text("Glass"),
        url: text("u"),
        alarm_type: AlarmType::Email,
    });
    assert_eq!(shown.relative_offset_seconds, Some(Real { bits: 7 }));
    assert_eq!(shown.absolute_date.as_deref(), Some("1970-01-01T01:00:00+01:00"));
    assert_eq!(shown.proximity.as_deref(), Some("leave"));
    let location = shown.location.unwrap();
    assert_eq!(location.title, "Home");
    assert_eq!(location.radius_meters, Real { bits: 3 });
    assert_eq!(shown.email_address, text("a@b.c"));
    assert_eq!(shown.sound_name, text("Glass"));
    assert_eq!(shown.url, text("u"));
    assert_eq!(shown.alarm_type, "email");
}

#[test]
fn attendees_are_shown_in_lower_case() {
    let shown = AttendeeOutput::from_info(&person("A"));
    assert_eq!(shown.name, text("A"));
    assert_eq!(shown.role, "nonparticipant");
    assert_eq!(shown.status, "accepted");
    assert!(shown.is_current_user);
}

#[test]
fn reminders_are_shown() {
    let shown = ReminderOutput::from_item_summary(&reminder("r"));
    assert_eq!(shown.id, "r");
    assert_eq!(shown.title, "T");
    assert!(shown.completed);
    assert_eq!(shown.priority, "medium");
    assert_eq!(shown.list_name, text("Work"));
    assert_eq!(shown.list_id, text("c"));
    assert_eq!(shown.due_date.as_deref(), Some("1970-01-01T01:00:00+01:00"));
    assert_eq!(shown.start_date.as_deref(), Some("1970-01-01T01:01:00+01:00"));
    assert_eq!(shown.completion_date.as_deref(), Some("1970-01-01T01:02:00+01:00"));
    assert_eq!(shown.notes, text("n"));
    assert_eq!(shown.URL, text("u"));
    assert_eq!(shown.location, text("l"));
    assert_eq!(shown.due_date_timezone, text("UTC"));
    assert_eq!(shown.geofence.unwrap().title, "Home");
    assert_eq!(shown.parent_id, text("p"));
    assert_eq!(shown.attachments_count, 2);
}

#[test]
fn events_are_shown() {
    let shown = EventOutput::from_item_summary(&event("e"));
    assert_eq!(shown.id, "e");
    assert_eq!(shown.start, "1970-01-01T01:00:00+01:00");
    assert_eq!(shown.end, "1970-01-01T02:00:00+01:00");
    assert!(shown.all_day && shown.is_detached);
    assert_eq!(shown.availability, "free");
    assert_eq!(shown.status, "canceled");
    assert_eq!(shown.structured_location.unwrap().title, "Office");
    assert_eq!(shown.attendees.len(), 2);
    assert_eq!(shown.attendees[1].name, text("B"));
    assert_eq!(shown.organizer.unwrap().name, text("O"));
    assert_eq!(shown.occurrence_date.as_deref(), Some("1970-01-01T01:00:01+01:00"));
    assert_eq!(shown.creation_date.as_deref(), Some("1970-01-01T01:00:02+01:00"));
    assert_eq!(shown.last_modified_date.as_deref(), Some("1970-01-01T01:00:03+01:00"));
    assert_eq!(shown.external_identifier, text("x"));
    assert_eq!(shown.timezone, text("UTC"));
    assert_eq!(shown.attachments_count, 1);
    assert!(shown.alarms.is_empty() && shown.recurrence_rules.is_empty());
}

#[test]
fn calendars_and_accounts_are_shown() {
    let shown = CalendarOutput::from_info(&calendar("Home"));
    assert_eq!(shown.id, "id-Home");
    assert_eq!(shown.color, "green");
    assert_eq!(shown.source, text("iCloud"));
    assert_eq!(shown.source_id, text("s"));
    assert!(shown.allows_modifications && !shown.is_immutable && shown.is_subscribed);
    assert_eq!(shown.entity_types, vec!["event"]);
    assert_eq!(shown.supported_event_availabilities, vec!["busy", "free"]);
    let mut plain = calendar("Work");
    plain.color = None;
    assert_eq!(CalendarOutput::from_info(&plain).color, "none");
    let shown = SourceOutput::from_info(&SourceInfo {
        identifier: "i".to_string(),
        title: "t".to_string(),
        source_type: "Local".to_string(),
    });
    assert_eq!((shown.id.as_str(), shown.title.as_str()), ("i", "t"));
    assert_eq!(shown.source_type, "Local");
    assert!(is_zero(&0) && !is_zero(&1));
}

#[test]
fn permissions_are_told() {
    let server = EventKitServer::new();
    let o = server.auth_status(AuthorizationStatus::FullAccess, AuthorizationStatus::WriteOnly);
    assert_eq!((o.reminders, o.events), ("FullAccess", "WriteOnly"));
    assert!(o.remediation.is_none());
    let o = server.auth_status(AuthorizationStatus::FullAccess, AuthorizationStatus::Denied);
    assert_eq!(o.events, "Denied");
    assert!(o.remediation.unwrap().contains("tccutil"));
    let o = server.request_access(Ok(false), AuthorizationStatus::Denied).unwrap();
    assert_eq!((o.granted, o.status), (false, "Denied"));
    let err = server
        .request_access(Err(failure("no")), AuthorizationStatus::NotDetermined)
        .unwrap_err();
    assert_eq!(err.message, "no");
    let o = server.get_current_location(Ok((Real { bits: 1 }, Real { bits: 2 }))).unwrap();
    assert_eq!((o.latitude, o.longitude), (Real { bits: 1 }, Real { bits: 2 }));
    let err = server.get_current_location(Err("timeout".to_string())).unwrap_err();
    assert_eq!((err.kind, err.message.as_str()), (McpErrorKind::Internal, "timeout"));
}

#[test]
fn calendar_tools_answer() {
    let server = EventKitServer::new();
    let list = server.list_calendars(Ok(vec![calendar("A"), calendar("B")])).unwrap();
    assert_eq!((list.count, list.items[1].title.as_str()), (2, "B"));
    assert_eq!(server.list_reminder_lists(Ok(vec![])).unwrap().count, 0);
    assert!(server.list_reminder_lists(Err(failure("no"))).is_err());
    assert_eq!(server.create_reminder_list(Ok(calendar("A"))).unwrap().title, "A");
    assert_eq!(server.create_event_calendar(Ok(calendar("A"))).unwrap().title, "A");
    assert_eq!(server.get_default_event_calendar(Ok(calendar("A"))).unwrap().title, "A");
    assert_eq!(server.update_calendar_reply(Err(failure("no"))).unwrap_err().message, "no");
    let change = server.update_reminder_list(UpdateReminderListRequest {
        list_id: "l".to_string(),
        name: text("N"),
        color: Some(ColorChoice::Named(CalendarColor::Teal)),
    });
    let change = change.unwrap();
    assert_eq!(change.id, "l");
    assert_eq!(change.name, text("N"));
    assert_eq!(
        change.color,
        Some(Rgba { red: 353, green: 784, blue: 980, opacity: 1000, whole: 1000 })
    );
    let change = server.update_event_calendar(UpdateEventCalendarRequest {
        calendar_id: "c".to_string(),
        name: None,
        color: None,
    });
    let change = change.unwrap();
    assert_eq!((change.id.as_str(), change.name, change.color), ("c", None, None));
    let sources = server.list_sources(Ok(vec![SourceInfo {
        identifier: "i".to_string(),
        title: "t".to_string(),
        source_type: "Local".to_string(),
    }]));
    assert_eq!(sources.unwrap().count, 1);
    assert!(server.list_sources(Err(failure("no"))).is_err());
}

#[test]
fn deletions_name_what_was_deleted() {
    let server = EventKitServer::new();
    let list = || DeleteReminderListRequest { list_id: "l".to_string() };
    assert_eq!(server.delete_reminder_list(list(), Ok(())).unwrap().id, "l");
    assert_eq!(server.delete_event_calendar(list(), Ok(())).unwrap().id, "l");
    let id = ReminderIdRequest { reminder_id: "r".to_string() };
    assert_eq!(server.delete_reminder(id, Ok(())).unwrap().id, "r");
    assert_eq!(server.delete_event_reply("e".to_string(), Ok(())).unwrap().id, "e");
    assert_eq!(
        server.delete_reminder_list(list(), Err(failure("no"))).unwrap_err().message,
        "no"
    );
}

#[test]
fn the_older_flag_means_the_future() {
    let server = EventKitServer::new();
    let delete = |span: Option<&str>, affect_future: bool| {
        server.delete_event(EventIdRequest {
            event_id: "e".to_string(),
            span: span.map(|s| s.to_string()),
            affect_future,
        })
    };
    let future = EventDeletion { id: "e".to_string(), affect_future: true };
    assert_eq!(delete(Some("future"), false).unwrap(), future);
    assert_eq!(delete(None, true).unwrap(), future);
    assert_eq!(delete(Some("this"), true).unwrap(), future);
    assert!(!delete(None, false).unwrap().affect_future);
    let err = delete(Some("all"), true).unwrap_err();
    assert_eq!(err.kind, McpErrorKind::InvalidParams);
    assert_eq!(err.message, "invalid span 'all'. Use \"this\" or \"future\".");
}

#[test]
fn objects_are_dumped() {
    let ReminderStep::Done(Ok(shown)) = dump_reminder(Ok(reminder("r"))).unwrap() else {
        panic!()
    };
    assert_eq!(shown.id, "r");
    assert_eq!(dump_reminder(Err(failure("no"))).unwrap_err(), failure("no"));
    let mut other = reminder("s");
    other.calendar_title = text("Home");
    let all = dump_reminders(None, Ok(vec![reminder("r"), other])).unwrap();
    assert_eq!(all.len(), 2);
    let mut other = reminder("s");
    other.calendar_title = text("Home");
    let some = dump_reminders(Some("Home"), Ok(vec![reminder("r"), other])).unwrap();
    assert_eq!(some.len(), 1);
    assert_eq!(some[0].id, "s");
    assert!(matches!(dump_event(Ok(event("e"))).unwrap(), EventStep::Alarms(_)));
    assert!(dump_event(Err(failure("no"))).is_err());
    assert_eq!(dump_events(Ok(vec![event("e")])).unwrap()[0].id, "e");
    assert_eq!(dump_reminder_lists(Ok(vec![calendar("A")])).unwrap()[0].title, "A");
    assert_eq!(dump_calendars(Ok(vec![calendar("A")])).unwrap()[0].title, "A");
    assert!(dump_sources(Err(failure("no"))).is_err());
    assert!(dump_sources(Ok(vec![])).unwrap().is_empty());
}

#[test]
fn a_custom_hex_color_is_taken() {
    let server = EventKitServer::new();
    let list = |color: &str| {
        server.update_reminder_list(UpdateReminderListRequest {
            list_id: "L1".to_string(),
            name: None,
            color: Some(ColorChoice::Hex(color.to_string())),
        })
    };
    let change = list("#FF0000").unwrap();
    assert_eq!((change.id.as_str(), change.name), ("L1", None));
    let red = change.color.unwrap();
    assert_eq!(red, Rgba { red: 255, green: 0, blue: 0, opacity: 255, whole: 255 });
    let part = |x: u16| f64::from(x) / f64::from(red.whole);
    assert_eq!(
        (part(red.red), part(red.green), part(red.blue), part(red.opacity)),
        (1.0, 0.0, 0.0, 1.0)
    );
    let change = server.update_event_calendar(UpdateEventCalendarRequest {
        calendar_id: "c".to_string(),
        name: text("N"),
        color: Some(ColorChoice::Hex("#0a9FfB".to_string())),
    });
    assert_eq!(
        change.unwrap().color,
        Some(Rgba { red: 10, green: 159, blue: 251, opacity: 255, whole: 255 })
    );
    for bad in ["", "red", "FF0000", "#FF000", "#FF00000", "#GG0000", "#FF 000"] {
        let e = list(bad).unwrap_err();
        assert_eq!(e.kind, McpErrorKind::InvalidParams);
        assert_eq!(
            e.message,
            format!(
                "invalid color '{bad}'. Use red, orange, yellow, green, blue, purple, brown, \
                 pink, teal, or a hex color such as #FF0000."
            )
        );
    }
}
