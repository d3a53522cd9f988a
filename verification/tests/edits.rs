use eventkit_core::edits::{
    alarm_param_to_info, edits_from, plan_alarms, plan_later, to_geofence, to_place, Edit,
};
use eventkit_core::model::{
    AlarmDraft, AlarmInfo, AlarmProximity, AlarmType, EventKitError, Real, StoreError,
    StructuredLocation,
};
use eventkit_core::recurrence::parse_recurrence_param;
use eventkit_core::request::{
    AlarmParam, GeofenceInput, GeofenceProximity, RecurrenceParam, StructuredLocationInput,
};

fn num(x: f64) -> Real {
    Real { bits: x.to_bits() }
}

fn before(seconds: f64) -> AlarmParam {
    AlarmParam {
        relative_offset: Some(num(-seconds)),
        proximity: None,
        location_title: None,
        latitude: None,
        longitude: None,
        radius: None,
        email_address: None,
        sound_name: None,
        url: None,
    }
}

fn held() -> AlarmInfo {
    AlarmInfo {
        relative_offset: None,
        absolute_date: None,
        proximity: AlarmProximity::Off,
        location: None,
        email_address: None,
        sound_name: None,
        url: None,
        alarm_type: AlarmType::Display,
    }
}

fn daily() -> RecurrenceParam {
    RecurrenceParam {
        frequency: "daily".to_string(),
        interval: 1,
        days_of_week: None,
        days_of_month: None,
        months_of_year: None,
        weeks_of_year: None,
        days_of_year: None,
        set_positions: None,
        end_after_count: None,
        end_date: None,
    }
}

fn home() -> GeofenceInput {
    GeofenceInput {
        title: "Home".to_string(),
        latitude: num(37.78),
        longitude: num(-122.42),
        radius_meters: num(50.0),
        proximity: GeofenceProximity::Leave,
    }
}

#[test]
fn alarms_are_taken_from_requests() {
    let mut param = before(600.0);
    param.email_address = Some("a@b.c".to_string());
    param.sound_name = Some("Glass".to_string());
    param.url = Some("https://example.com".to_string());
    let alarm = alarm_param_to_info(&param);
    assert_eq!(
        alarm,
        AlarmDraft {
            relative_offset: Some(num(-600.0)),
            proximity: AlarmProximity::Off,
            location: None,
            email_address: Some("a@b.c".to_string()),
            sound_name: Some("Glass".to_string()),
            url: Some("https://example.com".to_string()),
        }
    );
}

#[test]
fn alarm_places_need_a_title_and_both_coordinates() {
    let mut param = before(0.0);
    param.proximity = Some("enter".to_string());
    param.location_title = Some("Office".to_string());
    param.latitude = Some(num(1.5));
    assert_eq!(alarm_param_to_info(&param).location, None);
    param.longitude = Some(num(2.5));
    let alarm = alarm_param_to_info(&param);
    assert_eq!(alarm.proximity, AlarmProximity::Enter);
    assert_eq!(
        alarm.location,
        Some(StructuredLocation {
            title: "Office".to_string(),
            latitude: num(1.5),
            longitude: num(2.5),
            radius: num(100.0),
        })
    );
    param.radius = Some(num(7.0));
    param.proximity = Some("leave".to_string());
    let alarm = alarm_param_to_info(&param);
    assert_eq!(alarm.proximity, AlarmProximity::Leave);
    assert_eq!(alarm.location.unwrap().radius, num(7.0));
    param.location_title = None;
    param.proximity = Some("Enter".to_string());
    let alarm = alarm_param_to_info(&param);
    assert_eq!(alarm.proximity, AlarmProximity::Off);
    assert_eq!(alarm.location, None);
}

/// Carries the edits of alarms out.
fn run(mut alarms: Vec<AlarmDraft>, edits: Vec<Edit>) -> Vec<AlarmDraft> {
    for edit in edits {
        match edit {
            Edit::RemoveAlarm(i) => {
                alarms.remove(i);
            }
            Edit::AddAlarm(a) => alarms.push(a),
            other => panic!("unexpected edit {other:?}"),
        }
    }
    alarms
}

#[test]
fn alarms_are_replaced_from_the_last_on() {
    let edits = plan_alarms(&Ok(vec![held(), held(), held()]), &vec![before(1.0), before(2.0)]);
    assert_eq!(edits[..3], [Edit::RemoveAlarm(2), Edit::RemoveAlarm(1), Edit::RemoveAlarm(0)]);
    let old = vec![
        alarm_param_to_info(&before(7.0)),
        alarm_param_to_info(&before(8.0)),
        alarm_param_to_info(&before(9.0)),
    ];
    assert_eq!(
        run(old, edits),
        vec![alarm_param_to_info(&before(1.0)), alarm_param_to_info(&before(2.0))]
    );
}

#[test]
fn alarms_that_cannot_be_read_are_not_removed() {
    let failure = StoreError { error: EventKitError::Other, text: String::new() };
    let edits = plan_alarms(&Err(failure), &vec![before(1.0)]);
    assert_eq!(edits, vec![Edit::AddAlarm(alarm_param_to_info(&before(1.0)))]);
    assert_eq!(plan_alarms(&Ok(vec![held()]), &vec![]), vec![Edit::RemoveAlarm(0)]);
}

#[test]
fn geofences_and_places() {
    let (place, proximity) = to_geofence(Some(home())).unwrap();
    assert_eq!(proximity, AlarmProximity::Leave);
    assert_eq!(place.title, "Home");
    assert_eq!(place.latitude, num(37.78));
    assert_eq!(place.longitude, num(-122.42));
    assert_eq!(place.radius, num(50.0));
    assert_eq!(to_geofence(None), None);
    assert_eq!(to_place(None), None);
    let place = to_place(Some(StructuredLocationInput {
        title: "Pier 1".to_string(),
        latitude: num(1.0),
        longitude: num(2.0),
        radius_meters: num(3.0),
    }));
    assert_eq!(
        place,
        Some(StructuredLocation {
            title: "Pier 1".to_string(),
            latitude: num(1.0),
            longitude: num(2.0),
            radius: num(3.0),
        })
    );
}

#[test]
fn geofence_comes_before_recurrence() {
    let edits = plan_later(Some(home()), &Some(daily()), false);
    assert_eq!(edits.len(), 2);
    assert!(matches!(edits[0], Edit::SetGeofence(_, AlarmProximity::Leave)));
    assert_eq!(edits[1], Edit::SetRecurrence(parse_recurrence_param(&daily()).unwrap()));
    assert_eq!(plan_later(None, &None, true), vec![]);
}

#[test]
fn empty_frequency_clears_only_where_offered() {
    let mut params = daily();
    params.frequency = String::new();
    assert_eq!(plan_later(None, &Some(params), true), vec![Edit::ClearRecurrence]);
    let mut params = daily();
    params.frequency = String::new();
    assert_eq!(plan_later(None, &Some(params), false), vec![]);
}

#[test]
fn bad_recurrence_is_passed_over() {
    let mut params = daily();
    params.frequency = "sometimes".to_string();
    assert_eq!(plan_later(None, &Some(params), true), vec![]);
    assert_eq!(edits_from(None, &Some(daily()), true, Err("x".to_string())), vec![]);
}
