use eventkit_core::error::{mcp_err, mcp_internal_because, mcp_invalid, mcp_invalid_because, McpErrorKind};
use eventkit_core::model::{
    AlarmProximity, AlarmType, AuthorizationStatus, EventAvailability, EventKitError, EventSpan,
    EventStatus, RecurrenceFrequency, StoreError, ONE_HUNDRED_BITS,
};
use eventkit_core::request::{
    default_days, default_duration, default_interval, default_search_days, CalendarColor,
    GeofenceProximity, Priority,
};
use eventkit_core::words::{
    alarm_type_word, auth_remediation, auth_status_str, availability_word, frequency_word,
    parse_availability, parse_frequency, parse_hex, parse_span, priority_value, status_word,
    to_proximity,
};

fn failure(error: EventKitError, text: &str) -> StoreError {
    StoreError { error, text: text.to_string() }
}

#[test]
fn parse_availability_accepts_every_variant() {
    for (s, expected) in [
        ("busy", EventAvailability::Busy),
        ("free", EventAvailability::Free),
        ("tentative", EventAvailability::Tentative),
        ("unavailable", EventAvailability::Unavailable),
        ("not_supported", EventAvailability::NotSupported),
    ] {
        assert_eq!(parse_availability(s).unwrap(), expected);
    }
    assert!(parse_availability("BUSY").is_err()); // case-sensitive
    assert!(parse_availability("anything else").is_err());
}

#[test]
fn parse_span_defaults_to_this() {
    assert_eq!(parse_span(None).unwrap(), EventSpan::This);
    assert_eq!(parse_span(Some("this")).unwrap(), EventSpan::This);
    assert_eq!(parse_span(Some("future")).unwrap(), EventSpan::Future);
    assert!(parse_span(Some("bogus")).is_err());
}

#[test]
fn auth_status_str_covers_every_variant() {
    for s in [
        AuthorizationStatus::NotDetermined,
        AuthorizationStatus::Restricted,
        AuthorizationStatus::Denied,
        AuthorizationStatus::FullAccess,
        AuthorizationStatus::WriteOnly,
    ] {
        let str_form = auth_status_str(s);
        assert!(!str_form.is_empty(), "empty string for {s:?}");
        assert!(
            !str_form.contains(' '),
            "MCP wire format should be PascalCase, got {str_form:?} for {s:?}"
        );
    }
}

#[test]
fn auth_remediation_absent_when_both_granted() {
    for r in [AuthorizationStatus::FullAccess, AuthorizationStatus::WriteOnly] {
        for e in [AuthorizationStatus::FullAccess, AuthorizationStatus::WriteOnly] {
            assert!(
                auth_remediation(r, e).is_none(),
                "expected no remediation for ({r:?}, {e:?})"
            );
        }
    }
}

#[test]
fn auth_remediation_picks_worst_status() {
    // Denied > Restricted > NotDetermined > granted.
    let hint = auth_remediation(AuthorizationStatus::NotDetermined, AuthorizationStatus::Denied)
        .expect("expected remediation");
    assert!(
        hint.contains("System Settings") || hint.contains("tccutil"),
        "Denied remediation should mention System Settings or tccutil; got: {hint}"
    );
}

#[test]
fn auth_remediation_notdetermined_mentions_consent_dialog() {
    let hint = auth_remediation(
        AuthorizationStatus::NotDetermined,
        AuthorizationStatus::NotDetermined,
    )
    .expect("expected remediation");
    assert!(
        hint.contains("consent dialog"),
        "NotDetermined remediation should mention the consent dialog; got: {hint}"
    );
}

#[test]
fn mcp_err_includes_remediation_hint_for_auth_variants() {
    let err = mcp_err(&failure(EventKitError::AuthorizationDenied, "Authorization denied"));
    assert!(
        err.message.contains("System Settings") && err.message.contains("auth_status"),
        "AuthorizationDenied should mention System Settings and the auth_status tool; got: {}",
        err.message
    );

    let err = mcp_err(&failure(EventKitError::AuthorizationNotDetermined, "not determined"));
    assert!(
        err.message.contains("Info.plist"),
        "AuthorizationNotDetermined should hint at Info.plist usage strings; got: {}",
        err.message
    );

    let err = mcp_err(&failure(EventKitError::AuthorizationRestricted, "restricted"));
    assert!(
        err.message.contains("MDM") || err.message.contains("policy"),
        "AuthorizationRestricted should mention policy/MDM; got: {}",
        err.message
    );
}

#[test]
fn mcp_err_passes_through_non_auth_errors() {
    let err = mcp_err(&failure(
        EventKitError::ItemNotFound("xyz".to_string()),
        "Item not found: xyz",
    ));
    assert!(
        err.message.contains("xyz"),
        "non-auth errors should preserve the original message; got: {}",
        err.message
    );
}

#[test]
fn store_errors_are_internal() {
    let err = mcp_err(&failure(EventKitError::Other, "the store is gone"));
    assert_eq!(err.kind, McpErrorKind::Internal);
    assert_eq!(err.message, "the store is gone");
    let err = mcp_err(&failure(
        EventKitError::AuthorizationRequestFailed("no dialog".to_string()),
        "request failed",
    ));
    assert_eq!(err.message, "Authorization request failed: no dialog");
    let err = mcp_err(&failure(EventKitError::SaveFailed("x".to_string()), "Failed to save: x"));
    assert_eq!(err.message, "Failed to save: x");
}

#[test]
fn request_errors_blame_the_request() {
    let err = mcp_invalid("bad".to_string());
    assert_eq!(err.kind, McpErrorKind::InvalidParams);
    assert_eq!(err.message, "bad");
    assert_eq!(mcp_invalid_because("Error: ", "no").message, "Error: no");
    let err = mcp_internal_because("Failed: ", "why");
    assert_eq!(err.kind, McpErrorKind::Internal);
    assert_eq!(err.message, "Failed: why");
}

#[test]
fn denied_message_is_one_line() {
    let err = mcp_err(&failure(EventKitError::AuthorizationDenied, ""));
    assert_eq!(
        err.message,
        "Reminders/Calendar access denied. Open System Settings → Privacy & Security and enable \
         access for `eventkit`. If `eventkit` is not listed, run `tccutil reset Reminders` (or \
         Calendar) in a terminal and retry. Call `auth_status` to see the current state."
    );
}

#[test]
fn availability_words_round_trip() {
    for a in [
        EventAvailability::NotSupported,
        EventAvailability::Busy,
        EventAvailability::Free,
        EventAvailability::Tentative,
        EventAvailability::Unavailable,
    ] {
        assert_eq!(parse_availability(availability_word(a)).unwrap(), a);
    }
    assert_eq!(
        parse_availability("maybe").unwrap_err(),
        "invalid availability 'maybe'. Use busy, free, tentative, unavailable, or not_supported."
    );
}

#[test]
fn span_error_names_the_word() {
    assert_eq!(
        parse_span(Some("past")).unwrap_err(),
        "invalid span 'past'. Use \"this\" or \"future\"."
    );
}

#[test]
fn frequency_words_round_trip() {
    for f in [
        RecurrenceFrequency::Daily,
        RecurrenceFrequency::Weekly,
        RecurrenceFrequency::Monthly,
        RecurrenceFrequency::Yearly,
    ] {
        assert_eq!(parse_frequency(frequency_word(f)).unwrap(), f);
    }
    assert_eq!(
        parse_frequency("hourly").unwrap_err(),
        "Invalid frequency: 'hourly'. Use daily, weekly, monthly, or yearly."
    );
}

#[test]
fn status_and_alarm_words() {
    assert_eq!(status_word(EventStatus::Unset), "none");
    assert_eq!(status_word(EventStatus::Confirmed), "confirmed");
    assert_eq!(status_word(EventStatus::Tentative), "tentative");
    assert_eq!(status_word(EventStatus::Canceled), "canceled");
    assert_eq!(alarm_type_word(AlarmType::Display), "display");
    assert_eq!(alarm_type_word(AlarmType::Audio), "audio");
    assert_eq!(alarm_type_word(AlarmType::Procedure), "procedure");
    assert_eq!(alarm_type_word(AlarmType::Email), "email");
    assert_eq!(alarm_type_word(AlarmType::Unknown), "unknown");
    assert_eq!(to_proximity(GeofenceProximity::Enter), AlarmProximity::Enter);
    assert_eq!(to_proximity(GeofenceProximity::Leave), AlarmProximity::Leave);
}

#[test]
fn remediation_does_not_depend_on_the_order() {
    let all = [
        AuthorizationStatus::NotDetermined,
        AuthorizationStatus::Restricted,
        AuthorizationStatus::Denied,
        AuthorizationStatus::FullAccess,
        AuthorizationStatus::WriteOnly,
    ];
    for a in all {
        for b in all {
            assert_eq!(auth_remediation(a, b), auth_remediation(b, a));
        }
    }
    let hint = auth_remediation(AuthorizationStatus::Restricted, AuthorizationStatus::FullAccess);
    assert!(hint.unwrap().contains("MDM"));
}

#[test]
fn priorities_as_numbers_and_words() {
    assert_eq!(Priority::Unset.to_usize(), 0);
    assert_eq!(Priority::Low.to_usize(), 9);
    assert_eq!(Priority::Medium.to_usize(), 5);
    assert_eq!(Priority::High.to_usize(), 1);
    let words: Vec<&str> = (0..=10).map(Priority::label).collect();
    assert_eq!(
        words,
        vec![
            "none", "high", "high", "high", "high", "medium", "low", "low", "low", "low", "none"
        ]
    );
    assert_eq!(priority_value(&None), None);
    assert_eq!(priority_value(&Some(Priority::Low)), Some(9));
}

#[test]
fn colors_are_the_palette_in_thousandths() {
    let expected: [(&str, (f64, f64, f64)); 9] = [
        ("red", (1.0, 0.231, 0.188)),
        ("orange", (1.0, 0.584, 0.0)),
        ("yellow", (1.0, 0.8, 0.0)),
        ("green", (0.298, 0.851, 0.392)),
        ("blue", (0.0, 0.478, 1.0)),
        ("purple", (0.686, 0.322, 0.871)),
        ("brown", (0.635, 0.518, 0.369)),
        ("pink", (1.0, 0.176, 0.333)),
        ("teal", (0.353, 0.784, 0.98)),
    ];
    for (i, color) in CalendarColor::all().iter().enumerate() {
        let (r, g, b, a) = color.to_rgba();
        assert_eq!(color.name(), expected[i].0);
        assert_eq!(f64::from(r) / 1000.0, expected[i].1 .0);
        assert_eq!(f64::from(g) / 1000.0, expected[i].1 .1);
        assert_eq!(f64::from(b) / 1000.0, expected[i].1 .2);
        assert_eq!(a, 1000);
    }
}

/// Squared distances to the palette, as bit patterns.
fn distances(r: f64, g: f64, b: f64) -> [u64; 9] {
    let mut out = [0u64; 9];
    for (i, color) in CalendarColor::all().iter().enumerate() {
        let (cr, cg, cb, _) = color.to_rgba();
        let d = (f64::from(cr) / 1000.0 - r).powi(2)
            + (f64::from(cg) / 1000.0 - g).powi(2)
            + (f64::from(cb) / 1000.0 - b).powi(2);
        out[i] = d.to_bits();
    }
    out
}

#[test]
fn nearest_color_of_every_palette_color_is_itself() {
    for color in CalendarColor::all() {
        let (r, g, b, _) = color.to_rgba();
        let d = distances(f64::from(r) / 1000.0, f64::from(g) / 1000.0, f64::from(b) / 1000.0);
        assert_eq!(CalendarColor::from_rgba(&d), color.name());
    }
    assert_eq!(CalendarColor::from_rgba(&distances(0.0, 0.0, 0.9)), "blue");
    // of two equally near colors the first is taken
    assert_eq!(CalendarColor::from_rgba(&[7, 5, 5, 9, 9, 9, 9, 9, 5]), "orange");
}

#[test]
fn hex_colors_are_read_by_value() {
    assert_eq!(parse_hex("#000000"), Some((0, 0, 0)));
    assert_eq!(parse_hex("#FF3b30"), Some((255, 59, 48)));
    assert_eq!(parse_hex("#09afAF"), Some((9, 175, 175)));
    for bad in ["", "#", "#12345", "#1234567", "123456#", "#12345g", "#é12345", "# 12345"] {
        assert_eq!(parse_hex(bad), None);
    }
}

#[test]
fn a_color_at_no_distance_is_the_nearest() {
    for (i, color) in CalendarColor::all().iter().enumerate() {
        let mut d = [1u64; 9];
        d[i] = 0;
        assert_eq!(CalendarColor::from_rgba(&d), color.name());
    }
}

#[test]
fn defaults_of_requests() {
    assert_eq!(default_days(), 1);
    assert_eq!(default_duration(), 60);
    assert_eq!(default_search_days(), 30);
    assert_eq!(default_interval(), 1);
    assert_eq!(f64::from_bits(ONE_HUNDRED_BITS), 100.0);
}
