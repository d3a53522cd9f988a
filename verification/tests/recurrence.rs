use eventkit_core::clock::parse_datetime;
use eventkit_core::model::{RecurrenceEndCondition, RecurrenceFrequency};
use eventkit_core::output::{RecurrenceEndOutput, RecurrenceRuleOutput};
use eventkit_core::recurrence::{check_range, end_condition, parse_recurrence_param, rule_from};
use eventkit_core::request::RecurrenceParam;

fn weekly() -> RecurrenceParam {
    RecurrenceParam {
        frequency: "weekly".to_string(),
        interval: 2,
        days_of_week: Some(vec![2, 4]),
        days_of_month: None,
        months_of_year: None,
        weeks_of_year: None,
        days_of_year: None,
        set_positions: None,
        end_after_count: None,
        end_date: None,
    }
}

#[test]
fn rules_are_read() {
    let rule = parse_recurrence_param(&weekly()).unwrap();
    assert_eq!(rule.frequency, RecurrenceFrequency::Weekly);
    assert_eq!(rule.interval, 2);
    assert_eq!(rule.days_of_week, Some(vec![2, 4]));
    assert_eq!(rule.end, RecurrenceEndCondition::Never);
}

#[test]
fn count_goes_before_end_date() {
    let mut params = weekly();
    params.end_date = Some("2026-12-31".to_string());
    let end = parse_recurrence_param(&params).unwrap().end;
    let p = parse_datetime("2026-12-31").unwrap();
    assert_eq!(end, RecurrenceEndCondition::OnDate(p));
    params.end_after_count = Some(5);
    let end = parse_recurrence_param(&params).unwrap().end;
    assert_eq!(end, RecurrenceEndCondition::AfterCount(5));
    params.end_date = Some("garbage".to_string());
    assert_eq!(end_condition(&params).unwrap(), RecurrenceEndCondition::AfterCount(5));
}

#[test]
fn bad_end_dates_are_refused() {
    let mut params = weekly();
    params.end_date = Some("soon".to_string());
    assert_eq!(
        parse_recurrence_param(&params).unwrap_err(),
        "Invalid date format. Use 'YYYY-MM-DD' or 'YYYY-MM-DD HH:MM'"
    );
    // the frequency is looked at first
    params.frequency = "often".to_string();
    assert_eq!(
        parse_recurrence_param(&params).unwrap_err(),
        "Invalid frequency: 'often'. Use daily, weekly, monthly, or yearly."
    );
}

#[test]
fn values_out_of_range_are_refused() {
    let cases: [(&str, i32, i32); 5] = [
        ("days_of_month", -31, 31),
        ("months_of_year", 1, 12),
        ("weeks_of_year", -53, 53),
        ("days_of_year", -366, 366),
        ("set_positions", -366, 366),
    ];
    for (name, low, high) in cases {
        for v in [low - 1, 0, high + 1] {
            let mut params = weekly();
            let list = Some(vec![1, v, low - 7]);
            match name {
                "days_of_month" => params.days_of_month = list,
                "months_of_year" => params.months_of_year = list,
                "weeks_of_year" => params.weeks_of_year = list,
                "days_of_year" => params.days_of_year = list,
                _ => params.set_positions = list,
            }
            assert_eq!(
                parse_recurrence_param(&params).unwrap_err(),
                format!("{name}: value {v} out of range")
            );
        }
        assert!(check_range(name, &Some(vec![low, high]), low, high).is_ok());
    }
    assert!(check_range("x", &None, 1, 2).is_ok());
}

#[test]
fn the_first_list_out_of_range_decides() {
    let mut params = weekly();
    params.set_positions = Some(vec![999]);
    params.months_of_year = Some(vec![13]);
    assert_eq!(
        rule_from(&params, Ok(RecurrenceEndCondition::Never)).unwrap_err(),
        "months_of_year: value 13 out of range"
    );
    assert_eq!(rule_from(&params, Err("end".to_string())).unwrap_err(), "end");
}

#[test]
fn rules_are_shown_as_they_were_sent() {
    let mut params = weekly();
    params.frequency = "monthly".to_string();
    params.days_of_month = Some(vec![-1, 15]);
    params.months_of_year = Some(vec![3]);
    params.weeks_of_year = Some(vec![53]);
    params.days_of_year = Some(vec![-366]);
    params.set_positions = Some(vec![1]);
    params.end_after_count = Some(3);
    let shown = RecurrenceRuleOutput::from_rule(&parse_recurrence_param(&params).unwrap());
    assert_eq!(shown.frequency, "monthly");
    assert_eq!(shown.interval, 2);
    assert_eq!(shown.days_of_week, params.days_of_week);
    assert_eq!(shown.days_of_month, params.days_of_month);
    assert_eq!(shown.months_of_year, params.months_of_year);
    assert_eq!(shown.weeks_of_year, params.weeks_of_year);
    assert_eq!(shown.days_of_year, params.days_of_year);
    assert_eq!(shown.set_positions, params.set_positions);
    assert!(matches!(shown.end, RecurrenceEndOutput::AfterCount { count: 3 }));
    params.end_after_count = None;
    let shown = RecurrenceRuleOutput::from_rule(&parse_recurrence_param(&params).unwrap());
    assert!(matches!(shown.end, RecurrenceEndOutput::Never));
    params.end_date = Some("2026-12-31".to_string());
    let shown = RecurrenceRuleOutput::from_rule(&parse_recurrence_param(&params).unwrap());
    let expected = parse_datetime("2026-12-31").unwrap().to_rfc3339();
    match shown.end {
        RecurrenceEndOutput::OnDate { date } => assert_eq!(date, expected),
        other => panic!("unexpected end {other:?}"),
    }
}
