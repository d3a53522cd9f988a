//! Recurrence rules as requests describe them.

use crate::clock::{dates_are_read_where_the_clock_shows_them, datetime_outcome, has_no_point, parse_datetime, stands_for, LocalDateTime};
use crate::model::{RecurrenceEndCondition, RecurrenceFrequency, RecurrenceRule};
use crate::request::RecurrenceParam;
use crate::text::{contains_text, parts_are_held, push_signed, signed_decimal};
use crate::words::{bad_frequency, frequency_is_named_by_its_word, frequency_named, frequency_text, parse_frequency};
use vstd::prelude::*;
use vstd::string::*;

verus! {

/// Two optional lists are both absent, or hold the same elements in the same
/// order.
pub open spec fn same_list<T>(a: Option<Vec<T>>, b: Option<Vec<T>>) -> bool {
    match (a, b) {
        (None, None) => true,
        (Some(x), Some(y)) => x@ == y@,
        _ => false,
    }
}

/// Copies an optional list of numbers.
pub fn copy_list(list: &Option<Vec<i32>>) -> (copy: Option<Vec<i32>>)
    ensures
        same_list(copy, *list),
{
    list.clone()
}

/// Copies an optional list of small numbers.
pub fn copy_bytes(list: &Option<Vec<u8>>) -> (copy: Option<Vec<u8>>)
    ensures
        same_list(copy, *list),
{
    list.clone()
}

// ---------------------------------------------------------------------------
// Ranges
// ---------------------------------------------------------------------------

/// A value counts from the start or, if negative, from the end; zero counts
/// nothing.
pub open spec fn fits(v: i32, low: int, high: int) -> bool {
    low <= v <= high && v != 0
}

/// Every value of a list fits; an absent list holds none.
pub open spec fn all_fit(vals: Option<Vec<i32>>, low: int, high: int) -> bool {
    match vals {
        Some(vs) => forall|k: int| 0 <= k < vs@.len() ==> fits(#[trigger] vs@[k], low, high),
        None => true,
    }
}

/// The value at `k` is the first that does not fit.
pub open spec fn first_misfit(vs: Seq<i32>, low: int, high: int, k: int) -> bool {
    &&& 0 <= k < vs.len()
    &&& !fits(vs[k], low, high)
    &&& forall|j: int| 0 <= j < k ==> fits(#[trigger] vs[j], low, high)
}

/// What is said of a value that does not fit.
pub open spec fn misfit_text(name: Seq<char>, v: i32) -> Seq<char> {
    name + ": value "@ + signed_decimal(v as int) + " out of range"@
}

/// `message` names the first value of a list that does not fit.
pub open spec fn misfit_reported(
    name: Seq<char>,
    vals: Option<Vec<i32>>,
    low: int,
    high: int,
    message: Seq<char>,
) -> bool {
    &&& vals is Some
    &&& exists|k: int| #[trigger]
        first_misfit(vals->0@, low, high, k) && message == misfit_text(name, vals->0@[k])
}

/// Holds a list against a range.
pub fn check_range(name: &str, vals: &Option<Vec<i32>>, low: i32, high: i32) -> (r: Result<
    (),
    String,
>)
    ensures
        r is Ok <==> all_fit(*vals, low as int, high as int),
        r matches Err(m) ==> misfit_reported(name@, *vals, low as int, high as int, m@),
{
    match vals {
        None => Ok(()),
        Some(vs) => {
            let mut i: usize = 0;
            while i < vs.len()
                invariant
                    i <= vs@.len(),
                    vals == &Some(*vs),
                    forall|j: int|
                        0 <= j < i ==> fits(#[trigger] vs@[j], low as int, high as int),
                decreases vs@.len() - i,
            {
                let v: i32 = vs[i];
                if !(low <= v && v <= high && v != 0) {
                    let mut m: String = name.to_owned();
                    m.append(": value ");
                    push_signed(&mut m, v);
                    m.append(" out of range");
                    assert(first_misfit(vals->0@, low as int, high as int, i as int));
                    return Err(m);
                }
                i = i + 1;
            }
            Ok(())
        },
    }
}

// ---------------------------------------------------------------------------
// Rules
// ---------------------------------------------------------------------------

/// What may come of the end of a recurrence: a count goes before a date, and
/// without either it never ends.
pub open spec fn end_outcome(
    params: RecurrenceParam,
    end: Result<RecurrenceEndCondition, String>,
) -> bool {
    match (params.end_after_count, params.end_date) {
        (Some(count), _) => end == Ok::<RecurrenceEndCondition, String>(
            RecurrenceEndCondition::AfterCount(count),
        ),
        (None, Some(date)) => exists|o: Result<LocalDateTime, String>| #[trigger]
            datetime_outcome(date@, o) && end == (match o {
                Ok(p) => Ok(RecurrenceEndCondition::OnDate(p)),
                Err(m) => Err(m),
            }),
        (None, None) => end == Ok::<RecurrenceEndCondition, String>(RecurrenceEndCondition::Never),
    }
}

/// `rule` is the rule that a request describes.
pub open spec fn is_rule(
    params: RecurrenceParam,
    frequency: RecurrenceFrequency,
    end: RecurrenceEndCondition,
    rule: RecurrenceRule,
) -> bool {
    &&& rule.frequency == frequency
    &&& rule.interval == params.interval
    &&& rule.end == end
    &&& same_list(rule.days_of_week, params.days_of_week)
    &&& same_list(rule.days_of_month, params.days_of_month)
    &&& same_list(rule.months_of_year, params.months_of_year)
    &&& same_list(rule.weeks_of_year, params.weeks_of_year)
    &&& same_list(rule.days_of_year, params.days_of_year)
    &&& same_list(rule.set_positions, params.set_positions)
}

/// What comes of a request, given what came of its end. The first thing that
/// is wrong decides the error.
pub open spec fn rule_outcome(
    params: RecurrenceParam,
    end: Result<RecurrenceEndCondition, String>,
    r: Result<RecurrenceRule, String>,
) -> bool {
    match (frequency_named(params.frequency@), end) {
        (None, _) => r is Err && r->Err_0@ == bad_frequency(params.frequency@),
        (Some(_), Err(m)) => r is Err && r->Err_0 == m,
        (Some(f), Ok(e)) => if !all_fit(params.days_of_month, -31, 31) {
            r is Err && misfit_reported(
                "days_of_month"@,
                params.days_of_month,
                -31,
                31,
                r->Err_0@,
            )
        } else if !all_fit(params.months_of_year, 1, 12) {
            r is Err && misfit_reported(
                "months_of_year"@,
                params.months_of_year,
                1,
                12,
                r->Err_0@,
            )
        } else if !all_fit(params.weeks_of_year, -53, 53) {
            r is Err && misfit_reported(
                "weeks_of_year"@,
                params.weeks_of_year,
                -53,
                53,
                r->Err_0@,
            )
        } else if !all_fit(params.days_of_year, -366, 366) {
            r is Err && misfit_reported(
                "days_of_year"@,
                params.days_of_year,
                -366,
                366,
                r->Err_0@,
            )
        } else if !all_fit(params.set_positions, -366, 366) {
            r is Err && misfit_reported(
                "set_positions"@,
                params.set_positions,
                -366,
                366,
                r->Err_0@,
            )
        } else {
            r is Ok && is_rule(params, f, e, r->Ok_0)
        },
    }
}

/// What may come of a request.
pub open spec fn recurrence_outcome(
    params: RecurrenceParam,
    r: Result<RecurrenceRule, String>,
) -> bool {
    exists|end: Result<RecurrenceEndCondition, String>| #[trigger]
        end_outcome(params, end) && rule_outcome(params, end, r)
}

/// Reads the end of a recurrence.
pub fn end_condition(params: &RecurrenceParam) -> (end: Result<RecurrenceEndCondition, String>)
    ensures
        end_outcome(*params, end),
{
    match params.end_after_count {
        Some(count) => Ok(RecurrenceEndCondition::AfterCount(count)),
        None => match &params.end_date {
            Some(date) => match parse_datetime(date.as_str()) {
                Ok(p) => {
                    let ghost o: Result<LocalDateTime, String> = Ok(p);
                    assert(datetime_outcome(date@, o));
                    Ok(RecurrenceEndCondition::OnDate(p))
                },
                Err(m) => {
                    let ghost o: Result<LocalDateTime, String> = Err(m);
                    assert(datetime_outcome(date@, o));
                    Err(m)
                },
            },
            None => Ok(RecurrenceEndCondition::Never),
        },
    }
}

/// Puts a rule together, given what came of its end.
pub fn rule_from(
    params: &RecurrenceParam,
    end: Result<RecurrenceEndCondition, String>,
) -> (r: Result<RecurrenceRule, String>)
    ensures
        rule_outcome(*params, end, r),
{
    let frequency: RecurrenceFrequency = match parse_frequency(params.frequency.as_str()) {
        Ok(f) => f,
        Err(m) => return Err(m),
    };
    let end: RecurrenceEndCondition = match end {
        Ok(e) => e,
        Err(m) => return Err(m),
    };
    if let Err(m) = check_range("days_of_month", &params.days_of_month, -31, 31) {
        return Err(m);
    }
    if let Err(m) = check_range("months_of_year", &params.months_of_year, 1, 12) {
        return Err(m);
    }
    if let Err(m) = check_range("weeks_of_year", &params.weeks_of_year, -53, 53) {
        return Err(m);
    }
    if let Err(m) = check_range("days_of_year", &params.days_of_year, -366, 366) {
        return Err(m);
    }
    if let Err(m) = check_range("set_positions", &params.set_positions, -366, 366) {
        return Err(m);
    }
    Ok(
        RecurrenceRule {
            frequency,
            interval: params.interval,
            end,
            days_of_week: copy_bytes(&params.days_of_week),
            days_of_month: copy_list(&params.days_of_month),
            months_of_year: copy_list(&params.months_of_year),
            weeks_of_year: copy_list(&params.weeks_of_year),
            days_of_year: copy_list(&params.days_of_year),
            set_positions: copy_list(&params.set_positions),
        },
    )
}

/// Reads a recurrence rule.
pub fn parse_recurrence_param(params: &RecurrenceParam) -> (r: Result<RecurrenceRule, String>)
    ensures
        recurrence_outcome(*params, r),
{
    let end: Result<RecurrenceEndCondition, String> = end_condition(params);
    assert(end_outcome(*params, end));
    rule_from(params, end)
}

/// Every value of a rule lies in the range that the event store takes.
pub open spec fn rule_in_range(rule: RecurrenceRule) -> bool {
    &&& all_fit(rule.days_of_month, -31, 31)
    &&& all_fit(rule.months_of_year, 1, 12)
    &&& all_fit(rule.weeks_of_year, -53, 53)
    &&& all_fit(rule.days_of_year, -366, 366)
    &&& all_fit(rule.set_positions, -366, 366)
}

/// Every value of a request lies in the range that the event store takes.
pub open spec fn params_in_range(params: RecurrenceParam) -> bool {
    &&& all_fit(params.days_of_month, -31, 31)
    &&& all_fit(params.months_of_year, 1, 12)
    &&& all_fit(params.weeks_of_year, -53, 53)
    &&& all_fit(params.days_of_year, -366, 366)
    &&& all_fit(params.set_positions, -366, 366)
}

/// A request is accepted exactly when it names a frequency, its end can be
/// read and all its values are in range.
pub proof fn recurrence_accepted_iff(
    params: RecurrenceParam,
    end: Result<RecurrenceEndCondition, String>,
    r: Result<RecurrenceRule, String>,
)
    requires
        rule_outcome(params, end, r),
    ensures
        r is Ok <==> frequency_named(params.frequency@) is Some && end is Ok && params_in_range(
            params,
        ),
{
}

/// No rule with a value out of range reaches the event store.
pub proof fn accepted_rules_are_in_range(
    params: RecurrenceParam,
    r: Result<RecurrenceRule, String>,
)
    requires
        recurrence_outcome(params, r),
    ensures
        r matches Ok(rule) ==> rule_in_range(rule),
{
}

// ---------------------------------------------------------------------------
// What a request asks for is what is set
// ---------------------------------------------------------------------------

/// What an optional list holds.
pub open spec fn held<T>(list: Option<Vec<T>>) -> Option<Seq<T>> {
    match list {
        Some(l) => Some(l@),
        None => None,
    }
}

/// Some value of a list is zero or lies beyond the limits.
pub open spec fn strays(list: Option<Vec<i32>>, low: int, high: int) -> bool {
    list is Some && exists|k: int|
        0 <= k < list->0@.len() && {
            let v = #[trigger] list->0@[k];
            v < low || high < v || v == 0
        }
}

/// The end that a request describes: after a count, else on a date, else
/// never.
pub open spec fn end_is_as_supplied(params: RecurrenceParam, end: RecurrenceEndCondition) -> bool {
    match end {
        RecurrenceEndCondition::AfterCount(n) => params.end_after_count == Some(n),
        RecurrenceEndCondition::OnDate(p) => params.end_after_count is None && params.end_date is Some
            && stands_for(params.end_date->0@, p),
        RecurrenceEndCondition::Never => params.end_after_count is None && params.end_date is None,
    }
}

/// The rule has the frequency, the interval, the lists and the end that a
/// request supplies.
pub open spec fn rule_is_as_supplied(params: RecurrenceParam, rule: RecurrenceRule) -> bool {
    &&& frequency_text(rule.frequency) == params.frequency@
    &&& rule.interval == params.interval
    &&& held(rule.days_of_week) == held(params.days_of_week)
    &&& held(rule.days_of_month) == held(params.days_of_month)
    &&& held(rule.months_of_year) == held(params.months_of_year)
    &&& held(rule.weeks_of_year) == held(params.weeks_of_year)
    &&& held(rule.days_of_year) == held(params.days_of_year)
    &&& held(rule.set_positions) == held(params.set_positions)
    &&& end_is_as_supplied(params, rule.end)
}

/// Some value of a request is out of range.
pub open spec fn has_stray_value(params: RecurrenceParam) -> bool {
    ||| strays(params.days_of_month, -31, 31)
    ||| strays(params.months_of_year, 1, 12)
    ||| strays(params.weeks_of_year, -53, 53)
    ||| strays(params.days_of_year, -366, 366)
    ||| strays(params.set_positions, -366, 366)
}

/// A request describes no rule: its frequency is no frequency, one of its
/// values is out of range, or the date on which it ends means no point.
pub open spec fn cannot_recur(params: RecurrenceParam) -> bool {
    ||| forall|f: RecurrenceFrequency| #[trigger] frequency_text(f) != params.frequency@
    ||| has_stray_value(params)
    ||| params.end_after_count is None && params.end_date is Some && has_no_point(
        params.end_date->0@,
    )
}

proof fn lemma_strays(list: Option<Vec<i32>>, low: int, high: int)
    ensures
        strays(list, low, high) <==> !all_fit(list, low, high),
{
}

/// A rule has what the request supplies and no value out of range, and it is
/// refused only where the request describes none.
pub proof fn recurrence_is_as_supplied(params: RecurrenceParam, r: Result<RecurrenceRule, String>)
    requires
        recurrence_outcome(params, r),
    ensures
        r matches Ok(rule) ==> rule_is_as_supplied(params, rule) && !has_stray_value(params),
        r is Err ==> cannot_recur(params),
{
    lemma_strays(params.days_of_month, -31, 31);
    lemma_strays(params.months_of_year, 1, 12);
    lemma_strays(params.weeks_of_year, -53, 53);
    lemma_strays(params.days_of_year, -366, 366);
    lemma_strays(params.set_positions, -366, 366);
    frequency_is_named_by_its_word(params.frequency@);
    let end = choose|end: Result<RecurrenceEndCondition, String>| #[trigger]
        end_outcome(params, end) && rule_outcome(params, end, r);
    if params.end_after_count is None && params.end_date is Some {
        let date = params.end_date->0@;
        let o = choose|o: Result<LocalDateTime, String>| #[trigger]
            datetime_outcome(date, o) && end == (match o {
                Ok(p) => Ok(RecurrenceEndCondition::OnDate(p)),
                Err(m) => Err(m),
            });
        dates_are_read_where_the_clock_shows_them(date, o);
    }
}

/// What is said of a value that does not fit names the list and the value.
pub proof fn misfits_are_named(name: Seq<char>, v: i32)
    ensures
        contains_text(misfit_text(name, v), name),
        contains_text(misfit_text(name, v), signed_decimal(v as int)),
{
    parts_are_held(Seq::empty(), name, ": value "@ + signed_decimal(v as int) + " out of range"@);
    assert(Seq::<char>::empty() + name + (": value "@ + signed_decimal(v as int)
        + " out of range"@) =~= misfit_text(name, v));
    parts_are_held(name + ": value "@, signed_decimal(v as int), " out of range"@);
}

} // verus!
