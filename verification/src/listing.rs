//! The tools that list reminders and events, and the search over both.

use crate::clock::{clock_showed, days_after, in_range, read_clock, zone_offset, LocalDateTime, SECS_PER_DAY};
use crate::dates::{bad_date, date_given, given_date, opt_outcome, read_opt, sets_date, supplied_dates_are_set, Reading};
use crate::error::{mcp_err, reports, McpError};
use crate::model::{EventItem, ReminderItem, StoreError};
use crate::output::{date_text, event_summaries, event_summary, reminder_summaries, reminder_summary, show_events, show_reminders, EventOutput, ListResponse, ReminderOutput, SearchResponse};
use crate::request::{ItemType, ListEventsRequest, ListRemindersRequest, SearchRequest};
use crate::server::EventKitServer;
use crate::text::{contains_text, has_text, is_text, lowercase, occurs_at, opt_view, to_lowercase};
use crate::words::priority_text;
use vstd::prelude::*;

verus! {

// ---------------------------------------------------------------------------
// Keeping some of many
// ---------------------------------------------------------------------------

/// The items that pass a test, in their order.
pub(crate) fn keep<T, F: Fn(&T) -> bool>(
    items: Vec<T>,
    passes: F,
    Ghost(pred): Ghost<spec_fn(T) -> bool>,
) -> (kept: Vec<T>)
    requires
        forall|x: &T| call_requires(passes, (x,)),
        forall|x: &T, b: bool| call_ensures(passes, (x,), b) ==> b == pred(*x),
    ensures
        kept@ == items@.filter(pred),
{
    let mut kept: Vec<T> = Vec::new();
    proof {
        reveal(Seq::filter);
        assert(items@.take(0).filter(pred) =~= Seq::<T>::empty());
    }
    for item in it: items.into_iter()
        invariant
            it.seq() == items@,
            forall|x: &T| call_requires(passes, (x,)),
            forall|x: &T, b: bool| call_ensures(passes, (x,), b) ==> b == pred(*x),
            kept@ == items@.take(it.index() as int).filter(pred),
    {
        let ghost i = it.index() as int;
        proof {
            reveal(Seq::filter);
            assert(items@.take(i + 1).drop_last() =~= items@.take(i));
            assert(items@.take(i + 1).last() == item);
        }
        if passes(&item) {
            kept.push(item);
        }
    }
    assert(items@.take(items@.len() as int) =~= items@);
    kept
}

// ---------------------------------------------------------------------------
// Reminders
// ---------------------------------------------------------------------------

/// What the store is asked for. Without lists, in every list.
#[derive(PartialEq, Eq, Debug)]
pub enum ReminderQuery {
    /// Completed reminders by their completion date.
    Completed {
        after: Option<LocalDateTime>,
        before: Option<LocalDateTime>,
        lists: Option<Vec<String>>,
    },
    /// Incomplete reminders by their due date.
    Incomplete {
        after: Option<LocalDateTime>,
        before: Option<LocalDateTime>,
        lists: Option<Vec<String>>,
    },
    /// Reminders, completed or not.
    Every { lists: Option<Vec<String>> },
}

/// The dates between which reminders are wanted.
#[derive(Clone, Copy, PartialEq, Eq, Structural, Debug)]
pub struct DateFilters {
    pub due_after: Option<LocalDateTime>,
    pub due_before: Option<LocalDateTime>,
    pub completed_after: Option<LocalDateTime>,
    pub completed_before: Option<LocalDateTime>,
}

/// What to ask for: a completion date goes before a due date, and only without
/// either does it matter whether completed reminders are wanted too.
pub open spec fn query_for(
    filters: DateFilters,
    completed_too: bool,
    lists: Option<Vec<String>>,
) -> ReminderQuery {
    if filters.completed_after is Some || filters.completed_before is Some {
        ReminderQuery::Completed {
            after: filters.completed_after,
            before: filters.completed_before,
            lists,
        }
    } else if filters.due_after is Some || filters.due_before is Some {
        ReminderQuery::Incomplete {
            after: filters.due_after,
            before: filters.due_before,
            lists,
        }
    } else if completed_too {
        ReminderQuery::Every { lists }
    } else {
        ReminderQuery::Incomplete { after: None, before: None, lists }
    }
}

/// What to ask for.
pub fn choose_query(
    filters: DateFilters,
    completed_too: bool,
    lists: Option<Vec<String>>,
) -> (query: ReminderQuery)
    ensures
        query == query_for(filters, completed_too, lists),
{
    if filters.completed_after.is_some() || filters.completed_before.is_some() {
        ReminderQuery::Completed {
            after: filters.completed_after,
            before: filters.completed_before,
            lists,
        }
    } else if filters.due_after.is_some() || filters.due_before.is_some() {
        ReminderQuery::Incomplete {
            after: filters.due_after,
            before: filters.due_before,
            lists,
        }
    } else if completed_too {
        ReminderQuery::Every { lists }
    } else {
        ReminderQuery::Incomplete { after: None, before: None, lists }
    }
}

/// With a filter on the completion date only completed reminders are asked
/// for, whether or not completed ones are wanted otherwise.
pub proof fn completion_filter_means_completed_only(
    filters: DateFilters,
    completed_too: bool,
    lists: Option<Vec<String>>,
)
    ensures
        query_for(filters, completed_too, lists) is Completed <==> filters.completed_after is Some
            || filters.completed_before is Some,
        filters.completed_after is Some || filters.completed_before is Some ==> query_for(
            filters,
            completed_too,
            lists,
        ) == query_for(filters, !completed_too, lists),
{
}

/// With a filter on the due date alone only incomplete reminders are asked
/// for.
pub proof fn due_filter_means_incomplete_only(
    filters: DateFilters,
    completed_too: bool,
    lists: Option<Vec<String>>,
)
    requires
        filters.completed_after is None,
        filters.completed_before is None,
        filters.due_after is Some || filters.due_before is Some,
    ensures
        query_for(filters, completed_too, lists) == (ReminderQuery::Incomplete {
            after: filters.due_after,
            before: filters.due_before,
            lists,
        }),
{
}

/// `lists` holds the one name, if there is one.
pub open spec fn one_list(name: Option<String>, lists: Option<Vec<String>>) -> bool {
    match (name, lists) {
        (None, None) => true,
        (Some(n), Some(l)) => l@ == seq![n],
        _ => false,
    }
}

fn to_list(name: Option<String>) -> (lists: Option<Vec<String>>)
    ensures
        one_list(name, lists),
{
    match name {
        Some(n) => {
            let mut l: Vec<String> = Vec::new();
            l.push(n);
            assert(l@ =~= seq![n]);
            Some(l)
        },
        None => None,
    }
}

/// The four dates of a request, or the error of the first that could not be
/// read.
pub open spec fn filters_given(
    due_after: Result<Option<LocalDateTime>, McpError>,
    due_before: Result<Option<LocalDateTime>, McpError>,
    completed_after: Result<Option<LocalDateTime>, McpError>,
    completed_before: Result<Option<LocalDateTime>, McpError>,
) -> Result<DateFilters, McpError> {
    match (due_after, due_before, completed_after, completed_before) {
        (Err(e), _, _, _) => Err(e),
        (Ok(_), Err(e), _, _) => Err(e),
        (Ok(_), Ok(_), Err(e), _) => Err(e),
        (Ok(_), Ok(_), Ok(_), Err(e)) => Err(e),
        (Ok(da), Ok(db), Ok(ca), Ok(cb)) => Ok(
            DateFilters { due_after: da, due_before: db, completed_after: ca, completed_before: cb },
        ),
    }
}

/// The four dates of a request, or the error of the first that could not be
/// read.
pub fn collect_filters(
    due_after: Result<Option<LocalDateTime>, McpError>,
    due_before: Result<Option<LocalDateTime>, McpError>,
    completed_after: Result<Option<LocalDateTime>, McpError>,
    completed_before: Result<Option<LocalDateTime>, McpError>,
) -> (r: Result<DateFilters, McpError>)
    ensures
        r == filters_given(due_after, due_before, completed_after, completed_before),
{
    match (due_after, due_before, completed_after, completed_before) {
        (Err(e), _, _, _) => Err(e),
        (Ok(_), Err(e), _, _) => Err(e),
        (Ok(_), Ok(_), Err(e), _) => Err(e),
        (Ok(_), Ok(_), Ok(_), Err(e)) => Err(e),
        (Ok(da), Ok(db), Ok(ca), Ok(cb)) => Ok(
            DateFilters { due_after: da, due_before: db, completed_after: ca, completed_before: cb },
        ),
    }
}

/// What a request asks of the store, given what came of its dates.
pub open spec fn reminders_asked(
    params: ListRemindersRequest,
    filters: Result<DateFilters, McpError>,
    r: Result<ReminderQuery, McpError>,
) -> bool {
    match filters {
        Err(e) => r == Err::<ReminderQuery, McpError>(e),
        Ok(f) => exists|lists: Option<Vec<String>>| #[trigger]
            one_list(params.list_name, lists) && r == Ok::<ReminderQuery, McpError>(
                query_for(f, params.show_completed, lists),
            ),
    }
}

/// What a request may ask of the store.
pub open spec fn reminders_outcome(
    params: ListRemindersRequest,
    r: Result<ReminderQuery, McpError>,
) -> bool {
    exists|
        da_read: Option<Result<LocalDateTime, String>>,
        db_read: Option<Result<LocalDateTime, String>>,
        ca_read: Option<Result<LocalDateTime, String>>,
        cb_read: Option<Result<LocalDateTime, String>>,
        da: Result<Option<LocalDateTime>, McpError>,
        db: Result<Option<LocalDateTime>, McpError>,
        ca: Result<Option<LocalDateTime>, McpError>,
        cb: Result<Option<LocalDateTime>, McpError>,
    |
        {
            &&& opt_outcome(Reading::Moment, params.due_after, da_read)
            &&& opt_outcome(Reading::Moment, params.due_before, db_read)
            &&& opt_outcome(Reading::Moment, params.completed_after, ca_read)
            &&& opt_outcome(Reading::Moment, params.completed_before, cb_read)
            &&& #[trigger] date_given("Error parsing due_after: "@, da_read, da)
            &&& #[trigger] date_given("Error parsing due_before: "@, db_read, db)
            &&& #[trigger] date_given("Error parsing completed_after: "@, ca_read, ca)
            &&& #[trigger] date_given("Error parsing completed_before: "@, cb_read, cb)
            &&& reminders_asked(params, filters_given(da, db, ca, cb), r)
        }
}

/// What a request asks of the store, given what came of its dates.
pub fn ask_reminders(params: ListRemindersRequest, filters: Result<DateFilters, McpError>) -> (r:
    Result<ReminderQuery, McpError>)
    ensures
        reminders_asked(params, filters, r),
{
    let f: DateFilters = match filters {
        Ok(f) => f,
        Err(e) => return Err(e),
    };
    let lists: Option<Vec<String>> = to_list(params.list_name);
    assert(one_list(params.list_name, lists));
    Ok(choose_query(f, params.show_completed, lists))
}

/// An answer that lists reminders.
pub open spec fn lists_reminders(
    items: Seq<ReminderItem>,
    response: ListResponse<ReminderOutput>,
) -> bool {
    reminder_summaries(items, response.items@) && response.count == items.len()
}

/// An answer that lists events.
pub open spec fn lists_events(
    items: Seq<EventItem>,
    response: ListResponse<EventOutput>,
) -> bool {
    event_summaries(items, response.items@) && response.count == items.len()
}

fn reminder_list(items: &Vec<ReminderItem>) -> (response: ListResponse<ReminderOutput>)
    ensures
        lists_reminders(items@, response),
{
    let shown: Vec<ReminderOutput> = show_reminders(items);
    ListResponse { count: shown.len(), items: shown }
}

fn event_list(items: &Vec<EventItem>) -> (response: ListResponse<EventOutput>)
    ensures
        lists_events(items@, response),
{
    let shown: Vec<EventOutput> = show_events(items);
    ListResponse { count: shown.len(), items: shown }
}

// ---------------------------------------------------------------------------
// Events
// ---------------------------------------------------------------------------

/// What the store is asked for.
#[derive(PartialEq, Eq, Debug)]
pub enum EventQuery {
    /// Today's events.
    Today,
    /// Events between two points; with calendars, only in these.
    Window { start: LocalDateTime, end: LocalDateTime, calendars: Option<Vec<String>> },
    /// Events of the next days, counted by the store.
    Upcoming(i64),
}

/// The window that starts now and lasts so many days; there is none where it
/// leads beyond the range of the clock.
pub open spec fn window_from(
    start: LocalDateTime,
    days: i64,
    calendars: Option<Vec<String>>,
    query: Option<EventQuery>,
) -> bool {
    if in_range(start.unix_secs() + days * SECS_PER_DAY) {
        &&& query is Some
        &&& query->0 is Window
        &&& query->0->start == start
        &&& days_after(start, days, query->0->end)
        &&& query->0->calendars == calendars
    } else {
        query is None
    }
}

/// The window that starts at a point and lasts so many days.
pub fn event_window(
    start: LocalDateTime,
    days: i64,
    calendars: Option<Vec<String>>,
) -> (query: Option<EventQuery>)
    ensures
        window_from(start, days, calendars, query),
{
    match start.plus_days(days) {
        Some(end) => Some(EventQuery::Window { start, end, calendars }),
        None => None,
    }
}

/// A window that starts when it is asked for: at the point that the machine's
/// clock showed.
pub open spec fn window_asked(
    days: i64,
    calendars: Option<Vec<String>>,
    query: Option<EventQuery>,
) -> bool {
    exists|start: LocalDateTime|
        {
            &&& clock_showed(start)
            &&& in_range(start.unix_secs() as int)
            &&& #[trigger] window_from(start, days, calendars, query)
        }
}

/// A window that starts when it is asked for.
pub(crate) fn window_now(days: i64, calendars: Option<Vec<String>>) -> (query: Option<EventQuery>)
    ensures
        window_asked(days, calendars, query),
{
    let start: LocalDateTime = read_clock();
    let query: Option<EventQuery> = event_window(start, days, calendars);
    assert(window_from(start, days, calendars, query));
    query
}

/// The event is in a calendar, or it does not matter in which.
pub open spec fn in_calendar(e: EventItem, calendar_id: Option<String>) -> bool {
    match calendar_id {
        Some(id) => opt_view(e.calendar_id) == Some(id@),
        None => true,
    }
}

fn keep_in_calendar(items: Vec<EventItem>, calendar_id: &Option<String>) -> (kept: Vec<EventItem>)
    ensures
        kept@ == items@.filter(|e: EventItem| in_calendar(e, *calendar_id)),
{
    let passes = |e: &EventItem| -> (b: bool)
        ensures
            b == in_calendar(*e, *calendar_id),
        {
            match calendar_id {
                Some(id) => is_text(&e.calendar_id, id.as_str()),
                None => true,
            }
        };
    keep(items, passes, Ghost(|e: EventItem| in_calendar(e, *calendar_id)))
}

// ---------------------------------------------------------------------------
// Search
// ---------------------------------------------------------------------------

/// A title or notes hold the text that is looked for, whatever the case.
pub open spec fn matches_query(
    title: Seq<char>,
    notes: Option<Seq<char>>,
    query: Seq<char>,
) -> bool {
    ||| contains_text(lowercase(title), lowercase(query))
    ||| notes is Some && contains_text(lowercase(notes->0), lowercase(query))
}

/// Whether a title or notes hold the text that is looked for, all in lower
/// case.
pub fn holds_query(title: &str, notes: &Option<String>, query: &str) -> (found: bool)
    ensures
        found == (contains_text(title@, query@) || notes is Some && contains_text(
            notes->0@,
            query@,
        )),
{
    if has_text(title, query) {
        return true;
    }
    match notes {
        Some(n) => has_text(n.as_str(), query),
        None => false,
    }
}

fn is_match(title: &String, notes: &Option<String>, query: &String) -> (found: bool)
    ensures
        found == (contains_text(lowercase(title@), query@) || (opt_view(*notes) is Some
            && contains_text(lowercase(opt_view(*notes)->0), query@))),
{
    let lower: Option<String> = match notes {
        Some(n) => Some(to_lowercase(n.as_str())),
        None => None,
    };
    holds_query(to_lowercase(title.as_str()).as_str(), &lower, query.as_str())
}

/// The case of the query, of a title and of notes makes no difference.
pub proof fn search_ignores_case(
    title: Seq<char>,
    other_title: Seq<char>,
    notes: Option<Seq<char>>,
    other_notes: Option<Seq<char>>,
    query: Seq<char>,
    other_query: Seq<char>,
)
    requires
        lowercase(title) == lowercase(other_title),
        notes is Some <==> other_notes is Some,
        notes is Some ==> lowercase(notes->0) == lowercase(other_notes->0),
        lowercase(query) == lowercase(other_query),
    ensures
        matches_query(title, notes, query) == matches_query(
            other_title,
            other_notes,
            other_query,
        ),
{
}

/// The reminder matches a query.
pub open spec fn reminder_matches(r: ReminderItem, query: Seq<char>) -> bool {
    matches_query(r.title@, opt_view(r.notes), query)
}

/// The event matches a query.
pub open spec fn event_matches(e: EventItem, query: Seq<char>) -> bool {
    matches_query(e.title@, opt_view(e.notes), query)
}

fn keep_reminders(items: Vec<ReminderItem>, query: &str) -> (kept: Vec<ReminderItem>)
    ensures
        kept@ == items@.filter(|r: ReminderItem| reminder_matches(r, query@)),
{
    let lower: String = to_lowercase(query);
    let passes = |r: &ReminderItem| -> (b: bool)
        ensures
            b == reminder_matches(*r, query@),
        { is_match(&r.title, &r.notes, &lower) };
    keep(items, passes, Ghost(|r: ReminderItem| reminder_matches(r, query@)))
}

fn keep_events(items: Vec<EventItem>, query: &str) -> (kept: Vec<EventItem>)
    ensures
        kept@ == items@.filter(|e: EventItem| event_matches(e, query@)),
{
    let lower: String = to_lowercase(query);
    let passes = |e: &EventItem| -> (b: bool)
        ensures
            b == event_matches(*e, query@),
        { is_match(&e.title, &e.notes, &lower) };
    keep(items, passes, Ghost(|e: EventItem| event_matches(e, query@)))
}

/// Which reminders are searched.
#[derive(Clone, Copy, PartialEq, Eq, Structural, Debug)]
pub enum ReminderScope {
    All,
    Incomplete,
}

/// What a search asks of the store.
#[derive(PartialEq, Eq, Debug)]
pub struct SearchPlan {
    pub reminders: Option<ReminderScope>,
    pub events: Option<EventQuery>,
}

/// Reminders are searched, unless only events are wanted.
pub open spec fn reminders_searched(params: SearchRequest) -> Option<ReminderScope> {
    if params.item_type == Some(ItemType::Event) {
        None
    } else if params.include_completed {
        Some(ReminderScope::All)
    } else {
        Some(ReminderScope::Incomplete)
    }
}

/// What a search asks of the store, given the time. It asks for nothing where
/// its days lead beyond the range of the clock.
pub open spec fn search_from(
    params: SearchRequest,
    start: LocalDateTime,
    plan: Option<SearchPlan>,
) -> bool {
    if params.item_type == Some(ItemType::Reminder) {
        &&& plan is Some
        &&& plan->0.reminders == reminders_searched(params)
        &&& plan->0.events is None
    } else {
        match plan {
            Some(p) => {
                &&& p.reminders == reminders_searched(params)
                &&& p.events is Some
                &&& window_from(start, params.days, None, p.events)
            },
            None => window_from(start, params.days, None, None),
        }
    }
}

/// What a search asks of the store when it is asked: the time is the one that
/// the machine's clock showed.
pub open spec fn search_asked(params: SearchRequest, plan: Option<SearchPlan>) -> bool {
    exists|start: LocalDateTime|
        {
            &&& clock_showed(start)
            &&& in_range(start.unix_secs() as int)
            &&& #[trigger] search_from(params, start, plan)
        }
}

/// What a search asks of the store, given the time.
pub fn plan_search(params: &SearchRequest, start: LocalDateTime) -> (plan: Option<SearchPlan>)
    ensures
        search_from(*params, start, plan),
{
    let scope: ReminderScope = if params.include_completed {
        ReminderScope::All
    } else {
        ReminderScope::Incomplete
    };
    match params.item_type {
        Some(ItemType::Reminder) => Some(SearchPlan { reminders: Some(scope), events: None }),
        other => match event_window(start, params.days, None) {
            Some(window) => Some(
                SearchPlan {
                    reminders: match other {
                        Some(ItemType::Event) => None,
                        _ => Some(scope),
                    },
                    events: Some(window),
                },
            ),
            None => None,
        },
    }
}

/// The part of an answer about reminders: there is none where none were asked
/// for or they could not be read.
pub open spec fn reminders_found(
    query: Seq<char>,
    reply: Option<Result<Vec<ReminderItem>, StoreError>>,
    found: Option<ListResponse<ReminderOutput>>,
) -> bool {
    match reply {
        Some(Ok(items)) => found is Some && lists_reminders(
            items@.filter(|r: ReminderItem| reminder_matches(r, query)),
            found->0,
        ),
        _ => found is None,
    }
}

/// The part of an answer about events: there is none where none were asked for
/// or they could not be read.
pub open spec fn events_found(
    query: Seq<char>,
    reply: Option<Result<Vec<EventItem>, StoreError>>,
    found: Option<ListResponse<EventOutput>>,
) -> bool {
    match reply {
        Some(Ok(items)) => found is Some && lists_events(
            items@.filter(|e: EventItem| event_matches(e, query)),
            found->0,
        ),
        _ => found is None,
    }
}

// ---------------------------------------------------------------------------
// The tools
// ---------------------------------------------------------------------------

impl EventKitServer {
    /// Lists reminders: what to ask of the store.
    pub fn list_reminders(&self, params: ListRemindersRequest) -> (r: Result<
        ReminderQuery,
        McpError,
    >)
        ensures
            reminders_outcome(params, r),
    {
        let da_read: Option<Result<LocalDateTime, String>> = read_opt(
            Reading::Moment,
            &params.due_after,
        );
        let db_read: Option<Result<LocalDateTime, String>> = read_opt(
            Reading::Moment,
            &params.due_before,
        );
        let ca_read: Option<Result<LocalDateTime, String>> = read_opt(
            Reading::Moment,
            &params.completed_after,
        );
        let cb_read: Option<Result<LocalDateTime, String>> = read_opt(
            Reading::Moment,
            &params.completed_before,
        );
        let ghost reads = (da_read, db_read, ca_read, cb_read);
        let da: Result<Option<LocalDateTime>, McpError> = given_date(
            "Error parsing due_after: ",
            da_read,
        );
        let db: Result<Option<LocalDateTime>, McpError> = given_date(
            "Error parsing due_before: ",
            db_read,
        );
        let ca: Result<Option<LocalDateTime>, McpError> = given_date(
            "Error parsing completed_after: ",
            ca_read,
        );
        let cb: Result<Option<LocalDateTime>, McpError> = given_date(
            "Error parsing completed_before: ",
            cb_read,
        );
        let ghost given = (da, db, ca, cb);
        let r: Result<ReminderQuery, McpError> = ask_reminders(
            params,
            collect_filters(da, db, ca, cb),
        );
        assert(date_given("Error parsing due_after: "@, reads.0, given.0));
        assert(date_given("Error parsing due_before: "@, reads.1, given.1));
        assert(date_given("Error parsing completed_after: "@, reads.2, given.2));
        assert(date_given("Error parsing completed_before: "@, reads.3, given.3));
        r
    }

    /// Lists reminders: the answer.
    pub fn list_reminders_reply(&self, reply: Result<Vec<ReminderItem>, StoreError>) -> (r: Result<
        ListResponse<ReminderOutput>,
        McpError,
    >)
        ensures
            match reply {
                Ok(items) => r is Ok && lists_reminders(items@, r->Ok_0),
                Err(e) => r is Err && reports(r->Err_0, e),
            },
    {
        match reply {
            Ok(items) => Ok(reminder_list(&items)),
            Err(e) => Err(mcp_err(&e)),
        }
    }

    /// Lists events: what to ask of the store. One day means today; there is
    /// nothing to ask for where the days lead beyond the range of the clock.
    pub fn list_events(&self, params: &ListEventsRequest) -> (query: Option<EventQuery>)
        ensures
            params.days == 1 ==> query == Some(EventQuery::Today),
            params.days != 1 ==> window_asked(params.days, None, query),
    {
        if params.days == 1 {
            Some(EventQuery::Today)
        } else {
            window_now(params.days, None)
        }
    }

    /// Lists events: the answer.
    pub fn list_events_reply(
        &self,
        params: &ListEventsRequest,
        reply: Result<Vec<EventItem>, StoreError>,
    ) -> (r: Result<ListResponse<EventOutput>, McpError>)
        ensures
            match reply {
                Ok(items) => r is Ok && lists_events(
                    items@.filter(|e: EventItem| in_calendar(e, params.calendar_id)),
                    r->Ok_0,
                ),
                Err(e) => r is Err && reports(r->Err_0, e),
            },
    {
        match reply {
            Ok(items) => {
                let kept: Vec<EventItem> = keep_in_calendar(items, &params.calendar_id);
                Ok(event_list(&kept))
            },
            Err(e) => Err(mcp_err(&e)),
        }
    }

    /// Searches: what to ask of the store.
    pub fn search(&self, params: &SearchRequest) -> (plan: Option<SearchPlan>)
        ensures
            search_asked(*params, plan),
    {
        let start: LocalDateTime = read_clock();
        let plan: Option<SearchPlan> = plan_search(params, start);
        assert(search_from(*params, start, plan));
        plan
    }

    /// Searches: the answer.
    pub fn search_reply(
        &self,
        params: SearchRequest,
        reminders: Option<Result<Vec<ReminderItem>, StoreError>>,
        events: Option<Result<Vec<EventItem>, StoreError>>,
    ) -> (response: SearchResponse)
        ensures
            response.query == params.query,
            reminders_found(params.query@, reminders, response.reminders),
            events_found(params.query@, events, response.events),
    {
        let found_reminders: Option<ListResponse<ReminderOutput>> = match reminders {
            Some(Ok(items)) => {
                let kept: Vec<ReminderItem> = keep_reminders(items, params.query.as_str());
                Some(reminder_list(&kept))
            },
            _ => None,
        };
        let found_events: Option<ListResponse<EventOutput>> = match events {
            Some(Ok(items)) => {
                let kept: Vec<EventItem> = keep_events(items, params.query.as_str());
                Some(event_list(&kept))
            },
            _ => None,
        };
        SearchResponse { query: params.query, reminders: found_reminders, events: found_events }
    }
}

/// Where everything passes, everything is kept.
pub proof fn lemma_filter_all<T>(items: Seq<T>, pred: spec_fn(T) -> bool)
    requires
        forall|x: T| #[trigger] pred(x),
    ensures
        items.filter(pred) == items,
    decreases items.len(),
{
    reveal(Seq::filter);
    if items.len() > 0 {
        lemma_filter_all(items.drop_last(), pred);
        assert(pred(items.last()));
        assert(items.drop_last().push(items.last()) =~= items);
    }
}

/// What is kept passes and was there, and what was there and passes is kept.
pub proof fn what_passes_is_kept<T>(items: Seq<T>, pred: spec_fn(T) -> bool)
    ensures
        items.filter(pred).len() <= items.len(),
        forall|i: int|
            0 <= i < items.filter(pred).len() ==> pred(#[trigger] items.filter(pred)[i])
                && items.contains(items.filter(pred)[i]),
        forall|i: int|
            0 <= i < items.len() && pred(#[trigger] items[i]) ==> items.filter(pred).contains(
                items[i],
            ),
    decreases items.len(),
{
    reveal(Seq::filter);
    if items.len() > 0 {
        let rest = items.drop_last();
        what_passes_is_kept(rest, pred);
        let kept = items.filter(pred);
        let before = rest.filter(pred);
        assert forall|i: int| 0 <= i < kept.len() implies pred(#[trigger] kept[i])
            && items.contains(kept[i]) by {
            if i < before.len() {
                assert(kept[i] == before[i]);
                let k = choose|k: int| 0 <= k < rest.len() && rest[k] == before[i];
                assert(items[k] == kept[i]);
            } else {
                assert(items[items.len() - 1] == kept[i]);
            }
        }
        assert forall|i: int| 0 <= i < items.len() && pred(#[trigger] items[i]) implies kept.contains(
            items[i],
        ) by {
            if i < rest.len() {
                assert(rest[i] == items[i]);
                let k = choose|k: int| 0 <= k < before.len() && before[k] == rest[i];
                assert(kept[k] == items[i]);
            } else {
                assert(kept[kept.len() - 1] == items[i]);
            }
        }
    }
}

// ---------------------------------------------------------------------------
// What a request asks for is what is asked of the store
// ---------------------------------------------------------------------------

/// A window opens at the moment of the request, the one that the machine's
/// clock showed, and closes as many days of 24 hours later as are wanted. There
/// is none only where it leads beyond the range of the clock.
pub proof fn windows_open_now(
    days: i64,
    calendars: Option<Vec<String>>,
    query: Option<EventQuery>,
)
    requires
        window_asked(days, calendars, query),
    ensures
        query matches Some(q) ==> {
            &&& q is Window
            &&& clock_showed(q->start)
            &&& q->end.unix_secs() - q->start.unix_secs() == days * 86_400
            &&& q->end.sub_nanos() == q->start.sub_nanos()
            &&& zone_offset(q->end)
            &&& q->calendars == calendars
        },
        query is None ==> exists|now: LocalDateTime| #[trigger]
            clock_showed(now) && !in_range(now.unix_secs() + days * 86_400),
        days == 0 ==> query is Some,
{
    let start = choose|start: LocalDateTime|
        {
            &&& clock_showed(start)
            &&& in_range(start.unix_secs() as int)
            &&& #[trigger] window_from(start, days, calendars, query)
        };
    assert(clock_showed(start));
}

/// A search looks at reminders unless only events are wanted, and at events
/// unless only reminders are wanted. It looks at completed reminders only where
/// these are wanted, and at the events from now on for as many days as are
/// wanted.
pub proof fn searches_look_from_now_on(params: SearchRequest, plan: Option<SearchPlan>)
    requires
        search_asked(params, plan),
    ensures
        plan matches Some(p) ==> {
            &&& (p.reminders is Some <==> params.item_type != Some(ItemType::Event))
            &&& (p.reminders == Some(ReminderScope::All) <==> params.item_type != Some(
                ItemType::Event,
            ) && params.include_completed)
            &&& (p.events is Some <==> params.item_type != Some(ItemType::Reminder))
            &&& p.events matches Some(q) ==> {
                &&& q is Window
                &&& clock_showed(q->start)
                &&& q->end.unix_secs() - q->start.unix_secs() == params.days * 86_400
                &&& q->calendars is None
            }
        },
        plan is None ==> params.item_type != Some(ItemType::Reminder) && exists|
            now: LocalDateTime,
        | #[trigger]
            clock_showed(now) && !in_range(now.unix_secs() + params.days * 86_400),
        params.days == 0 || params.item_type == Some(ItemType::Reminder) ==> plan is Some,
{
    let start = choose|start: LocalDateTime|
        {
            &&& clock_showed(start)
            &&& in_range(start.unix_secs() as int)
            &&& #[trigger] search_from(params, start, plan)
        };
    assert(clock_showed(start));
}

/// The lists of a query are the one that is named, or every one.
pub open spec fn lists_are(name: Option<String>, lists: Option<Vec<String>>) -> bool {
    match (name, lists) {
        (None, None) => true,
        (Some(n), Some(l)) => l@.len() == 1 && l@[0] == n,
        _ => false,
    }
}

/// Reminders are asked for as the request wants them. With a completion date,
/// only completed ones between these dates; else with a due date, only
/// incomplete ones between these dates; else every one or the incomplete ones.
/// The request is refused only where one of its dates means no point.
pub proof fn reminders_are_asked_for_as_requested(
    params: ListRemindersRequest,
    r: Result<ReminderQuery, McpError>,
)
    requires
        reminders_outcome(params, r),
    ensures
        ({
            let by_completion = params.completed_after is Some || params.completed_before is Some;
            let by_due = params.due_after is Some || params.due_before is Some;
            &&& r is Err ==> bad_date(Reading::Moment, params.due_after) || bad_date(
                Reading::Moment,
                params.due_before,
            ) || bad_date(Reading::Moment, params.completed_after) || bad_date(
                Reading::Moment,
                params.completed_before,
            )
            &&& r matches Ok(query) ==> match query {
                ReminderQuery::Completed { after, before, lists } => {
                    &&& by_completion
                    &&& sets_date(Reading::Moment, params.completed_after, after)
                    &&& sets_date(Reading::Moment, params.completed_before, before)
                    &&& lists_are(params.list_name, lists)
                },
                ReminderQuery::Incomplete { after, before, lists } => {
                    &&& !by_completion
                    &&& sets_date(Reading::Moment, params.due_after, after)
                    &&& sets_date(Reading::Moment, params.due_before, before)
                    &&& by_due || !params.show_completed
                    &&& lists_are(params.list_name, lists)
                },
                ReminderQuery::Every { lists } => {
                    &&& !by_completion
                    &&& !by_due
                    &&& params.show_completed
                    &&& lists_are(params.list_name, lists)
                },
            }
        }),
{
    let (da_read, db_read, ca_read, cb_read, da, db, ca, cb) = choose|
        da_read: Option<Result<LocalDateTime, String>>,
        db_read: Option<Result<LocalDateTime, String>>,
        ca_read: Option<Result<LocalDateTime, String>>,
        cb_read: Option<Result<LocalDateTime, String>>,
        da: Result<Option<LocalDateTime>, McpError>,
        db: Result<Option<LocalDateTime>, McpError>,
        ca: Result<Option<LocalDateTime>, McpError>,
        cb: Result<Option<LocalDateTime>, McpError>,
    |
        {
            &&& opt_outcome(Reading::Moment, params.due_after, da_read)
            &&& opt_outcome(Reading::Moment, params.due_before, db_read)
            &&& opt_outcome(Reading::Moment, params.completed_after, ca_read)
            &&& opt_outcome(Reading::Moment, params.completed_before, cb_read)
            &&& #[trigger] date_given("Error parsing due_after: "@, da_read, da)
            &&& #[trigger] date_given("Error parsing due_before: "@, db_read, db)
            &&& #[trigger] date_given("Error parsing completed_after: "@, ca_read, ca)
            &&& #[trigger] date_given("Error parsing completed_before: "@, cb_read, cb)
            &&& reminders_asked(params, filters_given(da, db, ca, cb), r)
        };
    supplied_dates_are_set(
        Reading::Moment,
        "Error parsing due_after: "@,
        params.due_after,
        da_read,
        da,
    );
    supplied_dates_are_set(
        Reading::Moment,
        "Error parsing due_before: "@,
        params.due_before,
        db_read,
        db,
    );
    supplied_dates_are_set(
        Reading::Moment,
        "Error parsing completed_after: "@,
        params.completed_after,
        ca_read,
        ca,
    );
    supplied_dates_are_set(
        Reading::Moment,
        "Error parsing completed_before: "@,
        params.completed_before,
        cb_read,
        cb,
    );
}

// ---------------------------------------------------------------------------
// What the store gives is what is answered
// ---------------------------------------------------------------------------

/// A list of reminders tells every reminder and no other, in their order, each
/// under its identifier and with its own fields, and says how many there are.
pub proof fn every_reminder_is_answered(
    items: Seq<ReminderItem>,
    response: ListResponse<ReminderOutput>,
)
    requires
        lists_reminders(items, response),
    ensures
        response.items@.len() == items.len(),
        response.count == items.len(),
        forall|i: int|
            0 <= i < items.len() ==> {
                let o = #[trigger] response.items@[i];
                &&& o.id == items[i].identifier
                &&& o.title == items[i].title
                &&& o.completed == items[i].completed
                &&& o.notes == items[i].notes
                &&& o.list_name == items[i].calendar_title
                &&& o.list_id == items[i].calendar_id
                &&& o.priority@ == priority_text(items[i].priority)
                &&& o.due_date is Some <==> items[i].due_date is Some
                &&& o.start_date is Some <==> items[i].start_date is Some
                &&& o.completion_date is Some <==> items[i].completion_date is Some
            },
{
    assert forall|i: int| 0 <= i < items.len() implies reminder_summary(
        items[i],
        #[trigger] response.items@[i],
    ) by {}
}

/// A list of events tells every event and no other, in their order, each under
/// its identifier and with its own fields, and says how many there are.
pub proof fn every_event_is_answered(items: Seq<EventItem>, response: ListResponse<EventOutput>)
    requires
        lists_events(items, response),
    ensures
        response.items@.len() == items.len(),
        response.count == items.len(),
        forall|i: int|
            0 <= i < items.len() ==> {
                let o = #[trigger] response.items@[i];
                &&& o.id == items[i].identifier
                &&& o.title == items[i].title
                &&& o.all_day == items[i].all_day
                &&& o.notes == items[i].notes
                &&& o.location == items[i].location
                &&& o.calendar_name == items[i].calendar_title
                &&& o.calendar_id == items[i].calendar_id
                &&& o.start@ == date_text(items[i].start_date)
                &&& o.end@ == date_text(items[i].end_date)
            },
{
    assert forall|i: int| 0 <= i < items.len() implies event_summary(
        items[i],
        #[trigger] response.items@[i],
    ) by {}
}

/// With a calendar the events in it are answered and no others; without one,
/// all of them.
pub proof fn events_are_answered_by_calendar(items: Seq<EventItem>, calendar_id: Option<String>)
    ensures
        ({
            let kept = items.filter(|e: EventItem| in_calendar(e, calendar_id));
            &&& calendar_id is None ==> kept == items
            &&& calendar_id is Some ==> forall|i: int|
                0 <= i < kept.len() ==> (#[trigger] kept[i]).calendar_id is Some
                    && kept[i].calendar_id->0@ == calendar_id->0@ && items.contains(kept[i])
            &&& calendar_id is Some ==> forall|i: int|
                0 <= i < items.len() && (#[trigger] items[i]).calendar_id is Some
                    && items[i].calendar_id->0@ == calendar_id->0@ ==> kept.contains(items[i])
        }),
{
    let pred = |e: EventItem| in_calendar(e, calendar_id);
    what_passes_is_kept(items, pred);
    if calendar_id is None {
        lemma_filter_all(items, pred);
    } else {
        let kept = items.filter(pred);
        assert forall|i: int| 0 <= i < kept.len() implies (#[trigger] kept[i]).calendar_id is Some
            && kept[i].calendar_id->0@ == calendar_id->0@ && items.contains(kept[i]) by {
            assert(pred(kept[i]));
        }
        assert forall|i: int|
            0 <= i < items.len() && (#[trigger] items[i]).calendar_id is Some
                && items[i].calendar_id->0@ == calendar_id->0@ implies kept.contains(items[i]) by {
            assert(pred(items[i]));
        }
    }
}

/// A text is found in a title or in notes: where the title holds it, or where
/// there are notes that hold it, and in no other case.
pub open spec fn is_found(title: Seq<char>, notes: Option<String>, query: Seq<char>) -> bool {
    ||| exists|at: int| #[trigger] occurs_at(lowercase(title), lowercase(query), at)
    ||| notes is Some && exists|at: int| #[trigger]
        occurs_at(lowercase(notes->0@), lowercase(query), at)
}

/// A search answers with every reminder whose title or notes hold the text, and
/// with no other one.
pub proof fn search_finds_reminders_that_hold_the_text(
    query: Seq<char>,
    items: Vec<ReminderItem>,
    found: Option<ListResponse<ReminderOutput>>,
)
    requires
        reminders_found(query, Some(Ok(items)), found),
    ensures
        found is Some,
        found->0.count == found->0.items@.len(),
        forall|i: int|
            0 <= i < found->0.items@.len() ==> exists|k: int|
                0 <= k < items@.len() && is_found(
                    (#[trigger] items@[k]).title@,
                    items@[k].notes,
                    query,
                ) && (#[trigger] found->0.items@[i]).id == items@[k].identifier
                    && found->0.items@[i].title == items@[k].title,
        forall|k: int|
            0 <= k < items@.len() && is_found((#[trigger] items@[k]).title@, items@[k].notes, query)
                ==> exists|i: int|
                0 <= i < found->0.items@.len() && (#[trigger] found->0.items@[i]).id
                    == items@[k].identifier && found->0.items@[i].title == items@[k].title,
{
    let pred = |r: ReminderItem| reminder_matches(r, query);
    let kept = items@.filter(pred);
    what_passes_is_kept(items@, pred);
    every_reminder_is_answered(kept, found->0);
    assert forall|i: int| 0 <= i < found->0.items@.len() implies exists|k: int|
        0 <= k < items@.len() && is_found((#[trigger] items@[k]).title@, items@[k].notes, query) && (
        #[trigger] found->0.items@[i]).id == items@[k].identifier && found->0.items@[i].title
            == items@[k].title by {
        assert(pred(kept[i]));
        let k = choose|k: int| 0 <= k < items@.len() && items@[k] == kept[i];
        assert(is_found(items@[k].title@, items@[k].notes, query));
    }
    assert forall|k: int|
        0 <= k < items@.len() && is_found(
            (#[trigger] items@[k]).title@,
            items@[k].notes,
            query,
        ) implies exists|i: int|
        0 <= i < found->0.items@.len() && (#[trigger] found->0.items@[i]).id == items@[k].identifier
            && found->0.items@[i].title == items@[k].title by {
        assert(pred(items@[k]));
        let i = choose|i: int| 0 <= i < kept.len() && kept[i] == items@[k];
        assert(found->0.items@[i].id == items@[k].identifier);
    }
}

/// A search answers with every event whose title or notes hold the text, and
/// with no other one.
pub proof fn search_finds_events_that_hold_the_text(
    query: Seq<char>,
    items: Vec<EventItem>,
    found: Option<ListResponse<EventOutput>>,
)
    requires
        events_found(query, Some(Ok(items)), found),
    ensures
        found is Some,
        found->0.count == found->0.items@.len(),
        forall|i: int|
            0 <= i < found->0.items@.len() ==> exists|k: int|
                0 <= k < items@.len() && is_found(
                    (#[trigger] items@[k]).title@,
                    items@[k].notes,
                    query,
                ) && (#[trigger] found->0.items@[i]).id == items@[k].identifier
                    && found->0.items@[i].title == items@[k].title,
        forall|k: int|
            0 <= k < items@.len() && is_found((#[trigger] items@[k]).title@, items@[k].notes, query)
                ==> exists|i: int|
                0 <= i < found->0.items@.len() && (#[trigger] found->0.items@[i]).id
                    == items@[k].identifier && found->0.items@[i].title == items@[k].title,
{
    let pred = |e: EventItem| event_matches(e, query);
    let kept = items@.filter(pred);
    what_passes_is_kept(items@, pred);
    every_event_is_answered(kept, found->0);
    assert forall|i: int| 0 <= i < found->0.items@.len() implies exists|k: int|
        0 <= k < items@.len() && is_found((#[trigger] items@[k]).title@, items@[k].notes, query) && (
        #[trigger] found->0.items@[i]).id == items@[k].identifier && found->0.items@[i].title
            == items@[k].title by {
        assert(pred(kept[i]));
        let k = choose|k: int| 0 <= k < items@.len() && items@[k] == kept[i];
        assert(is_found(items@[k].title@, items@[k].notes, query));
    }
    assert forall|k: int|
        0 <= k < items@.len() && is_found(
            (#[trigger] items@[k]).title@,
            items@[k].notes,
            query,
        ) implies exists|i: int|
        0 <= i < found->0.items@.len() && (#[trigger] found->0.items@[i]).id == items@[k].identifier
            && found->0.items@[i].title == items@[k].title by {
        assert(pred(items@[k]));
        let i = choose|i: int| 0 <= i < kept.len() && kept[i] == items@[k];
        assert(found->0.items@[i].id == items@[k].identifier);
    }
}

} // verus!
