//! The commands about reminders.

use crate::batch::no_change;
use crate::cli::{access_told, bad_point, has_line, lines_of_parts, sets_point, bool_text, bool_word, calendars_printed, date_or_none, no_date, no_date_text, opt_line, opt_read, prints, push_date, push_line, push_opt, push_pair, read_opt_local, refusal, refuse, refuse_with, shorten, shortened, store_failed, tell_access, print_calendars, AccessEnd, CliError};
use crate::clock::{command_dates_are_read_where_the_clock_shows_them, has_no_point, stands_for, DateRead, LocalDateTime};
use crate::edits::is_place;
use crate::listing::{choose_query, keep, query_for, what_passes_is_kept, DateFilters, ReminderQuery};
use crate::model::{AlarmProximity, CalendarInfo, Real, ReminderDraft, ReminderItem, ReminderPatch, StoreError, StructuredLocation};
use crate::text::{decimal, lowercase, opt_str_view, opt_view, push_decimal, quote, quoted, same_text, to_lowercase, views};
use vstd::prelude::*;
use vstd::string::*;

verus! {

// ---------------------------------------------------------------------------
// Access and lists
// ---------------------------------------------------------------------------

/// What is printed before access is asked for.
pub const ASKING_REMINDERS: &'static str = "Requesting access to Reminders...";

/// Prints what came of asking for access.
pub fn cmd_reminders_authorize(reply: Result<bool, StoreError>) -> (end: AccessEnd)
    ensures
        access_told(reply, "System Settings > Privacy & Security > Reminders"@, end),
{
    tell_access(reply, "System Settings > Privacy & Security > Reminders")
}

/// Prints the reminder lists, and the default one where it is known.
pub fn cmd_reminders_lists(
    reply: Result<Vec<CalendarInfo>, StoreError>,
    default: Option<CalendarInfo>,
) -> (r: Result<Vec<String>, CliError>)
    ensures
        match reply {
            Ok(calendars) => prints(
                r,
                calendars_printed(
                    calendars@,
                    default,
                    "No reminder lists found."@,
                    "Reminder Lists:\n"@,
                    "\nDefault list: "@,
                ),
            ),
            Err(e) => store_failed(r, e),
        },
{
    match reply {
        Ok(calendars) => Ok(
            print_calendars(
                &calendars,
                &default,
                "No reminder lists found.",
                "Reminder Lists:\n",
                "\nDefault list: ",
            ),
        ),
        Err(e) => Err(CliError::Store(e)),
    }
}

// ---------------------------------------------------------------------------
// Listing: what to ask for
// ---------------------------------------------------------------------------

/// The switches of the list command.
#[derive(Clone, Copy, PartialEq, Eq, Structural, Debug)]
pub struct ListFlags {
    /// Only incomplete reminders.
    pub incomplete: bool,
    /// Completed reminders.
    pub completed: bool,
    /// Every reminder, with details.
    pub all: bool,
    /// Every field.
    pub debug: bool,
}

/// What the list command gets from a date that may be absent.
pub open spec fn cli_date_given(
    label: Seq<char>,
    raw: Option<Seq<char>>,
    read: Option<DateRead>,
    r: Result<Option<LocalDateTime>, CliError>,
) -> bool {
    match (raw, read) {
        (Some(_), Some(DateRead::Point(p))) => r == Ok::<Option<LocalDateTime>, CliError>(Some(p)),
        (Some(t), Some(DateRead::NoSinglePoint)) => r is Err && refusal(
            r->Err_0,
            None,
            "Invalid "@ + label + ": "@ + t,
        ),
        (Some(t), Some(DateRead::NotADate)) => r is Err && refusal(
            r->Err_0,
            None,
            no_date(label, t),
        ),
        _ => r == Ok::<Option<LocalDateTime>, CliError>(None),
    }
}

/// Takes what came of reading a date of the list command.
pub fn parse_cli_date(label: &str, s: Option<&str>, read: Option<DateRead>) -> (r: Result<
    Option<LocalDateTime>,
    CliError,
>)
    ensures
        cli_date_given(label@, opt_str_view(s), read, r),
{
    match (s, read) {
        (Some(_), Some(DateRead::Point(p))) => Ok(Some(p)),
        (Some(raw), Some(DateRead::NoSinglePoint)) => {
            let mut m: String = "Invalid ".to_owned();
            m.append(label);
            m.append(": ");
            m.append(raw);
            Err(refuse(m))
        },
        (Some(raw), Some(DateRead::NotADate)) => Err(refuse(no_date_text(label, raw))),
        _ => Ok(None),
    }
}

/// What the list command asks of the store, given what came of its dates. The
/// first date that could not be read decides the error.
pub open spec fn list_asked(
    lists: Option<Vec<String>>,
    flags: ListFlags,
    due_after: Result<Option<LocalDateTime>, CliError>,
    due_before: Result<Option<LocalDateTime>, CliError>,
    completed_after: Result<Option<LocalDateTime>, CliError>,
    completed_before: Result<Option<LocalDateTime>, CliError>,
    r: Result<ReminderQuery, CliError>,
) -> bool {
    match (due_after, due_before, completed_after, completed_before) {
        (Err(e), _, _, _) => r == Err::<ReminderQuery, CliError>(e),
        (Ok(_), Err(e), _, _) => r == Err::<ReminderQuery, CliError>(e),
        (Ok(_), Ok(_), Err(e), _) => r == Err::<ReminderQuery, CliError>(e),
        (Ok(_), Ok(_), Ok(_), Err(e)) => r == Err::<ReminderQuery, CliError>(e),
        (Ok(da), Ok(db), Ok(ca), Ok(cb)) => r == Ok::<ReminderQuery, CliError>(
            query_for(
                DateFilters {
                    due_after: da,
                    due_before: db,
                    completed_after: ca,
                    completed_before: cb,
                },
                !flags.incomplete,
                lists,
            ),
        ),
    }
}

/// What the list command asks of the store, given what came of its dates.
pub fn ask_list(
    lists: Option<Vec<String>>,
    flags: ListFlags,
    due_after: Result<Option<LocalDateTime>, CliError>,
    due_before: Result<Option<LocalDateTime>, CliError>,
    completed_after: Result<Option<LocalDateTime>, CliError>,
    completed_before: Result<Option<LocalDateTime>, CliError>,
) -> (r: Result<ReminderQuery, CliError>)
    ensures
        list_asked(
            lists,
            flags,
            due_after,
            due_before,
            completed_after,
            completed_before,
            r,
        ),
{
    match (due_after, due_before, completed_after, completed_before) {
        (Err(e), _, _, _) => Err(e),
        (Ok(_), Err(e), _, _) => Err(e),
        (Ok(_), Ok(_), Err(e), _) => Err(e),
        (Ok(_), Ok(_), Ok(_), Err(e)) => Err(e),
        (Ok(da), Ok(db), Ok(ca), Ok(cb)) => {
            let filters: DateFilters = DateFilters {
                due_after: da,
                due_before: db,
                completed_after: ca,
                completed_before: cb,
            };
            Ok(choose_query(filters, !flags.incomplete, lists))
        },
    }
}

/// What the list command may ask of the store.
pub open spec fn list_outcome(
    lists: Option<Vec<String>>,
    flags: ListFlags,
    due_after: Option<&str>,
    due_before: Option<&str>,
    completed_after: Option<&str>,
    completed_before: Option<&str>,
    r: Result<ReminderQuery, CliError>,
) -> bool {
    exists|
        da_read: Option<DateRead>,
        db_read: Option<DateRead>,
        ca_read: Option<DateRead>,
        cb_read: Option<DateRead>,
        da: Result<Option<LocalDateTime>, CliError>,
        db: Result<Option<LocalDateTime>, CliError>,
        ca: Result<Option<LocalDateTime>, CliError>,
        cb: Result<Option<LocalDateTime>, CliError>,
    |
        {
            &&& opt_read(due_after, da_read)
            &&& opt_read(due_before, db_read)
            &&& opt_read(completed_after, ca_read)
            &&& opt_read(completed_before, cb_read)
            &&& #[trigger] cli_date_given("--due-after"@, opt_str_view(due_after), da_read, da)
            &&& #[trigger] cli_date_given("--due-before"@, opt_str_view(due_before), db_read, db)
            &&& #[trigger] cli_date_given(
                "--completed-after"@,
                opt_str_view(completed_after),
                ca_read,
                ca,
            )
            &&& #[trigger] cli_date_given(
                "--completed-before"@,
                opt_str_view(completed_before),
                cb_read,
                cb,
            )
            &&& list_asked(lists, flags, da, db, ca, cb, r)
        }
}

/// Lists reminders: what to ask of the store.
pub fn cmd_reminders_list(
    lists: Option<Vec<String>>,
    flags: ListFlags,
    due_after: Option<&str>,
    due_before: Option<&str>,
    completed_after: Option<&str>,
    completed_before: Option<&str>,
) -> (r: Result<ReminderQuery, CliError>)
    ensures
        list_outcome(
            lists,
            flags,
            due_after,
            due_before,
            completed_after,
            completed_before,
            r,
        ),
{
    let da_read: Option<DateRead> = read_opt_local(due_after);
    let db_read: Option<DateRead> = read_opt_local(due_before);
    let ca_read: Option<DateRead> = read_opt_local(completed_after);
    let cb_read: Option<DateRead> = read_opt_local(completed_before);
    let da: Result<Option<LocalDateTime>, CliError> = parse_cli_date(
        "--due-after",
        due_after,
        da_read,
    );
    let db: Result<Option<LocalDateTime>, CliError> = parse_cli_date(
        "--due-before",
        due_before,
        db_read,
    );
    let ca: Result<Option<LocalDateTime>, CliError> = parse_cli_date(
        "--completed-after",
        completed_after,
        ca_read,
    );
    let cb: Result<Option<LocalDateTime>, CliError> = parse_cli_date(
        "--completed-before",
        completed_before,
        cb_read,
    );
    let ghost given = (da, db, ca, cb);
    let r: Result<ReminderQuery, CliError> = ask_list(lists, flags, da, db, ca, cb);
    assert(cli_date_given("--due-after"@, opt_str_view(due_after), da_read, given.0));
    assert(cli_date_given("--due-before"@, opt_str_view(due_before), db_read, given.1));
    assert(cli_date_given("--completed-after"@, opt_str_view(completed_after), ca_read, given.2));
    assert(cli_date_given(
        "--completed-before"@,
        opt_str_view(completed_before),
        cb_read,
        given.3,
    ));
    r
}

// ---------------------------------------------------------------------------
// Listing: what to print
// ---------------------------------------------------------------------------

/// Which reminders are printed. A filter on the completion date means
/// completed ones; else incomplete ones, unless a switch says otherwise.
pub open spec fn is_wanted(r: ReminderItem, by_completion: bool, flags: ListFlags) -> bool {
    if by_completion {
        r.completed
    } else if !flags.incomplete && !flags.completed && !flags.all {
        !r.completed
    } else if flags.completed && !flags.all {
        r.completed
    } else {
        true
    }
}

fn keep_wanted(items: Vec<ReminderItem>, by_completion: bool, flags: ListFlags) -> (kept: Vec<
    ReminderItem,
>)
    ensures
        kept@ == items@.filter(|r: ReminderItem| is_wanted(r, by_completion, flags)),
{
    let passes = |r: &ReminderItem| -> (b: bool)
        ensures
            b == is_wanted(*r, by_completion, flags),
        {
            if by_completion {
                r.completed
            } else if !flags.incomplete && !flags.completed && !flags.all {
                !r.completed
            } else if flags.completed && !flags.all {
                r.completed
            } else {
                true
            }
        };
    keep(items, passes, Ghost(|r: ReminderItem| is_wanted(r, by_completion, flags)))
}

/// The first line about a reminder.
pub open spec fn head_line(r: ReminderItem) -> Seq<char> {
    let mark = if r.completed {
        "✓"@
    } else {
        "○"@
    };
    let urgency = if r.priority == 0 {
        ""@
    } else if r.priority <= 4 {
        " !!!"@
    } else if r.priority == 5 {
        " !!"@
    } else {
        " !"@
    };
    "  "@ + mark + " "@ + r.title@ + urgency
}

/// The lines with details about a reminder.
pub open spec fn detail_lines(r: ReminderItem) -> Seq<Seq<char>> {
    opt_line(
        "      Notes: "@,
        match r.notes {
            Some(n) => Some(shortened(n@, 60)),
            None => None,
        },
    ) + opt_line("      List: "@, opt_view(r.calendar_title)) + seq![
        "      ID: "@ + r.identifier@,
    ]
}

/// The lines with the state and the dates of a reminder.
pub open spec fn state_lines(r: ReminderItem) -> Seq<Seq<char>> {
    seq![
        "      Completed: "@ + bool_text(r.completed),
        "      Priority: "@ + decimal(r.priority as nat),
        "      Due Date: "@ + date_or_none(r.due_date),
        "      Start Date: "@ + date_or_none(r.start_date),
        "      Completion Date: "@ + date_or_none(r.completion_date),
    ]
}

/// The lines with the texts of a reminder.
pub open spec fn text_lines(r: ReminderItem) -> Seq<Seq<char>> {
    opt_line("      Notes: "@, opt_view(r.notes)) + seq![
        "      Has Notes: "@ + bool_text(r.has_notes),
    ] + opt_line("      Calendar/List: "@, opt_view(r.calendar_title)) + opt_line(
        "      External ID: "@,
        opt_view(r.external_identifier),
    ) + opt_line("      Location: "@, opt_view(r.location)) + opt_line(
        "      URL: "@,
        opt_view(r.URL),
    )
}

/// The lines with the history of a reminder and what it has.
pub open spec fn history_lines(r: ReminderItem) -> Seq<Seq<char>> {
    seq![
        "      Creation Date: "@ + date_or_none(r.creation_date),
        "      Last Modified Date: "@ + date_or_none(r.last_modified_date),
    ] + opt_line("      Timezone: "@, opt_view(r.timezone)) + seq![
        "      Has Alarms: "@ + bool_text(r.has_alarms),
        "      Has Recurrence Rules: "@ + bool_text(r.has_recurrence_rules),
        "      Has Attendees: "@ + bool_text(r.has_attendees),
    ]
}

/// The lines with every field of a reminder.
pub open spec fn debug_lines(r: ReminderItem) -> Seq<Seq<char>> {
    state_lines(r) + text_lines(r) + history_lines(r)
}

/// The lines about a reminder.
pub open spec fn reminder_block(r: ReminderItem, flags: ListFlags) -> Seq<Seq<char>> {
    seq![head_line(r)] + (if flags.all {
        detail_lines(r)
    } else {
        Seq::empty()
    }) + (if flags.debug {
        debug_lines(r)
    } else {
        Seq::empty()
    })
}

/// The lines about the first `n` reminders.
pub open spec fn reminder_blocks(items: Seq<ReminderItem>, flags: ListFlags, n: nat) -> Seq<
    Seq<char>,
>
    decreases n,
{
    if n == 0 {
        Seq::empty()
    } else {
        reminder_blocks(items, flags, (n - 1) as nat) + reminder_block(items[n - 1], flags)
    }
}

/// What is printed about reminders.
pub open spec fn reminders_printed(items: Seq<ReminderItem>, flags: ListFlags) -> Seq<Seq<char>> {
    if items.len() == 0 {
        seq!["No reminders found."@]
    } else {
        seq!["Reminders ("@ + decimal(items.len()) + "):\n"@] + reminder_blocks(
            items,
            flags,
            items.len(),
        ) + (if flags.all {
            Seq::empty()
        } else {
            seq!["\nUse --all to see more details."@]
        })
    }
}

fn push_head(out: &mut Vec<String>, r: &ReminderItem)
    ensures
        views(final(out)@) == views(old(out)@).push(head_line(*r)),
{
    let mut line: String = "  ".to_owned();
    if r.completed {
        line.append("✓");
    } else {
        line.append("○");
    }
    line.append(" ");
    line.append(r.title.as_str());
    if r.priority == 0 {
        line.append("");
    } else if r.priority <= 4 {
        line.append(" !!!");
    } else if r.priority == 5 {
        line.append(" !!");
    } else {
        line.append(" !");
    }
    push_line(out, line.as_str());
}

fn push_details(out: &mut Vec<String>, r: &ReminderItem)
    ensures
        views(final(out)@) == views(old(out)@) + detail_lines(*r),
{
    if let Some(n) = &r.notes {
        push_pair(out, "      Notes: ", shorten(n.as_str(), 60).as_str());
    }
    push_opt(out, "      List: ", &r.calendar_title);
    push_pair(out, "      ID: ", r.identifier.as_str());
}

fn push_state(out: &mut Vec<String>, r: &ReminderItem)
    ensures
        views(final(out)@) == views(old(out)@) + state_lines(*r),
{
    push_pair(out, "      Completed: ", bool_word(r.completed));
    let mut priority: String = String::new();
    push_decimal(&mut priority, r.priority as u64);
    assert(priority@ =~= decimal(r.priority as nat));
    push_pair(out, "      Priority: ", priority.as_str());
    push_date(out, "      Due Date: ", &r.due_date);
    push_date(out, "      Start Date: ", &r.start_date);
    push_date(out, "      Completion Date: ", &r.completion_date);
}

fn push_texts(out: &mut Vec<String>, r: &ReminderItem)
    ensures
        views(final(out)@) == views(old(out)@) + text_lines(*r),
{
    push_opt(out, "      Notes: ", &r.notes);
    push_pair(out, "      Has Notes: ", bool_word(r.has_notes));
    push_opt(out, "      Calendar/List: ", &r.calendar_title);
    push_opt(out, "      External ID: ", &r.external_identifier);
    push_opt(out, "      Location: ", &r.location);
    push_opt(out, "      URL: ", &r.URL);
}

fn push_history(out: &mut Vec<String>, r: &ReminderItem)
    ensures
        views(final(out)@) == views(old(out)@) + history_lines(*r),
{
    push_date(out, "      Creation Date: ", &r.creation_date);
    push_date(out, "      Last Modified Date: ", &r.last_modified_date);
    push_opt(out, "      Timezone: ", &r.timezone);
    push_pair(out, "      Has Alarms: ", bool_word(r.has_alarms));
    push_pair(out, "      Has Recurrence Rules: ", bool_word(r.has_recurrence_rules));
    push_pair(out, "      Has Attendees: ", bool_word(r.has_attendees));
}

fn push_debug(out: &mut Vec<String>, r: &ReminderItem)
    ensures
        views(final(out)@) == views(old(out)@) + debug_lines(*r),
{
    push_state(out, r);
    push_texts(out, r);
    push_history(out, r);
}

fn print_reminders(items: &Vec<ReminderItem>, flags: ListFlags) -> (lines: Vec<String>)
    ensures
        views(lines@) == reminders_printed(items@, flags),
{
    let mut lines: Vec<String> = Vec::new();
    if items.is_empty() {
        push_line(&mut lines, "No reminders found.");
        return lines;
    }
    let mut heading: String = "Reminders (".to_owned();
    push_decimal(&mut heading, items.len() as u64);
    heading.append("):\n");
    push_line(&mut lines, heading.as_str());
    let mut i: usize = 0;
    while i < items.len()
        invariant
            i <= items@.len(),
            views(lines@) == seq![heading@] + reminder_blocks(items@, flags, i as nat),
        decreases items@.len() - i,
    {
        let ghost before = views(lines@);
        push_head(&mut lines, &items[i]);
        if flags.all {
            push_details(&mut lines, &items[i]);
        }
        if flags.debug {
            push_debug(&mut lines, &items[i]);
        }
        assert(views(lines@) =~= before + reminder_block(items@[i as int], flags));
        assert(views(lines@) =~= seq![heading@] + reminder_blocks(items@, flags, (i + 1) as nat));
        i = i + 1;
    }
    if !flags.all {
        push_line(&mut lines, "\nUse --all to see more details.");
    }
    lines
}

/// The reminders were asked for by their completion date.
pub open spec fn asks_completed(query: ReminderQuery) -> bool {
    query is Completed
}

/// Lists reminders: what to print, given what was asked of the store.
pub fn cmd_reminders_list_reply(
    query: &ReminderQuery,
    flags: ListFlags,
    reply: Result<Vec<ReminderItem>, StoreError>,
) -> (r: Result<Vec<String>, CliError>)
    ensures
        match reply {
            Ok(items) => prints(
                r,
                reminders_printed(
                    items@.filter(|i: ReminderItem| is_wanted(i, asks_completed(*query), flags)),
                    flags,
                ),
            ),
            Err(e) => store_failed(r, e),
        },
{
    let items: Vec<ReminderItem> = match reply {
        Ok(items) => items,
        Err(e) => return Err(CliError::Store(e)),
    };
    let by_completion: bool = match query {
        ReminderQuery::Completed { after: _, before: _, lists: _ } => true,
        _ => false,
    };
    let kept: Vec<ReminderItem> = keep_wanted(items, by_completion, flags);
    Ok(print_reminders(&kept, flags))
}

/// With a filter on the completion date, whatever the switches, every
/// completed reminder that the store gives is printed and no other one.
pub proof fn completion_filter_prints_completed_only(
    filters: DateFilters,
    lists: Option<Vec<String>>,
    flags: ListFlags,
    r: ReminderItem,
)
    requires
        filters.completed_after is Some || filters.completed_before is Some,
    ensures
        ({
            let query = query_for(filters, !flags.incomplete, lists);
            is_wanted(r, asks_completed(query), flags) <==> r.completed
        }),
{
}

// ---------------------------------------------------------------------------
// Creating and updating
// ---------------------------------------------------------------------------

/// The priority is absent or between zero and nine.
pub open spec fn priority_fits(priority: Option<usize>) -> bool {
    priority is Some ==> priority->0 <= 9
}

/// A priority out of range is refused.
pub open spec fn bad_priority(e: CliError) -> bool {
    refusal(e, Some("Priority must be between 0 and 9"@), "Invalid priority value"@)
}

fn check_priority(priority: Option<usize>) -> (r: Result<(), CliError>)
    ensures
        r is Ok <==> priority_fits(priority),
        r is Err ==> bad_priority(r->Err_0),
{
    if let Some(p) = priority {
        if p > 9 {
            return Err(
                refuse_with(
                    "Priority must be between 0 and 9".to_owned(),
                    "Invalid priority value",
                ),
            );
        }
    }
    Ok(())
}

/// Creates a reminder: what to create.
pub fn cmd_reminders_add(
    title: String,
    notes: Option<String>,
    list: Option<String>,
    priority: Option<usize>,
    due_tz: Option<String>,
) -> (r: Result<ReminderDraft, CliError>)
    ensures
        if priority_fits(priority) {
            r == Ok::<ReminderDraft, CliError>(
                ReminderDraft {
                    title,
                    notes,
                    calendar_title: list,
                    priority,
                    due_date: None,
                    start_date: None,
                    due_date_timezone: due_tz,
                },
            )
        } else {
            r is Err && bad_priority(r->Err_0)
        },
{
    if let Err(e) = check_priority(priority) {
        return Err(e);
    }
    Ok(
        ReminderDraft {
            title,
            notes,
            calendar_title: list,
            priority,
            due_date: None,
            start_date: None,
            due_date_timezone: due_tz,
        },
    )
}

/// Creates a reminder: what to print.
pub fn cmd_reminders_add_reply(reply: Result<ReminderItem, StoreError>) -> (r: Result<
    Vec<String>,
    CliError,
>)
    ensures
        match reply {
            Ok(item) => prints(
                r,
                seq!["✓ Created reminder: "@ + item.title@, "  ID: "@ + item.identifier@]
                    + opt_line("  List: "@, opt_view(item.calendar_title)),
            ),
            Err(e) => store_failed(r, e),
        },
{
    let item: ReminderItem = match reply {
        Ok(item) => item,
        Err(e) => return Err(CliError::Store(e)),
    };
    let mut lines: Vec<String> = Vec::new();
    push_pair(&mut lines, "✓ Created reminder: ", item.title.as_str());
    push_pair(&mut lines, "  ID: ", item.identifier.as_str());
    push_opt(&mut lines, "  List: ", &item.calendar_title);
    assert(views(lines@) =~= seq![
        "✓ Created reminder: "@ + item.title@,
        "  ID: "@ + item.identifier@,
    ] + opt_line("  List: "@, opt_view(item.calendar_title)));
    Ok(lines)
}

/// What an update does.
#[derive(PartialEq, Eq, Debug)]
pub enum ReminderUpdate {
    /// Nothing is to be updated; this is said on the error stream.
    Nothing(&'static str),
    /// The store is to update the reminder.
    Apply(ReminderPatch),
}

/// Said where nothing is to be updated.
pub const NO_REMINDER_UPDATES: &'static str = "No updates specified. Use --title, --notes, --priority, or --completion-date.";

/// What may come of reading a completion date that may be absent or empty.
pub open spec fn completion_read(s: Option<&str>, read: Option<DateRead>) -> bool {
    match s {
        Some(t) => if t@.len() == 0 {
            read is None
        } else {
            opt_read(s, read)
        },
        None => read is None,
    }
}

/// The change of a completion date, given what came of reading it: an empty
/// one clears it.
pub open spec fn completion_given(
    raw: Option<Seq<char>>,
    read: Option<DateRead>,
    r: Result<Option<Option<LocalDateTime>>, CliError>,
) -> bool {
    match (raw, read) {
        (None, _) => r == Ok::<Option<Option<LocalDateTime>>, CliError>(None),
        (Some(_), None) => r == Ok::<Option<Option<LocalDateTime>>, CliError>(Some(None)),
        (Some(_), Some(DateRead::Point(p))) => r == Ok::<Option<Option<LocalDateTime>>, CliError>(
            Some(Some(p)),
        ),
        (Some(_), Some(DateRead::NoSinglePoint)) => r is Err && refusal(
            r->Err_0,
            None,
            "Ambiguous local datetime"@,
        ),
        (Some(t), Some(DateRead::NotADate)) => r is Err && refusal(
            r->Err_0,
            None,
            "Invalid --completion-date '"@ + t + "'. Use YYYY-MM-DD or YYYY-MM-DD HH:MM."@,
        ),
    }
}

fn given_completion(s: Option<&str>, read: Option<DateRead>) -> (r: Result<
    Option<Option<LocalDateTime>>,
    CliError,
>)
    ensures
        completion_given(opt_str_view(s), read, r),
{
    match (s, read) {
        (None, _) => Ok(None),
        (Some(_), None) => Ok(Some(None)),
        (Some(_), Some(DateRead::Point(p))) => Ok(Some(Some(p))),
        (Some(_), Some(DateRead::NoSinglePoint)) => Err(
            refuse("Ambiguous local datetime".to_owned()),
        ),
        (Some(raw), Some(DateRead::NotADate)) => {
            let mut m: String = "Invalid --completion-date '".to_owned();
            m.append(raw);
            m.append("'. Use YYYY-MM-DD or YYYY-MM-DD HH:MM.");
            Err(refuse(m))
        },
    }
}

/// What an update does, given what came of the completion date. The priority
/// is looked at before it.
pub open spec fn update_decided(
    title: Option<String>,
    notes: Option<String>,
    priority: Option<usize>,
    completion: Option<Seq<char>>,
    read: Option<DateRead>,
    r: Result<ReminderUpdate, CliError>,
) -> bool {
    if title is None && notes is None && priority is None && completion is None {
        r is Ok && r->Ok_0 is Nothing && r->Ok_0->Nothing_0@ == NO_REMINDER_UPDATES@
    } else if !priority_fits(priority) {
        r is Err && bad_priority(r->Err_0)
    } else {
        exists|given: Result<Option<Option<LocalDateTime>>, CliError>| #[trigger]
            completion_given(completion, read, given) && match given {
                Err(e) => r == Err::<ReminderUpdate, CliError>(e),
                Ok(completion_date) => r == Ok::<ReminderUpdate, CliError>(
                    ReminderUpdate::Apply(
                        ReminderPatch {
                            title,
                            notes,
                            priority,
                            completion_date,
                            ..no_change()
                        },
                    ),
                ),
            }
    }
}

/// What an update does, given what came of the completion date.
pub fn decide_update(
    title: Option<String>,
    notes: Option<String>,
    priority: Option<usize>,
    completion: Option<&str>,
    read: Option<DateRead>,
) -> (r: Result<ReminderUpdate, CliError>)
    ensures
        update_decided(title, notes, priority, opt_str_view(completion), read, r),
{
    if title.is_none() && notes.is_none() && priority.is_none() && completion.is_none() {
        return Ok(ReminderUpdate::Nothing(NO_REMINDER_UPDATES));
    }
    if let Err(e) = check_priority(priority) {
        return Err(e);
    }
    let given: Result<Option<Option<LocalDateTime>>, CliError> = given_completion(completion, read);
    assert(completion_given(opt_str_view(completion), read, given));
    match given {
        Err(e) => Err(e),
        Ok(completion_date) => Ok(
            ReminderUpdate::Apply(
                ReminderPatch {
                    title,
                    notes,
                    completed: None,
                    priority,
                    due_date: None,
                    start_date: None,
                    calendar_title: None,
                    due_date_timezone: None,
                    completion_date,
                },
            ),
        ),
    }
}

/// Updates a reminder: what to do.
pub fn cmd_reminders_update(
    title: Option<String>,
    notes: Option<String>,
    priority: Option<usize>,
    completion_date: Option<&str>,
) -> (r: Result<ReminderUpdate, CliError>)
    ensures
        exists|read: Option<DateRead>| #[trigger]
            completion_read(completion_date, read) && update_decided(
                title,
                notes,
                priority,
                opt_str_view(completion_date),
                read,
                r,
            ),
{
    let read: Option<DateRead> = match completion_date {
        Some(t) => if t.is_empty() {
            None
        } else {
            read_opt_local(completion_date)
        },
        None => None,
    };
    assert(completion_read(completion_date, read));
    decide_update(title, notes, priority, completion_date, read)
}

/// A command that prints one line about the reminder that the store gives back.
pub open spec fn title_printed(
    reply: Result<ReminderItem, StoreError>,
    lead: Seq<char>,
    r: Result<Vec<String>, CliError>,
) -> bool {
    match reply {
        Ok(item) => prints(r, seq![lead + item.title@]),
        Err(e) => store_failed(r, e),
    }
}

fn print_title(reply: Result<ReminderItem, StoreError>, lead: &str) -> (r: Result<
    Vec<String>,
    CliError,
>)
    ensures
        title_printed(reply, lead@, r),
{
    match reply {
        Ok(item) => {
            let mut lines: Vec<String> = Vec::new();
            push_pair(&mut lines, lead, item.title.as_str());
            assert(views(lines@) =~= seq![lead@ + item.title@]);
            Ok(lines)
        },
        Err(e) => Err(CliError::Store(e)),
    }
}

/// Updates a reminder: what to print.
pub fn cmd_reminders_update_reply(reply: Result<ReminderItem, StoreError>) -> (r: Result<
    Vec<String>,
    CliError,
>)
    ensures
        title_printed(reply, "✓ Updated reminder: "@, r),
{
    print_title(reply, "✓ Updated reminder: ")
}

/// Prints that a reminder was completed.
pub fn cmd_reminders_complete(reply: Result<ReminderItem, StoreError>) -> (r: Result<
    Vec<String>,
    CliError,
>)
    ensures
        title_printed(reply, "✓ Completed: "@, r),
{
    print_title(reply, "✓ Completed: ")
}

/// Prints that a reminder is no longer completed.
pub fn cmd_reminders_uncomplete(reply: Result<ReminderItem, StoreError>) -> (r: Result<
    Vec<String>,
    CliError,
>)
    ensures
        title_printed(reply, "○ Marked incomplete: "@, r),
{
    print_title(reply, "○ Marked incomplete: ")
}

// ---------------------------------------------------------------------------
// One field at a time
// ---------------------------------------------------------------------------

/// A text, unless it is empty.
pub open spec fn value_of(s: String) -> Option<String> {
    if s@.len() == 0 {
        None
    } else {
        Some(s)
    }
}

fn to_value(s: String) -> (v: Option<String>)
    ensures
        v == value_of(s),
{
    if s.as_str().is_empty() {
        None
    } else {
        Some(s)
    }
}

/// A command that prints one of two lines, or fails with the store.
pub open spec fn set_printed(
    set: bool,
    reply: Result<(), StoreError>,
    if_set: Seq<char>,
    if_cleared: Seq<char>,
    r: Result<Vec<String>, CliError>,
) -> bool {
    match reply {
        Ok(_) => prints(
            r,
            seq![
                "✓ "@ + if set {
                    if_set
                } else {
                    if_cleared
                },
            ],
        ),
        Err(e) => store_failed(r, e),
    }
}

fn print_set(set: bool, reply: Result<(), StoreError>, if_set: &str, if_cleared: &str) -> (r:
    Result<Vec<String>, CliError>)
    ensures
        set_printed(set, reply, if_set@, if_cleared@, r),
{
    match reply {
        Ok(_) => {
            let mut lines: Vec<String> = Vec::new();
            if set {
                push_pair(&mut lines, "✓ ", if_set);
                assert(views(lines@) =~= seq!["✓ "@ + if_set@]);
            } else {
                push_pair(&mut lines, "✓ ", if_cleared);
                assert(views(lines@) =~= seq!["✓ "@ + if_cleared@]);
            }
            Ok(lines)
        },
        Err(e) => Err(CliError::Store(e)),
    }
}

/// Sets or clears the URL of a reminder: the value, where empty clears.
#[allow(non_snake_case)]
pub fn cmd_reminders_set_URL(url: String) -> (value: Option<String>)
    ensures
        value == value_of(url),
{
    to_value(url)
}

/// Sets or clears the URL of a reminder: what to print.
#[allow(non_snake_case)]
pub fn cmd_reminders_set_URL_reply(set: bool, reply: Result<(), StoreError>) -> (r: Result<
    Vec<String>,
    CliError,
>)
    ensures
        set_printed(set, reply, "Set URL"@, "Cleared URL"@, r),
{
    print_set(set, reply, "Set URL", "Cleared URL")
}

/// Sets or clears the timezone of a due date: the value, where empty clears.
pub fn cmd_reminders_set_due_tz(tz: String) -> (value: Option<String>)
    ensures
        value == value_of(tz),
{
    to_value(tz)
}

/// Sets or clears the timezone of a due date: what to print.
pub fn cmd_reminders_set_due_tz_reply(set: bool, reply: Result<(), StoreError>) -> (r: Result<
    Vec<String>,
    CliError,
>)
    ensures
        set_printed(set, reply, "Set due-date timezone"@, "Cleared due-date timezone"@, r),
{
    print_set(set, reply, "Set due-date timezone", "Cleared due-date timezone")
}

/// The crossing that a word stands for, which is in lower case.
pub open spec fn crossing_named(word: Seq<char>) -> Option<AlarmProximity> {
    if word == "enter"@ || word == "arrive"@ || word == "arrival"@ {
        Some(AlarmProximity::Enter)
    } else if word == "leave"@ || word == "exit"@ || word == "departure"@ {
        Some(AlarmProximity::Leave)
    } else {
        None
    }
}

fn name_crossing(word: &str) -> (p: Option<AlarmProximity>)
    ensures
        p == crossing_named(word@),
{
    if same_text(word, "enter") || same_text(word, "arrive") || same_text(word, "arrival") {
        Some(AlarmProximity::Enter)
    } else if same_text(word, "leave") || same_text(word, "exit") || same_text(word, "departure") {
        Some(AlarmProximity::Leave)
    } else {
        None
    }
}

/// The geofence that the arguments describe, given the crossing in lower case.
pub open spec fn geofence_decided(
    title: String,
    lat: Real,
    lng: Real,
    radius: Real,
    word: Seq<char>,
    r: Result<(StructuredLocation, AlarmProximity), CliError>,
) -> bool {
    match crossing_named(word) {
        Some(proximity) => r == Ok::<(StructuredLocation, AlarmProximity), CliError>(
            (StructuredLocation { title, latitude: lat, longitude: lng, radius }, proximity),
        ),
        None => r is Err && refusal(
            r->Err_0,
            Some("--proximity must be 'enter' or 'leave', got "@ + quoted(word)),
            "Invalid proximity value"@,
        ),
    }
}

/// The geofence that the arguments describe, given the crossing in lower case.
pub fn decide_geofence(title: String, lat: Real, lng: Real, radius: Real, word: &str) -> (r: Result<
    (StructuredLocation, AlarmProximity),
    CliError,
>)
    ensures
        geofence_decided(title, lat, lng, radius, word@, r),
{
    match name_crossing(word) {
        Some(proximity) => Ok(
            (StructuredLocation { title, latitude: lat, longitude: lng, radius }, proximity),
        ),
        None => {
            let mut notice: String = "--proximity must be 'enter' or 'leave', got ".to_owned();
            notice.append(quote(word).as_str());
            Err(refuse_with(notice, "Invalid proximity value"))
        },
    }
}

/// Attaches a geofence: what to attach. The case of the crossing does not
/// matter.
pub fn cmd_reminders_set_geofence(
    title: String,
    lat: Real,
    lng: Real,
    radius: Real,
    proximity: &str,
) -> (r: Result<(StructuredLocation, AlarmProximity), CliError>)
    ensures
        geofence_decided(title, lat, lng, radius, lowercase(proximity@), r),
{
    decide_geofence(title, lat, lng, radius, to_lowercase(proximity).as_str())
}

/// A command that prints one line with the reminder's identifier.
pub open spec fn id_printed(
    id: Seq<char>,
    reply: Result<(), StoreError>,
    lead: Seq<char>,
    r: Result<Vec<String>, CliError>,
) -> bool {
    match reply {
        Ok(_) => prints(r, seq![lead + id]),
        Err(e) => store_failed(r, e),
    }
}

fn print_id(id: &str, reply: Result<(), StoreError>, lead: &str) -> (r: Result<
    Vec<String>,
    CliError,
>)
    ensures
        id_printed(id@, reply, lead@, r),
{
    match reply {
        Ok(_) => {
            let mut lines: Vec<String> = Vec::new();
            push_pair(&mut lines, lead, id);
            assert(views(lines@) =~= seq![lead@ + id@]);
            Ok(lines)
        },
        Err(e) => Err(CliError::Store(e)),
    }
}

/// Attaches a geofence: what to print.
pub fn cmd_reminders_set_geofence_reply(id: &str, reply: Result<(), StoreError>) -> (r: Result<
    Vec<String>,
    CliError,
>)
    ensures
        id_printed(id@, reply, "✓ Geofence set on "@, r),
{
    print_id(id, reply, "✓ Geofence set on ")
}

/// Prints that a geofence was cleared.
pub fn cmd_reminders_clear_geofence(id: &str, reply: Result<(), StoreError>) -> (r: Result<
    Vec<String>,
    CliError,
>)
    ensures
        id_printed(id@, reply, "✓ Cleared geofence on "@, r),
{
    print_id(id, reply, "✓ Cleared geofence on ")
}

// ---------------------------------------------------------------------------
// Deleting and showing
// ---------------------------------------------------------------------------

/// What a deletion does.
#[derive(PartialEq, Eq, Debug)]
pub enum Deletion {
    /// Ask for confirmation with these lines, and delete nothing.
    Confirm(Vec<String>),
    /// Delete.
    Go,
}

/// Deletes a reminder: what to do once it is known. Without force nothing is
/// deleted.
pub fn cmd_reminders_delete(item: &ReminderItem, force: bool) -> (r: Deletion)
    ensures
        force ==> r == Deletion::Go,
        !force ==> r is Confirm && views(r->Confirm_0@) == seq![
            "Delete reminder: \""@ + item.title@ + "\"?"@,
            "This action cannot be undone. Use --force to skip this prompt."@,
        ],
{
    if force {
        return Deletion::Go;
    }
    let mut lines: Vec<String> = Vec::new();
    let mut question: String = "Delete reminder: \"".to_owned();
    question.append(item.title.as_str());
    question.append("\"?");
    push_line(&mut lines, question.as_str());
    push_line(&mut lines, "This action cannot be undone. Use --force to skip this prompt.");
    Deletion::Confirm(lines)
}

/// Deletes a reminder: what to print.
pub fn cmd_reminders_delete_reply(title: &str, reply: Result<(), StoreError>) -> (r: Result<
    Vec<String>,
    CliError,
>)
    ensures
        id_printed(title@, reply, "✓ Deleted: "@, r),
{
    print_id(title, reply, "✓ Deleted: ")
}

/// A priority in words.
pub open spec fn priority_words(priority: usize) -> Seq<char> {
    if priority == 0 {
        "None"@
    } else if priority <= 4 {
        "High ("@ + decimal(priority as nat) + ")"@
    } else if priority == 5 {
        "Medium"@
    } else {
        "Low ("@ + decimal(priority as nat) + ")"@
    }
}

fn priority_in_words(priority: usize) -> (s: String)
    ensures
        s@ == priority_words(priority),
{
    if priority == 0 {
        "None".to_owned()
    } else if priority == 5 {
        "Medium".to_owned()
    } else {
        let mut s: String = if priority <= 4 {
            "High (".to_owned()
        } else {
            "Low (".to_owned()
        };
        push_decimal(&mut s, priority as u64);
        s.append(")");
        s
    }
}

/// What is printed about one reminder.
pub open spec fn reminder_printed(r: ReminderItem) -> Seq<Seq<char>> {
    seq![
        "Reminder Details:\n"@,
        "  Title:     "@ + r.title@,
        "  Status:    "@ + if r.completed {
            "Completed"@
        } else {
            "Incomplete"@
        },
        "  Priority:  "@ + priority_words(r.priority),
    ] + opt_line("  Notes:     "@, opt_view(r.notes)) + opt_line(
        "  List:      "@,
        opt_view(r.calendar_title),
    ) + seq!["  ID:        "@ + r.identifier@]
}

/// Prints one reminder.
pub fn cmd_reminders_show(reply: Result<ReminderItem, StoreError>) -> (r: Result<
    Vec<String>,
    CliError,
>)
    ensures
        match reply {
            Ok(item) => prints(r, reminder_printed(item)),
            Err(e) => store_failed(r, e),
        },
{
    let item: ReminderItem = match reply {
        Ok(item) => item,
        Err(e) => return Err(CliError::Store(e)),
    };
    let mut lines: Vec<String> = Vec::new();
    push_line(&mut lines, "Reminder Details:\n");
    push_pair(&mut lines, "  Title:     ", item.title.as_str());
    if item.completed {
        push_pair(&mut lines, "  Status:    ", "Completed");
    } else {
        push_pair(&mut lines, "  Status:    ", "Incomplete");
    }
    push_pair(&mut lines, "  Priority:  ", priority_in_words(item.priority).as_str());
    push_opt(&mut lines, "  Notes:     ", &item.notes);
    push_opt(&mut lines, "  List:      ", &item.calendar_title);
    push_pair(&mut lines, "  ID:        ", item.identifier.as_str());
    assert(views(lines@) =~= reminder_printed(item));
    Ok(lines)
}

// ---------------------------------------------------------------------------
// What the arguments ask for is what is done
// ---------------------------------------------------------------------------

proof fn lemma_cli_date(
    label: Seq<char>,
    text: Option<&str>,
    read: Option<DateRead>,
    r: Result<Option<LocalDateTime>, CliError>,
)
    requires
        opt_read(text, read),
        cli_date_given(label, opt_str_view(text), read, r),
    ensures
        r matches Ok(set) ==> sets_point(opt_str_view(text), set),
        r is Err ==> bad_point(opt_str_view(text)),
{
    if let Some(t) = text {
        command_dates_are_read_where_the_clock_shows_them(t@, read->0);
    }
}

/// Reminders are asked for as the arguments want them, in the lists that are
/// named. With a completion date, only completed ones between these dates; else
/// with a due date, only incomplete ones between these dates; else every one,
/// unless only incomplete ones are wanted. The arguments are refused only where
/// one of the dates has no point.
pub proof fn reminders_are_asked_for_as_given(
    lists: Option<Vec<String>>,
    flags: ListFlags,
    due_after: Option<&str>,
    due_before: Option<&str>,
    completed_after: Option<&str>,
    completed_before: Option<&str>,
    r: Result<ReminderQuery, CliError>,
)
    requires
        list_outcome(
            lists,
            flags,
            due_after,
            due_before,
            completed_after,
            completed_before,
            r,
        ),
    ensures
        ({
            let by_completion = completed_after is Some || completed_before is Some;
            let by_due = due_after is Some || due_before is Some;
            &&& r is Err ==> bad_point(opt_str_view(due_after)) || bad_point(
                opt_str_view(due_before),
            ) || bad_point(opt_str_view(completed_after)) || bad_point(
                opt_str_view(completed_before),
            )
            &&& r matches Ok(query) ==> match query {
                ReminderQuery::Completed { after, before, lists: asked } => {
                    &&& by_completion
                    &&& sets_point(opt_str_view(completed_after), after)
                    &&& sets_point(opt_str_view(completed_before), before)
                    &&& asked == lists
                },
                ReminderQuery::Incomplete { after, before, lists: asked } => {
                    &&& !by_completion
                    &&& sets_point(opt_str_view(due_after), after)
                    &&& sets_point(opt_str_view(due_before), before)
                    &&& by_due || flags.incomplete
                    &&& asked == lists
                },
                ReminderQuery::Every { lists: asked } => {
                    &&& !by_completion
                    &&& !by_due
                    &&& !flags.incomplete
                    &&& asked == lists
                },
            }
        }),
{
    let (da_read, db_read, ca_read, cb_read, da, db, ca, cb) = choose|
        da_read: Option<DateRead>,
        db_read: Option<DateRead>,
        ca_read: Option<DateRead>,
        cb_read: Option<DateRead>,
        da: Result<Option<LocalDateTime>, CliError>,
        db: Result<Option<LocalDateTime>, CliError>,
        ca: Result<Option<LocalDateTime>, CliError>,
        cb: Result<Option<LocalDateTime>, CliError>,
    |
        {
            &&& opt_read(due_after, da_read)
            &&& opt_read(due_before, db_read)
            &&& opt_read(completed_after, ca_read)
            &&& opt_read(completed_before, cb_read)
            &&& #[trigger] cli_date_given("--due-after"@, opt_str_view(due_after), da_read, da)
            &&& #[trigger] cli_date_given("--due-before"@, opt_str_view(due_before), db_read, db)
            &&& #[trigger] cli_date_given(
                "--completed-after"@,
                opt_str_view(completed_after),
                ca_read,
                ca,
            )
            &&& #[trigger] cli_date_given(
                "--completed-before"@,
                opt_str_view(completed_before),
                cb_read,
                cb,
            )
            &&& list_asked(lists, flags, da, db, ca, cb, r)
        };
    lemma_cli_date("--due-after"@, due_after, da_read, da);
    lemma_cli_date("--due-before"@, due_before, db_read, db);
    lemma_cli_date("--completed-after"@, completed_after, ca_read, ca);
    lemma_cli_date("--completed-before"@, completed_before, cb_read, cb);
}

/// Without switches the incomplete reminders are printed and no others; with
/// the switch for completed ones these and no others; with the switch for all,
/// or with the one for incomplete ones alone, every one that the store gives.
/// Where they were asked for by their completion date only completed ones are.
pub proof fn reminders_are_printed_as_the_switches_say(
    items: Seq<ReminderItem>,
    by_completion: bool,
    flags: ListFlags,
)
    ensures
        ({
            let printed = items.filter(|r: ReminderItem| is_wanted(r, by_completion, flags));
            let completed_only = by_completion || flags.completed && !flags.all;
            let incomplete_only = !by_completion && !flags.incomplete && !flags.completed
                && !flags.all;
            &&& forall|i: int|
                0 <= i < printed.len() ==> items.contains(#[trigger] printed[i]) && (completed_only
                    ==> printed[i].completed) && (incomplete_only ==> !printed[i].completed)
            &&& forall|i: int|
                0 <= i < items.len() && (completed_only ==> (#[trigger] items[i]).completed) && (
                incomplete_only ==> !items[i].completed) ==> printed.contains(items[i])
        }),
{
    let pred = |r: ReminderItem| is_wanted(r, by_completion, flags);
    let printed = items.filter(pred);
    what_passes_is_kept(items, pred);
    let completed_only = by_completion || flags.completed && !flags.all;
    let incomplete_only = !by_completion && !flags.incomplete && !flags.completed && !flags.all;
    assert forall|i: int| 0 <= i < printed.len() implies items.contains(#[trigger] printed[i]) && (
    completed_only ==> printed[i].completed) && (incomplete_only ==> !printed[i].completed) by {
        assert(pred(printed[i]));
    }
    assert forall|i: int|
        0 <= i < items.len() && (completed_only ==> (#[trigger] items[i]).completed) && (
        incomplete_only ==> !items[i].completed) implies printed.contains(items[i]) by {
        assert(pred(items[i]));
    }
}

proof fn lemma_reminder_has_lines(
    items: Seq<ReminderItem>,
    flags: ListFlags,
    n: nat,
    k: int,
    line: Seq<char>,
)
    requires
        0 <= k < n <= items.len(),
        has_line(reminder_block(items[k], flags), line),
    ensures
        has_line(reminder_blocks(items, flags, n), line),
    decreases n,
{
    let before = reminder_blocks(items, flags, (n - 1) as nat);
    let last = reminder_block(items[n - 1], flags);
    if k < n - 1 {
        lemma_reminder_has_lines(items, flags, (n - 1) as nat, k, line);
        lines_of_parts(Seq::empty(), before, last);
        assert(Seq::<Seq<char>>::empty() + before + last =~= before + last);
    } else {
        lines_of_parts(before, last, Seq::empty());
        assert(before + last + Seq::<Seq<char>>::empty() =~= before + last);
    }
}

/// Every reminder that is listed is printed: a mark that tells whether it is
/// completed, its title and how urgent it is, under a heading that counts them;
/// with details, also its list and its identifier.
pub proof fn every_listed_reminder_is_printed(items: Seq<ReminderItem>, flags: ListFlags, k: int)
    requires
        0 <= k < items.len(),
    ensures
        ({
            let r = items[k];
            let lines = reminders_printed(items, flags);
            let mark = if r.completed {
                "✓"@
            } else {
                "○"@
            };
            let urgency = if r.priority == 0 {
                ""@
            } else if r.priority < 5 {
                " !!!"@
            } else if r.priority > 5 {
                " !"@
            } else {
                " !!"@
            };
            &&& lines[0] == "Reminders ("@ + decimal(items.len()) + "):\n"@
            &&& has_line(lines, "  "@ + mark + " "@ + r.title@ + urgency)
            &&& flags.all ==> has_line(lines, "      ID: "@ + r.identifier@)
            &&& flags.all && r.calendar_title is Some ==> has_line(
                lines,
                "      List: "@ + r.calendar_title->0@,
            )
        }),
{
    let r = items[k];
    let block = reminder_block(r, flags);
    let head = seq!["Reminders ("@ + decimal(items.len()) + "):\n"@];
    let blocks = reminder_blocks(items, flags, items.len());
    let foot: Seq<Seq<char>> = if flags.all {
        Seq::empty()
    } else {
        seq!["\nUse --all to see more details."@]
    };
    assert forall|line: Seq<char>| has_line(block, line) implies #[trigger] has_line(
        reminders_printed(items, flags),
        line,
    ) by {
        lemma_reminder_has_lines(items, flags, items.len(), k, line);
        lines_of_parts(head, blocks, foot);
    }
    assert(block[0] == head_line(r));
    assert(has_line(block, head_line(r)));
    if flags.all {
        let notes = opt_line(
            "      Notes: "@,
            match r.notes {
                Some(n) => Some(shortened(n@, 60)),
                None => None,
            },
        );
        let list = opt_line("      List: "@, opt_view(r.calendar_title));
        let id = seq!["      ID: "@ + r.identifier@];
        let details = detail_lines(r);
        let more: Seq<Seq<char>> = if flags.debug {
            debug_lines(r)
        } else {
            Seq::empty()
        };
        assert(has_line(id, id[0]));
        lines_of_parts(notes + list, id, Seq::empty());
        assert(notes + list + id + Seq::<Seq<char>>::empty() =~= details);
        if r.calendar_title is Some {
            assert(has_line(list, list[0]));
            lines_of_parts(notes, list, id);
        }
        lines_of_parts(seq![head_line(r)], details, more);
        assert(seq![head_line(r)] + details + more =~= block);
    }
}

/// A reminder is updated as the arguments say: what is given is written and
/// nothing else, where an empty completion date clears it. Nothing is done
/// where nothing is given, and the arguments are refused only where the
/// priority is above nine or the completion date has no point.
pub proof fn reminder_is_changed_as_given(
    title: Option<String>,
    notes: Option<String>,
    priority: Option<usize>,
    completion: Option<&str>,
    read: Option<DateRead>,
    r: Result<ReminderUpdate, CliError>,
)
    requires
        completion_read(completion, read),
        update_decided(title, notes, priority, opt_str_view(completion), read, r),
    ensures
        r is Ok && r->Ok_0 is Nothing <==> title is None && notes is None && priority is None
            && completion is None,
        r is Err ==> priority is Some && priority->0 > 9 || completion is Some
            && completion->0@.len() > 0 && has_no_point(completion->0@),
        r is Ok && r->Ok_0 is Apply ==> {
            let patch = r->Ok_0->Apply_0;
            &&& patch.title == title
            &&& patch.notes == notes
            &&& patch.priority == priority
            &&& priority is Some ==> priority->0 <= 9
            &&& (patch.completion_date is Some <==> completion is Some)
            &&& completion is Some && completion->0@.len() == 0 ==> patch.completion_date->0 is None
            &&& completion is Some && completion->0@.len() > 0 ==> patch.completion_date->0 is Some
                && stands_for(completion->0@, patch.completion_date->0->0)
            &&& patch.completed is None && patch.due_date is None && patch.start_date is None
            &&& patch.calendar_title is None && patch.due_date_timezone is None
        },
{
    if let Some(t) = completion {
        if t@.len() > 0 {
            command_dates_are_read_where_the_clock_shows_them(t@, read->0);
        }
    }
}

/// A geofence has the place that is given, and goes off on arriving or on
/// leaving as the word says; any other word is refused.
pub proof fn geofence_is_as_given(
    title: String,
    lat: Real,
    lng: Real,
    radius: Real,
    word: Seq<char>,
    r: Result<(StructuredLocation, AlarmProximity), CliError>,
)
    requires
        geofence_decided(title, lat, lng, radius, word, r),
    ensures
        r matches Ok((place, crossing)) ==> {
            &&& is_place(place, title@, lat, lng, radius)
            &&& (crossing is Enter <==> word == "enter"@ || word == "arrive"@ || word == "arrival"@)
            &&& (crossing is Leave <==> word == "leave"@ || word == "exit"@ || word
                == "departure"@)
        },
        r is Err <==> word != "enter"@ && word != "arrive"@ && word != "arrival"@ && word
            != "leave"@ && word != "exit"@ && word != "departure"@,
{
    reveal_strlit("enter");
    reveal_strlit("arrive");
    reveal_strlit("arrival");
    reveal_strlit("leave");
    reveal_strlit("exit");
    reveal_strlit("departure");
    assert("enter"@[0] == 'e' && "arrive"@[0] == 'a' && "arrival"@[0] == 'a');
    assert("leave"@[0] == 'l' && "exit"@[0] == 'e' && "departure"@[0] == 'd');
    assert("enter"@.len() == 5 && "exit"@.len() == 4);
}

/// A text is set as it is, and an empty one clears.
pub proof fn empty_values_clear(s: String)
    ensures
        value_of(s) is None <==> s@.len() == 0,
        value_of(s) matches Some(v) ==> v == s,
{
}

/// One reminder is printed with its title, whether it is completed, its
/// priority and its identifier, and with its notes and its list where it has
/// them.
pub proof fn reminder_is_printed_in_full(r: ReminderItem)
    ensures
        has_line(reminder_printed(r), "  Title:     "@ + r.title@),
        r.completed ==> has_line(reminder_printed(r), "  Status:    "@ + "Completed"@),
        !r.completed ==> has_line(reminder_printed(r), "  Status:    "@ + "Incomplete"@),
        r.priority == 0 ==> has_line(reminder_printed(r), "  Priority:  "@ + "None"@),
        0 < r.priority < 5 ==> has_line(
            reminder_printed(r),
            "  Priority:  "@ + ("High ("@ + decimal(r.priority as nat) + ")"@),
        ),
        r.priority == 5 ==> has_line(reminder_printed(r), "  Priority:  "@ + "Medium"@),
        5 < r.priority ==> has_line(
            reminder_printed(r),
            "  Priority:  "@ + ("Low ("@ + decimal(r.priority as nat) + ")"@),
        ),
        has_line(reminder_printed(r), "  ID:        "@ + r.identifier@),
        r.notes matches Some(n) ==> has_line(reminder_printed(r), "  Notes:     "@ + n@),
        r.calendar_title matches Some(l) ==> has_line(reminder_printed(r), "  List:      "@ + l@),
{
    let lines = reminder_printed(r);
    let notes = opt_line("  Notes:     "@, opt_view(r.notes));
    let list = opt_line("  List:      "@, opt_view(r.calendar_title));
    assert(lines[1] == "  Title:     "@ + r.title@);
    assert(has_line(lines, lines[2]));
    assert(has_line(lines, lines[3]));
    assert(lines.last() == "  ID:        "@ + r.identifier@);
    assert(has_line(lines, lines[lines.len() - 1]));
    if r.notes is Some {
        assert(lines[4] == notes[0]);
    }
    if r.calendar_title is Some {
        assert(lines[(4 + notes.len()) as int] == list[0]);
    }
}

/// With every field wanted, each date and each mark of a reminder is printed.
pub proof fn every_field_is_printed(r: ReminderItem)
    ensures
        has_line(debug_lines(r), "      Completed: "@ + bool_text(r.completed)),
        has_line(debug_lines(r), "      Priority: "@ + decimal(r.priority as nat)),
        has_line(debug_lines(r), "      Due Date: "@ + date_or_none(r.due_date)),
        has_line(debug_lines(r), "      Start Date: "@ + date_or_none(r.start_date)),
        has_line(debug_lines(r), "      Completion Date: "@ + date_or_none(r.completion_date)),
        has_line(debug_lines(r), "      Creation Date: "@ + date_or_none(r.creation_date)),
        has_line(debug_lines(r), "      Last Modified Date: "@ + date_or_none(r.last_modified_date)),
        has_line(debug_lines(r), "      Has Notes: "@ + bool_text(r.has_notes)),
        has_line(debug_lines(r), "      Has Alarms: "@ + bool_text(r.has_alarms)),
        has_line(
            debug_lines(r),
            "      Has Recurrence Rules: "@ + bool_text(r.has_recurrence_rules),
        ),
        has_line(debug_lines(r), "      Has Attendees: "@ + bool_text(r.has_attendees)),
        r.URL matches Some(u) ==> has_line(debug_lines(r), "      URL: "@ + u@),
        r.location matches Some(l) ==> has_line(debug_lines(r), "      Location: "@ + l@),
{
    let state = state_lines(r);
    let texts = text_lines(r);
    let history = history_lines(r);
    let all = debug_lines(r);
    assert(has_line(state, state[0]) && has_line(state, state[1]) && has_line(state, state[2]));
    assert(has_line(state, state[3]) && has_line(state, state[4]));
    lines_of_parts(Seq::empty(), state, texts + history);
    assert(Seq::<Seq<char>>::empty() + state + (texts + history) =~= all);
    lines_of_parts(state, texts, history);
    let notes = opt_line("      Notes: "@, opt_view(r.notes)).len() as int;
    assert(texts[notes] == "      Has Notes: "@ + bool_text(r.has_notes));
    assert(has_line(texts, texts[notes]));
    if r.URL is Some {
        assert(texts.last() == "      URL: "@ + r.URL->0@);
        assert(has_line(texts, texts[texts.len() - 1]));
    }
    if r.location is Some {
        let url = opt_line("      URL: "@, opt_view(r.URL)).len() as int;
        assert(texts[texts.len() - 1 - url] == "      Location: "@ + r.location->0@);
        assert(has_line(texts, texts[texts.len() - 1 - url]));
    }
    lines_of_parts(state + texts, history, Seq::empty());
    assert(state + texts + history + Seq::<Seq<char>>::empty() =~= all);
    let n = history.len() as int;
    assert(has_line(history, history[0]) && has_line(history, history[1]));
    assert(history[n - 3] == "      Has Alarms: "@ + bool_text(r.has_alarms));
    assert(history[n - 2] == "      Has Recurrence Rules: "@ + bool_text(r.has_recurrence_rules));
    assert(history[n - 1] == "      Has Attendees: "@ + bool_text(r.has_attendees));
    assert(has_line(history, history[n - 3]) && has_line(history, history[n - 2]));
    assert(has_line(history, history[n - 1]));
}

} // verus!
