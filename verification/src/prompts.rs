//! The prompts of the tool server.

use crate::clock::{minute_text, LocalDateTime, DATE_TIME};
use crate::dates::{bad_date, dates_are_read_as_they_are_meant, opt_outcome, read_opt, sets_date, Reading};
use crate::error::{internal, mcp_internal_because, McpError};
use crate::listing::{keep, lemma_filter_all, what_passes_is_kept};
use crate::lists::{join_titles, title_list, titles};
use crate::model::{CalendarInfo, ReminderDraft, ReminderItem, ReminderPatch, StoreError};
use crate::batch::no_change;
use crate::request::{CreateReminderPromptArgs, ListRemindersPromptArgs, MoveReminderPromptArgs};
use crate::server::EventKitServer;
use crate::text::{contains_text, decimal, has_text, holding_goes_up, is_text, joined_texts_hold_every_part, lowercase, occurs_at, parts_are_held, opt_str_view, opt_view, push_decimal, to_lowercase, views};
use vstd::prelude::*;
use vstd::string::*;

verus! {

/// What a prompt answers.
#[derive(PartialEq, Eq, Debug)]
pub struct PromptReply {
    pub text: String,
    pub description: &'static str,
}

/// A prompt answers with a text.
pub open spec fn says(reply: PromptReply, text: Seq<char>, description: Seq<char>) -> bool {
    reply.text@ == text && reply.description@ == description
}

// ---------------------------------------------------------------------------
// Incomplete reminders
// ---------------------------------------------------------------------------

/// The reminder is in a list, or it does not matter in which.
pub open spec fn in_list(r: ReminderItem, list: Option<Seq<char>>) -> bool {
    list is Some ==> opt_view(r.calendar_title) == list
}

/// Keeps the reminders of a list, or all of them.
pub fn keep_in_list(items: Vec<ReminderItem>, list: Option<&str>) -> (kept: Vec<ReminderItem>)
    ensures
        kept@ == items@.filter(|r: ReminderItem| in_list(r, opt_str_view(list))),
{
    let passes = |r: &ReminderItem| -> (b: bool)
        ensures
            b == in_list(*r, opt_str_view(list)),
        {
            match list {
                Some(n) => is_text(&r.calendar_title, n),
                None => true,
            }
        };
    keep(items, passes, Ghost(|r: ReminderItem| in_list(r, opt_str_view(list))))
}

/// One reminder on a line.
pub open spec fn reminder_line(r: ReminderItem) -> Seq<char> {
    let mark = if r.completed {
        "x"@
    } else {
        " "@
    };
    let due = match r.due_date {
        Some(d) => ", due: "@ + minute_text(d),
        None => Seq::empty(),
    };
    let list = match r.calendar_title {
        Some(l) => ", list: "@ + l@,
        None => Seq::empty(),
    };
    "- ["@ + mark + "] "@ + r.title@ + " (id: "@ + r.identifier@ + ")"@ + due + list + "\n"@
}

/// The first `n` reminders, each on a line.
pub open spec fn reminder_lines(items: Seq<ReminderItem>, n: nat) -> Seq<char>
    decreases n,
{
    if n == 0 {
        Seq::empty()
    } else {
        reminder_lines(items, (n - 1) as nat) + reminder_line(items[n - 1])
    }
}

fn push_reminder_line(out: &mut String, r: &ReminderItem)
    ensures
        final(out)@ == old(out)@ + reminder_line(*r),
{
    let mut line: String = "- [".to_owned();
    if r.completed {
        line.append("x");
    } else {
        line.append(" ");
    }
    line.append("] ");
    line.append(r.title.as_str());
    line.append(" (id: ");
    line.append(r.identifier.as_str());
    line.append(")");
    let mut due: String = String::new();
    if let Some(d) = &r.due_date {
        due = ", due: ".to_owned();
        due.append(d.format(DATE_TIME).as_str());
    }
    line.append(due.as_str());
    let mut list: String = String::new();
    if let Some(l) = &r.calendar_title {
        list = ", list: ".to_owned();
        list.append(l.as_str());
    }
    line.append(list.as_str());
    line.append("\n");
    out.append(line.as_str());
}

/// What the prompt on incomplete reminders says.
pub open spec fn incomplete_text(items: Seq<ReminderItem>) -> Seq<char> {
    let body = if items.len() == 0 {
        "No incomplete reminders found."@
    } else {
        reminder_lines(items, items.len())
    };
    "Here are the current incomplete reminders:\n\n"@ + body
        + "\n\nPlease help me manage these reminders."@
}

// ---------------------------------------------------------------------------
// Reminder lists
// ---------------------------------------------------------------------------

/// One reminder list on a line.
pub open spec fn list_line(c: CalendarInfo) -> Seq<char> {
    "- "@ + c.title@ + " (id: "@ + c.identifier@ + ")\n"@
}

/// The first `n` reminder lists, each on a line.
pub open spec fn list_lines(lists: Seq<CalendarInfo>, n: nat) -> Seq<char>
    decreases n,
{
    if n == 0 {
        Seq::empty()
    } else {
        list_lines(lists, (n - 1) as nat) + list_line(lists[n - 1])
    }
}

/// What the prompt on reminder lists says.
pub open spec fn lists_text(lists: Seq<CalendarInfo>) -> Seq<char> {
    let body = if lists.len() == 0 {
        "No reminder lists found."@
    } else {
        list_lines(lists, lists.len())
    };
    "Here are the available reminder lists:\n\n"@ + body
        + "\n\nWhich list would you like to work with?"@
}

// ---------------------------------------------------------------------------
// Moving
// ---------------------------------------------------------------------------

/// The title of the list holds the name, whatever the case.
pub open spec fn list_matches(list: CalendarInfo, name: Seq<char>) -> bool {
    contains_text(lowercase(list.title@), lowercase(name))
}

/// The list at `at` is the first that matches the name.
pub open spec fn first_match(lists: Seq<CalendarInfo>, name: Seq<char>, at: int) -> bool {
    &&& 0 <= at < lists.len()
    &&& list_matches(lists[at], name)
    &&& forall|k: int| 0 <= k < at ==> !list_matches(#[trigger] lists[k], name)
}

/// The title at `at` is the first that holds a text.
pub open spec fn first_holding(titles: Seq<Seq<char>>, wanted: Seq<char>, at: int) -> bool {
    &&& 0 <= at < titles.len()
    &&& contains_text(titles[at], wanted)
    &&& forall|k: int| 0 <= k < at ==> !contains_text(#[trigger] titles[k], wanted)
}

/// The first title that holds a text.
pub fn find_holding(titles: &Vec<String>, wanted: &str) -> (found: Option<usize>)
    ensures
        match found {
            Some(at) => first_holding(views(titles@), wanted@, at as int),
            None => forall|k: int|
                0 <= k < titles@.len() ==> !contains_text(#[trigger] views(titles@)[k], wanted@),
        },
{
    let mut i: usize = 0;
    while i < titles.len()
        invariant
            i <= titles@.len(),
            forall|k: int| 0 <= k < i ==> !contains_text(#[trigger] views(titles@)[k], wanted@),
        decreases titles@.len() - i,
    {
        if has_text(titles[i].as_str(), wanted) {
            assert(contains_text(views(titles@)[i as int], wanted@));
            return Some(i);
        }
        i = i + 1;
    }
    None
}

/// The first list that matches the name.
pub fn find_list(lists: &Vec<CalendarInfo>, name: &str) -> (found: Option<usize>)
    ensures
        match found {
            Some(at) => first_match(lists@, name@, at as int),
            None => forall|k: int|
                0 <= k < lists@.len() ==> !list_matches(#[trigger] lists@[k], name@),
        },
{
    let wanted: String = to_lowercase(name);
    let mut lowered: Vec<String> = Vec::new();
    let mut i: usize = 0;
    while i < lists.len()
        invariant
            i <= lists@.len(),
            lowered@.len() == i,
            forall|k: int|
                0 <= k < i ==> #[trigger] views(lowered@)[k] == lowercase(lists@[k].title@),
        decreases lists@.len() - i,
    {
        let ghost before = lowered@;
        lowered.push(to_lowercase(lists[i].title.as_str()));
        assert forall|k: int| 0 <= k < i + 1 implies #[trigger] views(lowered@)[k] == lowercase(
            lists@[k].title@,
        ) by {
            if k < i {
                assert(views(before)[k] == views(lowered@)[k]);
            }
        }
        i = i + 1;
    }
    let found: Option<usize> = find_holding(&lowered, wanted.as_str());
    proof {
        assert forall|k: int| 0 <= k < lists@.len() implies list_matches(
            #[trigger] lists@[k],
            name@,
        ) == contains_text(views(lowered@)[k], wanted@) by {}
    }
    found
}

/// What the prompt that moves a reminder does next.
#[derive(PartialEq, Eq, Debug)]
pub enum MovePrompt {
    /// Update a reminder.
    Update { id: String, patch: ReminderPatch },
    /// Answer.
    Answer(PromptReply),
}

/// The reminder goes to the first list that matches; where none does, the
/// lists are told.
pub open spec fn move_decided(
    args: MoveReminderPromptArgs,
    lists: Seq<CalendarInfo>,
    next: MovePrompt,
) -> bool {
    match next {
        MovePrompt::Update { id, patch } => {
            &&& id == args.reminder_id
            &&& patch.calendar_title is Some
            &&& patch == (ReminderPatch { calendar_title: patch.calendar_title, ..no_change() })
            &&& exists|at: int| #[trigger]
                first_match(lists, args.destination_list@, at) && patch.calendar_title->0
                    == lists[at].title
        },
        MovePrompt::Answer(reply) => {
            &&& forall|k: int|
                0 <= k < lists.len() ==> !list_matches(#[trigger] lists[k], args.destination_list@)
            &&& says(
                reply,
                "Could not find reminder list \""@ + args.destination_list@
                    + "\". Available lists: "@ + title_list(lists),
                "List not found"@,
            )
        },
    }
}

// ---------------------------------------------------------------------------
// Creating
// ---------------------------------------------------------------------------

/// What the prompt that creates a reminder asks of the store, given what came
/// of the due date.
pub open spec fn draft_decided(
    args: CreateReminderPromptArgs,
    due: Option<Result<LocalDateTime, String>>,
    r: Result<ReminderDraft, McpError>,
) -> bool {
    match due {
        Some(Err(m)) => r is Err && internal(r->Err_0, "Invalid due date: "@ + m@),
        _ => r == Ok::<ReminderDraft, McpError>(
            ReminderDraft {
                title: args.title,
                notes: args.notes,
                calendar_title: args.list_name,
                priority: match args.priority {
                    Some(p) => Some(p as usize),
                    None => None,
                },
                due_date: match due {
                    Some(Ok(d)) => Some(d),
                    _ => None,
                },
                start_date: None,
                due_date_timezone: None,
            },
        ),
    }
}

/// What the prompt that creates a reminder asks of the store, given what came
/// of the due date.
pub fn decide_draft(
    args: CreateReminderPromptArgs,
    due: Option<Result<LocalDateTime, String>>,
) -> (r: Result<ReminderDraft, McpError>)
    ensures
        draft_decided(args, due, r),
{
    let due_date: Option<LocalDateTime> = match due {
        None => None,
        Some(Ok(d)) => Some(d),
        Some(Err(m)) => return Err(mcp_internal_because("Invalid due date: ", m.as_str())),
    };
    let priority: Option<usize> = match args.priority {
        Some(p) => Some(p as usize),
        None => None,
    };
    Ok(
        ReminderDraft {
            title: args.title,
            notes: args.notes,
            calendar_title: args.list_name,
            priority,
            due_date,
            start_date: None,
            due_date_timezone: None,
        },
    )
}

/// What is said of a reminder that was created.
pub open spec fn created_text(r: ReminderItem) -> Seq<char> {
    let title = "Created reminder: \""@ + r.title@ + "\""@;
    let notes = match r.notes {
        Some(n) => title + "\nNotes: "@ + n@,
        None => title,
    };
    let priority = if r.priority > 0 {
        notes + "\nPriority: "@ + decimal(r.priority as nat)
    } else {
        notes
    };
    let due = match r.due_date {
        Some(d) => priority + "\nDue: "@ + minute_text(d),
        None => priority,
    };
    match r.calendar_title {
        Some(l) => due + "\nList: "@ + l@,
        None => due,
    }
}

// ---------------------------------------------------------------------------
// The prompts
// ---------------------------------------------------------------------------

impl EventKitServer {
    /// Tells the incomplete reminders, of one list or of all.
    pub fn incomplete_reminders(
        &self,
        args: ListRemindersPromptArgs,
        reply: Result<Vec<ReminderItem>, StoreError>,
    ) -> (r: Result<PromptReply, McpError>)
        ensures
            match reply {
                Ok(items) => r is Ok && says(
                    r->Ok_0,
                    incomplete_text(
                        items@.filter(|i: ReminderItem| in_list(i, opt_view(args.list_name))),
                    ),
                    "Incomplete reminders"@,
                ),
                Err(e) => r is Err && internal(r->Err_0, "Failed to list reminders: "@ + e.text@),
            },
    {
        let items: Vec<ReminderItem> = match reply {
            Ok(items) => items,
            Err(e) => return Err(
                mcp_internal_because("Failed to list reminders: ", e.text.as_str()),
            ),
        };
        let list: Option<&str> = match &args.list_name {
            Some(n) => Some(n.as_str()),
            None => None,
        };
        let kept: Vec<ReminderItem> = keep_in_list(items, list);
        assert(opt_str_view(list) == opt_view(args.list_name));
        let mut body: String = String::new();
        let mut i: usize = 0;
        while i < kept.len()
            invariant
                i <= kept@.len(),
                body@ == reminder_lines(kept@, i as nat),
            decreases kept@.len() - i,
        {
            push_reminder_line(&mut body, &kept[i]);
            i = i + 1;
        }
        if kept.is_empty() {
            body = "No incomplete reminders found.".to_owned();
        }
        let mut text: String = "Here are the current incomplete reminders:\n\n".to_owned();
        text.append(body.as_str());
        text.append("\n\nPlease help me manage these reminders.");
        Ok(PromptReply { text, description: "Incomplete reminders" })
    }

    /// Tells the reminder lists.
    pub fn reminder_lists_prompt(&self, reply: Result<Vec<CalendarInfo>, StoreError>) -> (r: Result<
        PromptReply,
        McpError,
    >)
        ensures
            match reply {
                Ok(lists) => r is Ok && says(
                    r->Ok_0,
                    lists_text(lists@),
                    "Available reminder lists"@,
                ),
                Err(e) => r is Err && internal(r->Err_0, "Failed to list calendars: "@ + e.text@),
            },
    {
        let lists: Vec<CalendarInfo> = match reply {
            Ok(lists) => lists,
            Err(e) => return Err(
                mcp_internal_because("Failed to list calendars: ", e.text.as_str()),
            ),
        };
        let mut body: String = String::new();
        let mut i: usize = 0;
        while i < lists.len()
            invariant
                i <= lists@.len(),
                body@ == list_lines(lists@, i as nat),
            decreases lists@.len() - i,
        {
            let mut line: String = "- ".to_owned();
            line.append(lists[i].title.as_str());
            line.append(" (id: ");
            line.append(lists[i].identifier.as_str());
            line.append(")\n");
            body.append(line.as_str());
            i = i + 1;
        }
        if lists.is_empty() {
            body = "No reminder lists found.".to_owned();
        }
        let mut text: String = "Here are the available reminder lists:\n\n".to_owned();
        text.append(body.as_str());
        text.append("\n\nWhich list would you like to work with?");
        Ok(PromptReply { text, description: "Available reminder lists" })
    }

    /// Moves a reminder to another list: what to do once the lists are known.
    pub fn move_reminder_prompt(
        &self,
        args: MoveReminderPromptArgs,
        reply: Result<Vec<CalendarInfo>, StoreError>,
    ) -> (r: Result<MovePrompt, McpError>)
        ensures
            match reply {
                Ok(lists) => r is Ok && move_decided(args, lists@, r->Ok_0),
                Err(e) => r is Err && internal(r->Err_0, "Failed to list calendars: "@ + e.text@),
            },
    {
        let lists: Vec<CalendarInfo> = match reply {
            Ok(lists) => lists,
            Err(e) => return Err(
                mcp_internal_because("Failed to list calendars: ", e.text.as_str()),
            ),
        };
        match find_list(&lists, args.destination_list.as_str()) {
            Some(at) => {
                let patch: ReminderPatch = ReminderPatch {
                    title: None,
                    notes: None,
                    completed: None,
                    priority: None,
                    due_date: None,
                    start_date: None,
                    calendar_title: Some(lists[at].title.clone()),
                    due_date_timezone: None,
                    completion_date: None,
                };
                assert(first_match(lists@, args.destination_list@, at as int));
                Ok(MovePrompt::Update { id: args.reminder_id, patch })
            },
            None => {
                let mut text: String = "Could not find reminder list \"".to_owned();
                text.append(args.destination_list.as_str());
                text.append("\". Available lists: ");
                text.append(join_titles(&lists).as_str());
                Ok(MovePrompt::Answer(PromptReply { text, description: "List not found" }))
            },
        }
    }

    /// Moves a reminder to another list: the answer.
    pub fn move_reminder_reply(&self, list: &str, reply: Result<ReminderItem, StoreError>) -> (r:
        PromptReply)
        ensures
            match reply {
                Ok(item) => says(
                    r,
                    "Moved reminder \""@ + item.title@ + "\" to list \""@ + list@ + "\"."@,
                    "Reminder moved"@,
                ),
                Err(e) => says(r, "Failed to move reminder: "@ + e.text@, "Move failed"@),
            },
    {
        match reply {
            Ok(item) => {
                let mut text: String = "Moved reminder \"".to_owned();
                text.append(item.title.as_str());
                text.append("\" to list \"");
                text.append(list);
                text.append("\".");
                PromptReply { text, description: "Reminder moved" }
            },
            Err(e) => {
                let mut text: String = "Failed to move reminder: ".to_owned();
                text.append(e.text.as_str());
                PromptReply { text, description: "Move failed" }
            },
        }
    }

    /// Creates a reminder with details: what to create.
    pub fn create_detailed_reminder_prompt(&self, args: CreateReminderPromptArgs) -> (r: Result<
        ReminderDraft,
        McpError,
    >)
        ensures
            exists|due: Option<Result<LocalDateTime, String>>| #[trigger]
                opt_outcome(Reading::Date, args.due_date, due) && draft_decided(args, due, r),
    {
        let due: Option<Result<LocalDateTime, String>> = read_opt(Reading::Date, &args.due_date);
        assert(opt_outcome(Reading::Date, args.due_date, due));
        decide_draft(args, due)
    }

    /// Creates a reminder with details: the answer.
    pub fn create_detailed_reminder_reply(&self, reply: Result<ReminderItem, StoreError>) -> (r:
        PromptReply)
        ensures
            match reply {
                Ok(item) => says(r, created_text(item), "Reminder created"@),
                Err(e) => says(r, "Failed to create reminder: "@ + e.text@, "Creation failed"@),
            },
    {
        match reply {
            Ok(item) => {
                let mut text: String = "Created reminder: \"".to_owned();
                text.append(item.title.as_str());
                text.append("\"");
                if let Some(n) = &item.notes {
                    text.append("\nNotes: ");
                    text.append(n.as_str());
                }
                if item.priority > 0 {
                    text.append("\nPriority: ");
                    push_decimal(&mut text, item.priority as u64);
                }
                if let Some(d) = &item.due_date {
                    text.append("\nDue: ");
                    text.append(d.format(DATE_TIME).as_str());
                }
                if let Some(l) = &item.calendar_title {
                    text.append("\nList: ");
                    text.append(l.as_str());
                }
                PromptReply { text, description: "Reminder created" }
            },
            Err(e) => {
                let mut text: String = "Failed to create reminder: ".to_owned();
                text.append(e.text.as_str());
                PromptReply { text, description: "Creation failed" }
            },
        }
    }
}

// ---------------------------------------------------------------------------
// What the prompts are for
// ---------------------------------------------------------------------------

proof fn lemma_line_held(items: Seq<ReminderItem>, n: nat, k: int)
    requires
        0 <= k < n <= items.len(),
    ensures
        contains_text(reminder_lines(items, n), reminder_line(items[k])),
    decreases n,
{
    let before = reminder_lines(items, (n - 1) as nat);
    let last = reminder_line(items[n - 1]);
    if k == n - 1 {
        parts_are_held(before, last, Seq::empty());
        assert(before + last + Seq::<char>::empty() =~= before + last);
    } else {
        lemma_line_held(items, (n - 1) as nat, k);
        holding_goes_up(Seq::empty(), before, last, reminder_line(items[k]));
        assert(Seq::<char>::empty() + before + last =~= before + last);
    }
}

proof fn lemma_line_says(r: ReminderItem)
    ensures
        contains_text(reminder_line(r), "] "@ + r.title@ + " (id: "@ + r.identifier@ + ")"@),
        r.completed ==> contains_text(reminder_line(r), "- ["@ + "x"@ + "] "@ + r.title@),
        !r.completed ==> contains_text(reminder_line(r), "- ["@ + " "@ + "] "@ + r.title@),
        r.due_date matches Some(d) ==> contains_text(reminder_line(r), ", due: "@ + minute_text(d)),
        r.calendar_title matches Some(l) ==> contains_text(reminder_line(r), ", list: "@ + l@),
{
    let mark = if r.completed {
        "x"@
    } else {
        " "@
    };
    let due = match r.due_date {
        Some(d) => ", due: "@ + minute_text(d),
        None => Seq::empty(),
    };
    let list = match r.calendar_title {
        Some(l) => ", list: "@ + l@,
        None => Seq::empty(),
    };
    let named = "] "@ + r.title@ + " (id: "@ + r.identifier@ + ")"@;
    let marked = "- ["@ + mark + "] "@ + r.title@;
    let line = reminder_line(r);
    parts_are_held("- ["@ + mark, named, due + list + "\n"@);
    assert("- ["@ + mark + named + (due + list + "\n"@) =~= line);
    parts_are_held(
        Seq::empty(),
        marked,
        " (id: "@ + r.identifier@ + ")"@ + due + list + "\n"@,
    );
    assert(Seq::<char>::empty() + marked + (" (id: "@ + r.identifier@ + ")"@ + due + list + "\n"@)
        =~= line);
    parts_are_held("- ["@ + mark + named, due, list + "\n"@);
    assert("- ["@ + mark + named + due + (list + "\n"@) =~= line);
    parts_are_held("- ["@ + mark + named + due, list, "\n"@);
    assert("- ["@ + mark + named + due + list + "\n"@ =~= line);
}

/// The prompt on incomplete reminders tells each of them: its title with its
/// identifier, whether it is completed, when it is due and its list.
pub proof fn incomplete_prompt_tells_every_reminder(items: Seq<ReminderItem>, k: int)
    requires
        0 <= k < items.len(),
    ensures
        ({
            let r = items[k];
            let text = incomplete_text(items);
            &&& contains_text(text, "] "@ + r.title@ + " (id: "@ + r.identifier@ + ")"@)
            &&& r.completed ==> contains_text(text, "- ["@ + "x"@ + "] "@ + r.title@)
            &&& !r.completed ==> contains_text(text, "- ["@ + " "@ + "] "@ + r.title@)
            &&& r.due_date matches Some(d) ==> contains_text(text, ", due: "@ + minute_text(d))
            &&& r.calendar_title matches Some(l) ==> contains_text(text, ", list: "@ + l@)
        }),
{
    let r = items[k];
    let lead = "Here are the current incomplete reminders:\n\n"@;
    let foot = "\n\nPlease help me manage these reminders."@;
    let body = reminder_lines(items, items.len());
    lemma_line_held(items, items.len(), k);
    lemma_line_says(r);
    holding_goes_up(lead, body, foot, reminder_line(r));
    assert forall|t: Seq<char>| contains_text(reminder_line(r), t) implies #[trigger] contains_text(
        incomplete_text(items),
        t,
    ) by {
        lemma_holds_through(incomplete_text(items), reminder_line(r), t);
    }
}

proof fn lemma_holds_through(whole: Seq<char>, part: Seq<char>, text: Seq<char>)
    requires
        contains_text(whole, part),
        contains_text(part, text),
    ensures
        contains_text(whole, text),
{
    let at = choose|at: int| occurs_at(whole, part, at);
    let before = whole.subrange(0, at);
    let after = whole.subrange(at + part.len(), whole.len() as int);
    holding_goes_up(before, part, after, text);
    assert(whole =~= before + whole.subrange(at, at + part.len()) + after);
}

/// With a list the reminders in it are told and no others; without one, all of
/// them.
pub proof fn reminders_are_kept_by_list(items: Seq<ReminderItem>, list: Option<Seq<char>>)
    ensures
        ({
            let kept = items.filter(|r: ReminderItem| in_list(r, list));
            &&& list is None ==> kept == items
            &&& list is Some ==> forall|i: int|
                0 <= i < kept.len() ==> (#[trigger] kept[i]).calendar_title is Some
                    && kept[i].calendar_title->0@ == list->0 && items.contains(kept[i])
            &&& list is Some ==> forall|i: int|
                0 <= i < items.len() && (#[trigger] items[i]).calendar_title is Some
                    && items[i].calendar_title->0@ == list->0 ==> kept.contains(items[i])
        }),
{
    let pred = |r: ReminderItem| in_list(r, list);
    what_passes_is_kept(items, pred);
    if list is None {
        lemma_filter_all(items, pred);
    } else {
        let kept = items.filter(pred);
        assert forall|i: int| 0 <= i < kept.len() implies (#[trigger] kept[i]).calendar_title
            is Some && kept[i].calendar_title->0@ == list->0 && items.contains(kept[i]) by {
            assert(pred(kept[i]));
        }
        assert forall|i: int|
            0 <= i < items.len() && (#[trigger] items[i]).calendar_title is Some
                && items[i].calendar_title->0@ == list->0 implies kept.contains(items[i]) by {
            assert(pred(items[i]));
        }
    }
}

proof fn lemma_list_held(lists: Seq<CalendarInfo>, n: nat, k: int)
    requires
        0 <= k < n <= lists.len(),
    ensures
        contains_text(list_lines(lists, n), list_line(lists[k])),
    decreases n,
{
    let before = list_lines(lists, (n - 1) as nat);
    let last = list_line(lists[n - 1]);
    if k == n - 1 {
        parts_are_held(before, last, Seq::empty());
        assert(before + last + Seq::<char>::empty() =~= before + last);
    } else {
        lemma_list_held(lists, (n - 1) as nat, k);
        holding_goes_up(Seq::empty(), before, last, list_line(lists[k]));
        assert(Seq::<char>::empty() + before + last =~= before + last);
    }
}

/// The prompt on reminder lists tells each of them with its identifier.
pub proof fn lists_prompt_tells_every_list(lists: Seq<CalendarInfo>, k: int)
    requires
        0 <= k < lists.len(),
    ensures
        contains_text(
            lists_text(lists),
            "- "@ + lists[k].title@ + " (id: "@ + lists[k].identifier@ + ")\n"@,
        ),
{
    lemma_list_held(lists, lists.len(), k);
    holding_goes_up(
        "Here are the available reminder lists:\n\n"@,
        list_lines(lists, lists.len()),
        "\n\nWhich list would you like to work with?"@,
        list_line(lists[k]),
    );
}

/// A reminder is moved to a list whose title holds the name, whatever the case,
/// and to the first such list; nothing else about it changes. It stays where it
/// is only where no title holds the name, and then every list is told.
pub proof fn reminder_moves_to_the_list_that_is_named(
    args: MoveReminderPromptArgs,
    lists: Seq<CalendarInfo>,
    next: MovePrompt,
)
    requires
        move_decided(args, lists, next),
    ensures
        next matches MovePrompt::Update { id, patch } ==> {
            &&& id == args.reminder_id
            &&& patch.calendar_title is Some
            &&& contains_text(
                lowercase(patch.calendar_title->0@),
                lowercase(args.destination_list@),
            )
            &&& exists|at: int|
                {
                    &&& 0 <= at < lists.len()
                    &&& (#[trigger] lists[at]).title == patch.calendar_title->0
                    &&& forall|k: int|
                        0 <= k < at ==> !contains_text(
                            lowercase((#[trigger] lists[k]).title@),
                            lowercase(args.destination_list@),
                        )
                }
            &&& patch.title is None && patch.notes is None && patch.completed is None
            &&& patch.priority is None && patch.due_date is None && patch.start_date is None
            &&& patch.due_date_timezone is None && patch.completion_date is None
        },
        next is Answer ==> forall|k: int|
            0 <= k < lists.len() ==> !contains_text(
                lowercase((#[trigger] lists[k]).title@),
                lowercase(args.destination_list@),
            ),
        next matches MovePrompt::Answer(reply) ==> contains_text(
            reply.text@,
            args.destination_list@,
        ) && forall|k: int|
            0 <= k < lists.len() ==> contains_text(reply.text@, (#[trigger] lists[k]).title@),
{
    match next {
        MovePrompt::Update { id, patch } => {
            let at = choose|at: int| #[trigger]
                first_match(lists, args.destination_list@, at) && patch.calendar_title->0
                    == lists[at].title;
            assert(lists[at].title == patch.calendar_title->0);
            assert forall|k: int| 0 <= k < at implies !contains_text(
                lowercase((#[trigger] lists[k]).title@),
                lowercase(args.destination_list@),
            ) by {
                assert(!list_matches(lists[k], args.destination_list@));
            }
        },
        MovePrompt::Answer(reply) => {
            assert forall|k: int| 0 <= k < lists.len() implies !contains_text(
                lowercase((#[trigger] lists[k]).title@),
                lowercase(args.destination_list@),
            ) by {
                assert(!list_matches(lists[k], args.destination_list@));
            }
            let lead = "Could not find reminder list \""@;
            let mid = "\". Available lists: "@;
            let all = title_list(lists);
            let name = args.destination_list@;
            parts_are_held(lead, name, mid + all);
            assert(lead + name + (mid + all) =~= reply.text@);
            assert forall|k: int| 0 <= k < lists.len() implies contains_text(
                reply.text@,
                (#[trigger] lists[k]).title@,
            ) by {
                joined_texts_hold_every_part(titles(lists), ", "@, k);
                assert(titles(lists)[k] == lists[k].title@);
                holding_goes_up(lead + name + mid, all, Seq::empty(), lists[k].title@);
                assert(lead + name + mid + all + Seq::<char>::empty() =~= reply.text@);
            }
        },
    }
}

/// A reminder is created as the prompt describes it, due at the point that the
/// date means; it is refused only where the date means none.
pub proof fn reminder_is_drafted_as_described(
    args: CreateReminderPromptArgs,
    due: Option<Result<LocalDateTime, String>>,
    r: Result<ReminderDraft, McpError>,
)
    requires
        opt_outcome(Reading::Date, args.due_date, due),
        draft_decided(args, due, r),
    ensures
        r is Err ==> bad_date(Reading::Date, args.due_date),
        r matches Ok(draft) ==> {
            &&& draft.title == args.title
            &&& draft.notes == args.notes
            &&& draft.calendar_title == args.list_name
            &&& (draft.priority is Some <==> args.priority is Some)
            &&& args.priority matches Some(p) ==> draft.priority->0 == p
            &&& sets_date(Reading::Date, args.due_date, draft.due_date)
            &&& draft.start_date is None
            &&& draft.due_date_timezone is None
        },
{
    if let Some(t) = args.due_date {
        dates_are_read_as_they_are_meant(Reading::Date, t@, due->0);
    }
}

/// What is said of a created reminder tells its title, and its notes, its
/// priority, when it is due and its list where it has them.
pub proof fn created_reminder_is_told(r: ReminderItem)
    ensures
        contains_text(created_text(r), "Created reminder: \""@ + r.title@ + "\""@),
        r.notes matches Some(n) ==> contains_text(created_text(r), "\nNotes: "@ + n@),
        r.priority > 0 ==> contains_text(
            created_text(r),
            "\nPriority: "@ + decimal(r.priority as nat),
        ),
        r.due_date matches Some(d) ==> contains_text(created_text(r), "\nDue: "@ + minute_text(d)),
        r.calendar_title matches Some(l) ==> contains_text(created_text(r), "\nList: "@ + l@),
{
    let title = "Created reminder: \""@ + r.title@ + "\""@;
    let notes = match r.notes {
        Some(n) => "\nNotes: "@ + n@,
        None => Seq::empty(),
    };
    let priority = if r.priority > 0 {
        "\nPriority: "@ + decimal(r.priority as nat)
    } else {
        Seq::empty()
    };
    let due = match r.due_date {
        Some(d) => "\nDue: "@ + minute_text(d),
        None => Seq::empty(),
    };
    let list = match r.calendar_title {
        Some(l) => "\nList: "@ + l@,
        None => Seq::empty(),
    };
    let with_notes = title + notes;
    let with_priority = with_notes + priority;
    let with_due = with_priority + due;
    match r.notes {
        Some(n) => lemma_joins(title, "\nNotes: "@, n@),
        None => lemma_joins(title, Seq::empty(), Seq::empty()),
    }
    lemma_joins(with_notes, "\nPriority: "@, decimal(r.priority as nat));
    lemma_joins(with_notes, Seq::empty(), Seq::empty());
    match r.due_date {
        Some(d) => lemma_joins(with_priority, "\nDue: "@, minute_text(d)),
        None => lemma_joins(with_priority, Seq::empty(), Seq::empty()),
    }
    match r.calendar_title {
        Some(l) => lemma_joins(with_due, "\nList: "@, l@),
        None => lemma_joins(with_due, Seq::empty(), Seq::empty()),
    }
    lemma_five_parts(title, notes, priority, due, list);
}

proof fn lemma_joins(before: Seq<char>, lead: Seq<char>, text: Seq<char>)
    ensures
        before + lead + text == before + (lead + text),
        before + Seq::<char>::empty() == before,
{
    assert(before + lead + text =~= before + (lead + text));
    assert(before + Seq::<char>::empty() =~= before);
}

proof fn lemma_two_parts(before: Seq<char>, after: Seq<char>)
    ensures
        contains_text(before + after, before),
        contains_text(before + after, after),
{
    parts_are_held(Seq::empty(), before, after);
    assert(Seq::<char>::empty() + before + after =~= before + after);
    parts_are_held(before, after, Seq::empty());
    assert(before + after + Seq::<char>::empty() =~= before + after);
}

proof fn lemma_five_parts(
    a: Seq<char>,
    b: Seq<char>,
    c: Seq<char>,
    d: Seq<char>,
    e: Seq<char>,
)
    ensures
        contains_text(a + b + c + d + e, a),
        contains_text(a + b + c + d + e, b),
        contains_text(a + b + c + d + e, c),
        contains_text(a + b + c + d + e, d),
        contains_text(a + b + c + d + e, e),
{
    let whole = a + b + c + d + e;
    lemma_two_parts(a + b + c + d, e);
    lemma_two_parts(a + b + c, d);
    lemma_two_parts(a + b, c);
    lemma_two_parts(a, b);
    lemma_holds_through(a + b + c, a + b, a);
    lemma_holds_through(a + b + c, a + b, b);
    lemma_holds_through(a + b + c + d, a + b + c, a);
    lemma_holds_through(a + b + c + d, a + b + c, b);
    lemma_holds_through(a + b + c + d, a + b + c, c);
    lemma_holds_through(whole, a + b + c + d, a);
    lemma_holds_through(whole, a + b + c + d, b);
    lemma_holds_through(whole, a + b + c + d, c);
    lemma_holds_through(whole, a + b + c + d, d);
}

} // verus!
