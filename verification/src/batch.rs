//! The tools that change many items at once.
//!
//! A tool starts with a [`BatchStep`]. As long as it is a call, the call is made
//! and its reply handed to [`BatchPending::with_reply`].

use crate::clock::LocalDateTime;
use crate::dates::{bad_patch, dates_are_read_as_they_are_meant, opt_patch, patch_of, patch_outcome, read_patch, supplied_texts_are_written, writes_date, writes_text, Reading};
use crate::model::{EventPatch, EventSpan, ReminderPatch, StoreError};
use crate::output::{BatchItemError, BatchResponse};
use crate::request::{BatchDeleteRequest, BatchMoveRequest, BatchUpdateItem, BatchUpdateRequest, ItemType};
use crate::server::EventKitServer;
use crate::text::{contains_text, first_at, occurs_at, split_at_first, views};
use crate::words::{opt_priority_number, priority_is, priority_value};
use vstd::prelude::*;
use vstd::string::*;

verus! {

/// One call on the event store, for one item.
#[derive(PartialEq, Eq, Debug)]
pub enum BatchCall {
    DeleteReminder,
    /// With the later occurrences, or without.
    DeleteEvent(bool),
    UpdateReminder(ReminderPatch),
    UpdateEvent(EventPatch),
}

/// An item with the call that is made for it, or the reason why none is made.
#[derive(PartialEq, Eq, Debug)]
pub struct BatchEntry {
    pub id: String,
    pub action: Result<BatchCall, String>,
}

/// Where a tool stands.
#[derive(Debug)]
pub enum BatchStep {
    /// Make a call.
    Call(BatchPending),
    /// The tool's answer.
    Done(BatchResponse),
}

/// Wants a call made for one item; the others follow.
#[derive(Debug)]
pub struct BatchPending {
    id: String,
    call: BatchCall,
    rest: Vec<BatchEntry>,
    total: usize,
    succeeded: usize,
    lines: Vec<String>,
}

impl BatchPending {
    /// Every item is counted once: as a success, as an error, as the one at
    /// hand or as one of those that follow.
    #[verifier::type_invariant]
    pub closed spec fn counted(self) -> bool {
        self.succeeded + self.lines@.len() + 1 + self.rest@.len() == self.total
    }

    /// The item at hand.
    pub closed spec fn item_id(self) -> String {
        self.id
    }

    /// The call to make.
    pub closed spec fn wanted(self) -> BatchCall {
        self.call
    }

    /// The items that follow.
    pub closed spec fn following(self) -> Seq<BatchEntry> {
        self.rest@
    }

    /// How many items there are.
    pub closed spec fn of_total(self) -> usize {
        self.total
    }

    /// How many calls have succeeded.
    pub closed spec fn successes(self) -> usize {
        self.succeeded
    }

    /// What has been said of the items that failed.
    pub closed spec fn failures(self) -> Seq<Seq<char>> {
        views(self.lines@)
    }

    /// The item at hand.
    pub fn id(&self) -> (id: &String)
        ensures
            *id == self.item_id(),
    {
        &self.id
    }

    /// The call to make.
    pub fn call(&self) -> (call: &BatchCall)
        ensures
            *call == self.wanted(),
    {
        &self.call
    }
}

// ---------------------------------------------------------------------------
// Errors
// ---------------------------------------------------------------------------

/// What is said of an item that failed.
pub open spec fn line_of(id: Seq<char>, message: Seq<char>) -> Seq<char> {
    id + ": "@ + message
}

fn line_text(id: &str, message: &str) -> (line: String)
    ensures
        line@ == line_of(id@, message@),
{
    let mut line: String = id.to_owned();
    line.append(": ");
    line.append(message);
    line
}

/// `item` is what a line says: the id stands before the first colon with a
/// space behind it, the message after it.
pub open spec fn line_read(line: Seq<char>, item: BatchItemError) -> bool {
    if contains_text(line, ": "@) {
        let k = item.item_id@.len() as int;
        &&& first_at(line, ": "@, k)
        &&& item.item_id@ == line.subrange(0, k)
        &&& item.message@ == line.subrange(k + ": "@.len(), line.len() as int)
    } else {
        item.item_id@ == "unknown"@ && item.message@ == line
    }
}

/// `items` is what lines say, in their order.
pub open spec fn lines_read(lines: Seq<Seq<char>>, items: Seq<BatchItemError>) -> bool {
    &&& items.len() == lines.len()
    &&& forall|i: int| 0 <= i < lines.len() ==> #[trigger] line_read(lines[i], items[i])
}

/// Reads the id and the message back from a line.
pub fn read_line(line: String) -> (item: BatchItemError)
    ensures
        line_read(line@, item),
{
    match split_at_first(line.as_str(), ": ") {
        Some((item_id, message)) => {
            assert(occurs_at(line@, ": "@, item_id@.len() as int));
            BatchItemError { item_id, message }
        },
        None => BatchItemError { item_id: "unknown".to_owned(), message: line },
    }
}

fn read_lines(lines: Vec<String>) -> (items: Vec<BatchItemError>)
    ensures
        lines_read(views(lines@), items@),
{
    let mut items: Vec<BatchItemError> = Vec::new();
    for line in it: lines.into_iter()
        invariant
            it.seq() == lines@,
            lines_read(views(lines@).take(it.index() as int), items@),
    {
        let ghost n = it.index() as int;
        let ghost before = items@;
        items.push(read_line(line));
        proof {
            assert forall|k: int| 0 <= k <= n implies #[trigger] line_read(
                views(lines@).take(n + 1)[k],
                items@[k],
            ) by {
                if k < n {
                    assert(line_read(views(lines@).take(n)[k], before[k]));
                }
            }
        }
    }
    assert(views(lines@).take(lines@.len() as int) =~= views(lines@));
    items
}

/// An error names the item that failed and says why, unless the id itself
/// holds a colon with a space behind it.
pub proof fn error_names_its_item(id: Seq<char>, message: Seq<char>, item: BatchItemError)
    requires
        !contains_text(id, ": "@),
        line_read(line_of(id, message), item),
    ensures
        item.item_id@ == id,
        item.message@ == message,
{
    reveal_strlit(": ");
    let line = line_of(id, message);
    let n = id.len() as int;
    assert(line.subrange(n, n + 2) =~= ": "@);
    assert(occurs_at(line, ": "@, n));
    let k = item.item_id@.len() as int;
    assert(first_at(line, ": "@, k));
    if k < n {
        assert(line.subrange(k, k + 2)[1] == ' ');
        assert(line[k + 1] == ' ');
        if k + 1 < n {
            assert(id.subrange(k, k + 2) =~= line.subrange(k, k + 2));
            assert(occurs_at(id, ": "@, k));
        } else {
            assert(line[n] == ':');
        }
    }
    assert(k == n);
    assert(line.subrange(0, n) =~= id);
    assert(line.subrange(n + 2, line.len() as int) =~= message);
}

// ---------------------------------------------------------------------------
// Running
// ---------------------------------------------------------------------------

/// The items from the first one on for which a call is made.
pub open spec fn to_call(entries: Seq<BatchEntry>) -> Seq<BatchEntry>
    decreases entries.len(),
{
    if entries.len() > 0 && entries[0].action is Err {
        to_call(entries.drop_first())
    } else {
        entries
    }
}

/// What is said of the items before the first one for which a call is made.
pub open spec fn skipped(entries: Seq<BatchEntry>) -> Seq<Seq<char>>
    decreases entries.len(),
{
    if entries.len() > 0 && entries[0].action is Err {
        seq![line_of(entries[0].id@, entries[0].action->Err_0@)] + skipped(entries.drop_first())
    } else {
        Seq::empty()
    }
}

/// `response` is the answer.
pub open spec fn answered(
    response: BatchResponse,
    total: usize,
    succeeded: usize,
    failures: Seq<Seq<char>>,
) -> bool {
    &&& response.total == total
    &&& response.succeeded == succeeded
    &&& response.failed == failures.len()
    &&& lines_read(failures, response.errors@)
}

/// The tool stands before `entries`, with so many successes and these errors.
/// Items for which no call is made are passed over with their error.
pub open spec fn stands_before(
    step: BatchStep,
    entries: Seq<BatchEntry>,
    total: usize,
    succeeded: usize,
    failures: Seq<Seq<char>>,
) -> bool {
    let left = to_call(entries);
    let said = failures + skipped(entries);
    if left.len() == 0 {
        step is Done && answered(step->Done_0, total, succeeded, said)
    } else {
        &&& step is Call
        &&& step->Call_0.item_id() == left[0].id
        &&& left[0].action == Ok::<BatchCall, String>(step->Call_0.wanted())
        &&& step->Call_0.following() == left.drop_first()
        &&& step->Call_0.of_total() == total
        &&& step->Call_0.successes() == succeeded
        &&& step->Call_0.failures() == said
    }
}

fn advance(entries: Vec<BatchEntry>, total: usize, succeeded: usize, lines: Vec<String>) -> (step:
    BatchStep)
    requires
        succeeded + lines@.len() + entries@.len() == total,
    ensures
        stands_before(step, entries@, total, succeeded, views(lines@)),
        step is Done ==> step->Done_0.succeeded + step->Done_0.failed == step->Done_0.total,
{
    let mut rest: Vec<BatchEntry> = entries;
    let mut said: Vec<String> = lines;
    while !rest.is_empty()
        invariant
            succeeded + said@.len() + rest@.len() == total,
            to_call(rest@) == to_call(entries@),
            views(said@) + skipped(rest@) == views(lines@) + skipped(entries@),
        decreases rest@.len(),
    {
        let ghost before = rest@;
        let entry: BatchEntry = rest.remove(0);
        assert(rest@ =~= before.drop_first());
        match entry.action {
            Ok(call) => {
                proof {
                    assert(to_call(before) == before);
                    assert(skipped(before) =~= Seq::<Seq<char>>::empty());
                    assert(views(said@) + skipped(before) =~= views(said@));
                }
                return BatchStep::Call(
                    BatchPending { id: entry.id, call, rest, total, succeeded, lines: said },
                );
            },
            Err(message) => {
                let ghost old_said = said@;
                said.push(line_text(entry.id.as_str(), message.as_str()));
                proof {
                    let line = line_of(entry.id@, message@);
                    assert(views(said@) =~= views(old_said).push(line));
                    assert(skipped(before) == seq![line] + skipped(rest@));
                    assert(views(old_said).push(line) + skipped(rest@) =~= views(old_said) + (
                    seq![line] + skipped(rest@)));
                }
            },
        }
    }
    assert(views(said@) + skipped(rest@) =~= views(said@));
    assert(said@.len() == views(said@).len());
    let errors: Vec<BatchItemError> = read_lines(said);
    BatchStep::Done(BatchResponse { total, succeeded, failed: errors.len(), errors })
}

/// Starts with the first item.
pub fn start_batch(entries: Vec<BatchEntry>) -> (step: BatchStep)
    ensures
        stands_before(step, entries@, entries@.len() as usize, 0, Seq::empty()),
        step is Done ==> step->Done_0.succeeded + step->Done_0.failed == step->Done_0.total,
{
    let total: usize = entries.len();
    let none: Vec<String> = Vec::new();
    assert(views(none@) =~= Seq::<Seq<char>>::empty());
    advance(entries, total, 0, none)
}

impl BatchPending {
    /// Takes the reply to the call.
    pub fn with_reply(self, reply: Result<(), StoreError>) -> (next: BatchStep)
        ensures
            match reply {
                Ok(_) => stands_before(
                    next,
                    self.following(),
                    self.of_total(),
                    (self.successes() + 1) as usize,
                    self.failures(),
                ),
                Err(e) => stands_before(
                    next,
                    self.following(),
                    self.of_total(),
                    self.successes(),
                    self.failures().push(line_of(self.item_id()@, e.text@)),
                ),
            },
            next is Call ==> next->Call_0.following().len() < self.following().len(),
            next is Done ==> next->Done_0.succeeded + next->Done_0.failed == next->Done_0.total,
    {
        proof {
            use_type_invariant(&self);
            to_call_shortens(self.rest@);
        }
        match reply {
            Ok(_) => advance(self.rest, self.total, self.succeeded + 1, self.lines),
            Err(e) => {
                let mut lines: Vec<String> = self.lines;
                lines.push(line_text(self.id.as_str(), e.text.as_str()));
                assert(views(lines@) =~= views(self.lines@).push(line_of(self.id@, e.text@)));
                advance(self.rest, self.total, self.succeeded, lines)
            },
        }
    }
}

proof fn to_call_shortens(entries: Seq<BatchEntry>)
    ensures
        to_call(entries).len() <= entries.len(),
    decreases entries.len(),
{
    if entries.len() > 0 && entries[0].action is Err {
        to_call_shortens(entries.drop_first());
    }
}

// ---------------------------------------------------------------------------
// A whole batch
// ---------------------------------------------------------------------------

/// What is said of an item: why no call was made for it, or why the call
/// failed. Nothing is said where it succeeded.
pub open spec fn said_of(entry: BatchEntry, reply: Option<Seq<char>>) -> Option<Seq<char>> {
    match (entry.action, reply) {
        (Err(m), _) => Some(line_of(entry.id@, m@)),
        (Ok(_), Some(m)) => Some(line_of(entry.id@, m)),
        (Ok(_), None) => None,
    }
}

/// What is said of the first `n` items, in their order. The reply to a call is
/// absent where it succeeded, and else the error's text.
pub open spec fn told(entries: Seq<BatchEntry>, replies: Seq<Option<Seq<char>>>, n: nat) -> Seq<
    Seq<char>,
>
    decreases n,
{
    if n == 0 {
        Seq::empty()
    } else {
        let before = told(entries, replies, (n - 1) as nat);
        match said_of(entries[n - 1], replies[n - 1]) {
            Some(line) => before.push(line),
            None => before,
        }
    }
}

/// How many of the first `n` items succeeded.
pub open spec fn went_well(
    entries: Seq<BatchEntry>,
    replies: Seq<Option<Seq<char>>>,
    n: nat,
) -> nat
    decreases n,
{
    if n == 0 {
        0
    } else {
        let before = went_well(entries, replies, (n - 1) as nat);
        if said_of(entries[n - 1], replies[n - 1]) is None {
            before + 1
        } else {
            before
        }
    }
}

/// How many items stand before the first one for which a call is made.
pub open spec fn skips(entries: Seq<BatchEntry>) -> nat {
    (entries.len() - to_call(entries).len()) as nat
}

/// The first `i` items of a batch are settled, and `step` stands before the
/// others.
pub open spec fn settled(
    step: BatchStep,
    entries: Seq<BatchEntry>,
    replies: Seq<Option<Seq<char>>>,
    i: nat,
) -> bool {
    stands_before(
        step,
        entries.skip(i as int),
        entries.len() as usize,
        went_well(entries, replies, i) as usize,
        told(entries, replies, i),
    )
}

/// At its start no item of a batch is settled.
pub proof fn batch_starts_unsettled(
    step: BatchStep,
    entries: Seq<BatchEntry>,
    replies: Seq<Option<Seq<char>>>,
)
    requires
        stands_before(step, entries, entries.len() as usize, 0, Seq::empty()),
    ensures
        settled(step, entries, replies, 0),
{
    assert(entries.skip(0) =~= entries);
}

proof fn skipping(entries: Seq<BatchEntry>, replies: Seq<Option<Seq<char>>>, i: nat)
    requires
        i <= entries.len(),
        replies.len() == entries.len(),
    ensures
        ({
            let j = i + skips(entries.skip(i as int));
            &&& j <= entries.len()
            &&& to_call(entries.skip(i as int)) == entries.skip(j as int)
            &&& told(entries, replies, j) == told(entries, replies, i) + skipped(
                entries.skip(i as int),
            )
            &&& went_well(entries, replies, j) == went_well(entries, replies, i)
            &&& forall|k: int| i <= k < j ==> (#[trigger] entries[k]).action is Err
        }),
    decreases entries.len() - i,
{
    let here = entries.skip(i as int);
    if here.len() > 0 && here[0].action is Err {
        assert(here.drop_first() =~= entries.skip((i + 1) as int));
        to_call_shortens(entries.skip((i + 1) as int));
        skipping(entries, replies, i + 1);
        let line = line_of(here[0].id@, here[0].action->Err_0@);
        assert(told(entries, replies, i + 1) == told(entries, replies, i).push(line));
        assert(told(entries, replies, i).push(line) + skipped(entries.skip((i + 1) as int)) =~= told(
            entries,
            replies,
            i,
        ) + skipped(here));
        assert(skips(here) == 1 + skips(entries.skip((i + 1) as int)));
    } else {
        assert(told(entries, replies, i) + skipped(here) =~= told(entries, replies, i));
    }
}

proof fn count_is_bounded(entries: Seq<BatchEntry>, replies: Seq<Option<Seq<char>>>, n: nat)
    ensures
        went_well(entries, replies, n) + told(entries, replies, n).len() == n,
    decreases n,
{
    if n > 0 {
        count_is_bounded(entries, replies, (n - 1) as nat);
    }
}

/// A batch goes through its items in order: the call at hand is for the first
/// item that is not settled and has a call, and its reply settles it and all
/// items before it.
pub proof fn batch_goes_in_order(
    step: BatchStep,
    next: BatchStep,
    entries: Seq<BatchEntry>,
    replies: Seq<Option<Seq<char>>>,
    i: nat,
)
    requires
        entries.len() <= usize::MAX,
        replies.len() == entries.len(),
        i <= entries.len(),
        settled(step, entries, replies, i),
        step is Call,
        ({
            let j = i + skips(entries.skip(i as int));
            let p = step->Call_0;
            match replies[j as int] {
                None => stands_before(
                    next,
                    p.following(),
                    p.of_total(),
                    (p.successes() + 1) as usize,
                    p.failures(),
                ),
                Some(m) => stands_before(
                    next,
                    p.following(),
                    p.of_total(),
                    p.successes(),
                    p.failures().push(line_of(p.item_id()@, m)),
                ),
            }
        }),
    ensures
        ({
            let j = i + skips(entries.skip(i as int));
            &&& j < entries.len()
            &&& step->Call_0.item_id() == entries[j as int].id
            &&& entries[j as int].action == Ok::<BatchCall, String>(step->Call_0.wanted())
            &&& forall|k: int| i <= k < j ==> (#[trigger] entries[k]).action is Err
            &&& settled(next, entries, replies, j + 1)
        }),
{
    skipping(entries, replies, i);
    let j = i + skips(entries.skip(i as int));
    let left = entries.skip(j as int);
    assert(left[0] == entries[j as int]);
    assert(left.drop_first() =~= entries.skip((j + 1) as int));
    count_is_bounded(entries, replies, i);
    count_is_bounded(entries, replies, j + 1);
}

/// The answer of a batch tells each failure once, in the order of the items,
/// and every item counts as a success or as a failure.
pub proof fn batch_answer_covers_every_item(
    step: BatchStep,
    entries: Seq<BatchEntry>,
    replies: Seq<Option<Seq<char>>>,
    i: nat,
)
    requires
        entries.len() <= usize::MAX,
        replies.len() == entries.len(),
        i <= entries.len(),
        settled(step, entries, replies, i),
        step is Done,
    ensures
        ({
            let response = step->Done_0;
            let n = entries.len();
            &&& response.total == n
            &&& response.succeeded == went_well(entries, replies, n)
            &&& lines_read(told(entries, replies, n), response.errors@)
            &&& response.failed == response.errors@.len()
            &&& response.succeeded + response.failed == response.total
        }),
{
    skipping(entries, replies, i);
    let n = entries.len();
    let j = i + skips(entries.skip(i as int));
    assert(entries.skip(j as int).len() == 0);
    assert(j == n);
    count_is_bounded(entries, replies, n);
}

// ---------------------------------------------------------------------------
// The tools
// ---------------------------------------------------------------------------

/// A change to a reminder that changes nothing.
pub open spec fn no_change() -> ReminderPatch {
    ReminderPatch {
        title: None,
        notes: None,
        completed: None,
        priority: None,
        due_date: None,
        start_date: None,
        calendar_title: None,
        due_date_timezone: None,
        completion_date: None,
    }
}

/// The call that deletes an item.
pub open spec fn delete_call(item_type: ItemType, affect_future: bool) -> BatchCall {
    match item_type {
        ItemType::Reminder => BatchCall::DeleteReminder,
        ItemType::Event => BatchCall::DeleteEvent(affect_future),
    }
}

/// The items to delete.
pub open spec fn delete_plan(params: BatchDeleteRequest) -> Seq<BatchEntry> {
    params.item_ids@.map_values(
        |id: String|
            BatchEntry { id, action: Ok(delete_call(params.item_type, params.affect_future)) },
    )
}

/// `entry` moves a reminder to a list.
pub open spec fn moves(id: String, list: Seq<char>, entry: BatchEntry) -> bool {
    &&& entry.id == id
    &&& entry.action is Ok
    &&& entry.action->Ok_0 is UpdateReminder
    &&& {
        let patch = entry.action->Ok_0->UpdateReminder_0;
        &&& patch.calendar_title is Some
        &&& patch.calendar_title->0@ == list
        &&& patch == (ReminderPatch { calendar_title: patch.calendar_title, ..no_change() })
    }
}

/// `entries` moves reminders to a list, in their order.
pub open spec fn move_plan(params: BatchMoveRequest, entries: Seq<BatchEntry>) -> bool {
    &&& entries.len() == params.reminder_ids@.len()
    &&& forall|i: int|
        0 <= i < entries.len() ==> #[trigger] moves(
            params.reminder_ids@[i],
            params.destination_list_name@,
            entries[i],
        )
}

/// The change to a reminder, given what came of its due date.
pub open spec fn reminder_entry(
    item: BatchUpdateItem,
    due: Option<Option<Result<LocalDateTime, String>>>,
) -> BatchEntry {
    let patched = |due_date: Option<Option<LocalDateTime>>|
        Ok::<BatchCall, String>(
            BatchCall::UpdateReminder(
                ReminderPatch {
                    title: item.title,
                    notes: item.notes,
                    completed: item.completed,
                    priority: opt_priority_number(item.priority),
                    due_date,
                    ..no_change()
                },
            ),
        );
    BatchEntry {
        id: item.item_id,
        action: match due {
            None => patched(None),
            Some(None) => patched(Some(None)),
            Some(Some(Ok(p))) => patched(Some(Some(p))),
            Some(Some(Err(m))) => Err(m),
        },
    }
}

/// The change to an event: its title and its notes.
pub open spec fn event_entry(item: BatchUpdateItem) -> BatchEntry {
    BatchEntry {
        id: item.item_id,
        action: Ok(
            BatchCall::UpdateEvent(
                EventPatch {
                    title: item.title,
                    notes: patch_of(item.notes),
                    location: None,
                    start: None,
                    end: None,
                    all_day: None,
                    calendar_title: None,
                    URL: None,
                    availability: None,
                    structured_location: None,
                    span: EventSpan::This,
                },
            ),
        ),
    }
}

/// `entry` may stand for an item of an update.
pub open spec fn updates(item_type: ItemType, item: BatchUpdateItem, entry: BatchEntry) -> bool {
    match item_type {
        ItemType::Reminder => exists|due: Option<Option<Result<LocalDateTime, String>>>| #[trigger]
            patch_outcome(Reading::Moment, item.due_date, due) && entry == reminder_entry(
                item,
                due,
            ),
        ItemType::Event => entry == event_entry(item),
    }
}

/// `entries` may stand for the items of an update, in their order.
pub open spec fn update_plan(params: BatchUpdateRequest, entries: Seq<BatchEntry>) -> bool {
    &&& entries.len() == params.updates@.len()
    &&& forall|i: int|
        0 <= i < entries.len() ==> #[trigger] updates(
            params.item_type,
            params.updates@[i],
            entries[i],
        )
}

/// The change to a reminder, given what came of its due date.
pub fn reminder_update(
    item: BatchUpdateItem,
    due: Option<Option<Result<LocalDateTime, String>>>,
) -> (entry: BatchEntry)
    ensures
        entry == reminder_entry(item, due),
{
    let due_date: Option<Option<LocalDateTime>> = match due {
        None => None,
        Some(None) => Some(None),
        Some(Some(Ok(p))) => Some(Some(p)),
        Some(Some(Err(m))) => return BatchEntry { id: item.item_id, action: Err(m) },
    };
    let priority: Option<usize> = priority_value(&item.priority);
    BatchEntry {
        id: item.item_id,
        action: Ok(
            BatchCall::UpdateReminder(
                ReminderPatch {
                    title: item.title,
                    notes: item.notes,
                    completed: item.completed,
                    priority,
                    due_date,
                    start_date: None,
                    calendar_title: None,
                    due_date_timezone: None,
                    completion_date: None,
                },
            ),
        ),
    }
}

/// The change to an event.
pub fn event_update(item: BatchUpdateItem) -> (entry: BatchEntry)
    ensures
        entry == event_entry(item),
{
    BatchEntry {
        id: item.item_id,
        action: Ok(
            BatchCall::UpdateEvent(
                EventPatch {
                    title: item.title,
                    notes: opt_patch(item.notes),
                    location: None,
                    start: None,
                    end: None,
                    all_day: None,
                    calendar_title: None,
                    URL: None,
                    availability: None,
                    structured_location: None,
                    span: EventSpan::This,
                },
            ),
        ),
    }
}

fn update_entry(item_type: ItemType, item: BatchUpdateItem) -> (entry: BatchEntry)
    ensures
        updates(item_type, item, entry),
{
    match item_type {
        ItemType::Reminder => {
            let due: Option<Option<Result<LocalDateTime, String>>> = read_patch(
                Reading::Moment,
                &item.due_date,
            );
            assert(patch_outcome(Reading::Moment, item.due_date, due));
            reminder_update(item, due)
        },
        ItemType::Event => event_update(item),
    }
}

impl EventKitServer {
    /// Deletes reminders or events.
    pub fn batch_delete(&self, params: BatchDeleteRequest) -> (step: BatchStep)
        ensures
            stands_before(
                step,
                delete_plan(params),
                params.item_ids@.len() as usize,
                0,
                Seq::empty(),
            ),
    {
        let mut entries: Vec<BatchEntry> = Vec::new();
        for id in it: params.item_ids.into_iter()
            invariant
                it.seq() == params.item_ids@,
                entries@ == delete_plan(params).take(it.index() as int),
        {
            let call: BatchCall = match params.item_type {
                ItemType::Reminder => BatchCall::DeleteReminder,
                ItemType::Event => BatchCall::DeleteEvent(params.affect_future),
            };
            let ghost n = it.index() as int;
            entries.push(BatchEntry { id, action: Ok(call) });
            assert(entries@ =~= delete_plan(params).take(n + 1));
        }
        assert(entries@ =~= delete_plan(params));
        start_batch(entries)
    }

    /// Moves reminders to a list.
    pub fn batch_move(&self, params: BatchMoveRequest) -> (step: BatchStep)
        ensures
            exists|entries: Seq<BatchEntry>| #[trigger]
                move_plan(params, entries) && stands_before(
                    step,
                    entries,
                    params.reminder_ids@.len() as usize,
                    0,
                    Seq::empty(),
                ),
    {
        let mut entries: Vec<BatchEntry> = Vec::new();
        for id in it: params.reminder_ids.into_iter()
            invariant
                it.seq() == params.reminder_ids@,
                entries@.len() == it.index(),
                forall|i: int|
                    0 <= i < entries@.len() ==> #[trigger] moves(
                        params.reminder_ids@[i],
                        params.destination_list_name@,
                        entries@[i],
                    ),
        {
            let patch: ReminderPatch = ReminderPatch {
                title: None,
                notes: None,
                completed: None,
                priority: None,
                due_date: None,
                start_date: None,
                calendar_title: Some(params.destination_list_name.clone()),
                due_date_timezone: None,
                completion_date: None,
            };
            entries.push(BatchEntry { id, action: Ok(BatchCall::UpdateReminder(patch)) });
        }
        assert(move_plan(params, entries@));
        start_batch(entries)
    }

    /// Updates reminders or events.
    pub fn batch_update(&self, params: BatchUpdateRequest) -> (step: BatchStep)
        ensures
            exists|entries: Seq<BatchEntry>| #[trigger]
                update_plan(params, entries) && stands_before(
                    step,
                    entries,
                    params.updates@.len() as usize,
                    0,
                    Seq::empty(),
                ),
    {
        let mut entries: Vec<BatchEntry> = Vec::new();
        for item in it: params.updates.into_iter()
            invariant
                it.seq() == params.updates@,
                entries@.len() == it.index(),
                forall|i: int|
                    0 <= i < entries@.len() ==> #[trigger] updates(
                        params.item_type,
                        params.updates@[i],
                        entries@[i],
                    ),
        {
            entries.push(update_entry(params.item_type, item));
        }
        assert(update_plan(params, entries@));
        start_batch(entries)
    }
}

// ---------------------------------------------------------------------------
// What a request asks for is what is done
// ---------------------------------------------------------------------------

/// A batch that deletes has one call for each item that is named, in their
/// order: each deletes that item, as the kind that is named, and later
/// occurrences of an event only where these are named too.
pub proof fn batch_deletes_what_is_named(params: BatchDeleteRequest)
    ensures
        delete_plan(params).len() == params.item_ids@.len(),
        forall|i: int|
            0 <= i < params.item_ids@.len() ==> {
                let entry = #[trigger] delete_plan(params)[i];
                &&& entry.id == params.item_ids@[i]
                &&& entry.action is Ok
                &&& params.item_type is Reminder ==> entry.action->Ok_0 is DeleteReminder
                &&& params.item_type is Event ==> entry.action->Ok_0 is DeleteEvent
                    && entry.action->Ok_0->DeleteEvent_0 == params.affect_future
            },
{
}

/// A batch that moves has one call for each reminder that is named, in their
/// order: each puts that reminder into the list that is named and changes
/// nothing else about it.
pub proof fn batch_moves_and_changes_nothing_else(
    params: BatchMoveRequest,
    entries: Seq<BatchEntry>,
)
    requires
        move_plan(params, entries),
    ensures
        entries.len() == params.reminder_ids@.len(),
        forall|i: int|
            0 <= i < entries.len() ==> {
                let entry = #[trigger] entries[i];
                let patch = entry.action->Ok_0->UpdateReminder_0;
                &&& entry.id == params.reminder_ids@[i]
                &&& entry.action is Ok
                &&& entry.action->Ok_0 is UpdateReminder
                &&& patch.calendar_title is Some
                &&& patch.calendar_title->0@ == params.destination_list_name@
                &&& patch.title is None && patch.notes is None && patch.completed is None
                &&& patch.priority is None && patch.due_date is None && patch.start_date is None
                &&& patch.due_date_timezone is None && patch.completion_date is None
            },
{
    assert forall|i: int| 0 <= i < entries.len() implies moves(
        params.reminder_ids@[i],
        params.destination_list_name@,
        #[trigger] entries[i],
    ) by {}
}

/// A batch that updates has one entry for each item, in their order. A reminder
/// is written what is supplied for it and nothing else, where an empty due date
/// clears; it is passed over only where its due date means no point. An event
/// is written its title and its notes, where empty notes clear.
pub proof fn batch_updates_as_requested(params: BatchUpdateRequest, entries: Seq<BatchEntry>)
    requires
        update_plan(params, entries),
    ensures
        entries.len() == params.updates@.len(),
        forall|i: int|
            0 <= i < entries.len() ==> #[trigger] is_requested(
                params.item_type,
                params.updates@[i],
                entries[i],
            ),
{
    assert forall|i: int| 0 <= i < entries.len() implies #[trigger] is_requested(
        params.item_type,
        params.updates@[i],
        entries[i],
    ) by {
        let item = params.updates@[i];
        let entry = entries[i];
        assert(updates(params.item_type, item, entry));
        if params.item_type is Reminder {
            let due = choose|due: Option<Option<Result<LocalDateTime, String>>>| #[trigger]
                patch_outcome(Reading::Moment, item.due_date, due) && entry == reminder_entry(
                    item,
                    due,
                );
            if item.due_date is Some && item.due_date->0@.len() > 0 {
                dates_are_read_as_they_are_meant(
                    Reading::Moment,
                    item.due_date->0@,
                    due->0->0,
                );
            }
        } else {
            supplied_texts_are_written(item.notes);
        }
    }
}

/// The entry does what is supplied for an item.
pub open spec fn is_requested(
    item_type: ItemType,
    item: BatchUpdateItem,
    entry: BatchEntry,
) -> bool {
    &&& entry.id == item.item_id
    &&& entry.action is Err ==> item_type is Reminder && bad_patch(Reading::Moment, item.due_date)
    &&& item_type is Reminder && entry.action is Ok ==> {
        let patch = entry.action->Ok_0->UpdateReminder_0;
        &&& entry.action->Ok_0 is UpdateReminder
        &&& patch.title == item.title
        &&& patch.notes == item.notes
        &&& patch.completed == item.completed
        &&& priority_is(item.priority, patch.priority)
        &&& writes_date(Reading::Moment, item.due_date, patch.due_date)
        &&& patch.start_date is None && patch.calendar_title is None
        &&& patch.due_date_timezone is None && patch.completion_date is None
    }
    &&& item_type is Event ==> {
        let patch = entry.action->Ok_0->UpdateEvent_0;
        &&& entry.action->Ok_0 is UpdateEvent
        &&& patch.title == item.title
        &&& writes_text(item.notes, patch.notes)
        &&& patch.location is None && patch.start is None && patch.end is None
        &&& patch.all_day is None && patch.calendar_title is None && patch.URL is None
        &&& patch.availability is None && patch.structured_location is None
        &&& patch.span is This
    }
}

/// Before the first reply a batch stands at its first call: every item before
/// it is one for which no call is made.
pub proof fn batch_begins_with_its_first_call(step: BatchStep, entries: Seq<BatchEntry>)
    requires
        entries.len() <= usize::MAX,
        stands_before(step, entries, entries.len() as usize, 0, Seq::empty()),
    ensures
        step is Call <==> exists|k: int|
            0 <= k < entries.len() && (#[trigger] entries[k]).action is Ok,
        step is Call ==> exists|j: int|
            {
                &&& 0 <= j < entries.len()
                &&& (#[trigger] entries[j]).id == step->Call_0.item_id()
                &&& entries[j].action == Ok::<BatchCall, String>(step->Call_0.wanted())
                &&& step->Call_0.following() == entries.skip(j + 1)
                &&& forall|k: int| 0 <= k < j ==> (#[trigger] entries[k]).action is Err
            },
        step is Done ==> step->Done_0.succeeded == 0 && step->Done_0.total == entries.len()
            && step->Done_0.errors@.len() == entries.len(),
{
    let replies = Seq::new(entries.len(), |i: int| None::<Seq<char>>);
    batch_starts_unsettled(step, entries, replies);
    skipping(entries, replies, 0);
    let j = skips(entries.skip(0)) as int;
    assert(entries.skip(0) =~= entries);
    let left = entries.skip(j);
    if step is Call {
        assert(left[0] == entries[j]);
        assert(left.drop_first() =~= entries.skip(j + 1));
        assert(entries[j].id == step->Call_0.item_id());
    } else {
        assert(left.len() == 0);
        batch_answer_covers_every_item(step, entries, replies, 0);
        count_is_bounded(entries, replies, entries.len());
        skipping(entries, replies, 0);
        assert(went_well(entries, replies, 0) == 0);
    }
}

} // verus!
