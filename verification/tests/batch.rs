use eventkit_core::batch::{read_line, start_batch, BatchCall, BatchEntry, BatchStep};
use eventkit_core::clock::parse_datetime;
use eventkit_core::model::{EventKitError, EventSpan, StoreError};
use eventkit_core::output::BatchResponse;
use eventkit_core::request::{
    BatchDeleteRequest, BatchMoveRequest, BatchUpdateItem, BatchUpdateRequest, ItemType, Priority,
};
use eventkit_core::server::EventKitServer;

fn ids(names: &[&str]) -> Vec<String> {
    names.iter().map(|n| n.to_string()).collect()
}

fn failure(message: &str) -> StoreError {
    StoreError { error: EventKitError::Other, text: message.to_string() }
}

/// Runs a batch against a store in which the items named `bad..` fail.
fn run(mut step: BatchStep) -> (Vec<String>, BatchResponse) {
    let mut seen = Vec::new();
    loop {
        match step {
            BatchStep::Call(p) => {
                seen.push(p.id().clone());
                let reply = if p.id().starts_with("bad") {
                    Err(failure(&format!("no {}: gone", p.id())))
                } else {
                    Ok(())
                };
                step = p.with_reply(reply);
            }
            BatchStep::Done(r) => return (seen, r),
        }
    }
}

fn change(id: &str, due_date: Option<&str>) -> BatchUpdateItem {
    BatchUpdateItem {
        item_id: id.to_string(),
        title: Some("T".to_string()),
        notes: Some(String::new()),
        completed: Some(true),
        priority: Some(Priority::Low),
        due_date: due_date.map(|d| d.to_string()),
    }
}

#[test]
fn deletions_are_counted() {
    let step = EventKitServer::new().batch_delete(BatchDeleteRequest {
        item_type: ItemType::Reminder,
        item_ids: ids(&["a", "bad1", "b", "bad2"]),
        affect_future: true,
    });
    let BatchStep::Call(p) = &step else { panic!() };
    assert_eq!(*p.call(), BatchCall::DeleteReminder);
    let (seen, r) = run(step);
    assert_eq!(seen, ids(&["a", "bad1", "b", "bad2"]));
    assert_eq!((r.total, r.succeeded, r.failed), (4, 2, 2));
    assert_eq!(r.errors[0].item_id, "bad1");
    assert_eq!(r.errors[0].message, "no bad1: gone");
    assert_eq!(r.errors[1].item_id, "bad2");
}

#[test]
fn event_deletions_carry_the_flag() {
    for flag in [false, true] {
        let step = EventKitServer::new().batch_delete(BatchDeleteRequest {
            item_type: ItemType::Event,
            item_ids: ids(&["a"]),
            affect_future: flag,
        });
        let BatchStep::Call(p) = &step else { panic!() };
        assert_eq!(*p.call(), BatchCall::DeleteEvent(flag));
    }
}

#[test]
fn empty_batches_end_at_once() {
    let step = EventKitServer::new().batch_move(BatchMoveRequest {
        reminder_ids: vec![],
        destination_list_name: "Work".to_string(),
    });
    let (seen, r) = run(step);
    assert!(seen.is_empty() && r.errors.is_empty());
    assert_eq!((r.total, r.succeeded, r.failed), (0, 0, 0));
}

#[test]
fn moves_change_the_list_alone() {
    let step = EventKitServer::new().batch_move(BatchMoveRequest {
        reminder_ids: ids(&["a", "b"]),
        destination_list_name: "Work".to_string(),
    });
    let BatchStep::Call(p) = &step else { panic!() };
    let BatchCall::UpdateReminder(patch) = p.call() else { panic!() };
    assert_eq!(patch.calendar_title.as_deref(), Some("Work"));
    assert!(patch.title.is_none() && patch.notes.is_none() && patch.completed.is_none());
    assert!(patch.priority.is_none() && patch.due_date.is_none() && patch.start_date.is_none());
    assert!(patch.due_date_timezone.is_none() && patch.completion_date.is_none());
    let (seen, r) = run(step);
    assert_eq!(seen, ids(&["a", "b"]));
    assert_eq!(r.succeeded, 2);
}

#[test]
fn bad_dates_are_told_without_a_call() {
    let step = EventKitServer::new().batch_update(BatchUpdateRequest {
        item_type: ItemType::Reminder,
        updates: vec![
            change("first", Some("never")),
            change("a", Some("2026-05-20")),
            change("b", Some("")),
            change("c", None),
            change("bad", None),
            change("last", Some("never")),
        ],
    });
    let BatchStep::Call(p) = &step else { panic!() };
    assert_eq!(p.id(), "a");
    let BatchCall::UpdateReminder(patch) = p.call() else { panic!() };
    assert_eq!(patch.due_date, Some(Some(parse_datetime("2026-05-20").unwrap())));
    assert_eq!(patch.title.as_deref(), Some("T"));
    assert_eq!(patch.notes.as_deref(), Some(""));
    assert_eq!(patch.completed, Some(true));
    assert_eq!(patch.priority, Some(9));
    let (seen, r) = run(step);
    assert_eq!(seen, ids(&["a", "b", "c", "bad"]));
    assert_eq!((r.total, r.succeeded, r.failed), (6, 3, 3));
    let told: Vec<&str> = r.errors.iter().map(|e| e.item_id.as_str()).collect();
    assert_eq!(told, vec!["first", "bad", "last"]);
    assert_eq!(
        r.errors[0].message,
        "Invalid date format. Use 'YYYY-MM-DD', 'YYYY-MM-DD HH:MM', or 'HH:MM' (uses today)"
    );
}

#[test]
fn empty_due_dates_clear_in_batches() {
    let step = EventKitServer::new().batch_update(BatchUpdateRequest {
        item_type: ItemType::Reminder,
        updates: vec![change("b", Some(""))],
    });
    let BatchStep::Call(p) = &step else { panic!() };
    let BatchCall::UpdateReminder(patch) = p.call() else { panic!() };
    assert_eq!(patch.due_date, Some(None));
}

#[test]
fn event_updates_write_title_and_notes() {
    let step = EventKitServer::new().batch_update(BatchUpdateRequest {
        item_type: ItemType::Event,
        updates: vec![change("e", Some("never"))],
    });
    let BatchStep::Call(p) = &step else { panic!() };
    let BatchCall::UpdateEvent(patch) = p.call() else { panic!() };
    assert_eq!(patch.title.as_deref(), Some("T"));
    assert_eq!(patch.notes, Some(None));
    assert_eq!(patch.span, EventSpan::This);
    assert!(patch.start.is_none() && patch.end.is_none() && patch.location.is_none());
}

#[test]
fn lines_are_read_at_the_first_colon() {
    let item = read_line("id: message: more".to_string());
    assert_eq!((item.item_id.as_str(), item.message.as_str()), ("id", "message: more"));
    let item = read_line("a:b: c".to_string());
    assert_eq!((item.item_id.as_str(), item.message.as_str()), ("a:b", "c"));
    let item = read_line("nothing here".to_string());
    assert_eq!((item.item_id.as_str(), item.message.as_str()), ("unknown", "nothing here"));
    // an id with a colon and a space is cut short
    let (_, r) = run(start_batch(vec![BatchEntry {
        id: "bad: id".to_string(),
        action: Err("m".to_string()),
    }]));
    assert_eq!((r.errors[0].item_id.as_str(), r.errors[0].message.as_str()), ("bad", "id: m"));
}
