//! Calendars and reminder lists by their titles.

use crate::model::CalendarInfo;
use crate::text::{contains_text, holding_goes_up, join, joined, joined_texts_hold_every_part, parts_are_held, same_text, views};
use vstd::prelude::*;
use vstd::string::*;

verus! {

/// The titles of calendars, in their order.
pub open spec fn titles(lists: Seq<CalendarInfo>) -> Seq<Seq<char>> {
    lists.map_values(|c: CalendarInfo| c.title@)
}

/// The titles of calendars, with a comma between one and the next.
pub open spec fn title_list(lists: Seq<CalendarInfo>) -> Seq<char> {
    joined(titles(lists), ", "@, lists.len())
}

/// The titles of calendars, with a comma between one and the next.
pub fn join_titles(lists: &Vec<CalendarInfo>) -> (all: String)
    ensures
        all@ == title_list(lists@),
{
    let mut names: Vec<String> = Vec::new();
    let mut i: usize = 0;
    while i < lists.len()
        invariant
            i <= lists@.len(),
            views(names@) == titles(lists@).take(i as int),
        decreases lists@.len() - i,
    {
        let ghost before = names@;
        names.push(lists[i].title.clone());
        assert(views(names@) =~= views(before).push(lists@[i as int].title@));
        assert(titles(lists@).take(i + 1) =~= titles(lists@).take(i as int).push(
            lists@[i as int].title@,
        ));
        i = i + 1;
    }
    assert(titles(lists@).take(i as int) =~= titles(lists@));
    assert(names@.len() == views(names@).len());
    join(&names, ", ")
}

/// Some calendar has this title.
pub open spec fn has_title(lists: Seq<CalendarInfo>, name: Seq<char>) -> bool {
    titles(lists).contains(name)
}

/// Whether some calendar has this title.
pub fn knows_title(lists: &Vec<CalendarInfo>, name: &str) -> (known: bool)
    ensures
        known == has_title(lists@, name@),
{
    let mut i: usize = 0;
    while i < lists.len()
        invariant
            i <= lists@.len(),
            forall|k: int| 0 <= k < i ==> (#[trigger] titles(lists@)[k]) != name@,
        decreases lists@.len() - i,
    {
        if same_text(lists[i].title.as_str(), name) {
            assert(titles(lists@)[i as int] == name@);
            return true;
        }
        i = i + 1;
    }
    false
}

/// What is said of a list that does not exist.
pub open spec fn missing_list(lists: Seq<CalendarInfo>, name: Seq<char>) -> Seq<char> {
    "List '"@ + name + "' not found. Available lists: "@ + title_list(lists)
}

/// What is said of a list that does not exist.
pub fn missing_list_text(lists: &Vec<CalendarInfo>, name: &str) -> (m: String)
    ensures
        m@ == missing_list(lists@, name@),
{
    let mut m: String = "List '".to_owned();
    m.append(name);
    m.append("' not found. Available lists: ");
    m.append(join_titles(lists).as_str());
    m
}

/// A list is known exactly where one of the lists has its name.
pub proof fn a_list_is_known_by_its_title(lists: Seq<CalendarInfo>, name: Seq<char>)
    ensures
        has_title(lists, name) <==> exists|i: int|
            0 <= i < lists.len() && (#[trigger] lists[i]).title@ == name,
{
    if has_title(lists, name) {
        let i = choose|i: int| 0 <= i < titles(lists).len() && titles(lists)[i] == name;
        assert(lists[i].title@ == name);
    }
    if exists|i: int| 0 <= i < lists.len() && (#[trigger] lists[i]).title@ == name {
        let i = choose|i: int| 0 <= i < lists.len() && (#[trigger] lists[i]).title@ == name;
        assert(titles(lists)[i] == name);
    }
}

/// What is said of a list that does not exist names it and every list that
/// does.
pub proof fn missing_list_names_the_others(lists: Seq<CalendarInfo>, name: Seq<char>)
    ensures
        contains_text(missing_list(lists, name), name),
        forall|k: int|
            0 <= k < lists.len() ==> contains_text(
                missing_list(lists, name),
                (#[trigger] lists[k]).title@,
            ),
{
    let lead = "List '"@;
    let mid = "' not found. Available lists: "@;
    let all = title_list(lists);
    parts_are_held(lead, name, mid + all);
    assert(lead + name + (mid + all) =~= missing_list(lists, name));
    assert forall|k: int| 0 <= k < lists.len() implies contains_text(
        missing_list(lists, name),
        (#[trigger] lists[k]).title@,
    ) by {
        joined_texts_hold_every_part(titles(lists), ", "@, k);
        assert(titles(lists)[k] == lists[k].title@);
        holding_goes_up(lead + name + mid, all, Seq::empty(), lists[k].title@);
        assert(lead + name + mid + all + Seq::<char>::empty() =~= missing_list(lists, name));
    }
}

} // verus!
