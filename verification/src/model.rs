//! The store as a mathematical value: its states, and what each operation
//! makes of a state.

use vstd::prelude::*;
use crate::models::{update_fault, TodoView};
use crate::title::title_fault;

verus! {

/// The state of a store as a mathematical value: the last id that was
/// assigned, and the records by id.
pub struct StoreState {
    pub next_id: u64,
    pub items: Map<u64, TodoView>,
}

/// What holds of every state a store can reach: each record is filed under
/// its own id, ids start at 1 and none exceeds the last one assigned, and
/// every title meets the rules for titles.
pub open spec fn well_formed(s: StoreState) -> bool {
    &&& s.items.dom().finite()
    &&& forall|k: u64| #[trigger]
        s.items.contains_key(k) ==> {
            &&& s.items[k].id == k
            &&& 1 <= k <= s.next_id
            &&& title_fault(s.items[k].title) is None
        }
}

/// The state of a store that holds nothing and has assigned no id.
pub open spec fn empty_store() -> StoreState {
    StoreState { next_id: 0, items: Map::empty() }
}

/// Whether the state has an id left to assign.
pub open spec fn has_free_id(s: StoreState) -> bool {
    s.next_id < u64::MAX
}

/// The record that a create with this title produces in state `s`.
pub open spec fn created(s: StoreState, title: Seq<char>) -> TodoView {
    TodoView { id: (s.next_id + 1) as u64, title, done: false }
}

/// The state after a create with a valid title.
pub open spec fn after_create(s: StoreState, title: Seq<char>) -> StoreState {
    StoreState {
        next_id: created(s, title).id,
        items: s.items.insert(created(s, title).id, created(s, title)),
    }
}

/// The record with the given id, if the state holds one.
pub open spec fn looked_up(s: StoreState, id: u64) -> Option<TodoView> {
    if s.items.contains_key(id) {
        Some(s.items[id])
    } else {
        None
    }
}

/// A record with the fields that are present written over its own.
pub open spec fn revised(t: TodoView, title: Option<Seq<char>>, done: Option<bool>) -> TodoView {
    TodoView {
        id: t.id,
        title: match title {
            Some(text) => text,
            None => t.title,
        },
        done: match done {
            Some(flag) => flag,
            None => t.done,
        },
    }
}

/// The state after a valid update of a record that exists.
pub open spec fn after_update(
    s: StoreState,
    id: u64,
    title: Option<Seq<char>>,
    done: Option<bool>,
) -> StoreState {
    StoreState { next_id: s.next_id, items: s.items.insert(id, revised(s.items[id], title, done)) }
}

/// The state after the record with the given id is removed.
pub open spec fn after_delete(s: StoreState, id: u64) -> StoreState {
    StoreState { next_id: s.next_id, items: s.items.remove(id) }
}

/// Whether `listed` is a snapshot of the records: each listed record is in
/// the store under its id, each record of the store is listed, and none is
/// listed twice. The order is left open.
pub open spec fn is_snapshot(listed: Seq<TodoView>, items: Map<u64, TodoView>) -> bool {
    &&& listed.len() == items.len()
    &&& forall|i: int|
        0 <= i < listed.len() ==> items.contains_key(#[trigger] listed[i].id) && items[listed[i].id]
            == listed[i]
    &&& forall|k: u64| #[trigger]
        items.contains_key(k) ==> exists|i: int| 0 <= i < listed.len() && listed[i] == items[k]
    &&& forall|i: int, j: int|
        0 <= i < j < listed.len() ==> (#[trigger] listed[i]).id != (#[trigger] listed[j]).id
}

/// A call that may change a store.
pub enum Call {
    Create { title: Seq<char> },
    Update { id: u64, new_title: Option<Seq<char>>, new_done: Option<bool> },
    Delete { id: u64 },
}

/// Whether the call succeeds in state `s`. A create needs a valid title and
/// a free id; an update a valid payload and a record with its id; a delete
/// a record with its id.
pub open spec fn succeeds(s: StoreState, call: Call) -> bool {
    match call {
        Call::Create { title } => title_fault(title) is None && has_free_id(s),
        Call::Update { id, new_title, new_done } => update_fault(new_title, new_done) is None
            && s.items.contains_key(id),
        Call::Delete { id } => s.items.contains_key(id),
    }
}

/// The state after the call. A call that does not succeed changes nothing.
pub open spec fn apply(s: StoreState, call: Call) -> StoreState {
    if succeeds(s, call) {
        match call {
            Call::Create { title } => after_create(s, title),
            Call::Update { id, new_title, new_done } => after_update(s, id, new_title, new_done),
            Call::Delete { id } => after_delete(s, id),
        }
    } else {
        s
    }
}

/// The id that the call hands out: that of the new record where a create
/// succeeds, and none otherwise.
pub open spec fn issued(s: StoreState, call: Call) -> Option<u64> {
    match call {
        Call::Create { title } => if succeeds(s, call) {
            Some(created(s, title).id)
        } else {
            None
        },
        _ => None,
    }
}

/// The state after the calls, made one after the other from state `s`.
pub open spec fn state_after(s: StoreState, calls: Seq<Call>) -> StoreState
    decreases calls.len(),
{
    if calls.len() == 0 {
        s
    } else {
        apply(state_after(s, calls.drop_last()), calls.last())
    }
}

} // verus!
