//! The in-memory collection of todo records and its five operations.
//!
//! The collection and the id counter form one value, so that whoever holds
//! it exclusively assigns an id and inserts the record in one step.

use std::collections::HashMap;
use vstd::prelude::*;
use vstd::std_specs::hash::spec_hash_map_iter;
use vstd::std_specs::iter::IteratorSpec;
use crate::errors::{AppError, ErrorKind};
use crate::model::{
    after_create, after_delete, after_update, apply, created, empty_store, has_free_id,
    is_snapshot, issued, looked_up, revised, well_formed, Call, StoreState,
};
use crate::models::{update_fault, CreateTodo, Todo, TodoView, UpdateTodo};
use crate::title::title_fault;

verus! {

/// The records of a store together with its id counter.
pub struct InMemory {
    next_id: u64,
    items: HashMap<u64, Todo>,
}

impl View for InMemory {
    type V = StoreState;

    closed spec fn view(&self) -> StoreState {
        StoreState {
            next_id: self.next_id,
            items: Map::new(|k: u64| self.items@.contains_key(k), |k: u64| self.items@[k]@),
        }
    }
}

impl InMemory {
    /// The store's invariant, over its state.
    pub open spec fn wf(&self) -> bool {
        well_formed(self@)
    }

    /// A store that holds nothing. The first id it assigns is 1.
    pub fn new() -> (store: Self)
        ensures
            store.wf(),
            store@ == empty_store(),
    {
        let store = InMemory { next_id: 0, items: HashMap::new() };
        assert(store@.items =~= Map::<u64, TodoView>::empty());
        store
    }

    /// Whether an id is left for the next create.
    pub fn has_free_id(&self) -> (free: bool)
        ensures
            free == has_free_id(self@),
    {
        self.next_id < u64::MAX
    }

    /// A copy of the record with the given id.
    pub fn get(&self, id: u64) -> (r: Result<Todo, AppError>)
        ensures
            match looked_up(self@, id) {
                Some(t) => r is Ok && r->Ok_0@ == t,
                None => r is Err && r->Err_0@ == ErrorKind::NotFound,
            },
    {
        match self.items.get(&id) {
            Some(todo) => Ok(todo.clone()),
            None => Err(AppError::NotFound),
        }
    }

    /// Stores a new record with the payload's title, not done, under the
    /// next id, and returns a copy of it. A payload whose title breaks a
    /// rule is refused and leaves the store as it was.
    pub fn create(&mut self, input: CreateTodo) -> (r: Result<Todo, AppError>)
        requires
            old(self).wf(),
            has_free_id(old(self)@),
        ensures
            final(self).wf(),
            final(self)@ == apply(old(self)@, Call::Create { title: input.title@ }),
            match title_fault(input.title@) {
                Some(m) => r is Err && r->Err_0@ == ErrorKind::Validation(m),
                None => r is Ok && r->Ok_0@ == created(old(self)@, input.title@),
            },
            issued(old(self)@, Call::Create { title: input.title@ }) == match r {
                Ok(t) => Some(t.id),
                Err(_) => None,
            },
    {
        match input.validate() {
            Err(e) => Err(e),
            Ok(()) => {
                self.next_id = self.next_id + 1;
                let todo = Todo { id: self.next_id, title: input.title, done: false };
                let copy = todo.clone();
                self.items.insert(todo.id, todo);
                assert(self@.items =~= after_create(old(self)@, input.title@).items);
                Ok(copy)
            },
        }
    }

    /// Writes the fields that are present over those of the record with the
    /// given id and returns a copy of the record as it then is. The payload
    /// is judged first: one that breaks a rule is refused whether or not the
    /// record exists. A refusal leaves the store as it was.
    pub fn update(&mut self, id: u64, input: UpdateTodo) -> (r: Result<Todo, AppError>)
        requires
            old(self).wf(),
        ensures
            final(self).wf(),
            final(self)@ == apply(
                old(self)@,
                Call::Update { id, new_title: input.title_view(), new_done: input.done },
            ),
            match update_fault(input.title_view(), input.done) {
                Some(m) => r is Err && r->Err_0@ == ErrorKind::Validation(m),
                None => match looked_up(old(self)@, id) {
                    Some(t) => r is Ok && r->Ok_0@ == revised(t, input.title_view(), input.done),
                    None => r is Err && r->Err_0@ == ErrorKind::NotFound,
                },
            },
    {
        match input.validate() {
            Err(e) => Err(e),
            Ok(()) => {
                match self.items.remove(&id) {
                    None => {
                        assert(self@.items =~= old(self)@.items);
                        Err(AppError::NotFound)
                    },
                    Some(found) => {
                        let title = match input.title {
                            Some(text) => text,
                            None => found.title,
                        };
                        let done = match input.done {
                            Some(flag) => flag,
                            None => found.done,
                        };
                        let todo = Todo { id, title, done };
                        let copy = todo.clone();
                        self.items.insert(id, todo);
                        assert(self@.items =~= after_update(
                            old(self)@,
                            id,
                            input.title_view(),
                            input.done,
                        ).items);
                        Ok(copy)
                    },
                }
            },
        }
    }

    /// Removes the record with the given id.
    pub fn delete(&mut self, id: u64) -> (r: Result<(), AppError>)
        requires
            old(self).wf(),
        ensures
            final(self).wf(),
            final(self)@ == apply(old(self)@, Call::Delete { id }),
            match looked_up(old(self)@, id) {
                Some(_) => r is Ok,
                None => r is Err && r->Err_0@ == ErrorKind::NotFound,
            },
    {
        match self.items.remove(&id) {
            Some(_) => {
                assert(self@.items =~= after_delete(old(self)@, id).items);
                Ok(())
            },
            None => {
                assert(self@.items =~= old(self)@.items);
                Err(AppError::NotFound)
            },
        }
    }

    /// A copy of every record, in no particular order.
    pub fn list(&self) -> (listed: Vec<Todo>)
        requires
            self.wf(),
        ensures
            is_snapshot(listed@.map_values(|t: Todo| t@), self@.items),
    {
        let mut listed: Vec<Todo> = Vec::new();
        for entry in it: self.items.iter()
            invariant
                it.seq() == spec_hash_map_iter(&self.items).remaining(),
                listed@.len() == it.index(),
                forall|i: int| 0 <= i < listed@.len() ==> listed@[i] == *it.seq()[i].1,
        {
            listed.push(entry.1.clone());
        }
        proof {
            let pairs = spec_hash_map_iter(&self.items).remaining();
            let views = listed@.map_values(|t: Todo| t@);
            assert(self@.items.dom() =~= self.items@.dom());
            assert(views.len() == self@.items.len());
            assert forall|i: int| 0 <= i < views.len() implies self@.items.contains_key(
                #[trigger] views[i].id,
            ) && self@.items[views[i].id] == views[i] by {
                assert(self.items@.contains_key(*pairs[i].0));
                assert(self@.items.contains_key(*pairs[i].0));
            }
            assert forall|k: u64| #[trigger] self@.items.contains_key(k) implies exists|i: int|
                0 <= i < views.len() && views[i] == self@.items[k] by {
                let i = pairs.index_of((&k, &self.items@[k]));
                assert(views[i] == self@.items[k]);
            }
            assert forall|i: int, j: int| 0 <= i < j < views.len() implies (#[trigger] views[i]).id
                != (#[trigger] views[j]).id by {
                assert(self.items@.contains_key(*pairs[i].0));
                assert(self.items@.contains_key(*pairs[j].0));
                assert(self@.items.contains_key(*pairs[i].0));
                assert(self@.items.contains_key(*pairs[j].0));
                if views[i].id == views[j].id {
                    assert(pairs[i] == pairs[j]);
                }
            }
        }
        listed
    }
}

} // verus!
