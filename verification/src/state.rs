//! The repository as its callers see it: five operations on a store that
//! many callers share, and the handle through which they reach it.

use std::sync::Arc;
use vstd::prelude::*;
use vstd::rwlock::{RwLock, RwLockPredicate};
use crate::errors::{AppError, ErrorKind};
use crate::models::{update_fault, CreateTodo, Todo, UpdateTodo};
use crate::store::InMemory;
use crate::title::title_fault;

verus! {

/// Whether the records carry ids that are pairwise distinct and at least 1,
/// and titles that meet the rules for titles.
pub open spec fn sound_listing(listed: Seq<Todo>) -> bool {
    &&& forall|i: int|
        0 <= i < listed.len() ==> (#[trigger] listed[i]).id >= 1 && title_fault(listed[i].title@)
            is None
    &&& forall|i: int, j: int|
        0 <= i < j < listed.len() ==> (#[trigger] listed[i]).id != (#[trigger] listed[j]).id
}

/// Whether `t` can be the record that an update with these fields returns
/// for the id: it has the id, a valid title, and each field that the update
/// names as the update gave it.
pub open spec fn answers_update(
    t: Todo,
    id: u64,
    title: Option<Seq<char>>,
    done: Option<bool>,
) -> bool {
    &&& t.id == id
    &&& title_fault(t.title@) is None
    &&& title is Some ==> t.title@ == title->Some_0
    &&& done is Some ==> t.done == done->Some_0
}

/// The operations of a store of todos that many callers share. Each call
/// is one step on the store: it sees the records as some earlier calls
/// left them, never one in the middle of a change. What another caller did
/// in between is not known to this one, so the contracts state what holds
/// of a result whatever the store held.
///
/// A backend may fail for reasons of its own, and then reports
/// `Internal`. An input that breaks a rule is refused by every backend,
/// with the message of the rule.
pub trait TodoRepo: Send + Sync + 'static {
    /// A copy of every record, in no particular order.
    fn list(&self) -> (r: Result<Vec<Todo>, AppError>)
        ensures
            match r {
                Ok(listed) => sound_listing(listed@),
                Err(e) => e@ == ErrorKind::Internal,
            },
    ;

    /// Stores a new record with the payload's title, not done, under an id
    /// that no record had before.
    fn create(&self, input: CreateTodo) -> (r: Result<Todo, AppError>)
        ensures
            match title_fault(input.title@) {
                Some(m) => r is Err && r->Err_0@ == ErrorKind::Validation(m),
                None => match r {
                    Ok(t) => t.id >= 1 && t.title@ == input.title@ && !t.done,
                    Err(e) => e@ == ErrorKind::Internal,
                },
            },
    ;

    /// A copy of the record with the given id.
    fn get(&self, id: u64) -> (r: Result<Todo, AppError>)
        ensures
            match r {
                Ok(t) => t.id == id && title_fault(t.title@) is None,
                Err(e) => e@ == ErrorKind::NotFound || e@ == ErrorKind::Internal,
            },
    ;

    /// Writes the fields that are present over those of the record with
    /// the given id, in one step, and returns a copy of the record as it
    /// then is.
    fn update(&self, id: u64, input: UpdateTodo) -> (r: Result<Todo, AppError>)
        ensures
            match update_fault(input.title_view(), input.done) {
                Some(m) => r is Err && r->Err_0@ == ErrorKind::Validation(m),
                None => match r {
                    Ok(t) => answers_update(t, id, input.title_view(), input.done),
                    Err(e) => e@ == ErrorKind::NotFound || e@ == ErrorKind::Internal,
                },
            },
    ;

    /// Removes the record with the given id.
    fn delete(&self, id: u64) -> (r: Result<(), AppError>)
        ensures
            r is Err ==> r->Err_0@ == ErrorKind::NotFound || r->Err_0@ == ErrorKind::Internal,
    ;
}

/// What the lock of a [`SharedStore`] guards: a store that meets its
/// invariant.
struct Guarded;

impl RwLockPredicate<InMemory> for Guarded {
    open spec fn inv(self, store: InMemory) -> bool {
        store.wf()
    }
}

/// An in-memory store behind a lock. `list` and `get` hold the lock shared,
/// so that readers run side by side; `create`, `update` and `delete` hold
/// it alone for the time of the change. Every path through a call gives
/// the lock back before the call returns.
pub struct SharedStore {
    lock: RwLock<InMemory, Guarded>,
}

impl SharedStore {
    /// A shared store that holds nothing.
    pub fn new() -> (shared: Self) {
        SharedStore { lock: RwLock::new(InMemory::new(), Ghost(Guarded)) }
    }
}

impl TodoRepo for SharedStore {
    fn list(&self) -> (r: Result<Vec<Todo>, AppError>)
        ensures
            r is Ok,
    {
        let reading = self.lock.acquire_read();
        let store = reading.borrow();
        let listed = store.list();
        proof {
            let views = listed@.map_values(|t: Todo| t@);
            assert forall|i: int| 0 <= i < listed@.len() implies (#[trigger] listed@[i]).id >= 1
                && title_fault(listed@[i].title@) is None by {
                assert(store@.items.contains_key(views[i].id));
            }
            assert forall|i: int, j: int| 0 <= i < j < listed@.len() implies (#[trigger] listed@[i]).id
                != (#[trigger] listed@[j]).id by {
                assert(views[i].id != views[j].id);
            }
        }
        reading.release_read();
        Ok(listed)
    }

    fn create(&self, input: CreateTodo) -> (r: Result<Todo, AppError>) {
        match input.validate() {
            Err(e) => Err(e),
            Ok(()) => {
                let (mut store, writing) = self.lock.acquire_write();
                let r = if store.has_free_id() {
                    store.create(input)
                } else {
                    Err(AppError::Internal)
                };
                writing.release_write(store);
                r
            },
        }
    }

    fn get(&self, id: u64) -> (r: Result<Todo, AppError>)
        ensures
            r is Err ==> r->Err_0@ == ErrorKind::NotFound,
    {
        let reading = self.lock.acquire_read();
        let r = reading.borrow().get(id);
        reading.release_read();
        r
    }

    fn update(&self, id: u64, input: UpdateTodo) -> (r: Result<Todo, AppError>)
        ensures
            r is Err ==> r->Err_0@ != ErrorKind::Internal,
    {
        match input.validate() {
            Err(e) => Err(e),
            Ok(()) => {
                let (mut store, writing) = self.lock.acquire_write();
                let r = store.update(id, input);
                writing.release_write(store);
                r
            },
        }
    }

    fn delete(&self, id: u64) -> (r: Result<(), AppError>)
        ensures
            r is Err ==> r->Err_0@ == ErrorKind::NotFound,
    {
        let (mut store, writing) = self.lock.acquire_write();
        let r = store.delete(id);
        writing.release_write(store);
        r
    }
}

/// Calls `Arc::clone`. Trusted: the new pointer leads to the same value as
/// the one it was made from.
#[verifier::external_body]
fn share<T>(handle: &Arc<T>) -> (copy: Arc<T>)
    ensures
        copy == *handle,
{
    Arc::clone(handle)
}

/// The handle through which callers reach the one repository of the
/// process. A clone of the handle reaches the same repository.
pub struct AppState<R: TodoRepo = SharedStore> {
    repo: Arc<R>,
}

impl AppState<SharedStore> {
    /// A state whose repository is an empty in-memory store.
    pub fn new_in_memory() -> Self {
        AppState { repo: Arc::new(SharedStore::new()) }
    }
}

impl<R: TodoRepo> AppState<R> {
    /// A state whose repository is the given backend.
    pub fn with_repo(backend: R) -> (state: Self)
        ensures
            state.repo_view() == backend,
    {
        AppState { repo: Arc::new(backend) }
    }

    /// The repository that this state leads to.
    pub closed spec fn repo_view(&self) -> R {
        *self.repo
    }

    /// A handle to the repository; it shares the repository with this
    /// state.
    pub fn repo(&self) -> (handle: Arc<R>)
        ensures
            *handle == self.repo_view(),
    {
        share(&self.repo)
    }
}

impl<R: TodoRepo> Clone for AppState<R> {
    fn clone(&self) -> (copy: Self)
        ensures
            copy == *self,
    {
        AppState { repo: share(&self.repo) }
    }
}

} // verus!
