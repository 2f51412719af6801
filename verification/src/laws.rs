//! What holds of the store over every sequence of calls.

use vstd::prelude::*;
use crate::errors::AppError;
use crate::model::{
    after_create, apply, created, has_free_id, issued, looked_up, state_after, well_formed, Call,
    StoreState,
};
use crate::models::update_fault;
use crate::title::{reports, title_fault};

verus! {

/// The same verdict for the same input: two outcomes of validating one
/// title agree on success and, where they fail, on the error.
pub proof fn law_title_verdict_is_fixed(
    title: Seq<char>,
    first: Result<(), AppError>,
    second: Result<(), AppError>,
)
    requires
        reports(first, title_fault(title)),
        reports(second, title_fault(title)),
    ensures
        first is Ok <==> second is Ok,
        first is Err ==> first->Err_0@ == second->Err_0@,
{
}

/// The same verdict for the same input: two outcomes of validating one
/// update payload agree on success and, where they fail, on the error.
pub proof fn law_update_verdict_is_fixed(
    title: Option<Seq<char>>,
    done: Option<bool>,
    first: Result<(), AppError>,
    second: Result<(), AppError>,
)
    requires
        reports(first, update_fault(title, done)),
        reports(second, update_fault(title, done)),
    ensures
        first is Ok <==> second is Ok,
        first is Err ==> first->Err_0@ == second->Err_0@,
{
}

/// A call keeps the invariant and never lowers the id counter.
pub proof fn law_call_keeps_invariant(s: StoreState, call: Call)
    requires
        well_formed(s),
    ensures
        well_formed(apply(s, call)),
        s.next_id <= apply(s, call).next_id,
{
}

/// An id that a create hands out is new: it is above the counter, so no
/// record has it and none ever had.
pub proof fn law_issued_id_is_new(s: StoreState, call: Call)
    requires
        well_formed(s),
        issued(s, call) is Some,
    ensures
        issued(s, call)->Some_0 == s.next_id + 1,
        apply(s, call).next_id == issued(s, call)->Some_0,
        !s.items.contains_key(issued(s, call)->Some_0),
{
}

/// Every sequence of calls keeps the invariant, and the id counter after a
/// shorter run of it is at most the counter after a longer one.
pub proof fn law_calls_keep_invariant(s: StoreState, calls: Seq<Call>, n: int)
    requires
        well_formed(s),
        0 <= n <= calls.len(),
    ensures
        well_formed(state_after(s, calls)),
        well_formed(state_after(s, calls.take(n))),
        state_after(s, calls.take(n)).next_id <= state_after(s, calls).next_id,
    decreases calls.len(),
{
    if n == calls.len() {
        assert(calls.take(n) =~= calls);
    }
    if calls.len() > 0 {
        let shorter = calls.drop_last();
        if n < calls.len() {
            assert(shorter.take(n) =~= calls.take(n));
            law_calls_keep_invariant(s, shorter, n);
        } else {
            law_calls_keep_invariant(s, shorter, 0);
        }
        law_call_keeps_invariant(state_after(s, shorter), calls.last());
    }
}

/// Ids are handed out in increasing order: in any sequence of calls made
/// from a valid state, a create that comes later hands out a larger id than
/// one that came before, whatever was updated or deleted in between. So no
/// two creates hand out the same id, and no id comes back after a delete.
pub proof fn law_issued_ids_increase(s: StoreState, calls: Seq<Call>, i: int, j: int)
    requires
        well_formed(s),
        0 <= i < j < calls.len(),
        issued(state_after(s, calls.take(i)), calls[i]) is Some,
        issued(state_after(s, calls.take(j)), calls[j]) is Some,
    ensures
        issued(state_after(s, calls.take(i)), calls[i])->Some_0 < issued(
            state_after(s, calls.take(j)),
            calls[j],
        )->Some_0,
{
    let upto_j = calls.take(j);
    let upto_i = calls.take(i);
    let past_i = calls.take(i + 1);
    assert(past_i.drop_last() =~= upto_i);
    assert(past_i.last() == calls[i]);
    assert(upto_j.take(i + 1) =~= past_i);
    law_calls_keep_invariant(s, upto_j, i + 1);
    law_calls_keep_invariant(s, calls, i);
    law_issued_id_is_new(state_after(s, upto_i), calls[i]);
    law_issued_id_is_new(state_after(s, upto_j), calls[j]);
}

/// A record that was just created is found under its id, as it was
/// returned.
pub proof fn law_get_after_create(s: StoreState, title: Seq<char>)
    requires
        well_formed(s),
        has_free_id(s),
        title_fault(title) is None,
    ensures
        looked_up(after_create(s, title), created(s, title).id) == Some(created(s, title)),
{
}

/// After a delete, no record is found under the id, whether the delete
/// found one or not.
pub proof fn law_get_after_delete(s: StoreState, id: u64)
    requires
        well_formed(s),
    ensures
        looked_up(apply(s, Call::Delete { id }), id) is None,
{
}

} // verus!
