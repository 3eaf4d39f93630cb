//! Laws about runs of allocations, stated over the arena's model.
//!
//! A run is written as the sequence of the arena's contents, one entry per
//! state, together with the values allocated in between: each successful
//! [`Arena::allocate`](crate::Arena::allocate) goes from `states[i]` to
//! `states[i].push(values[i])`, where `values[i]` is the allocated value as the
//! caller left it.
use vstd::prelude::*;

use crate::grow_vec::is_full;

verus! {

/// Whether `states` is a run of successful allocations of `values`.
pub open spec fn allocation_run<T>(states: Seq<Seq<T>>, values: Seq<T>) -> bool {
    &&& states.len() == values.len() + 1
    &&& forall|i: int|
        0 <= i < values.len() ==> #[trigger] states[i + 1] == states[i].push(values[i])
}

/// A run of allocations adds its values after the initial contents, in order.
pub proof fn lemma_run_appends<T>(states: Seq<Seq<T>>, values: Seq<T>, k: int)
    requires
        allocation_run(states, values),
        0 <= k <= values.len(),
    ensures
        states[k] == states[0] + values.take(k),
    decreases k,
{
    if k > 0 {
        lemma_run_appends(states, values, k - 1);
        assert(values.take(k) == values.take(k - 1).push(values[k - 1]));
        assert(states[k] == states[k - 1].push(values[k - 1]));
    } else {
        assert(states[0] + values.take(0) == states[0]);
    }
}

/// After N successful allocations into an empty arena, its length is N and
/// the backing store it gives back holds the values in order of allocation.
pub proof fn lemma_allocation_order<T>(states: Seq<Seq<T>>, values: Seq<T>)
    requires
        allocation_run(states, values),
        states[0] == Seq::<T>::empty(),
    ensures
        states.last() == values,
        states.last().len() == values.len(),
{
    lemma_run_appends(states, values, values.len() as int);
    assert(values.take(values.len() as int) == values);
    assert(Seq::<T>::empty() + values == values);
}

/// In an empty arena over a store of capacity `cap`, the first `cap`
/// allocations find room, and after them the arena holds `cap` values and is
/// full, so the next allocation fails and hands its value back.
pub proof fn lemma_capacity_reached<T>(states: Seq<Seq<T>>, values: Seq<T>, cap: nat)
    requires
        allocation_run(states, values),
        states[0] == Seq::<T>::empty(),
        values.len() == cap,
    ensures
        forall|i: int| 0 <= i < cap ==> !is_full(#[trigger] states[i].len(), Some(cap)),
        states.last().len() == cap,
        is_full(states.last().len(), Some(cap)),
{
    assert forall|i: int| 0 <= i < cap implies !is_full(#[trigger] states[i].len(), Some(cap)) by {
        lemma_run_appends(states, values, i);
    }
    lemma_allocation_order(states, values);
}

/// Allocating never changes the values already in the arena: after any run of
/// allocations, each earlier value reads back the same.
pub proof fn lemma_earlier_values_kept<T>(states: Seq<Seq<T>>, values: Seq<T>, i: int)
    requires
        allocation_run(states, values),
        0 <= i < states[0].len(),
    ensures
        states.last()[i] == states[0][i],
        states.last().len() == states[0].len() + values.len(),
{
    lemma_run_appends(states, values, values.len() as int);
}

} // verus!
