//! Counting over runs of calls.

use vstd::prelude::*;
use crate::call::CallView;

verus! {

/// The sum of what `weight` gives for each call of a run.
pub open spec fn tally(calls: Seq<CallView>, weight: spec_fn(CallView) -> int) -> int
    decreases calls.len(),
{
    if calls.len() == 0 {
        0
    } else {
        tally(calls.drop_last(), weight) + weight(calls.last())
    }
}

/// A run without calls sums to nothing.
pub broadcast proof fn lemma_tally_empty(weight: spec_fn(CallView) -> int)
    ensures
        #[trigger] tally(Seq::<CallView>::empty(), weight) == 0,
{
}

/// A call at the end adds its weight.
pub broadcast proof fn lemma_tally_push(
    calls: Seq<CallView>,
    call: CallView,
    weight: spec_fn(CallView) -> int,
)
    ensures
        #[trigger] tally(calls.push(call), weight) == tally(calls, weight) + weight(call),
{
    assert(calls.push(call).drop_last() =~= calls);
}

/// Two runs in a row sum to the sum of both.
pub broadcast proof fn lemma_tally_concat(
    first: Seq<CallView>,
    second: Seq<CallView>,
    weight: spec_fn(CallView) -> int,
)
    ensures
        #[trigger] tally(first + second, weight) == tally(first, weight) + tally(second, weight),
    decreases second.len(),
{
    if second.len() == 0 {
        assert(first + second =~= first);
    } else {
        assert((first + second).drop_last() =~= first + second.drop_last());
        lemma_tally_concat(first, second.drop_last(), weight);
    }
}

pub broadcast group group_tally {
    lemma_tally_empty,
    lemma_tally_push,
    lemma_tally_concat,
}

/// A run of calls without weight sums to nothing.
pub proof fn lemma_tally_nothing(calls: Seq<CallView>, weight: spec_fn(CallView) -> int)
    requires
        forall|i: int| 0 <= i < calls.len() ==> weight(#[trigger] calls[i]) == 0,
    ensures
        tally(calls, weight) == 0,
    decreases calls.len(),
{
    if calls.len() > 0 {
        lemma_tally_nothing(calls.drop_last(), weight);
    }
}

} // verus!
