use crate::atomic::Atomic;
use vstd::prelude::*;

verus! {

broadcast use {vstd::seq_lib::group_to_multiset_ensures, vstd::multiset::group_multiset_axioms};

/// `states` is what a slot built with `init` holds as `values` are put into
/// it one after another, by `swap` or by `store`: `states[i]` is the value
/// that the `i`-th replacement displaces, and the last entry is the value
/// still held when the slot is dropped.
pub open spec fn is_succession<T>(init: T, values: Seq<T>, states: Seq<T>) -> bool {
    &&& states.len() == values.len() + 1
    &&& states[0] == init
    &&& forall|i: int| 0 <= i < values.len() ==> #[trigger] states[i + 1] == values[i]
}

/// A slot read right after it was built holds the value it was built with:
/// `new(v)` leaves `v` in view, and `as_ref` yields the view.
pub proof fn lemma_read_after_new<T>(v: T, cell: Atomic<T>, seen: T)
    requires
        cell@ == v,
        seen == cell@,
    ensures
        seen == v,
{
}

/// After `new(v1)` and `swap(v2)`, the swap hands back `v1`, and a read
/// that follows sees `v2`.
pub proof fn lemma_swap_returns_predecessor<T>(
    v1: T,
    v2: T,
    before: Atomic<T>,
    after: Atomic<T>,
    returned: T,
    seen: T,
)
    requires
        before@ == v1,
        returned == before@,
        after@ == v2,
        seen == after@,
    ensures
        returned == v1,
        seen == v2,
{
}

/// Every value a slot ever holds is released exactly once: by the
/// replacement that displaces it, or when the slot is dropped. So the values
/// released over a slot's life are, counted with multiplicity, exactly its
/// initial value and the values put into it; when those are pairwise
/// distinct, none is released twice.
pub proof fn lemma_each_value_released_once<T>(init: T, values: Seq<T>, states: Seq<T>)
    requires
        is_succession(init, values, states),
    ensures
        states.to_multiset() == values.to_multiset().insert(init),
        values.no_duplicates() && !values.contains(init) ==> states.no_duplicates(),
{
    assert(states.remove(0) =~= values);
    assert(states.to_multiset() =~= values.to_multiset().insert(init));
    if values.no_duplicates() && !values.contains(init) {
        assert forall|i: int, j: int| 0 <= i < states.len() && 0 <= j < states.len() && i != j
            implies states[i] != states[j] by {
            if i > 0 && j > 0 {
                assert(states[i] == values[i - 1]);
                assert(states[j] == values[j - 1]);
            } else if i == 0 {
                assert(states[j] == values[j - 1]);
            } else {
                assert(states[i] == values[i - 1]);
            }
        }
    }
}

/// However the `swap` calls on one slot are ordered, the predecessors they
/// hand back together with the value left in the slot are, counted with
/// multiplicity, exactly the initial value and the values swapped in. When
/// those are pairwise distinct, no predecessor is handed back twice and none
/// equals the value left in the slot.
pub proof fn lemma_swaps_conserve_values<T>(
    init: T,
    values: Seq<T>,
    states: Seq<T>,
    returned: Seq<T>,
)
    requires
        is_succession(init, values, states),
        returned.len() == values.len(),
        forall|i: int| 0 <= i < returned.len() ==> #[trigger] returned[i] == states[i],
    ensures
        returned.to_multiset().insert(states.last()) == values.to_multiset().insert(init),
        values.no_duplicates() && !values.contains(init) ==> {
            &&& returned.no_duplicates()
            &&& !returned.contains(states.last())
        },
{
    lemma_each_value_released_once(init, values, states);
    assert(returned.push(states.last()) =~= states);
    if values.no_duplicates() && !values.contains(init) {
        assert forall|i: int| 0 <= i < returned.len() implies returned[i] != states.last() by {
            assert(states[i] != states[states.len() - 1]);
        }
    }
}

} // verus!
