use vstd::prelude::*;

use crate::arena::GenerationalArray;
use crate::arena::count_some;
use crate::handle::GenerationalIndex;

verus! {

/// Round trip: a value just inserted is denoted by the returned handle, so a
/// lookup of that handle finds exactly that value.
pub proof fn lemma_insert_round_trip<ValueType>(
    pre: GenerationalArray<ValueType>,
    value: ValueType,
    post: GenerationalArray<ValueType>,
    handle: GenerationalIndex,
)
    requires
        pre.wf(),
        GenerationalArray::inserted(pre, value, post, handle),
    ensures
        post.valid_handle(handle),
        post.slots()[handle.spec_index() as int] == Some(value),
{
}

/// Invalidation: a successful removal leaves the consumed handle's position
/// in range but its generation behind the slot's, so a lookup of that handle
/// — or of any copy of it — reports it outdated rather than finding a value.
pub proof fn lemma_remove_invalidates<ValueType>(
    pre: GenerationalArray<ValueType>,
    handle: GenerationalIndex,
    post: GenerationalArray<ValueType>,
)
    requires
        pre.wf(),
        GenerationalArray::removed(pre, handle, post),
        handle.spec_generation() < usize::MAX,
    ensures
        (handle.spec_index() as int) < post.capacity(),
        post.gens()[handle.spec_index() as int] > handle.spec_generation(),
        !post.valid_handle(handle),
{
}

/// A slot's generation never decreases: neither an insertion nor a removal
/// lowers any entry of the generation table, and no slot is ever taken away.
pub proof fn lemma_generations_never_decrease<ValueType>(
    pre: GenerationalArray<ValueType>,
    post: GenerationalArray<ValueType>,
    value: ValueType,
    touched: GenerationalIndex,
    p: int,
)
    requires
        pre.wf(),
        0 <= p < pre.capacity(),
        GenerationalArray::inserted(pre, value, post, touched) || GenerationalArray::removed(
            pre,
            touched,
            post,
        ),
        touched.spec_generation() < usize::MAX,
    ensures
        post.capacity() >= pre.capacity(),
        post.gens()[p] >= pre.gens()[p],
{
}

/// A stale handle stays stale: once a slot's generation has passed a
/// handle's, no insertion or removal brings it back, so no later lookup of
/// that handle can find a value.
pub proof fn lemma_stale_handle_stays_stale<ValueType>(
    pre: GenerationalArray<ValueType>,
    post: GenerationalArray<ValueType>,
    value: ValueType,
    touched: GenerationalIndex,
    stale: GenerationalIndex,
)
    requires
        pre.wf(),
        (stale.spec_index() as int) < pre.capacity(),
        pre.gens()[stale.spec_index() as int] > stale.spec_generation(),
        GenerationalArray::inserted(pre, value, post, touched) || GenerationalArray::removed(
            pre,
            touched,
            post,
        ),
        touched.spec_generation() < usize::MAX,
    ensures
        (stale.spec_index() as int) < post.capacity(),
        post.gens()[stale.spec_index() as int] > stale.spec_generation(),
        !post.valid_handle(stale),
{
    lemma_generations_never_decrease(pre, post, value, touched, stale.spec_index() as int);
}

/// Reuse correctness: when an insertion fills the position a removal just
/// freed, the new handle's generation is strictly greater than the consumed
/// one's, the consumed handle is still reported outdated, and the new handle
/// denotes the new value.
pub proof fn lemma_reuse_bumps_generation<ValueType>(
    pre: GenerationalArray<ValueType>,
    h1: GenerationalIndex,
    mid: GenerationalArray<ValueType>,
    value: ValueType,
    post: GenerationalArray<ValueType>,
    h2: GenerationalIndex,
)
    requires
        pre.wf(),
        GenerationalArray::removed(pre, h1, mid),
        GenerationalArray::inserted(mid, value, post, h2),
        h2.spec_index() == h1.spec_index(),
        h1.spec_generation() < usize::MAX,
    ensures
        h2.spec_generation() > h1.spec_generation(),
        (h1.spec_index() as int) < post.capacity(),
        post.gens()[h1.spec_index() as int] != h1.spec_generation(),
        !post.valid_handle(h1),
        post.valid_handle(h2),
        post.slots()[h2.spec_index() as int] == Some(value),
{
}

/// Monotonic capacity: no operation shrinks the arena, and the slot count
/// grows only when an insertion finds the free queue empty.
pub proof fn lemma_capacity_monotonic<ValueType>(
    pre: GenerationalArray<ValueType>,
    post: GenerationalArray<ValueType>,
    value: ValueType,
    touched: GenerationalIndex,
)
    requires
        GenerationalArray::inserted(pre, value, post, touched) || GenerationalArray::removed(
            pre,
            touched,
            post,
        ),
    ensures
        post.capacity() >= pre.capacity(),
        post.capacity() > pre.capacity() ==> GenerationalArray::inserted(pre, value, post, touched)
            && pre.free_list().len() == 0,
{
}

/// Live-count accounting: the live counter equals the number of occupied
/// slots — each denoted by exactly one valid handle — and the freed
/// positions make up the rest of the capacity.
pub proof fn lemma_live_count_accounting<ValueType>(a: GenerationalArray<ValueType>)
    requires
        a.wf(),
    ensures
        a.live_count() == count_some(a.slots()),
        a.live_count() + a.free_list().len() == a.capacity(),
{
}

/// An occupied slot answers to exactly one handle: two handles the arena
/// both holds valid at the same position are the same handle.
pub proof fn lemma_one_valid_handle_per_slot<ValueType>(
    a: GenerationalArray<ValueType>,
    h1: GenerationalIndex,
    h2: GenerationalIndex,
)
    requires
        a.valid_handle(h1),
        a.valid_handle(h2),
        h1.spec_index() == h2.spec_index(),
    ensures
        h1 == h2,
{
    GenerationalIndex::lemma_handle_determined(h1, h2);
}

} // verus!
