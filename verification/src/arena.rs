use vstd::prelude::*;

use crate::handle::GenerationalIndex;
use std::collections::VecDeque;

verus! {

/// How many entries of a slot table currently hold a value.
pub open spec fn count_some<ValueType>(s: Seq<Option<ValueType>>) -> nat
    decreases s.len(),
{
    if s.len() == 0 {
        0
    } else {
        count_some(s.drop_last()) + if s.last() is Some {
            1nat
        } else {
            0nat
        }
    }
}

proof fn lemma_count_some_update<ValueType>(s: Seq<Option<ValueType>>, i: int, v: Option<ValueType>)
    requires
        0 <= i < s.len(),
    ensures
        count_some(s.update(i, v)) + (if s[i] is Some {
            1nat
        } else {
            0nat
        }) == count_some(s) + (if v is Some {
            1nat
        } else {
            0nat
        }),
    decreases s.len(),
{
    let t = s.update(i, v);
    if i == s.len() - 1 {
        assert(t.drop_last() =~= s.drop_last());
    } else {
        assert(t.drop_last() =~= s.drop_last().update(i, v));
        lemma_count_some_update(s.drop_last(), i, v);
    }
}

proof fn lemma_count_some_lower<ValueType>(s: Seq<Option<ValueType>>, i: int)
    requires
        0 <= i < s.len(),
        s[i] is Some,
    ensures
        count_some(s) >= 1,
    decreases s.len(),
{
    if i < s.len() - 1 {
        lemma_count_some_lower(s.drop_last(), i);
    }
}

/// Outcome of a read-only lookup: either a shared borrow of the live value,
/// or the reason the handle does not (or no longer does) denote one.
#[derive(Debug)]
pub enum GenerationalArrayResult<'a, ValueType> {
    /// The slot exists and matches the handle's generation but holds no value.
    Empty,
    /// The slot has been freed (and possibly refilled) since the handle was issued.
    OutDated,
    /// The handle's position lies beyond every slot ever allocated.
    OutOfBounds,
    /// The handle denotes this live value.
    Found(&'a ValueType),
}

/// Outcome of a mutable lookup; the same four cases as
/// [`GenerationalArrayResult`], with an exclusive borrow on success.
#[derive(Debug)]
pub enum GenerationalArrayResultMut<'a, ValueType> {
    /// The slot exists and matches the handle's generation but holds no value.
    Empty,
    /// The slot has been freed (and possibly refilled) since the handle was issued.
    OutDated,
    /// The handle's position lies beyond every slot ever allocated.
    OutOfBounds,
    /// The handle denotes this live value.
    Found(&'a mut ValueType),
}

/// Why a removal was refused.
#[derive(Copy, Clone, Debug, PartialEq, Eq, Structural)]
pub enum ErrorKind {
    /// The handle's position lies beyond every slot ever allocated.
    OutOfBounds,
    /// The slot has been freed (and possibly refilled) since the handle was issued.
    OutdatedGeneration,
    /// The slot matches the handle's generation but holds no value; the
    /// arena's own operations never produce a handle that reaches this state.
    Empty,
}

/// An arena of slots addressed by generational handles.
///
/// A slot table and a generation table grow in lockstep; a queue of freed
/// positions is reused first-freed-first, and a position's generation is
/// bumped each time its slot goes from occupied to free, so every handle
/// issued before the free is detectably stale.
pub struct GenerationalArray<ValueType> {
    values: Vec<Option<ValueType>>,
    generations: Vec<usize>,
    free_indices: VecDeque<usize>,
    size: usize,
    used_size: usize,
}

impl<ValueType> GenerationalArray<ValueType> {
    /// The slot table: one optional value per slot ever allocated.
    pub closed spec fn slots(self) -> Seq<Option<ValueType>> {
        self.values@
    }

    /// The generation table, parallel to the slot table.
    pub closed spec fn gens(self) -> Seq<usize> {
        self.generations@
    }

    /// The queue of freed positions awaiting reuse, oldest first.
    pub closed spec fn free_list(self) -> Seq<usize> {
        self.free_indices@
    }

    /// Total slots ever allocated, freed ones included.
    pub closed spec fn capacity(self) -> nat {
        self.size as nat
    }

    /// Slots currently holding a value.
    pub closed spec fn live_count(self) -> nat {
        self.used_size as nat
    }

    /// The arena's internal invariant: the two tables share the slot count,
    /// the free queue lists exactly the freed positions (each once), and the
    /// live counter agrees with the slot table.
    pub open spec fn wf(self) -> bool {
        &&& self.slots().len() == self.capacity()
        &&& self.gens().len() == self.capacity()
        &&& forall|k: int|
            0 <= k < self.free_list().len() ==> (#[trigger] self.free_list()[k]) < self.capacity()
                && self.slots()[self.free_list()[k] as int] is None
        &&& forall|p: int|
            0 <= p < self.capacity() && (#[trigger] self.slots()[p]) is None
                ==> self.free_list().contains(p as usize)
        &&& forall|k1: int, k2: int|
            0 <= k1 < k2 < self.free_list().len() ==> #[trigger] self.free_list()[k1]
                != #[trigger] self.free_list()[k2]
        &&& self.live_count() + self.free_list().len() == self.capacity()
        &&& self.live_count() == count_some(self.slots())
    }

    /// A handle denotes a value: its position exists, the slot still carries
    /// the handle's generation, and the slot is occupied.
    pub open spec fn valid_handle(self, handle: GenerationalIndex) -> bool {
        &&& (handle.spec_index() as int) < self.capacity()
        &&& self.gens()[handle.spec_index() as int] == handle.spec_generation()
        &&& self.slots()[handle.spec_index() as int] is Some
    }

    /// Creates an empty arena: no slots, no live values, nothing to reuse.
    pub fn new() -> (r: GenerationalArray<ValueType>)
        ensures
            r.wf(),
            r.capacity() == 0,
            r.live_count() == 0,
            r.free_list().len() == 0,
    {
        GenerationalArray::<ValueType> {
            values: Vec::<Option<ValueType>>::new(),
            generations: Vec::<usize>::new(),
            free_indices: VecDeque::<usize>::new(),
            size: 0,
            used_size: 0,
        }
    }

    /// What one `insert` does: `handle` names the slot that received `value`
    /// — the oldest freed position when one was waiting, a fresh slot
    /// otherwise — and carries that slot's current generation, which the
    /// insertion leaves untouched.
    pub open spec fn inserted(
        pre: Self,
        value: ValueType,
        post: Self,
        handle: GenerationalIndex,
    ) -> bool {
        &&& if pre.free_list().len() > 0 {
            &&& handle.spec_index() == pre.free_list()[0]
            &&& post.capacity() == pre.capacity()
            &&& post.gens() == pre.gens()
            &&& post.free_list() == pre.free_list().subrange(1, pre.free_list().len() as int)
            &&& post.slots() == pre.slots().update(handle.spec_index() as int, Some(value))
        } else {
            &&& handle.spec_index() as int == pre.capacity()
            &&& post.capacity() == pre.capacity() + 1
            &&& post.gens() == pre.gens().push(0usize)
            &&& post.free_list() == pre.free_list()
            &&& post.slots() == pre.slots().push(Some(value))
        }
        &&& handle.spec_generation() == post.gens()[handle.spec_index() as int]
        &&& post.live_count() == pre.live_count() + 1
        &&& post.valid_handle(handle)
    }

    /// Stores `value`, reusing the oldest freed slot if any, growing the
    /// table by one slot otherwise, and hands back a handle that denotes the
    /// value for as long as the slot keeps its current generation.
    pub fn insert(&mut self, value: ValueType) -> (r: GenerationalIndex)
        requires
            old(self).wf(),
            old(self).capacity() < usize::MAX,
        ensures
            final(self).wf(),
            Self::inserted(*old(self), value, *final(self), r),
    {
        // Pick the slot: the oldest freed position, or a fresh one.
        let next_index: usize = match self.free_indices.pop_front() {
            None => {
                self.values.push(None);
                self.generations.push(0);
                self.size += 1;
                self.size - 1
            },
            Some(idx) => idx,
        };
        proof {
            if old(self).free_list().len() == 0 {
                assert(self.slots() =~= old(self).slots().push(None));
            }
        }
        self.values[next_index] = Some(value);
        self.used_size += 1;
        proof {
            let pre = *old(self);
            if pre.free_list().len() > 0 {
                assert(pre.slots()[next_index as int] is None);
                lemma_count_some_update(pre.slots(), next_index as int, Some(value));
                assert forall|p: int|
                    0 <= p < self.capacity() && (#[trigger] self.slots()[p]) is None
                        implies self.free_list().contains(p as usize) by {
                    assert(pre.slots()[p] is None);
                    assert(pre.free_list().contains(p as usize));
                    let k = choose|k: int|
                        0 <= k < pre.free_list().len() && pre.free_list()[k] == p as usize;
                    assert(k != 0);
                    assert(self.free_list()[k - 1] == p as usize);
                }
            } else {
                assert(self.slots() =~= pre.slots().push(None).update(pre.slots().len() as int,
                    Some(value)));
                assert(self.slots() =~= pre.slots().push(Some(value)));
                assert(self.slots().drop_last() =~= pre.slots());
                assert(count_some(self.slots()) == count_some(pre.slots()) + 1);
            }
        }
        GenerationalIndex::make(next_index, self.generations[next_index])
    }

    /// What one successful `remove` does: the handle's slot is cleared, its
    /// generation is bumped by exactly one — turning every outstanding copy
    /// of the handle stale — and its position joins the back of the free
    /// queue.
    pub open spec fn removed(pre: Self, handle: GenerationalIndex, post: Self) -> bool {
        &&& pre.valid_handle(handle)
        &&& post.capacity() == pre.capacity()
        &&& post.slots() == pre.slots().update(handle.spec_index() as int, None::<ValueType>)
        &&& post.gens() == pre.gens().update(
            handle.spec_index() as int,
            (handle.spec_generation() + 1) as usize,
        )
        &&& post.free_list() == pre.free_list().push(handle.spec_index())
        &&& post.live_count() + 1 == pre.live_count()
    }

    /// Takes the value a handle denotes out of the arena. On success the
    /// slot's generation is bumped, so the consumed handle — and every copy
    /// of it — is stale from here on, and the position is queued for reuse.
    /// The checks run in the same fixed order as in `get`: position bounds,
    /// then generation, then occupancy.
    pub fn remove(&mut self, index: GenerationalIndex) -> (r: Result<(), ErrorKind>)
        requires
            old(self).wf(),
            (index.spec_index() as int) < old(self).capacity() ==> old(self).gens()[index.spec_index() as int]
                < usize::MAX,
        ensures
            final(self).wf(),
            r is Ok <==> old(self).valid_handle(index),
            match r {
                Ok(_) => Self::removed(*old(self), index, *final(self)),
                Err(e) => {
                    &&& *final(self) == *old(self)
                    &&& match e {
                        ErrorKind::OutOfBounds => (index.spec_index() as int) >= old(
                            self,
                        ).capacity(),
                        ErrorKind::OutdatedGeneration => {
                            &&& (index.spec_index() as int) < old(self).capacity()
                            &&& old(self).gens()[index.spec_index() as int]
                                != index.spec_generation()
                        },
                        ErrorKind::Empty => {
                            &&& (index.spec_index() as int) < old(self).capacity()
                            &&& old(self).gens()[index.spec_index() as int]
                                == index.spec_generation()
                            &&& old(self).slots()[index.spec_index() as int] is None
                        },
                    }
                },
            },
    {
        let position: usize = index.index();
        // Bounds must be checked before the generation table is read: a
        // position at or past the table's end has no generation to compare.
        if position >= self.size {
            return Err(ErrorKind::OutOfBounds);
        }
        if index.generation() != self.generations[position] {
            return Err(ErrorKind::OutdatedGeneration);
        }
        if self.values[position].is_none() {
            // A matching generation over an empty slot: the arena's own
            // operations never issue a handle that can reach this, but the
            // state is representable, so it is refused rather than let the
            // counters drift.
            return Err(ErrorKind::Empty);
        }
        self.values[position] = None;
        self.generations[position] = self.generations[position] + 1;
        self.free_indices.push_back(position);
        proof {
            let pre = *old(self);
            lemma_count_some_lower(pre.slots(), position as int);
            lemma_count_some_update(pre.slots(), position as int, None::<ValueType>);
            // The freed position was occupied, so it cannot already be queued.
            assert forall|k: int| 0 <= k < pre.free_list().len() implies pre.free_list()[k]
                != position by {
                assert(pre.slots()[pre.free_list()[k] as int] is None);
            }
            assert forall|p: int|
                0 <= p < self.capacity() && (#[trigger] self.slots()[p]) is None
                    implies self.free_list().contains(p as usize) by {
                if p == position as int {
                    assert(self.free_list()[self.free_list().len() - 1] == p as usize);
                } else {
                    assert(pre.slots()[p] is None);
                    assert(pre.free_list().contains(p as usize));
                    let k = choose|k: int|
                        0 <= k < pre.free_list().len() && pre.free_list()[k] == p as usize;
                    assert(self.free_list()[k] == p as usize);
                }
            }
        }
        self.used_size = self.used_size - 1;
        Ok(())
    }

    /// Looks a handle up without touching the arena. The checks run in a
    /// fixed order — position bounds, then generation, then occupancy — so an
    /// out-of-range position is reported as such whatever its generation.
    pub fn get(&self, index: &GenerationalIndex) -> (r: GenerationalArrayResult<ValueType>)
        requires
            self.wf(),
        ensures
            match r {
                GenerationalArrayResult::OutOfBounds => (index.spec_index() as int)
                    >= self.capacity(),
                GenerationalArrayResult::OutDated => {
                    &&& (index.spec_index() as int) < self.capacity()
                    &&& self.gens()[index.spec_index() as int] != index.spec_generation()
                },
                GenerationalArrayResult::Empty => {
                    &&& (index.spec_index() as int) < self.capacity()
                    &&& self.gens()[index.spec_index() as int] == index.spec_generation()
                    &&& self.slots()[index.spec_index() as int] is None
                },
                GenerationalArrayResult::Found(v) => {
                    &&& self.valid_handle(*index)
                    &&& self.slots()[index.spec_index() as int] == Some(*v)
                },
            },
    {
        let position: usize = index.index();
        // Bounds must be checked before the generation table is read: a
        // position at or past the table's end has no generation to compare.
        if position >= self.size {
            return GenerationalArrayResult::OutOfBounds;
        }
        if index.generation() != self.generations[position] {
            return GenerationalArrayResult::OutDated;
        }
        match &self.values[position] {
            None => GenerationalArrayResult::Empty,
            Some(val) => GenerationalArrayResult::Found(val),
        }
    }

    /// The two arenas present the same observable state: same slots, same
    /// generations, same free queue, same counters.
    pub open spec fn same_state(pre: Self, post: Self) -> bool {
        &&& post.slots() == pre.slots()
        &&& post.gens() == pre.gens()
        &&& post.free_list() == pre.free_list()
        &&& post.capacity() == pre.capacity()
        &&& post.live_count() == pre.live_count()
    }

    /// Looks a handle up for writing: the same four outcomes and the same
    /// check order as `get`, but success borrows the value exclusively, so
    /// the caller may overwrite it in place. Whatever the caller writes
    /// through the borrow, the slot stays occupied and its generation keeps
    /// its value: every handle that denoted the value still does.
    pub fn get_mut(&mut self, index: &GenerationalIndex) -> (r: GenerationalArrayResultMut<
        ValueType,
    >)
        requires
            old(self).wf(),
        ensures
            final(self).wf(),
            match r {
                GenerationalArrayResultMut::OutOfBounds => {
                    &&& (index.spec_index() as int) >= old(self).capacity()
                    &&& Self::same_state(*old(self), *final(self))
                },
                GenerationalArrayResultMut::OutDated => {
                    &&& (index.spec_index() as int) < old(self).capacity()
                    &&& old(self).gens()[index.spec_index() as int] != index.spec_generation()
                    &&& Self::same_state(*old(self), *final(self))
                },
                GenerationalArrayResultMut::Empty => {
                    &&& (index.spec_index() as int) < old(self).capacity()
                    &&& old(self).gens()[index.spec_index() as int] == index.spec_generation()
                    &&& old(self).slots()[index.spec_index() as int] is None
                    &&& Self::same_state(*old(self), *final(self))
                },
                GenerationalArrayResultMut::Found(v) => {
                    &&& old(self).valid_handle(*index)
                    &&& old(self).slots()[index.spec_index() as int] == Some(*v)
                    &&& final(self).slots() == old(self).slots().update(
                        index.spec_index() as int,
                        Some(*final(v)),
                    )
                    &&& final(self).gens() == old(self).gens()
                    &&& final(self).free_list() == old(self).free_list()
                    &&& final(self).capacity() == old(self).capacity()
                    &&& final(self).live_count() == old(self).live_count()
                },
            },
    {
        let position: usize = index.index();
        // Bounds must be checked before the generation table is read: a
        // position at or past the table's end has no generation to compare.
        if position >= self.size {
            return GenerationalArrayResultMut::OutOfBounds;
        }
        if index.generation() != self.generations[position] {
            return GenerationalArrayResultMut::OutDated;
        }
        proof {
            let pre = *old(self);
            let pos = position as int;
            if pre.slots()[pos] is Some {
                // No queued position aliases an occupied slot, so the free
                // queue is untouched by whatever the caller writes here.
                assert forall|k: int| 0 <= k < pre.free_list().len() implies pre.free_list()[k]
                    != position by {
                    assert(pre.slots()[pre.free_list()[k] as int] is None);
                }
                assert forall|v: Option<ValueType>| v is Some implies count_some(
                    pre.slots().update(pos, v),
                ) == count_some(pre.slots()) by {
                    lemma_count_some_update(pre.slots(), pos, v);
                }
            } else {
                assert(pre.slots().update(pos, None::<ValueType>) =~= pre.slots());
            }
        }
        match &mut self.values[position] {
            None => GenerationalArrayResultMut::Empty,
            Some(val) => GenerationalArrayResultMut::Found(val),
        }
    }

    /// True when no slot holds a value.
    pub fn is_empty(&self) -> (r: bool)
        ensures
            r == (self.live_count() == 0),
    {
        self.used_size == 0
    }

    /// Total slots ever allocated, freed ones included.
    pub fn size(&self) -> (r: usize)
        ensures
            r == self.capacity(),
    {
        self.size
    }

    /// Slots currently holding a value.
    pub fn used_size(&self) -> (r: usize)
        ensures
            r == self.live_count(),
    {
        self.used_size
    }
}

} // verus!
