use vstd::prelude::*;

use crate::checkpoint::Checkpoint;
use crate::idx::Idx;
use crate::iter::{IterIndexed, IterIndexedMut};

verus! {

/// Default capacity of [`FastArena::new`].
const INITIAL_CAP: usize = 64;

/// Slot-claiming typed arena with contiguous storage.
///
/// Values live in a contiguous buffer of slots, one readiness flag per
/// slot. An allocation claims the next slot at the claim cursor — each
/// position is handed out exactly once — writes its value into the claimed
/// slot, marks the slot ready, and then takes part in the publish-advance
/// protocol: the publish boundary moves past one ready slot at a time,
/// never skipping a gap, so every position below the boundary holds a
/// fully written value. Readers compare a handle against the boundary and
/// read the slot directly.
///
/// The capacity is fixed until [`grow`](FastArena::grow) or
/// [`grow_to`](FastArena::grow_to) enlarges it under exclusive access;
/// allocation requires free capacity. Checkpoint, rollback, reset, drain
/// and growth share the same observable contract as
/// [`Arena`](crate::Arena), so single-threaded callers can substitute one
/// variant for the other.
pub struct FastArena<T> {
    /// Contiguous storage for the claimed slots' values.
    items: Vec<T>,
    /// Per-slot readiness flags; length equals the capacity.
    flags: Vec<bool>,
    /// Number of slots.
    cap: usize,
    /// Next slot to be claimed by an allocation.
    cursor: usize,
    /// Publish boundary: all slots below it are ready and visible.
    published: usize,
}

impl<T> View for FastArena<T> {
    type V = Seq<T>;

    closed spec fn view(&self) -> Seq<T> {
        self.items@
    }
}

impl<T> FastArena<T> {
    /// The arena's invariant at rest: the publish boundary has caught up
    /// with the claim cursor, every claimed slot holds a value and has its
    /// readiness flag set, every unclaimed slot's flag is clear, and the
    /// cursor never passes the capacity.
    pub closed spec fn wf(&self) -> bool {
        &&& self.published == self.cursor
        &&& self.items@.len() == self.cursor
        &&& self.cursor <= self.cap
        &&& 1 <= self.cap
        &&& self.flags@.len() == self.cap
        &&& forall|i: int| 0 <= i < self.cap ==> (self.flags@[i] <==> i < self.cursor)
    }

    /// The arena's current capacity, in slots.
    pub closed spec fn spec_capacity(&self) -> int {
        self.cap as int
    }

    /// The arena invariant, made available to callers: the capacity never
    /// falls below the length and holds at least one slot.
    pub proof fn lemma_capacity_bounds(&self)
        requires
            self.wf(),
        ensures
            self@.len() <= self.spec_capacity(),
            1 <= self.spec_capacity(),
    {
    }

    /// Creates a new arena with the default initial capacity.
    pub fn new() -> (r: Self)
        ensures
            r.wf(),
            r@ == Seq::<T>::empty(),
            r.spec_capacity() == 64,
    {
        Self::with_capacity(INITIAL_CAP)
    }

    /// Creates a new arena with the given capacity, raised to one slot for
    /// an empty request. The arena holds that many values before it must
    /// be grown.
    pub fn with_capacity(capacity: usize) -> (r: Self)
        ensures
            r.wf(),
            r@ == Seq::<T>::empty(),
            r.spec_capacity() == if capacity == 0 {
                1int
            } else {
                capacity as int
            },
    {
        let cap = if capacity == 0 {
            1
        } else {
            capacity
        };
        FastArena {
            items: Vec::new(),
            flags: vec![false; cap],
            cap,
            cursor: 0,
            published: 0,
        }
    }

    /// Allocates a value, returning its stable handle.
    ///
    /// Claims the next slot, writes the value into it, marks the slot
    /// ready, and advances the publish boundary past it. The handle's
    /// position equals the arena's length at the time of the call. The
    /// arena must not be full: grow it first.
    pub fn allocate(&mut self, value: T) -> (r: Idx<T>)
        requires
            old(self).wf(),
            old(self)@.len() < old(self).spec_capacity(),
        ensures
            final(self).wf(),
            final(self)@ == old(self)@.push(value),
            final(self).spec_capacity() == old(self).spec_capacity(),
            r@ == old(self)@.len(),
    {
        // claim the next slot: the cursor hands out each position once
        let slot = self.cursor;
        self.cursor = slot + 1;
        // write the value into the exclusively claimed slot
        self.items.push(value);
        // mark the slot ready
        self.flags[slot] = true;
        // take part in the publish-advance protocol
        self.advance_published();
        Idx::from_raw(slot)
    }

    /// Advances the publish boundary past every claimed slot whose
    /// readiness flag is set.
    ///
    /// Sequential rendering of the cooperative publish-advance protocol:
    /// the boundary moves past one ready slot at a time and never skips a
    /// gap, so it only ever passes a contiguous run of fully written
    /// slots. Under exclusive access every claimed slot is already ready,
    /// so the boundary reaches the claim cursor; concurrently, a writer
    /// finding a clear flag would spin while an earlier writer finishes,
    /// and whichever writer completes first advances the boundary for the
    /// others.
    fn advance_published(&mut self)
        requires
            old(self).flags@.len() == old(self).cap,
            old(self).items@.len() == old(self).cursor,
            old(self).cursor <= old(self).cap,
            old(self).published <= old(self).cursor,
            forall|i: int|
                0 <= i < old(self).cap ==> (old(self).flags@[i] <==> i < old(self).cursor),
        ensures
            final(self).items == old(self).items,
            final(self).flags == old(self).flags,
            final(self).cap == old(self).cap,
            final(self).cursor == old(self).cursor,
            final(self).published == old(self).cursor,
    {
        while self.published < self.cursor
            invariant
                self.items == old(self).items,
                self.flags == old(self).flags,
                self.cap == old(self).cap,
                self.cursor == old(self).cursor,
                self.flags@.len() == self.cap,
                self.cursor <= self.cap,
                self.published <= self.cursor,
                forall|i: int| 0 <= i < self.cap ==> (self.flags@[i] <==> i < self.cursor),
            decreases self.cursor - self.published,
        {
            // the boundary only ever advances past a slot that is ready
            let ready = self.flags[self.published];
            assert(ready);
            self.published = self.published + 1;
        }
    }

    /// Returns a reference to the value at `idx`.
    ///
    /// The handle's position must be below the current length; a handle
    /// becomes stale once a rollback or reset passes it.
    pub fn get(&self, idx: Idx<T>) -> (r: &T)
        requires
            idx@ < self@.len(),
        ensures
            *r == self@[idx@],
    {
        let i = idx.into_raw();
        &self.items[i]
    }

    /// Returns a mutable reference to the value at `idx`.
    ///
    /// Requires exclusive access; the handle's position must be below the
    /// current length.
    pub fn get_mut(&mut self, idx: Idx<T>) -> (r: &mut T)
        requires
            old(self).wf(),
            idx@ < old(self)@.len(),
        ensures
            final(self).wf(),
            *r == old(self)@[idx@],
            final(self)@ == old(self)@.update(idx@, *final(r)),
            final(self).spec_capacity() == old(self).spec_capacity(),
    {
        let i = idx.into_raw();
        &mut self.items[i]
    }

    /// Returns a reference to the value at `idx`, or `None` if the handle
    /// is out of bounds.
    pub fn try_get(&self, idx: Idx<T>) -> (r: Option<&T>)
        requires
            self.wf(),
        ensures
            match r {
                Some(v) => idx@ < self@.len() && *v == self@[idx@],
                None => idx@ >= self@.len(),
            },
    {
        let i = idx.into_raw();
        if i < self.published {
            Some(&self.items[i])
        } else {
            None
        }
    }

    /// Returns a mutable reference to the value at `idx`, or `None` if
    /// the handle is out of bounds. Requires exclusive access.
    pub fn try_get_mut(&mut self, idx: Idx<T>) -> (r: Option<&mut T>)
        requires
            old(self).wf(),
        ensures
            final(self).wf(),
            final(self).spec_capacity() == old(self).spec_capacity(),
            match r {
                Some(v) => idx@ < old(self)@.len() && *v == old(self)@[idx@] && final(self)@
                    == old(self)@.update(idx@, *final(v)),
                None => idx@ >= old(self)@.len() && final(self)@ == old(self)@,
            },
    {
        let i = idx.into_raw();
        if i < self.published {
            Some(&mut self.items[i])
        } else {
            None
        }
    }

    /// Returns the number of published (visible) items.
    pub fn len(&self) -> (r: usize)
        requires
            self.wf(),
        ensures
            r == self@.len(),
    {
        self.published
    }

    /// Returns `true` if the arena contains no items.
    pub fn is_empty(&self) -> (r: bool)
        requires
            self.wf(),
        ensures
            r <==> self@.len() == 0,
    {
        self.published == 0
    }

    /// Returns the current capacity in slots.
    pub fn capacity(&self) -> (r: usize)
        ensures
            r == self.spec_capacity(),
    {
        self.cap
    }

    /// Returns `true` if `idx` points to a valid item: its position is
    /// below the publish boundary.
    pub fn is_valid(&self, idx: Idx<T>) -> (r: bool)
        requires
            self.wf(),
        ensures
            r <==> idx@ < self@.len(),
    {
        idx.into_raw() < self.published
    }

    /// Returns a contiguous view of all published items, in position
    /// order.
    pub fn as_slice(&self) -> (r: &[T])
        ensures
            r@ == self@,
    {
        self.items.as_slice()
    }

    /// Returns a mutable contiguous view of all published items.
    /// Requires exclusive access; the length cannot change through it.
    pub fn as_mut_slice(&mut self) -> (r: &mut [T])
        requires
            old(self).wf(),
        ensures
            r@ == old(self)@,
            final(self)@ == final(r)@,
            final(self).spec_capacity() == old(self).spec_capacity(),
    {
        self.items.as_mut_slice()
    }

    /// Saves the current allocation state.
    pub fn checkpoint(&self) -> (r: Checkpoint<T>)
        requires
            self.wf(),
        ensures
            r@ == self@.len(),
    {
        Checkpoint::from_len(self.published)
    }

    /// Rolls back to a previous checkpoint.
    ///
    /// Destroys, in reverse position order, every value allocated after
    /// the checkpoint, clearing each slot's readiness flag and pulling the
    /// claim cursor and the publish boundary back with it, so the freed
    /// positions are immediately reusable. Everything below the checkpoint
    /// is kept unchanged. The checkpoint's saved length must not exceed
    /// the current length.
    pub fn rollback(&mut self, cp: Checkpoint<T>)
        requires
            old(self).wf(),
            cp@ <= old(self)@.len(),
        ensures
            final(self).wf(),
            final(self)@ == old(self)@.subrange(0, cp@),
            final(self).spec_capacity() == old(self).spec_capacity(),
    {
        let target = cp.len();
        proof {
            assert(old(self)@.subrange(0, old(self)@.len() as int) =~= old(self)@);
        }
        while self.items.len() > target
            invariant
                self.wf(),
                target <= self.items@.len(),
                self.items@.len() <= old(self)@.len(),
                self.items@ == old(self)@.subrange(0, self.items@.len() as int),
                self.cap == old(self).cap,
            decreases self.items@.len(),
        {
            // destroy the last value and free its slot
            let _ = self.items.pop();
            let idx = self.items.len();
            self.flags[idx] = false;
            self.cursor = idx;
            self.published = idx;
            proof {
                assert forall|j: int| 0 <= j < self.items@.len() implies self.items@[j] == old(
                    self,
                )@[j] by {}
                assert(self.items@ =~= old(self)@.subrange(0, self.items@.len() as int));
            }
        }
    }

    /// Removes all items, running their destructors in reverse position
    /// order. Retains the storage for reuse.
    pub fn reset(&mut self)
        requires
            old(self).wf(),
        ensures
            final(self).wf(),
            final(self)@ == Seq::<T>::empty(),
            final(self).spec_capacity() == old(self).spec_capacity(),
    {
        while self.items.len() > 0
            invariant
                self.wf(),
                self.cap == old(self).cap,
            decreases self.items@.len(),
        {
            // destroy the last value and free its slot
            let _ = self.items.pop();
            let idx = self.items.len();
            self.flags[idx] = false;
            self.cursor = idx;
            self.published = idx;
        }
    }

    /// Doubles the arena's capacity. Requires exclusive access; existing
    /// handles remain valid and resolve to the same values.
    pub fn grow(&mut self)
        requires
            old(self).wf(),
            2 * old(self).spec_capacity() <= usize::MAX,
        ensures
            final(self).wf(),
            final(self)@ == old(self)@,
            final(self).spec_capacity() == 2 * old(self).spec_capacity(),
    {
        let new_cap = self.cap * 2;
        self.grow_to(new_cap);
    }

    /// Grows the arena to at least `min_capacity` slots; a no-op if the
    /// current capacity already suffices.
    ///
    /// The values and the readiness state of every claimed slot move to
    /// the enlarged storage; positions are unchanged, so existing handles
    /// and checkpoints remain valid and resolve to the same values.
    pub fn grow_to(&mut self, min_capacity: usize)
        requires
            old(self).wf(),
        ensures
            final(self).wf(),
            final(self)@ == old(self)@,
            final(self).spec_capacity() == if min_capacity <= old(self).spec_capacity() {
                old(self).spec_capacity()
            } else {
                min_capacity as int
            },
    {
        if min_capacity <= self.cap {
            return ;
        }
        // fresh readiness flags at the new capacity, carrying over the
        // state of every existing slot
        let mut new_flags: Vec<bool> = Vec::with_capacity(min_capacity);
        let mut i: usize = 0;
        while i < min_capacity
            invariant
                self == old(self),
                self.wf(),
                self.cap < min_capacity,
                i <= min_capacity,
                new_flags@.len() == i,
                forall|j: int| 0 <= j < i ==> (new_flags@[j] <==> j < self.cursor),
            decreases min_capacity - i,
        {
            if i < self.cap {
                let flag = self.flags[i];
                new_flags.push(flag);
            } else {
                new_flags.push(false);
            }
            i = i + 1;
        }
        // the backing buffer relocates its values by move when it grows
        let additional = min_capacity - self.items.len();
        self.items.reserve(additional);
        self.flags = new_flags;
        self.cap = min_capacity;
    }

    /// Returns a contiguous view of all published items, in position
    /// order.
    pub fn iter(&self) -> (r: &[T])
        ensures
            r@ == self@,
    {
        self.items.as_slice()
    }

    /// Returns a mutable contiguous view of all published items. Requires
    /// exclusive access; the length cannot change through it.
    pub fn iter_mut(&mut self) -> (r: &mut [T])
        requires
            old(self).wf(),
        ensures
            r@ == old(self)@,
            final(self)@ == final(r)@,
            final(self).spec_capacity() == old(self).spec_capacity(),
    {
        self.items.as_mut_slice()
    }

    /// Returns a cursor yielding `(Idx<T>, &T)` pairs in position order.
    pub fn iter_indexed(&self) -> (r: IterIndexed<'_, T>)
        ensures
            r.elems() == self@,
            r.pos() == 0,
    {
        IterIndexed::new(self.items.as_slice())
    }

    /// Returns a cursor yielding, in position order, the handle of every
    /// published item, for mutation through
    /// [`get_mut`](FastArena::get_mut).
    pub fn iter_indexed_mut(&self) -> (r: IterIndexedMut<T>)
        requires
            self.wf(),
        ensures
            r.end() == self@.len(),
            r.pos() == 0,
    {
        IterIndexedMut::new(self.published)
    }

    /// Allocates every value of `values` in order, returning the handle
    /// of the first one, or `None` if `values` is empty.
    ///
    /// Repeatedly claims one slot per value, so the whole run must fit in
    /// the free capacity.
    pub fn alloc_extend(&mut self, values: Vec<T>) -> (r: Option<Idx<T>>)
        requires
            old(self).wf(),
            old(self)@.len() + values@.len() <= old(self).spec_capacity(),
        ensures
            final(self).wf(),
            final(self)@ == old(self)@ + values@,
            final(self).spec_capacity() == old(self).spec_capacity(),
            match r {
                Some(first) => values@.len() > 0 && first@ == old(self)@.len(),
                None => values@.len() == 0,
            },
    {
        let start = self.published;
        let mut rest = values;
        let ghost all = rest@;
        let ghost mut done: int = 0;
        while rest.len() > 0
            invariant
                self.wf(),
                0 <= done <= all.len(),
                rest@ == all.subrange(done, all.len() as int),
                self@ == old(self)@ + all.subrange(0, done),
                self@.len() + rest@.len() <= self.spec_capacity(),
                self.spec_capacity() == old(self).spec_capacity(),
            decreases rest@.len(),
        {
            let value = rest.remove(0);
            self.allocate(value);
            proof {
                done = done + 1;
                assert(all.subrange(0, done) == all.subrange(0, done - 1).push(all[done - 1]));
                assert(rest@ == all.subrange(done, all.len() as int));
            }
        }
        proof {
            assert(all.subrange(0, all.len() as int) == all);
        }
        if start < self.published {
            Some(Idx::from_raw(start))
        } else {
            None
        }
    }

    /// Removes all items, returning them in position order.
    ///
    /// Ownership of the values moves to the caller, so no destructor runs
    /// here. Every slot's readiness flag is cleared and the claim cursor
    /// and publish boundary return to zero; the capacity is retained.
    pub fn drain(&mut self) -> (r: Vec<T>)
        requires
            old(self).wf(),
        ensures
            final(self).wf(),
            r@ == old(self)@,
            final(self)@ == Seq::<T>::empty(),
            final(self).spec_capacity() == old(self).spec_capacity(),
    {
        // move the values out; ownership transfers with the buffer
        let mut out: Vec<T> = Vec::new();
        core::mem::swap(&mut self.items, &mut out);
        // clear the readiness flag of every vacated slot
        let mut i: usize = 0;
        let end = self.cursor;
        while i < end
            invariant
                i <= end,
                end <= self.cap,
                self.flags@.len() == self.cap,
                self.items@.len() == 0,
                self.cap == old(self).cap,
                self.cursor == end,
                forall|j: int| 0 <= j < self.cap ==> (self.flags@[j] <==> i <= j < end),
            decreases end - i,
        {
            self.flags[i] = false;
            i = i + 1;
        }
        self.cursor = 0;
        self.published = 0;
        out
    }
}

impl<T> Default for FastArena<T> {
    /// Creates an empty arena with the default initial capacity.
    fn default() -> (r: Self)
        ensures
            r.wf(),
            r@ == Seq::<T>::empty(),
            r.spec_capacity() == 64,
    {
        FastArena::new()
    }
}

/// An allocation's handle equals the arena's length at the time of the
/// call, and the length grows with every allocation, so the handles
/// returned by any two allocations are distinct.
pub proof fn lemma_alloc_handles_unique<T>(
    earlier: FastArena<T>,
    later: FastArena<T>,
    h1: Idx<T>,
    h2: Idx<T>,
)
    requires
        h1@ == earlier@.len(),
        earlier@.len() < later@.len(),
        h2@ == later@.len(),
    ensures
        h1@ != h2@,
{
}

/// Reading through a handle yields exactly the value passed to the
/// allocation that produced it: allocation appends its value at the
/// handle's position, and `get` returns the value at that position.
pub proof fn lemma_get_returns_allocated<T>(
    pre: FastArena<T>,
    post: FastArena<T>,
    value: T,
    h: Idx<T>,
)
    requires
        post@ == pre@.push(value),
        h@ == pre@.len(),
    ensures
        h@ < post@.len(),
        post@[h@] == value,
{
}

/// Rolling back to a checkpoint keeps every handle below the checkpoint
/// resolving to its original value, and invalidates every handle at or
/// above it.
pub proof fn lemma_rollback_preserves_prefix<T>(
    pre: FastArena<T>,
    post: FastArena<T>,
    cp: Checkpoint<T>,
    h: Idx<T>,
)
    requires
        cp@ <= pre@.len(),
        post@ == pre@.subrange(0, cp@),
    ensures
        h@ < cp@ ==> h@ < post@.len() && post@[h@] == pre@[h@],
        h@ >= cp@ ==> h@ >= post@.len(),
{
    crate::idx::lemma_idx_nonneg(h);
    crate::checkpoint::lemma_checkpoint_nonneg(cp);
}

/// Growth preserves the contents: every handle valid before a grow stays
/// valid and resolves to the same value after it.
pub proof fn lemma_growth_preserves_handles<T>(pre: FastArena<T>, post: FastArena<T>, h: Idx<T>)
    requires
        post@ == pre@,
        h@ < pre@.len(),
    ensures
        h@ < post@.len(),
        post@[h@] == pre@[h@],
{
}

} // verus!
