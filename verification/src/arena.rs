use vstd::prelude::*;

use crate::checkpoint::Checkpoint;
use crate::idx::Idx;
use crate::iter::{IterIndexed, IterIndexedMut};

verus! {

/// Single-thread typed arena allocator.
///
/// Stores values of type `T` in a growable contiguous buffer, returning
/// stable [`Idx<T>`] handles for direct access. Values are destroyed when
/// the arena is dropped, reset, or rolled back past their allocation point.
///
/// The arena tracks its capacity explicitly: allocation never fails, and
/// the capacity grows ahead of the length whenever the buffer is full.
///
/// For the slot-claiming arena with a fixed capacity and an explicit
/// publish boundary, see [`FastArena`](crate::FastArena).
pub struct Arena<T> {
    items: Vec<T>,
    cap: usize,
}

impl<T> View for Arena<T> {
    type V = Seq<T>;

    closed spec fn view(&self) -> Seq<T> {
        self.items@
    }
}

impl<T> Arena<T> {
    /// The capacity never falls below the number of allocated items.
    pub closed spec fn wf(&self) -> bool {
        self.items@.len() <= self.cap
    }

    /// The arena's current capacity, in items.
    pub closed spec fn spec_capacity(&self) -> int {
        self.cap as int
    }

    /// The arena invariant, made available to callers: the capacity never
    /// falls below the length.
    pub proof fn lemma_capacity_bounds(&self)
        requires
            self.wf(),
        ensures
            self@.len() <= self.spec_capacity(),
    {
    }

    /// Creates an empty arena.
    pub fn new() -> (r: Self)
        ensures
            r.wf(),
            r@ == Seq::<T>::empty(),
            r.spec_capacity() == 0,
    {
        Arena { items: Vec::new(), cap: 0 }
    }

    /// Creates an arena with capacity for `capacity` items.
    pub fn with_capacity(capacity: usize) -> (r: Self)
        ensures
            r.wf(),
            r@ == Seq::<T>::empty(),
            r.spec_capacity() == capacity,
    {
        Arena { items: Vec::with_capacity(capacity), cap: capacity }
    }

    /// Allocates a value in the arena, returning its stable handle.
    ///
    /// The handle's position equals the arena's length at the time of the
    /// call, so every allocation yields a distinct handle. Capacity grows
    /// ahead of the length when the buffer is full and is otherwise
    /// untouched.
    pub fn allocate(&mut self, value: T) -> (r: Idx<T>)
        requires
            old(self).wf(),
            old(self)@.len() < usize::MAX,
        ensures
            final(self).wf(),
            final(self)@ == old(self)@.push(value),
            r@ == old(self)@.len(),
            old(self)@.len() < old(self).spec_capacity() ==> final(self).spec_capacity()
                == old(self).spec_capacity(),
            final(self).spec_capacity() >= old(self).spec_capacity(),
    {
        let index = self.items.len();
        if index == self.cap {
            // the buffer is full: double the capacity, or start it off
            let doubled = if self.cap <= usize::MAX / 2 {
                self.cap * 2
            } else {
                usize::MAX
            };
            self.cap = if doubled > index {
                doubled
            } else {
                index + 1
            };
        }
        self.items.push(value);
        Idx::from_raw(index)
    }

    /// Returns a reference to the value at `idx`.
    ///
    /// The handle must be in bounds; a handle becomes stale once a rollback
    /// or reset removes the value it pointed to.
    pub fn get(&self, idx: Idx<T>) -> (r: &T)
        requires
            idx@ < self@.len(),
        ensures
            *r == self@[idx@],
    {
        let i = idx.into_raw();
        &self.items[i]
    }

    /// Returns a mutable reference to the value at `idx`.
    ///
    /// The handle must be in bounds; a handle becomes stale once a rollback
    /// or reset removes the value it pointed to.
    pub fn get_mut(&mut self, idx: Idx<T>) -> (r: &mut T)
        requires
            old(self).wf(),
            idx@ < old(self)@.len(),
        ensures
            final(self).wf(),
            *r == old(self)@[idx@],
            final(self)@ == old(self)@.update(idx@, *final(r)),
            final(self).spec_capacity() == old(self).spec_capacity(),
    {
        let i = idx.into_raw();
        &mut self.items[i]
    }

    /// Returns the number of allocated items.
    pub fn len(&self) -> (r: usize)
        ensures
            r == self@.len(),
    {
        self.items.len()
    }

    /// Returns `true` if the arena contains no items.
    pub fn is_empty(&self) -> (r: bool)
        ensures
            r <==> self@.len() == 0,
    {
        self.items.is_empty()
    }

    /// Returns the current capacity in items.
    pub fn capacity(&self) -> (r: usize)
        ensures
            r == self.spec_capacity(),
    {
        self.cap
    }

    /// Saves the current allocation state.
    ///
    /// Use with [`rollback`](Arena::rollback) to discard allocations made
    /// after this point.
    pub fn checkpoint(&self) -> (r: Checkpoint<T>)
        ensures
            r@ == self@.len(),
    {
        Checkpoint::from_len(self.items.len())
    }

    /// Rolls back to a previous checkpoint, destroying every value
    /// allocated after it and keeping everything before it unchanged.
    ///
    /// The checkpoint's saved length must not exceed the current length;
    /// a checkpoint from a later, already rolled-back state is invalid.
    pub fn rollback(&mut self, cp: Checkpoint<T>)
        requires
            old(self).wf(),
            cp@ <= old(self)@.len(),
        ensures
            final(self).wf(),
            final(self)@ == old(self)@.subrange(0, cp@),
            final(self).spec_capacity() == old(self).spec_capacity(),
    {
        let target = cp.len();
        self.items.truncate(target);
    }

    /// Removes all items, running their destructors.
    ///
    /// Retains the capacity for reuse.
    pub fn reset(&mut self)
        requires
            old(self).wf(),
        ensures
            final(self).wf(),
            final(self)@ == Seq::<T>::empty(),
            final(self).spec_capacity() == old(self).spec_capacity(),
    {
        self.items.clear();
    }

    /// Returns a view over all allocated items, in allocation order.
    pub fn iter(&self) -> (r: &[T])
        ensures
            r@ == self@,
    {
        self.items.as_slice()
    }

    /// Returns a mutable view over all allocated items, in allocation
    /// order. The length cannot change through it.
    pub fn iter_mut(&mut self) -> (r: &mut [T])
        requires
            old(self).wf(),
        ensures
            r@ == old(self)@,
            final(self)@ == final(r)@,
            final(self).spec_capacity() == old(self).spec_capacity(),
    {
        self.items.as_mut_slice()
    }

    /// Allocates every value of `values` in order, returning the handle of
    /// the first allocated item, or `None` if `values` is empty.
    pub fn alloc_extend(&mut self, values: Vec<T>) -> (r: Option<Idx<T>>)
        requires
            old(self).wf(),
            old(self)@.len() + values@.len() <= usize::MAX,
        ensures
            final(self).wf(),
            final(self)@ == old(self)@ + values@,
            final(self).spec_capacity() >= old(self).spec_capacity(),
            match r {
                Some(first) => values@.len() > 0 && first@ == old(self)@.len(),
                None => values@.len() == 0,
            },
    {
        let start = self.items.len();
        let mut rest = values;
        let ghost all = rest@;
        let ghost mut done: int = 0;
        while rest.len() > 0
            invariant
                self.wf(),
                0 <= done <= all.len(),
                rest@ == all.subrange(done, all.len() as int),
                self@ == old(self)@ + all.subrange(0, done),
                self@.len() + rest@.len() <= usize::MAX,
                self.spec_capacity() >= old(self).spec_capacity(),
            decreases rest@.len(),
        {
            let value = rest.remove(0);
            self.allocate(value);
            proof {
                done = done + 1;
                assert(all.subrange(0, done) == all.subrange(0, done - 1).push(all[done - 1]));
                assert(rest@ == all.subrange(done, all.len() as int));
            }
        }
        proof {
            assert(all.subrange(0, all.len() as int) == all);
        }
        if start < self.items.len() {
            Some(Idx::from_raw(start))
        } else {
            None
        }
    }

    /// Returns `true` if `idx` points to a valid item in this arena.
    ///
    /// A handle becomes invalid once [`rollback`](Arena::rollback) or
    /// [`reset`](Arena::reset) removes the item it pointed to.
    pub fn is_valid(&self, idx: Idx<T>) -> (r: bool)
        ensures
            r <==> idx@ < self@.len(),
    {
        idx.into_raw() < self.items.len()
    }

    /// Returns a reference to the value at `idx`, or `None` if the handle
    /// is out of bounds.
    pub fn try_get(&self, idx: Idx<T>) -> (r: Option<&T>)
        ensures
            match r {
                Some(v) => idx@ < self@.len() && *v == self@[idx@],
                None => idx@ >= self@.len(),
            },
    {
        let i = idx.into_raw();
        if i < self.items.len() {
            Some(&self.items[i])
        } else {
            None
        }
    }

    /// Returns a mutable reference to the value at `idx`, or `None` if the
    /// handle is out of bounds.
    pub fn try_get_mut(&mut self, idx: Idx<T>) -> (r: Option<&mut T>)
        requires
            old(self).wf(),
        ensures
            final(self).wf(),
            final(self).spec_capacity() == old(self).spec_capacity(),
            match r {
                Some(v) => idx@ < old(self)@.len() && *v == old(self)@[idx@] && final(self)@
                    == old(self)@.update(idx@, *final(v)),
                None => idx@ >= old(self)@.len() && final(self)@ == old(self)@,
            },
    {
        let i = idx.into_raw();
        if i < self.items.len() {
            Some(&mut self.items[i])
        } else {
            None
        }
    }

    /// Removes all items, returning them in allocation order.
    ///
    /// Ownership moves to the caller, so no destructor runs here. The
    /// arena is empty afterward; its capacity is retained.
    pub fn drain(&mut self) -> (r: Vec<T>)
        requires
            old(self).wf(),
        ensures
            final(self).wf(),
            r@ == old(self)@,
            final(self)@ == Seq::<T>::empty(),
            final(self).spec_capacity() == old(self).spec_capacity(),
    {
        let mut out: Vec<T> = Vec::new();
        core::mem::swap(&mut self.items, &mut out);
        out
    }

    /// Returns a cursor yielding `(Idx<T>, &T)` pairs in allocation order.
    pub fn iter_indexed(&self) -> (r: IterIndexed<'_, T>)
        ensures
            r.elems() == self@,
            r.pos() == 0,
    {
        IterIndexed::new(self.items.as_slice())
    }

    /// Returns a cursor yielding, in allocation order, the handle of every
    /// item currently in the arena, for mutation through
    /// [`get_mut`](Arena::get_mut).
    pub fn iter_indexed_mut(&self) -> (r: IterIndexedMut<T>)
        ensures
            r.end() == self@.len(),
            r.pos() == 0,
    {
        IterIndexedMut::new(self.items.len())
    }

    /// Reserves capacity for at least `additional` more items.
    pub fn reserve(&mut self, additional: usize)
        requires
            old(self).wf(),
            old(self)@.len() + additional <= usize::MAX,
        ensures
            final(self).wf(),
            final(self)@ == old(self)@,
            final(self).spec_capacity() == if old(self)@.len() + additional
                > old(self).spec_capacity() {
                old(self)@.len() + additional
            } else {
                old(self).spec_capacity()
            },
    {
        self.items.reserve(additional);
        let wanted = self.items.len() + additional;
        if wanted > self.cap {
            self.cap = wanted;
        }
    }

    /// Shrinks the capacity to the current number of items.
    pub fn shrink_to_fit(&mut self)
        requires
            old(self).wf(),
        ensures
            final(self).wf(),
            final(self)@ == old(self)@,
            final(self).spec_capacity() == old(self)@.len(),
    {
        self.cap = self.items.len();
    }
}

impl<T> Default for Arena<T> {
    /// Creates an empty arena.
    fn default() -> (r: Self)
        ensures
            r.wf(),
            r@ == Seq::<T>::empty(),
            r.spec_capacity() == 0,
    {
        Arena::new()
    }
}

} // verus!
