use vstd::prelude::*;

use crate::idx::Idx;

verus! {

/// Cursor yielding `(Idx<T>, &T)` pairs in allocation order.
///
/// Created by [`Arena::iter_indexed`](crate::Arena::iter_indexed) or
/// [`FastArena::iter_indexed`](crate::FastArena::iter_indexed). Each call
/// to [`next`](IterIndexed::next) pairs the next item with the handle that
/// resolves to it.
pub struct IterIndexed<'a, T> {
    items: &'a [T],
    pos: usize,
}

impl<'a, T> IterIndexed<'a, T> {
    /// The items the cursor walks over.
    pub closed spec fn elems(&self) -> Seq<T> {
        self.items@
    }

    /// The position of the next pair to be yielded.
    pub closed spec fn pos(&self) -> int {
        self.pos as int
    }

    /// The cursor never moves past the end of its items.
    pub closed spec fn wf(&self) -> bool {
        self.pos <= self.items@.len()
    }

    /// Creates a cursor over `items`, starting at position zero.
    pub fn new(items: &'a [T]) -> (r: Self)
        ensures
            r.wf(),
            r.elems() == items@,
            r.pos() == 0,
    {
        IterIndexed { items, pos: 0 }
    }

    /// Yields the next `(Idx<T>, &T)` pair, or `None` once every item has
    /// been yielded.
    pub fn next(&mut self) -> (r: Option<(Idx<T>, &'a T)>)
        requires
            old(self).wf(),
        ensures
            final(self).wf(),
            final(self).elems() == old(self).elems(),
            match r {
                Some(p) => {
                    &&& old(self).pos() < old(self).elems().len()
                    &&& p.0@ == old(self).pos()
                    &&& *p.1 == old(self).elems()[old(self).pos()]
                    &&& final(self).pos() == old(self).pos() + 1
                },
                None => {
                    &&& old(self).pos() == old(self).elems().len()
                    &&& final(self).pos() == old(self).pos()
                },
            },
    {
        if self.pos < self.items.len() {
            let i = self.pos;
            self.pos = i + 1;
            Some((Idx::from_raw(i), &self.items[i]))
        } else {
            None
        }
    }

    /// Returns the number of pairs still to be yielded.
    pub fn len(&self) -> (r: usize)
        requires
            self.wf(),
        ensures
            r == self.elems().len() - self.pos(),
    {
        self.items.len() - self.pos
    }
}

/// Cursor yielding, in allocation order, the handle of every item that an
/// arena held when the cursor was created.
///
/// Created by
/// [`Arena::iter_indexed_mut`](crate::Arena::iter_indexed_mut) or
/// [`FastArena::iter_indexed_mut`](crate::FastArena::iter_indexed_mut).
/// The cursor does not borrow the arena: pass each yielded handle to
/// `get_mut` to mutate the item it resolves to.
pub struct IterIndexedMut<T> {
    end: usize,
    pos: usize,
    marker: core::marker::PhantomData<T>,
}

impl<T> IterIndexedMut<T> {
    /// One past the last position the cursor will yield.
    pub closed spec fn end(&self) -> int {
        self.end as int
    }

    /// The position of the next handle to be yielded.
    pub closed spec fn pos(&self) -> int {
        self.pos as int
    }

    /// The cursor never moves past its end.
    pub closed spec fn wf(&self) -> bool {
        self.pos <= self.end
    }

    /// Creates a cursor yielding the handles of positions `0..end`.
    pub fn new(end: usize) -> (r: Self)
        ensures
            r.wf(),
            r.end() == end,
            r.pos() == 0,
    {
        IterIndexedMut { end, pos: 0, marker: core::marker::PhantomData }
    }

    /// Yields the handle of the next position, or `None` once every
    /// position has been yielded.
    pub fn next(&mut self) -> (r: Option<Idx<T>>)
        requires
            old(self).wf(),
        ensures
            final(self).wf(),
            final(self).end() == old(self).end(),
            match r {
                Some(idx) => {
                    &&& old(self).pos() < old(self).end()
                    &&& idx@ == old(self).pos()
                    &&& final(self).pos() == old(self).pos() + 1
                },
                None => {
                    &&& old(self).pos() == old(self).end()
                    &&& final(self).pos() == old(self).pos()
                },
            },
    {
        if self.pos < self.end {
            let i = self.pos;
            self.pos = i + 1;
            Some(Idx::from_raw(i))
        } else {
            None
        }
    }

    /// Returns the number of handles still to be yielded.
    pub fn len(&self) -> (r: usize)
        requires
            self.wf(),
        ensures
            r == self.end() - self.pos(),
    {
        self.end - self.pos
    }
}

} // verus!
