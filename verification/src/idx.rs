use vstd::prelude::*;

verus! {

/// Stable position-based handle into an [`Arena`](crate::Arena) or
/// [`FastArena`](crate::FastArena).
///
/// A handle carries nothing but its position, statically tagged with the
/// element type. It is freely copyable and stays valid until a rollback or
/// reset lowers the arena's length past its position. Handles carry no
/// generation counter: a stale handle whose position is filled again by
/// later allocations silently aliases the new value.
#[derive(Debug)]
pub struct Idx<T> {
    index: usize,
    marker: core::marker::PhantomData<T>,
}

impl<T> View for Idx<T> {
    type V = int;

    closed spec fn view(&self) -> int {
        self.index as int
    }
}

impl<T> Idx<T> {
    /// Returns the raw position value.
    pub fn into_raw(self) -> (r: usize)
        ensures
            r == self@,
    {
        self.index
    }

    /// Creates a handle from a raw position.
    ///
    /// The caller must ensure the position is valid for the target arena.
    pub fn from_raw(index: usize) -> (r: Self)
        ensures
            r@ == index,
    {
        Idx { index, marker: core::marker::PhantomData }
    }
}

/// A handle's position is never negative.
pub proof fn lemma_idx_nonneg<T>(idx: Idx<T>)
    ensures
        idx@ >= 0,
{
}

impl<T> Clone for Idx<T> {
    fn clone(&self) -> (r: Self)
        ensures
            r == *self,
    {
        Idx { index: self.index, marker: core::marker::PhantomData }
    }
}

impl<T> Copy for Idx<T> {}

impl<T> PartialEq for Idx<T> {
    fn eq(&self, other: &Self) -> (r: bool) {
        self.index == other.index
    }
}

impl<T> vstd::std_specs::cmp::PartialEqSpecImpl for Idx<T> {
    open spec fn obeys_eq_spec() -> bool {
        true
    }

    open spec fn eq_spec(&self, other: &Self) -> bool {
        self@ == other@
    }
}

impl<T> Eq for Idx<T> {}

impl<T> PartialOrd for Idx<T> {
    fn partial_cmp(&self, other: &Self) -> (r: Option<core::cmp::Ordering>) {
        if self.index < other.index {
            Some(core::cmp::Ordering::Less)
        } else if self.index == other.index {
            Some(core::cmp::Ordering::Equal)
        } else {
            Some(core::cmp::Ordering::Greater)
        }
    }
}

impl<T> vstd::std_specs::cmp::PartialOrdSpecImpl for Idx<T> {
    open spec fn obeys_partial_cmp_spec() -> bool {
        true
    }

    open spec fn partial_cmp_spec(&self, other: &Self) -> Option<core::cmp::Ordering> {
        if self@ < other@ {
            Some(core::cmp::Ordering::Less)
        } else if self@ == other@ {
            Some(core::cmp::Ordering::Equal)
        } else {
            Some(core::cmp::Ordering::Greater)
        }
    }
}

} // verus!
