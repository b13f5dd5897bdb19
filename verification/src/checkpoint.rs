use vstd::prelude::*;

verus! {

/// Saved allocation state for rollback.
///
/// Created by [`Arena::checkpoint`](crate::Arena::checkpoint) or
/// [`FastArena::checkpoint`](crate::FastArena::checkpoint). A checkpoint
/// records the arena's length at the moment of capture; rolling back to it
/// destroys every value allocated after that point and keeps everything
/// before. It is valid for rollback only while its saved length does not
/// exceed the arena's current length.
#[derive(Debug)]
pub struct Checkpoint<T> {
    len: usize,
    marker: core::marker::PhantomData<T>,
}

impl<T> View for Checkpoint<T> {
    type V = int;

    closed spec fn view(&self) -> int {
        self.len as int
    }
}

impl<T> Checkpoint<T> {
    /// Creates a checkpoint from a saved length.
    ///
    /// The caller must ensure the length is valid for the target arena.
    pub fn from_len(len: usize) -> (r: Self)
        ensures
            r@ == len,
    {
        Checkpoint { len, marker: core::marker::PhantomData }
    }

    /// Returns the saved length.
    pub fn len(&self) -> (r: usize)
        ensures
            r == self@,
    {
        self.len
    }

    /// Returns `true` if the checkpoint was taken at an empty state.
    pub fn is_empty(&self) -> (r: bool)
        ensures
            r <==> self@ == 0,
    {
        self.len == 0
    }
}

/// A checkpoint's saved length is never negative.
pub proof fn lemma_checkpoint_nonneg<T>(cp: Checkpoint<T>)
    ensures
        cp@ >= 0,
{
}

impl<T> Clone for Checkpoint<T> {
    fn clone(&self) -> (r: Self)
        ensures
            r == *self,
    {
        Checkpoint { len: self.len, marker: core::marker::PhantomData }
    }
}

impl<T> Copy for Checkpoint<T> {}

impl<T> PartialEq for Checkpoint<T> {
    fn eq(&self, other: &Self) -> (r: bool) {
        self.len == other.len
    }
}

impl<T> vstd::std_specs::cmp::PartialEqSpecImpl for Checkpoint<T> {
    open spec fn obeys_eq_spec() -> bool {
        true
    }

    open spec fn eq_spec(&self, other: &Self) -> bool {
        self@ == other@
    }
}

impl<T> Eq for Checkpoint<T> {}

impl<T> PartialOrd for Checkpoint<T> {
    fn partial_cmp(&self, other: &Self) -> (r: Option<core::cmp::Ordering>) {
        if self.len < other.len {
            Some(core::cmp::Ordering::Less)
        } else if self.len == other.len {
            Some(core::cmp::Ordering::Equal)
        } else {
            Some(core::cmp::Ordering::Greater)
        }
    }
}

impl<T> vstd::std_specs::cmp::PartialOrdSpecImpl for Checkpoint<T> {
    open spec fn obeys_partial_cmp_spec() -> bool {
        true
    }

    open spec fn partial_cmp_spec(&self, other: &Self) -> Option<core::cmp::Ordering> {
        if self@ < other@ {
            Some(core::cmp::Ordering::Less)
        } else if self@ == other@ {
            Some(core::cmp::Ordering::Equal)
        } else {
            Some(core::cmp::Ordering::Greater)
        }
    }
}

} // verus!
