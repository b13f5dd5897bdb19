use std::cell::Cell;
use std::rc::Rc;

use fast_bump::{Checkpoint, FastArena, Idx};

/// Increments a shared counter when dropped.
struct CountedDrop(Rc<Cell<u32>>);

impl Drop for CountedDrop {
    fn drop(&mut self) {
        self.0.set(self.0.get() + 1);
    }
}

/// A labelled value whose destructor increments a shared counter.
struct Labelled {
    name: &'static str,
    drops: Rc<Cell<u32>>,
}

impl Drop for Labelled {
    fn drop(&mut self) {
        self.drops.set(self.drops.get() + 1);
    }
}

#[test]
fn alloc_and_get() {
    let mut arena = FastArena::with_capacity(16);
    let a = arena.allocate(10);
    let b = arena.allocate(20);
    let c = arena.allocate(30);

    assert_eq!(*arena.get(a), 10);
    assert_eq!(*arena.get(b), 20);
    assert_eq!(*arena.get(c), 30);
}

#[test]
fn len_and_is_empty() {
    let mut arena = FastArena::with_capacity(16);
    assert!(arena.is_empty());
    assert_eq!(arena.len(), 0);

    arena.allocate(1);
    assert!(!arena.is_empty());
    assert_eq!(arena.len(), 1);

    arena.allocate(2);
    assert_eq!(arena.len(), 2);
}

#[test]
fn as_slice() {
    let mut arena = FastArena::with_capacity(16);
    arena.allocate(10);
    arena.allocate(20);
    arena.allocate(30);

    assert_eq!(arena.as_slice(), &[10, 20, 30]);
}

#[test]
fn as_slice_empty() {
    let arena = FastArena::<i32>::with_capacity(16);
    assert_eq!(arena.as_slice(), &[] as &[i32]);
}

#[test]
fn get_mut() {
    let mut arena = FastArena::with_capacity(16);
    let a = arena.allocate(10);

    *arena.get_mut(a) = 42;
    assert_eq!(*arena.get(a), 42);
}

#[test]
fn try_get() {
    let mut arena = FastArena::with_capacity(16);
    let a = arena.allocate(10);

    assert_eq!(arena.try_get(a), Some(&10));
    assert_eq!(arena.try_get(Idx::from_raw(99)), None);
}

#[test]
fn try_get_mut() {
    let mut arena = FastArena::with_capacity(16);
    let a = arena.allocate(10);

    assert_eq!(arena.try_get_mut(Idx::from_raw(99)), None);
    *arena.try_get_mut(a).unwrap() = 42;
    assert_eq!(*arena.get(a), 42);
}

#[test]
fn is_valid() {
    let mut arena = FastArena::with_capacity(16);
    let a = arena.allocate(10);

    assert!(arena.is_valid(a));
    assert!(!arena.is_valid(Idx::from_raw(99)));
}

#[test]
fn checkpoint_and_rollback() {
    let mut arena = FastArena::with_capacity(16);
    let a = arena.allocate(String::from("keep"));
    let cp = arena.checkpoint();
    let _b = arena.allocate(String::from("discard"));
    assert_eq!(arena.len(), 2);

    arena.rollback(cp);
    assert_eq!(arena.len(), 1);
    assert_eq!(arena.get(a), "keep");
}

#[test]
fn rollback_runs_destructors() {
    let drops = Rc::new(Cell::new(0u32));
    let mut arena = FastArena::with_capacity(16);
    arena.allocate(CountedDrop(Rc::clone(&drops)));
    let cp = arena.checkpoint();
    arena.allocate(CountedDrop(Rc::clone(&drops)));
    arena.allocate(CountedDrop(Rc::clone(&drops)));
    assert_eq!(drops.get(), 0);

    arena.rollback(cp);
    assert_eq!(drops.get(), 2);
}

#[test]
fn reset() {
    let drops = Rc::new(Cell::new(0u32));
    let mut arena = FastArena::with_capacity(16);
    arena.allocate(CountedDrop(Rc::clone(&drops)));
    arena.allocate(CountedDrop(Rc::clone(&drops)));
    arena.allocate(CountedDrop(Rc::clone(&drops)));

    arena.reset();
    assert_eq!(arena.len(), 0);
    assert_eq!(drops.get(), 3);
}

#[test]
fn drop_runs_destructors() {
    let drops = Rc::new(Cell::new(0u32));
    {
        let mut arena = FastArena::with_capacity(16);
        arena.allocate(CountedDrop(Rc::clone(&drops)));
        arena.allocate(CountedDrop(Rc::clone(&drops)));
    }
    assert_eq!(drops.get(), 2);
}

#[test]
fn grow() {
    let mut arena = FastArena::with_capacity(2);
    let a = arena.allocate(10);
    let b = arena.allocate(20);
    assert_eq!(arena.capacity(), 2);

    arena.grow();
    assert_eq!(arena.capacity(), 4);
    assert_eq!(*arena.get(a), 10);
    assert_eq!(*arena.get(b), 20);

    let c = arena.allocate(30);
    assert_eq!(*arena.get(c), 30);
    assert_eq!(arena.as_slice(), &[10, 20, 30]);
}

#[test]
fn grow_to() {
    let mut arena = FastArena::with_capacity(2);
    arena.allocate(1);
    arena.allocate(2);

    arena.grow_to(100);
    assert_eq!(arena.capacity(), 100);
    assert_eq!(arena.as_slice(), &[1, 2]);
}

#[test]
fn grow_to_noop_if_sufficient() {
    let mut arena = FastArena::with_capacity(100);
    arena.allocate(1);
    arena.grow_to(50);
    assert_eq!(arena.capacity(), 100);
}

#[test]
fn as_slice_contiguous() {
    let mut arena = FastArena::with_capacity(16);
    arena.allocate(1);
    arena.allocate(2);
    arena.allocate(3);
    arena.allocate(4);
    arena.allocate(5);

    let slice = arena.as_slice();
    assert_eq!(slice, &[1, 2, 3, 4, 5]);
    assert_eq!(slice.len(), 5);
}

#[test]
fn alloc_extend() {
    let mut arena = FastArena::with_capacity(16);
    let first = arena.alloc_extend(vec![10, 20, 30]);

    assert_eq!(first, Some(Idx::from_raw(0)));
    assert_eq!(arena.as_slice(), &[10, 20, 30]);
}

#[test]
fn alloc_extend_empty() {
    let mut arena = FastArena::<i32>::with_capacity(16);
    let first = arena.alloc_extend(Vec::new());
    assert_eq!(first, None);
}

#[test]
fn drain() {
    let mut arena = FastArena::with_capacity(16);
    arena.allocate(10);
    arena.allocate(20);
    arena.allocate(30);

    let items: Vec<i32> = arena.drain();
    assert_eq!(items, vec![10, 20, 30]);
    assert_eq!(arena.len(), 0);
}

#[test]
fn into_iterator() {
    let mut arena = FastArena::with_capacity(16);
    arena.allocate(10);
    arena.allocate(20);
    arena.allocate(30);

    let items: Vec<i32> = arena.drain();
    assert_eq!(items, vec![10, 20, 30]);
}

#[test]
fn iter_ref() {
    let mut arena = FastArena::with_capacity(16);
    arena.allocate(10);
    arena.allocate(20);
    arena.allocate(30);

    let items: Vec<&i32> = arena.iter().iter().collect();
    assert_eq!(items, vec![&10, &20, &30]);
}

#[test]
fn iter_mut() {
    let mut arena = FastArena::with_capacity(16);
    arena.allocate(10);
    arena.allocate(20);
    arena.allocate(30);

    for val in arena.iter_mut() {
        *val *= 2;
    }
    assert_eq!(arena.as_slice(), &[20, 40, 60]);
}

#[test]
fn iter_indexed() {
    let mut arena = FastArena::with_capacity(16);
    let a = arena.allocate(10);
    let b = arena.allocate(20);

    let mut items = Vec::new();
    let mut it = arena.iter_indexed();
    while let Some(pair) = it.next() {
        items.push(pair);
    }
    assert_eq!(items, vec![(a, &10), (b, &20)]);
}

#[test]
fn iter_indexed_mut_handles() {
    let mut arena = FastArena::with_capacity(16);
    arena.allocate(10);
    arena.allocate(20);

    let mut it = arena.iter_indexed_mut();
    assert_eq!(it.len(), 2);
    while let Some(idx) = it.next() {
        *arena.get_mut(idx) += 1;
    }
    assert_eq!(arena.as_slice(), &[11, 21]);
}

#[test]
fn fast_arena_extend_trait() {
    let mut arena = FastArena::with_capacity(16);
    arena.alloc_extend(vec![10, 20, 30]);
    assert_eq!(arena.as_slice(), &[10, 20, 30]);
}

#[test]
fn fast_arena_from_iterator() {
    let values: Vec<i32> = vec![10, 20, 30];
    let mut arena: FastArena<i32> = FastArena::with_capacity(values.len());
    arena.alloc_extend(values);
    assert_eq!(arena.as_slice(), &[10, 20, 30]);
}

#[test]
fn index_trait() {
    let mut arena = FastArena::with_capacity(16);
    let a = arena.allocate(42);
    assert_eq!(*arena.get(a), 42);
}

#[test]
fn index_mut_trait() {
    let mut arena = FastArena::with_capacity(16);
    let a = arena.allocate(42);
    *arena.get_mut(a) = 99;
    assert_eq!(*arena.get(a), 99);
}

#[test]
fn full_arena_has_no_free_slot() {
    let mut arena = FastArena::with_capacity(2);
    let h0 = arena.allocate(1);
    let h1 = arena.allocate(2);

    // both allocations succeeded and filled the arena: a third claim
    // would find no slot below the capacity until the arena is grown
    assert_eq!(*arena.get(h0), 1);
    assert_eq!(*arena.get(h1), 2);
    assert_eq!(arena.len(), arena.capacity());
}

#[test]
fn handles_are_unique_and_count_matches() {
    let mut arena = FastArena::with_capacity(100);
    let mut raw_positions = Vec::new();
    for i in 0..100 {
        let idx = arena.allocate(i);
        raw_positions.push(idx.into_raw());
    }
    assert_eq!(arena.len(), 100);
    raw_positions.sort_unstable();
    raw_positions.dedup();
    assert_eq!(raw_positions.len(), 100);
}

#[test]
fn rollback_then_drop_destroys_each_once() {
    let drops = Rc::new(Cell::new(0u32));
    {
        let mut arena = FastArena::with_capacity(16);
        arena.allocate(CountedDrop(Rc::clone(&drops)));
        arena.allocate(CountedDrop(Rc::clone(&drops)));
        let cp = arena.checkpoint();
        arena.allocate(CountedDrop(Rc::clone(&drops)));
        arena.allocate(CountedDrop(Rc::clone(&drops)));

        arena.rollback(cp);
        assert_eq!(drops.get(), 2); // only the discarded suffix so far
    } // teardown destroys the two kept values, each exactly once
    assert_eq!(drops.get(), 4);
}

#[test]
fn speculative_rollback_scenario() {
    let drops = Rc::new(Cell::new(0u32));
    let mut arena = FastArena::with_capacity(16);
    let h0 = arena.allocate(Labelled { name: "a", drops: Rc::clone(&drops) });
    let cp = arena.checkpoint();
    assert_eq!(cp.len(), 1);
    let h1 = arena.allocate(Labelled { name: "b", drops: Rc::clone(&drops) });
    let h2 = arena.allocate(Labelled { name: "c", drops: Rc::clone(&drops) });
    assert_eq!(arena.len(), 3);

    arena.rollback(cp);
    assert_eq!(arena.len(), 1);
    assert_eq!(arena.get(h0).name, "a");
    assert!(!arena.is_valid(h1));
    assert!(!arena.is_valid(h2));
    assert_eq!(drops.get(), 2);
}

#[test]
fn checkpoint_is_empty() {
    let mut arena = FastArena::with_capacity(4);
    let cp0 = arena.checkpoint();
    assert!(cp0.is_empty());

    arena.allocate(5);
    let cp1 = arena.checkpoint();
    assert!(!cp1.is_empty());
    assert_eq!(Checkpoint::<i32>::from_len(1), cp1);
}

#[test]
fn fast_arena_reuse_after_reset() {
    let mut arena = FastArena::with_capacity(16);
    arena.allocate(1);
    arena.allocate(2);
    arena.reset();

    let a = arena.allocate(10);
    assert_eq!(*arena.get(a), 10);
    assert_eq!(arena.len(), 1);
}

#[test]
fn reuse_after_rollback() {
    let mut arena = FastArena::with_capacity(16);
    let cp = arena.checkpoint();
    arena.allocate(1);
    arena.allocate(2);
    arena.rollback(cp);

    let a = arena.allocate(10);
    assert_eq!(*arena.get(a), 10);
    assert_eq!(arena.len(), 1);
}

#[test]
fn default_creates_empty() {
    let arena = FastArena::<i32>::default();
    assert!(arena.is_empty());
    assert_eq!(arena.capacity(), 64);
}

#[test]
fn capacity() {
    let arena = FastArena::<i32>::with_capacity(128);
    assert_eq!(arena.capacity(), 128);
}
