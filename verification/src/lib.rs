//! Typed bump arenas with stable handles and checkpoint/rollback.
//!
//! Two arena types store values of one element type in contiguous storage
//! and hand out stable position-based [`Idx`] handles instead of
//! references:
//!
//! - [`Arena`] — a thin growable-array arena for single-threaded use.
//! - [`FastArena`] — the slot-claiming arena: explicit slot storage with
//!   per-slot readiness flags, a claim cursor and a publish boundary,
//!   fixed capacity until grown, and the same checkpoint/rollback surface.
//!
//! Both share [`Idx`] and [`Checkpoint`], support saving a checkpoint and
//! rolling back past it (destroying the discarded suffix in reverse
//! order), and run destructors for every still-held value on reset,
//! rollback and teardown.

mod arena;
mod checkpoint;
mod fast_arena;
mod idx;
mod iter;

pub use arena::Arena;
pub use checkpoint::lemma_checkpoint_nonneg;
pub use checkpoint::Checkpoint;
pub use fast_arena::lemma_alloc_handles_unique;
pub use fast_arena::lemma_get_returns_allocated;
pub use fast_arena::lemma_growth_preserves_handles;
pub use fast_arena::lemma_rollback_preserves_prefix;
pub use fast_arena::FastArena;
pub use idx::lemma_idx_nonneg;
pub use idx::Idx;
pub use iter::{IterIndexed, IterIndexedMut};
