//! An unbounded FIFO queue kept as a chain of nodes behind a stub node, and
//! the blocking queue and channel layers built on it.
use vstd::prelude::*;

mod async_queue;
mod sync_queue;
pub mod channel;

pub use async_queue::{
    AsyncQueue, after_pop, lemma_fifo, lemma_no_loss, lemma_pops_on_empty, popped, pushed, pushes, run,
};
pub use sync_queue::{SyncQueue, lemma_push_wakes};
