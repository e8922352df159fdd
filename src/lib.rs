//! A single-writer, multi-reader container whose writer swaps in new values while
//! readers hold pinned snapshots; the version-based reclamation is done by
//! `swmr_cell`.
mod cell;
mod model;
mod reader;
mod swap;

pub use model::{
    is_run, lemma_collect_twice, lemma_history_survives_updates, lemma_loads_are_live, lemma_store,
    lemma_swap_back, lemma_swap_then_load, SlotView, Snapshot, RECLAIM_THRESHOLD,
};
pub use reader::{LocalReader, ReadGuard};
pub use swap::SmrSwap;
pub use swmr_cell::{LocalReader as CellLocalReader, PinGuard};
