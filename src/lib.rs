//! The ordered layer stack of a transfer-matrix computation for planar thin
//! films at normal incidence, and the schedule by which the per-layer
//! operators are folded into one system matrix.
pub mod stack;

pub use stack::{LayerStack, Step};
