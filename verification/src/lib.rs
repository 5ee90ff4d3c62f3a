//! Atomically reference-counted vectors that are cheap to share and copied
//! only when a shared buffer is about to be changed.
//!
//! [`ArcVec`] is the shared, read-mostly handle; [`MutArcVec`] is a uniquely
//! owned buffer with an explicit capacity that every change goes through.
//! Both can be indexed with negative numbers, which count from the back.

pub mod capacity;
pub mod filter;
pub mod ranges;
pub mod mut_arc_vec;
pub mod arc_vec;
pub mod arc_vec_index;
pub mod mut_arc_vec_index;

pub use mut_arc_vec::MutArcVec;
pub use arc_vec::ArcVec;
pub use arc_vec_index::neg_idx;
