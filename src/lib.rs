//! A verified adapter between a foreign caller and a queued stream-monitoring
//! engine: input marshaling, event timing, handle lifecycle and verdict
//! formatting.

pub mod value;
pub mod text;
pub mod timing;
pub mod number;
pub mod shape;
pub mod verdict;
pub mod monitor;
pub mod handle;
