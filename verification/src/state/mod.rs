//! The state cell: a single-assignment slot with a wake signal, seen through
//! a write facet and a read facet, and the protocol by which a reader waits
//! for the value.

pub mod cell;
pub mod wait;
pub mod wakeup;
