//! Supervised tasks: what awaiting one gives, and the joint cancel and await
//! of a set of them.

pub mod group;
pub mod outcome;
