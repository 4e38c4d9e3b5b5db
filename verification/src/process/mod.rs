//! Processes whose output feeds line channels.

pub mod cargo;
pub mod command;
pub mod operations;
