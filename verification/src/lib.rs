//! Coordination primitives for concurrently running units of work: a
//! single-assignment state cell, supervised tasks with joint teardown, and a
//! fulfillment engine that derives a value from a stream of text lines and
//! publishes it into a cell once. Around them stand the descriptions of the
//! processes, archives, images and vendored repositories that feed them.
//!
//! Everything in this crate is synchronous and verified. Suspension points
//! (waiting for a wake signal, receiving from a channel, joining a task) are
//! explicit steps that a scheduler drives, and reading or writing the world
//! is left to whoever calls.
//!
//! A few declarations speak of code outside this crate (tokio's channels,
//! `serde_json`, `convert_case`, two functions of the standard library).
//! Their contracts are taken on trust; each says what it claims.

pub mod channel;
pub mod commander;
pub mod fulfill;
pub mod include_dir;
pub mod include_vendor;
pub mod jsonlvar;
pub mod names;
pub mod paths;
pub mod process;
pub mod ready_docker;
pub mod state;
pub mod strings;
pub mod task;
pub mod vendor_util;
