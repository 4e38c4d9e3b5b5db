//! The fulfillment engine: attempts to derive a value from a stream of
//! lines, and publishes the value into a state cell once.

pub mod custom;
pub mod engine;
pub mod jsonl;
