//! Key/value line variables: `MARKER NAME = VALUE` lines, the map they
//! accumulate into, and the construction of a target value from that map.

pub mod filler;
pub mod line;
pub mod map;
pub mod number;
pub mod parser;
pub mod target;
pub mod text;
pub mod value;
