//! File system paths. The library carries them through and never looks
//! inside one.

use vstd::prelude::*;

verus! {

/// `std::path::PathBuf`, an owned path.
#[verifier::external_type_specification]
#[verifier::external_body]
pub struct ExPathBuf(std::path::PathBuf);

/// `PathBuf::clone` gives a path equal to the one it was called on.
pub assume_specification[ <std::path::PathBuf as Clone>::clone ](path: &std::path::PathBuf) -> (copy:
    std::path::PathBuf)
    ensures
        copy == *path,
;

} // verus!
