//! Queries about the running system.

use vstd::prelude::*;

verus! {

/// Whether `path` names an existing directory: std's `Path::is_dir`.
/// The answer depends on the file system at the moment of the call, so no
/// clause states it.
#[verifier::external_body]
pub fn directory_exists(path: &String) -> bool {
    std::path::Path::new(path).is_dir()
}

} // verus!
