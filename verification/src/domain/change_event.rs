use std::path::PathBuf;

use vstd::prelude::*;

verus! {

/// One detected filesystem change: a plain value that says nothing
/// about how the change was detected.
pub struct ChangeEvent {
    pub path: PathBuf,
}

} // verus!
