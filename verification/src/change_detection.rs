//! Change detection: the event that a watcher delivers for one changed
//! path.

use std::path::PathBuf;

use vstd::prelude::*;

verus! {

/// A change reported by the watcher for one path.
pub struct ChangeEvent {
    pub path: PathBuf,
}

} // verus!
