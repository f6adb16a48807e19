//! The installation root of the tool.

use vstd::prelude::*;

verus! {

/// Handle to the tool's installation root: its own absolute path and the
/// absolute path of its binary subdirectory. Built once by the caller and
/// borrowed by everything here; never modified.
pub struct Home {
    pub path: String,
    pub bin_dir: String,
}

impl Home {
    /// Both paths are non-empty and absolute.
    pub open spec fn wf(&self) -> bool {
        &&& self.path@.len() > 0
        &&& self.path@[0] == '/'
        &&& self.bin_dir@.len() > 0
        &&& self.bin_dir@[0] == '/'
    }
}

} // verus!
