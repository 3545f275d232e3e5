//! What the user asks for on the command line.

use vstd::prelude::*;

verus! {

/// Command line arguments.
#[derive(Clone, Copy, Debug, PartialEq, Eq, Structural)]
pub struct Cli {
    /// Close running Chrome before applying patches.
    pub kill_chrome: bool,
    /// Restore Local State from backup instead of applying patches.
    pub restore: bool,
}

} // verus!
