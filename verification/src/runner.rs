//! Handle for the node process an operator runs beside the relay.
//!
//! Starting and supervising that process is I/O and lives with the
//! caller; the library only provides the handle it is driven through.

use vstd::prelude::*;

verus! {

/// A node run as a local process.
#[derive(Debug, Clone, Copy)]
pub struct Local;

impl Local {
    /// A handle for a locally run node.
    pub fn new() -> Self {
        Local
    }
}

} // verus!
