//! The actions that a shutdown signal can carry.

use vstd::prelude::*;

verus! {

/// The action to perform when shutting down a process.
#[non_exhaustive]
#[derive(Debug, Clone)]
pub enum ShutdownAction {
    /// Gracefully stops the process.
    Stop,
    /// Restarts the process in-place.
    Restart,
    /// Updates the process from a new executable file.
    Update {
        /// The path to the new executable file.
        executable_path: String,
    },
}

} // verus!
