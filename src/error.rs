//! The ways a bootstrap can fail.

use vstd::prelude::*;

use crate::lifecycle::WaitOutcome;

verus! {

/// Why the crash helper could not be brought up.
#[derive(Debug, Clone, Copy, PartialEq, Eq, Structural)]
pub enum BootstrapError {
    /// The argument at `position` of the helper's argument vector holds a nul byte.
    InvalidArgument { position: usize },
    /// The environment entry at `index` holds a nul byte.
    InvalidEnvironment { index: usize },
    /// The operating system could not create the process (`errno` as it reported it).
    SpawnFailed { errno: i32 },
    /// Waiting for the spawned process failed for a reason other than an interruption.
    WaitFailed { errno: i32 },
    /// The spawned process terminated other than by exiting; `status` is how it ended.
    AbnormalExit { status: WaitOutcome },
}

} // verus!
