//! Engine control policies.
use vstd::prelude::*;

verus! {

/// Policy used when an engine resumes while effects may already exist.
#[derive(Clone, Copy, Debug, PartialEq, Eq, Structural)]
pub enum ControlEngineFxRestartPolicy {
    /// Attach to compatible existing effects.
    AttachFxOnResume,
    /// Kill compatible existing effects and start new ones.
    KillFxThenStartFxOnResume,
    /// Kill effects when the engine exits, optionally after a grace period in
    /// milliseconds.
    KillFxOnExit(Option<u64>),
    /// Request effect shutdown when the engine exits, optionally after a grace
    /// period in milliseconds.
    ShutdownFxOnExit(Option<u64>),
    /// Destroy the state of effects.
    DestroyState,
}

} // verus!
