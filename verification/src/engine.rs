//! Shared types of the orchestration engine.
use vstd::prelude::*;

pub mod boot_methods;
pub mod control;
pub mod cpu;
pub mod empty_implementations;
pub mod exit_codes;
pub mod machine_conf;
pub mod os;
pub mod state;
pub mod storage;
pub mod sys;
pub mod sys_conf;
pub mod verify;

verus! {

/// Events emitted by the engine into an embedding application.
#[derive(Debug)]
pub enum EngineEvent<AppEv> {
    /// Application-defined event.
    App(AppEv),
    /// Request to start an effect.
    FxStart,
    /// Request to update an effect.
    FxUpdate,
    /// Request to stop an effect.
    FxStop,
    /// Request to delete an effect.
    FxDelete,
    /// Request to rescan host or provider state.
    Rescan,
}

} // verus!
