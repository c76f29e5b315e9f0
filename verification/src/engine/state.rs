//! Observed and desired execution states of an effect.
use vstd::prelude::*;

verus! {

/// The exit status of a process, as the wait status of the operating system.
#[derive(Clone, Copy, Debug, PartialEq, Eq, Structural)]
pub struct ExitStatus {
    /// The raw wait status.
    pub raw: i32,
}

impl ExitStatus {
    /// Whether the process ended by exiting with code zero.
    pub fn success(&self) -> (r: bool)
        ensures
            r == (self.raw == 0),
    {
        self.raw == 0
    }
}

/// Current observed execution state for a managed effect.
#[derive(Debug, PartialEq, Eq)]
pub enum FxExecutionState {
    /// The effect has not started yet.
    NotStarted,
    /// Not available to be provisioned or run anywhere.
    NotAvailable,
    /// The effect is stopped.
    Stopped,
    /// The effect is paused at the given provider-specific id or pid.
    Paused(u32),
    /// The effect is running at the given provider-specific id or pid.
    Running(u32),
    /// Available hardware not sufficient.
    Unrunnable,
    /// The effect cannot make progress until an external condition clears.
    Blocked,
    /// The effect cannot run because billing or quota is insufficient.
    InsufficientFunds,
    /// The provider cannot determine the current state.
    Unknown,
    /// The process exited with an exit status.
    Exited(ExitStatus),
    /// The provider reported an error.
    Error(String),
}

/// The model of an execution state.
pub enum StateModel {
    NotStarted,
    NotAvailable,
    Stopped,
    Paused(u32),
    Running(u32),
    Unrunnable,
    Blocked,
    InsufficientFunds,
    Unknown,
    Exited(ExitStatus),
    Error(Seq<char>),
}

impl View for FxExecutionState {
    type V = StateModel;

    open spec fn view(&self) -> StateModel {
        match self {
            FxExecutionState::NotStarted => StateModel::NotStarted,
            FxExecutionState::NotAvailable => StateModel::NotAvailable,
            FxExecutionState::Stopped => StateModel::Stopped,
            FxExecutionState::Paused(pid) => StateModel::Paused(*pid),
            FxExecutionState::Running(pid) => StateModel::Running(*pid),
            FxExecutionState::Unrunnable => StateModel::Unrunnable,
            FxExecutionState::Blocked => StateModel::Blocked,
            FxExecutionState::InsufficientFunds => StateModel::InsufficientFunds,
            FxExecutionState::Unknown => StateModel::Unknown,
            FxExecutionState::Exited(status) => StateModel::Exited(*status),
            FxExecutionState::Error(message) => StateModel::Error(message@),
        }
    }
}

impl Clone for FxExecutionState {
    fn clone(&self) -> (r: Self)
        ensures
            r == *self,
    {
        match self {
            FxExecutionState::NotStarted => FxExecutionState::NotStarted,
            FxExecutionState::NotAvailable => FxExecutionState::NotAvailable,
            FxExecutionState::Stopped => FxExecutionState::Stopped,
            FxExecutionState::Paused(pid) => FxExecutionState::Paused(*pid),
            FxExecutionState::Running(pid) => FxExecutionState::Running(*pid),
            FxExecutionState::Unrunnable => FxExecutionState::Unrunnable,
            FxExecutionState::Blocked => FxExecutionState::Blocked,
            FxExecutionState::InsufficientFunds => FxExecutionState::InsufficientFunds,
            FxExecutionState::Unknown => FxExecutionState::Unknown,
            FxExecutionState::Exited(status) => FxExecutionState::Exited(*status),
            FxExecutionState::Error(message) => FxExecutionState::Error(message.clone()),
        }
    }
}

impl Default for FxExecutionState {
    /// An effect that nothing is known of has not started.
    fn default() -> (r: Self)
        ensures
            r@ == StateModel::NotStarted,
    {
        FxExecutionState::NotStarted
    }
}

/// Desired execution state that the engine should converge toward.
#[derive(Clone, Copy, Debug, PartialEq, Eq, Structural, Hash)]
pub enum FxDesiredExecutionState {
    /// The effect should be running.
    Running,
    /// The effect should be stopped.
    Stopped,
    /// The effect should be paused.
    Paused,
}

impl Default for FxDesiredExecutionState {
    /// Effects are meant to run.
    fn default() -> (r: Self)
        ensures
            r is Running,
    {
        FxDesiredExecutionState::Running
    }
}

/// Updates engine or metadata state after state collection.
pub trait StateUpdate {

}

} // verus!
