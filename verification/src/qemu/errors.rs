//! Errors of virtual machines and their manager.
use vstd::prelude::*;

use crate::fx_id::FxId;
use crate::io_error::IoError;
use crate::system_command::FxSysCommandError;

verus! {

/// Errors of calls to a running QEMU.
#[derive(Debug, PartialEq, Eq)]
pub enum CallApiError {
    /// QEMU answered with an error.
    Executor(String),
    /// The call did not end in time.
    Timeout,
    /// QEMU does not offer the control command.
    UnsupportedCommand(&'static str),
    /// The guest agent does not offer the command.
    UnsupportedGuestAgentCommand(&'static str),
    /// There is no guest agent to call.
    NoGaAvailable,
}

impl Clone for CallApiError {
    fn clone(&self) -> (r: Self)
        ensures
            r == *self,
    {
        match self {
            CallApiError::Executor(message) => CallApiError::Executor(message.clone()),
            CallApiError::Timeout => CallApiError::Timeout,
            CallApiError::UnsupportedCommand(name) => CallApiError::UnsupportedCommand(*name),
            CallApiError::UnsupportedGuestAgentCommand(name) => {
                CallApiError::UnsupportedGuestAgentCommand(*name)
            },
            CallApiError::NoGaAvailable => CallApiError::NoGaAvailable,
        }
    }
}

/// Errors of collecting facts about a virtual machine.
#[derive(Debug)]
pub enum CollectError {
    /// A call failed.
    CallApiError(CallApiError),
    /// The processor model is not known.
    CpuNotFound,
    /// A pattern was not acceptable.
    Regex(String),
    /// A pattern did not match the processor model.
    CpuRegexFailed,
}

/// Errors of scanning the host.
#[derive(Debug)]
pub enum SysScanError {
    /// A filesystem operation failed.
    IO(IoError),
    /// A process id could not be read.
    ParsePid(String),
}

/// Errors of verifying a virtual machine.
#[derive(Debug)]
pub enum VerifyError {
    /// A filesystem operation failed.
    IO(IoError),
    /// A call failed.
    CallApiError(CallApiError),
    /// A fact could not be collected.
    Collect(CollectError),
}

/// Errors of archiving a virtual machine.
#[derive(Debug)]
pub enum ArchiveError {
    /// A filesystem operation failed.
    IO(IoError),
    /// A call failed.
    CallApiError(CallApiError),
    /// The archive policy does not allow it.
    UnsupportedPolicy(&'static str),
}

/// Errors of starting a virtual machine or attaching to it.
#[derive(Debug)]
pub enum SpawnError {
    /// A filesystem operation failed.
    Io(IoError),
    /// QEMU could not be started.
    SystemCommand(FxSysCommandError),
    /// The process does not exist.
    PidNotFound,
    /// The text that was read is no process id.
    ParsePid(String),
    /// A socket or an answer did not come in time.
    Timeout,
    /// QEMU answered with an error.
    Qmp(String),
    /// The metadata could not be updated.
    Db,
}

/// Errors of preparing a virtual machine.
#[derive(Debug)]
pub enum AllocateError {
    /// A filesystem operation failed.
    Io(IoError),
    /// The storage could not be created.
    StorageNotOk,
    /// The metadata could not be updated.
    Db,
}

/// Errors of creating a virtual machine.
#[derive(Debug)]
pub enum CreateError {
    /// A filesystem operation failed.
    Io(IoError),
    /// The configuration cannot be realised.
    Config(String),
    /// The metadata could not be read or updated.
    Metadata(String),
    /// A recorded command line could not be read.
    ParseQemuCommand(String),
    /// A process could not be looked up.
    GetProc(String),
    /// A process id could not be read.
    ParsePid(String),
    /// A list of paths could not be joined.
    JoinPaths(String),
    /// The emulator was not found.
    Which(String),
    /// The verification failed.
    Verify(VerifyError),
    /// The start failed.
    Spawn(SpawnError),
    /// The preparation failed.
    Allocate(AllocateError),
}

/// What a creation error says, where it is a text.
#[verifier::ext_equal]
pub enum CreateErrorModel {
    Config(Seq<char>),
    Metadata(Seq<char>),
    ParseQemuCommand(Seq<char>),
    Which(Seq<char>),
    Other(CreateError),
}

impl View for CreateError {
    type V = CreateErrorModel;

    open spec fn view(&self) -> CreateErrorModel {
        match self {
            CreateError::Config(message) => CreateErrorModel::Config(message@),
            CreateError::Metadata(message) => CreateErrorModel::Metadata(message@),
            CreateError::ParseQemuCommand(message) => CreateErrorModel::ParseQemuCommand(message@),
            CreateError::Which(message) => CreateErrorModel::Which(message@),
            _ => CreateErrorModel::Other(*self),
        }
    }
}

/// Errors of stopping a managed virtual machine.
#[derive(Debug)]
pub enum QemuManagerStopError {
    /// The virtual machine is not managed.
    NotFound(FxId),
    /// The worker could not be told.
    Send(String),
    /// The process did not exit in time.
    Timeout {
        fx_id: FxId,
        pid: u32,
        timeout_secs: u64,
    },
    /// The worker did not end as it should.
    Join(String),
    /// The metadata could not be updated.
    Metadata(String),
}

} // verus!
