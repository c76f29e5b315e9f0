//! Reaching a running QEMU: its sockets and its process.
use vstd::prelude::*;

use crate::io_error::IoError;
use crate::qemu::errors::CallApiError;
use crate::qemu::errors::SpawnError;
use crate::qemu::handle::QemuHandle;
use crate::qemu::handle::SchemaInfo;
use crate::qemu::handle::VersionInfo;
use crate::system_command::parse_pid_file;
use crate::system_command::pid_in;
use crate::utils::Process;

verus! {

/// How an attempt to connect to a socket ended.
#[derive(Clone, Copy, Debug, PartialEq, Eq, Structural)]
pub enum SocketAttempt {
    /// The connection stands.
    Connected,
    /// The socket could not be opened.
    OpenFailed,
    /// The socket was opened, but no protocol was agreed on.
    NegotiateFailed,
}

/// What follows an attempt to connect to a socket.
#[derive(Clone, Copy, Debug, PartialEq, Eq, Structural)]
pub enum ConnectStep {
    /// Nothing: the connection stands.
    Connected,
    /// Another attempt after so many milliseconds, if there is time left then.
    RetryAfter(u64),
    /// Nothing: the time is up.
    TimedOut,
}

/// What follows an attempt to connect to a socket that ended `elapsed`
/// milliseconds after the first began. The time is for attempts and waits
/// together: nothing that ends later counts, and a wait ends with it.
pub open spec fn connect_step(
    connected: bool,
    elapsed_millis: u64,
    timeout_secs: u64,
    retry_interval_millis: u64,
) -> ConnectStep {
    let rest = timeout_secs * 1000 - elapsed_millis;
    if rest <= 0 {
        ConnectStep::TimedOut
    } else if connected {
        ConnectStep::Connected
    } else if retry_interval_millis <= rest {
        ConnectStep::RetryAfter(retry_interval_millis)
    } else {
        ConnectStep::RetryAfter(rest as u64)
    }
}

/// No connection is taken and no wait goes on once the time is up; before that
/// no wait is longer than the interval, and none is cut short but by the end of
/// the time.
pub proof fn law_connecting_ends_in_time(
    connected: bool,
    elapsed_millis: u64,
    timeout_secs: u64,
    retry_interval_millis: u64,
)
    ensures
        match connect_step(connected, elapsed_millis, timeout_secs, retry_interval_millis) {
            ConnectStep::Connected => connected && elapsed_millis < timeout_secs * 1000,
            ConnectStep::RetryAfter(wait) => {
                &&& !connected
                &&& elapsed_millis < timeout_secs * 1000
                &&& elapsed_millis + wait <= timeout_secs * 1000
                &&& wait <= retry_interval_millis
                &&& wait < retry_interval_millis ==> elapsed_millis + wait == timeout_secs * 1000
            },
            ConnectStep::TimedOut => elapsed_millis >= timeout_secs * 1000,
        },
{
}

/// What follows an attempt to connect to the control socket, `elapsed`
/// milliseconds after the first began: attempts are repeated until one succeeds
/// or the time is up.
pub fn try_connect_ctl_socket(
    attempt: SocketAttempt,
    elapsed_millis: u64,
    timeout_secs: u64,
    retry_interval_millis: u64,
) -> (r: ConnectStep)
    ensures
        r == connect_step(
            attempt is Connected,
            elapsed_millis,
            timeout_secs,
            retry_interval_millis,
        ),
{
    let timeout: u128 = timeout_secs as u128 * 1000;
    if elapsed_millis as u128 >= timeout {
        return ConnectStep::TimedOut;
    }
    let rest: u128 = timeout - elapsed_millis as u128;
    match attempt {
        SocketAttempt::Connected => ConnectStep::Connected,
        _ => {
            if retry_interval_millis as u128 <= rest {
                ConnectStep::RetryAfter(retry_interval_millis)
            } else {
                ConnectStep::RetryAfter(rest as u64)
            }
        },
    }
}

/// What follows an attempt to connect to the socket of the guest agent; that
/// socket needs no agreement on a protocol.
pub fn try_connect_ga_socket(
    opened: bool,
    elapsed_millis: u64,
    timeout_secs: u64,
    retry_interval_millis: u64,
) -> (r: ConnectStep)
    ensures
        r == connect_step(opened, elapsed_millis, timeout_secs, retry_interval_millis),
{
    let attempt = if opened {
        SocketAttempt::Connected
    } else {
        SocketAttempt::OpenFailed
    };
    try_connect_ctl_socket(attempt, elapsed_millis, timeout_secs, retry_interval_millis)
}

/// What is asked for next while a QEMU is brought under watch.
#[derive(Clone, Copy, Debug, PartialEq, Eq, Structural)]
pub enum MonitorPhase {
    /// The contents of the process id file.
    ReadPid,
    /// The process of the given id.
    FindProcess(u32),
    /// The version of QEMU.
    QueryVersion,
    /// The schema of the control protocol.
    QuerySchema,
    /// Nothing.
    Done,
}

/// An answer to what was asked for.
#[derive(Debug)]
pub enum MonitorAnswer {
    /// The contents of the process id file.
    Contents(Result<String, IoError>),
    /// The process, if it exists.
    Found(Option<Process>),
    /// The version of QEMU, or the error it answered with.
    Version(Result<VersionInfo, String>),
    /// The schema of the control protocol, or the error QEMU answered with.
    Schema(Result<Vec<SchemaInfo>, String>),
}

/// A QEMU on the way to be watched.
#[derive(Debug)]
pub struct QemuMonitoring {
    /// What is asked for next.
    pub phase: MonitorPhase,
    /// The process, once it was found.
    pub process: Option<Process>,
    /// The version, once QEMU has told it.
    pub version: Option<VersionInfo>,
    /// The schema, once QEMU has told it.
    pub schema: Option<Vec<SchemaInfo>>,
    /// Why it failed, if it did.
    pub failure: Option<SpawnError>,
}

impl QemuMonitoring {
    /// The same, having failed.
    pub open spec fn failed(self, err: SpawnError) -> QemuMonitoring {
        QemuMonitoring { phase: MonitorPhase::Done, failure: Some(err), ..self }
    }

    /// What follows an answer. An answer to something else changes nothing.
    pub open spec fn after(self, answer: MonitorAnswer) -> QemuMonitoring {
        match (self.phase, answer) {
            (MonitorPhase::ReadPid, MonitorAnswer::Contents(Ok(contents))) => match pid_in(
                contents@,
            ) {
                Some(pid) => QemuMonitoring { phase: MonitorPhase::FindProcess(pid as u32), ..self },
                None => self.failed(SpawnError::ParsePid(contents)),
            },
            (MonitorPhase::ReadPid, MonitorAnswer::Contents(Err(err))) => self.failed(
                SpawnError::Io(err),
            ),
            (MonitorPhase::FindProcess(_), MonitorAnswer::Found(Some(process))) => QemuMonitoring {
                phase: MonitorPhase::QueryVersion,
                process: Some(process),
                ..self
            },
            (MonitorPhase::FindProcess(_), MonitorAnswer::Found(None)) => self.failed(
                SpawnError::PidNotFound,
            ),
            (MonitorPhase::QueryVersion, MonitorAnswer::Version(Ok(version))) => QemuMonitoring {
                phase: MonitorPhase::QuerySchema,
                version: Some(version),
                ..self
            },
            (MonitorPhase::QueryVersion, MonitorAnswer::Version(Err(message))) => self.failed(
                SpawnError::Qmp(message),
            ),
            (MonitorPhase::QuerySchema, MonitorAnswer::Schema(Ok(schema))) => QemuMonitoring {
                phase: MonitorPhase::Done,
                schema: Some(schema),
                ..self
            },
            (MonitorPhase::QuerySchema, MonitorAnswer::Schema(Err(message))) => self.failed(
                SpawnError::Qmp(message),
            ),
            _ => self,
        }
    }

    /// Takes an answer.
    pub fn advance(&mut self, answer: MonitorAnswer)
        ensures
            *final(self) == old(self).after(answer),
    {
        match (self.phase, answer) {
            (MonitorPhase::ReadPid, MonitorAnswer::Contents(Ok(contents))) => {
                match parse_pid_file(contents.as_str()) {
                    Some(pid) => {
                        self.phase = MonitorPhase::FindProcess(pid);
                    },
                    None => {
                        self.phase = MonitorPhase::Done;
                        self.failure = Some(SpawnError::ParsePid(contents));
                    },
                }
            },
            (MonitorPhase::ReadPid, MonitorAnswer::Contents(Err(err))) => {
                self.phase = MonitorPhase::Done;
                self.failure = Some(SpawnError::Io(err));
            },
            (MonitorPhase::FindProcess(_), MonitorAnswer::Found(Some(process))) => {
                self.phase = MonitorPhase::QueryVersion;
                self.process = Some(process);
            },
            (MonitorPhase::FindProcess(_), MonitorAnswer::Found(None)) => {
                self.phase = MonitorPhase::Done;
                self.failure = Some(SpawnError::PidNotFound);
            },
            (MonitorPhase::QueryVersion, MonitorAnswer::Version(Ok(version))) => {
                self.phase = MonitorPhase::QuerySchema;
                self.version = Some(version);
            },
            (MonitorPhase::QueryVersion, MonitorAnswer::Version(Err(message))) => {
                self.phase = MonitorPhase::Done;
                self.failure = Some(SpawnError::Qmp(message));
            },
            (MonitorPhase::QuerySchema, MonitorAnswer::Schema(Ok(schema))) => {
                self.phase = MonitorPhase::Done;
                self.schema = Some(schema);
            },
            (MonitorPhase::QuerySchema, MonitorAnswer::Schema(Err(message))) => {
                self.phase = MonitorPhase::Done;
                self.failure = Some(SpawnError::Qmp(message));
            },
            _ => {},
        }
    }

    /// What came of it, once nothing more is asked for: the watched QEMU,
    /// without a guest agent so far, or why there is none.
    pub fn result(self) -> (r: Option<Result<QemuHandle, SpawnError>>)
        ensures
            match (self.phase, self.failure, self.process, self.schema) {
                (MonitorPhase::Done, Some(err), _, _) => r == Some(Err::<QemuHandle, _>(err)),
                (MonitorPhase::Done, None, Some(process), Some(schema)) => r == Some(
                    Ok::<_, SpawnError>(
                        (QemuHandle { process, version: self.version, schema, ga_info: None }),
                    ),
                ),
                _ => r is None,
            },
    {
        match (self.phase, self.failure, self.process, self.schema) {
            (MonitorPhase::Done, Some(err), _, _) => Some(Err(err)),
            (MonitorPhase::Done, None, Some(process), Some(schema)) => Some(
                Ok(QemuHandle { process, version: self.version, schema, ga_info: None }),
            ),
            _ => None,
        }
    }
}

/// Brings a QEMU whose control socket is connected under watch.
pub fn try_monitor_qemu_with_api() -> (r: QemuMonitoring)
    ensures
        r == (QemuMonitoring {
            phase: MonitorPhase::ReadPid,
            process: None,
            version: None,
            schema: None,
            failure: None,
        }),
{
    QemuMonitoring {
        phase: MonitorPhase::ReadPid,
        process: None,
        version: None,
        schema: None,
        failure: None,
    }
}

/// What is known at each phase.
pub open spec fn monitoring_inv(m: QemuMonitoring) -> bool {
    match m.phase {
        MonitorPhase::ReadPid | MonitorPhase::FindProcess(_) => m.process is None && m.version is None
            && m.schema is None && m.failure is None,
        MonitorPhase::QueryVersion => m.process is Some && m.version is None && m.schema is None
            && m.failure is None,
        MonitorPhase::QuerySchema => m.process is Some && m.version is Some && m.schema is None
            && m.failure is None,
        MonitorPhase::Done => m.failure is Some || (m.process is Some && m.version is Some
            && m.schema is Some),
    }
}

/// What is known at each phase stays so, and a QEMU is watched only once its
/// process, its version and its schema are known.
pub proof fn law_monitoring_keeps_invariant(m: QemuMonitoring, answer: MonitorAnswer)
    requires
        monitoring_inv(m),
    ensures
        monitoring_inv(m.after(answer)),
        m.after(answer).phase is Done && m.after(answer).failure is None ==> m.after(
            answer,
        ).process is Some && m.after(answer).version is Some && m.after(answer).schema is Some,
{
}

/// An answer to a call over the control protocol or to the guest agent.
#[derive(Debug, PartialEq, Eq)]
pub enum ApiReply<T> {
    /// What was asked for.
    Answered(T),
    /// The error that was answered with.
    Failed(String),
    /// Nothing came in time.
    TimedOut,
}

/// The result of a call over the control protocol.
pub fn call_api<T>(reply: Result<T, String>) -> (r: Result<T, CallApiError>)
    ensures
        r == (match reply {
            Ok(value) => Ok::<T, CallApiError>(value),
            Err(message) => Err(CallApiError::Executor(message)),
        }),
{
    match reply {
        Ok(value) => Ok(value),
        Err(message) => Err(CallApiError::Executor(message)),
    }
}

/// The result of a call to the guest agent; without one, no reply is waited
/// for.
pub fn call_ga_api<T>(ga: bool, reply: ApiReply<T>) -> (r: Result<T, CallApiError>)
    ensures
        r == (if !ga {
            Err::<T, CallApiError>(CallApiError::NoGaAvailable)
        } else {
            match reply {
                ApiReply::Answered(value) => Ok(value),
                ApiReply::Failed(message) => Err(CallApiError::Executor(message)),
                ApiReply::TimedOut => Err(CallApiError::Timeout),
            }
        }),
{
    if !ga {
        return Err(CallApiError::NoGaAvailable);
    }
    match reply {
        ApiReply::Answered(value) => Ok(value),
        ApiReply::Failed(message) => Err(CallApiError::Executor(message)),
        ApiReply::TimedOut => Err(CallApiError::Timeout),
    }
}

/// Whether a command may be sent to the guest agent: one that it does not
/// offer is not sent.
pub fn call_supported_ga_api(handle: &QemuHandle, cmd_name: &'static str) -> (r: Result<
    (),
    CallApiError,
>)
    ensures
        r == (if handle.ga_info is Some && crate::qemu::handle::enables(
            handle.ga_info->0.supported_commands@,
            cmd_name@,
        ) {
            Ok::<(), CallApiError>(())
        } else {
            Err(CallApiError::UnsupportedGuestAgentCommand(cmd_name))
        }),
{
    if handle.supported_ga_command(cmd_name) {
        Ok(())
    } else {
        Err(CallApiError::UnsupportedGuestAgentCommand(cmd_name))
    }
}

/// A QEMU whose process id file, process, version and schema are all told comes
/// under watch with just these; each is asked for in turn.
pub proof fn law_answering_qemu_is_watched(
    m: QemuMonitoring,
    contents: String,
    pid: u32,
    process: Process,
    version: VersionInfo,
    schema: Vec<SchemaInfo>,
)
    requires
        m.phase is ReadPid,
        pid_in(contents@) == Some(pid as nat),
    ensures
        ({
            let read = m.after(MonitorAnswer::Contents(Ok(contents)));
            let found = read.after(MonitorAnswer::Found(Some(process)));
            let told = found.after(MonitorAnswer::Version(Ok(version)));
            let done = told.after(MonitorAnswer::Schema(Ok(schema)));
            &&& read.phase == MonitorPhase::FindProcess(pid)
            &&& found.phase is QueryVersion
            &&& told.phase is QuerySchema
            &&& done == (QemuMonitoring {
                phase: MonitorPhase::Done,
                process: Some(process),
                version: Some(version),
                schema: Some(schema),
                ..m
            })
        }),
{
}

/// A QEMU does not come under watch where its process id file cannot be read or
/// holds no process id, where its process does not exist, and where it answers
/// with an error; the reason kept is just that.
pub proof fn law_unreachable_qemu_is_not_watched(
    m: QemuMonitoring,
    contents: String,
    err: IoError,
    message: String,
)
    ensures
        ({
            let fails = |answer: MonitorAnswer, with: SpawnError|
                m.after(answer) == (QemuMonitoring {
                    phase: MonitorPhase::Done,
                    failure: Some(with),
                    ..m
                });
            &&& m.phase is ReadPid ==> fails(MonitorAnswer::Contents(Err(err)), SpawnError::Io(err))
            &&& m.phase is ReadPid && pid_in(contents@) is None ==> fails(
                MonitorAnswer::Contents(Ok(contents)),
                SpawnError::ParsePid(contents),
            )
            &&& m.phase is FindProcess ==> fails(MonitorAnswer::Found(None), SpawnError::PidNotFound)
            &&& m.phase is QueryVersion ==> fails(
                MonitorAnswer::Version(Err(message)),
                SpawnError::Qmp(message),
            )
            &&& m.phase is QuerySchema ==> fails(
                MonitorAnswer::Schema(Err(message)),
                SpawnError::Qmp(message),
            )
        }),
{
}

/// Nothing else makes the watch fail.
pub proof fn law_monitoring_fails_for_cause(m: QemuMonitoring, answer: MonitorAnswer)
    requires
        m.failure is None,
    ensures
        m.after(answer).failure is Some ==> match answer {
            MonitorAnswer::Contents(Ok(contents)) => pid_in(contents@) is None,
            MonitorAnswer::Contents(Err(_)) => true,
            MonitorAnswer::Found(found) => found is None,
            MonitorAnswer::Version(version) => version is Err,
            MonitorAnswer::Schema(schema) => schema is Err,
        },
        m.phase is Done ==> m.after(answer) == m,
{
}

/// A connection that stands before the time is up is taken, whatever came
/// before, and without one another attempt follows.
pub proof fn law_connection_in_time_is_taken(
    elapsed_millis: u64,
    timeout_secs: u64,
    retry_interval_millis: u64,
)
    ensures
        elapsed_millis < timeout_secs * 1000 ==> connect_step(
            true,
            elapsed_millis,
            timeout_secs,
            retry_interval_millis,
        ) is Connected && connect_step(
            false,
            elapsed_millis,
            timeout_secs,
            retry_interval_millis,
        ) is RetryAfter,
{
}

} // verus!
