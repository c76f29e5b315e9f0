//! Shared helpers: the process table and the outcome of a system command.
use vstd::prelude::*;

use crate::engine::state::ExitStatus;
use crate::io_error::IoError;
use crate::text::texts;

verus! {

/// Operating systems that decisions about a host depend on.
#[derive(Clone, Copy, Debug, PartialEq, Eq, Structural)]
pub enum HostOs {
    /// Linux.
    Linux,
    /// macOS.
    MacOs,
    /// Windows.
    Windows,
    /// Any other.
    Other,
}

/// A snapshot of a process visible in the host process table.
#[derive(Clone, Debug, PartialEq, Eq)]
pub struct Process {
    /// The operating-system process id.
    pub pid: u32,
    /// The process executable name as reported by the platform.
    pub name: String,
    /// The command-line arguments as reported by the platform.
    pub args: Vec<String>,
}

impl Process {
    /// The command line: the program followed by its arguments.
    pub open spec fn command_line(&self) -> Seq<Seq<char>> {
        texts(self.args@)
    }
}

/// The first process with the given id in a process table.
pub open spec fn process_with_pid(table: Seq<Process>, pid: u32) -> Option<Process>
    decreases table.len(),
{
    if table.len() == 0 {
        None
    } else if table[0].pid == pid {
        Some(table[0])
    } else {
        process_with_pid(table.drop_first(), pid)
    }
}

/// Looks up a process by pid; `None` when the pid is not in the table.
pub fn get_process(table: &Vec<Process>, pid: u32) -> (r: Option<&Process>)
    ensures
        r is Some == process_with_pid(table@, pid) is Some,
        r is Some ==> *(r->0) == process_with_pid(table@, pid)->0,
{
    proof {
        assert(table@.skip(0) =~= table@);
    }
    let mut i: usize = 0;
    while i < table.len()
        invariant
            i <= table.len(),
            process_with_pid(table@.skip(i as int), pid) == process_with_pid(table@, pid),
        decreases table.len() - i,
    {
        if table[i].pid == pid {
            return Some(&table[i]);
        }
        proof {
            assert(table@.skip(i as int).drop_first() =~= table@.skip(i + 1));
        }
        i += 1;
    }
    None
}

/// Options controlling system-command execution.
#[derive(Clone, Copy, Debug)]
pub struct CommandOptions {
    /// Maximum wall-clock milliseconds to wait before terminating the child.
    pub timeout: Option<u64>,
}

impl Default for CommandOptions {
    /// Without further options a command runs without a deadline.
    fn default() -> (r: Self)
        ensures
            r.timeout is None,
    {
        CommandOptions { timeout: None }
    }
}

/// The exit status and the captured output of a finished command.
#[derive(Clone, Debug)]
pub struct CommandOutput {
    /// How the process ended.
    pub status: ExitStatus,
    /// What it wrote to standard output.
    pub stdout: Vec<u8>,
    /// What it wrote to standard error.
    pub stderr: Vec<u8>,
}

/// The result of a completed system command.
#[derive(Clone, Debug)]
pub struct CommandRanResult {
    /// The process exit status and captured stdout/stderr.
    pub output: CommandOutput,
    /// Wall-clock milliseconds spent spawning and waiting for the command.
    pub duration: u64,
}

/// Errors returned while running a system command.
#[derive(Debug)]
pub enum CommandRanError {
    /// An operating-system I/O error occurred while spawning or waiting for the
    /// command.
    Io(IoError),
    /// The command exceeded the configured timeout, in milliseconds, and was
    /// terminated.
    TimedOut(u64),
}

impl Clone for CommandRanError {
    fn clone(&self) -> (r: Self)
        ensures
            r == *self,
    {
        match self {
            CommandRanError::Io(err) => CommandRanError::Io(err.clone()),
            CommandRanError::TimedOut(millis) => CommandRanError::TimedOut(*millis),
        }
    }
}

/// How a spawned command came to its end.
#[derive(Debug)]
pub enum CommandEnd {
    /// The program could not be started.
    SpawnFailed(IoError),
    /// Waiting for the child failed.
    WaitFailed(IoError),
    /// The deadline passed before the child exited.
    DeadlinePassed,
    /// The child exited.
    Exited(CommandOutput),
}

/// The result of a system command that came to the given end.
///
/// A command that ran is a success whatever its exit status; a command that
/// could not be started, could not be waited for, or ran out of time is not.
pub fn run_system_command(options: CommandOptions, end: CommandEnd, duration: u64) -> (r: Result<
    CommandRanResult,
    CommandRanError,
>)
    requires
        end is DeadlinePassed ==> options.timeout is Some,
    ensures
        r == (match end {
            CommandEnd::SpawnFailed(err) => Err(CommandRanError::Io(err)),
            CommandEnd::WaitFailed(err) => Err(CommandRanError::Io(err)),
            CommandEnd::DeadlinePassed => Err(CommandRanError::TimedOut(options.timeout->0)),
            CommandEnd::Exited(output) => Ok(CommandRanResult { output, duration }),
        }),
{
    match end {
        CommandEnd::SpawnFailed(err) => Err(CommandRanError::Io(err)),
        CommandEnd::WaitFailed(err) => Err(CommandRanError::Io(err)),
        CommandEnd::DeadlinePassed => Err(CommandRanError::TimedOut(options.timeout.unwrap())),
        CommandEnd::Exited(output) => Ok(CommandRanResult { output, duration }),
    }
}

/// A process is found by its id exactly where the table shows one with it, and
/// then the first of those.
pub proof fn law_process_is_found(table: Seq<Process>, pid: u32)
    ensures
        process_with_pid(table, pid) is Some <==> exists|i: int|
            0 <= i < table.len() && (#[trigger] table[i]).pid == pid,
        process_with_pid(table, pid) matches Some(found) ==> exists|i: int|
            0 <= i < table.len() && #[trigger] table[i] == found && found.pid == pid && forall|
                j: int,
            | 0 <= j < i ==> (#[trigger] table[j]).pid != pid,
    decreases table.len(),
{
    if table.len() > 0 {
        let rest = table.drop_first();
        law_process_is_found(rest, pid);
        if table[0].pid != pid {
            assert forall|i: int| 0 <= i < rest.len() implies #[trigger] rest[i] == table[i + 1] by {}
            if process_with_pid(table, pid) is Some {
                let i = choose|i: int|
                    0 <= i < rest.len() && #[trigger] rest[i] == process_with_pid(table, pid)->0
                        && forall|j: int| 0 <= j < i ==> (#[trigger] rest[j]).pid != pid;
                assert(table[i + 1] == rest[i]);
                assert forall|j: int| 0 <= j < i + 1 implies (#[trigger] table[j]).pid != pid by {
                    if j > 0 {
                        assert(rest[j - 1] == table[j]);
                    }
                }
            } else {
                assert forall|i: int| 0 <= i < table.len() implies (#[trigger] table[i]).pid
                    != pid by {
                    if i > 0 {
                        assert(rest[i - 1] == table[i]);
                    }
                }
            }
        } else {
            assert(table[0] == process_with_pid(table, pid)->0);
        }
    }
}

} // verus!
