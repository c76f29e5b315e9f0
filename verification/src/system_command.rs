//! System-command integration: a plain operating-system command as an effect.
//!
//! The command plus all its arguments is the identity of the process. A host
//! process with the same executable and argument vector is considered the same
//! effect instance.
use vstd::prelude::*;
use vstd::utf8::encode_utf8;

use crate::engine::state::ExitStatus;
use crate::engine::state::FxDesiredExecutionState;
use crate::engine::state::FxExecutionState;
use crate::engine::state::StateModel;
use crate::fx_id::FxId;
use crate::fx_id::FxIdModel;
use crate::fx_id::fx_id_text;
use crate::fx_id::hex_digit;
use crate::io_error::IoError;
use crate::number::bounded_number_of;
use crate::number::decimal;
use crate::number::decimal_text;
use crate::number::lemma_decimal;
use crate::number::parse_u32;
use crate::number::signed_decimal;
use crate::number::signed_decimal_text;
use crate::path::join_path;
use crate::path::path_join;
use crate::text::append_strings;
use crate::text::cat2;
use crate::text::copy_opt;
use crate::text::copy_strings;
use crate::text::is_digit;
use crate::text::join_texts;
use crate::text::joined;
use crate::text::lemma_texts_add;
use crate::text::lemma_texts_push;
use crate::text::opt_text;
use crate::text::same_text;
use crate::text::texts;
use crate::text::trim_text;
use crate::text::trimmed;
use crate::utils::Process;
use crate::utils::get_process;
use crate::utils::law_process_is_found;
use crate::utils::process_with_pid;
use crate::utils::HostOs;

verus! {

broadcast use {lemma_texts_push, lemma_texts_add};

/// Errors returned while managing a system command process.
#[derive(Debug)]
pub enum FxSysCommandError {
    /// An operating-system I/O error occurred while spawning or interacting with
    /// a child process.
    IO(IoError),
    /// The tracked process id does not currently refer to a running process.
    ProcessNotRunning,
    /// The operating system did not accept or complete a signal request.
    SignalFailedToSend,
    /// A failure that has no more specific variant.
    String(String),
    /// The requested operation is not implemented by this provider.
    Unsupported(&'static str),
    /// The process id was not found in the process table.
    PidNotFound(u32),
    /// The process exists but its command vector is empty.
    EmptyCommand(u32),
    /// The process did not exit before the destroy wait deadline elapsed.
    ProcessDidNotExit(u32),
}

/// The model of a system-command error.
pub enum SysErrorModel {
    IO(IoError),
    ProcessNotRunning,
    SignalFailedToSend,
    String(Seq<char>),
    Unsupported(Seq<char>),
    PidNotFound(u32),
    EmptyCommand(u32),
    ProcessDidNotExit(u32),
}

impl View for FxSysCommandError {
    type V = SysErrorModel;

    open spec fn view(&self) -> SysErrorModel {
        match self {
            FxSysCommandError::IO(err) => SysErrorModel::IO(*err),
            FxSysCommandError::ProcessNotRunning => SysErrorModel::ProcessNotRunning,
            FxSysCommandError::SignalFailedToSend => SysErrorModel::SignalFailedToSend,
            FxSysCommandError::String(message) => SysErrorModel::String(message@),
            FxSysCommandError::Unsupported(what) => SysErrorModel::Unsupported(what@),
            FxSysCommandError::PidNotFound(pid) => SysErrorModel::PidNotFound(*pid),
            FxSysCommandError::EmptyCommand(pid) => SysErrorModel::EmptyCommand(*pid),
            FxSysCommandError::ProcessDidNotExit(pid) => SysErrorModel::ProcessDidNotExit(*pid),
        }
    }
}

/// A Unix process scheduling priority used with `nice`.
///
/// Lower numeric values request higher scheduling priority. Linux accepts -20
/// to 19.
#[derive(Clone, Copy, Debug, PartialEq, Eq, Structural, PartialOrd, Ord)]
pub struct NiceLevel(i8);

impl NiceLevel {
    /// The numeric level.
    pub closed spec fn level(&self) -> i8 {
        self.0
    }

    /// Returns the highest priority nice level.
    pub fn highest_priority() -> (r: Self)
        ensures
            r.level() == -20,
    {
        NiceLevel(-20)
    }

    /// Returns the lowest priority nice level that Linux accepts.
    pub fn lowest_priority() -> (r: Self)
        ensures
            r.level() == 19,
    {
        NiceLevel(19)
    }

    /// Returns the lowest priority nice level of a platform that has `nice`:
    /// 19 on Linux and 20 on macOS.
    pub fn lowest_priority_on(os: HostOs) -> (r: Option<Self>)
        ensures
            match os {
                HostOs::Linux => r is Some && r->0.level() == 19,
                HostOs::MacOs => r is Some && r->0.level() == 20,
                _ => r is None,
            },
    {
        match os {
            HostOs::Linux => Some(NiceLevel(19)),
            HostOs::MacOs => Some(NiceLevel(20)),
            _ => None,
        }
    }

    /// Returns the default process priority.
    pub fn default_priority() -> (r: Self)
        ensures
            r.level() == 0,
    {
        NiceLevel(0)
    }

    /// The level in decimal.
    pub fn to_string(&self) -> (r: String)
        ensures
            r@ == signed_decimal(self.level() as int),
    {
        signed_decimal_text(self.0)
    }
}

impl Default for NiceLevel {
    fn default() -> (r: Self)
        ensures
            r.level() == 0,
    {
        NiceLevel(0)
    }
}

/// A controllable operating-system command.
#[derive(Debug, PartialEq, Eq)]
pub struct FxSystemCommand {
    /// The executable name or path.
    pub command: String,
    /// Positional arguments passed to the command.
    pub args: Vec<String>,
    /// The last state recorded by this controller.
    pub state: FxExecutionState,
    /// The state the engine should converge the command toward.
    pub desired_state: FxDesiredExecutionState,
    /// Optional process priority to apply by launching through `nice`.
    pub nice_level: Option<NiceLevel>,
    /// Optional directory for pid-file based tracking.
    ///
    /// When set, starts write pid files under this directory and later starts
    /// use those files instead of command-line process scans.
    pub pid_directory: Option<String>,
    /// Optional Linux CPU affinity list applied by launching through `taskset`.
    pub pin_to_cpus: Option<Vec<usize>>,
    /// Optional file path for child stdout.
    pub stdout_path: Option<String>,
    /// Optional file path for child stderr.
    pub stderr_path: Option<String>,
}

/// The model of a system command.
#[verifier::ext_equal]
pub struct CommandModel {
    pub command: Seq<char>,
    pub args: Seq<Seq<char>>,
    pub state: StateModel,
    pub desired_state: FxDesiredExecutionState,
    pub nice_level: Option<NiceLevel>,
    pub pid_directory: Option<Seq<char>>,
    pub pin_to_cpus: Option<Seq<usize>>,
    pub stdout_path: Option<Seq<char>>,
    pub stderr_path: Option<Seq<char>>,
}

/// The numbers of an optional list.
pub open spec fn opt_numbers(o: Option<Vec<usize>>) -> Option<Seq<usize>> {
    match o {
        Some(v) => Some(v@),
        None => None,
    }
}

impl View for FxSystemCommand {
    type V = CommandModel;

    open spec fn view(&self) -> CommandModel {
        CommandModel {
            command: self.command@,
            args: texts(self.args@),
            state: self.state@,
            desired_state: self.desired_state,
            nice_level: self.nice_level,
            pid_directory: opt_text(self.pid_directory),
            pin_to_cpus: opt_numbers(self.pin_to_cpus),
            stdout_path: opt_text(self.stdout_path),
            stderr_path: opt_text(self.stderr_path),
        }
    }
}

impl Clone for FxSystemCommand {
    fn clone(&self) -> (r: Self)
        ensures
            r@ == self@,
    {
        let pin_to_cpus = match &self.pin_to_cpus {
            Some(cpus) => {
                let copy = cpus.clone();
                proof {
                    assert(copy@ =~= cpus@);
                }
                Some(copy)
            },
            None => None,
        };
        FxSystemCommand {
            command: self.command.clone(),
            args: copy_strings(&self.args),
            state: self.state.clone(),
            desired_state: self.desired_state,
            nice_level: self.nice_level,
            pid_directory: copy_opt(&self.pid_directory),
            pin_to_cpus,
            stdout_path: copy_opt(&self.stdout_path),
            stderr_path: copy_opt(&self.stderr_path),
        }
    }
}

/// The decimal writings of a row of numbers.
pub open spec fn decimals(v: Seq<usize>) -> Seq<Seq<char>> {
    Seq::new(v.len(), |i: int| decimal(v[i] as nat))
}

impl CommandModel {
    /// The command line that the command is known by: the program and its arguments.
    pub open spec fn words(self) -> Seq<Seq<char>> {
        seq![self.command] + self.args
    }

    /// The command line that is launched: pinning to CPUs goes first, then the
    /// priority, then the command itself.
    pub open spec fn launch_words(self) -> Seq<Seq<char>> {
        (match self.pin_to_cpus {
            Some(cpus) => seq!["taskset"@, "-c"@, joined(decimals(cpus), ","@)],
            None => seq![],
        }) + (match self.nice_level {
            Some(level) => seq!["nice"@, "-n"@, signed_decimal(level.level() as int)],
            None => seq![],
        }) + self.words()
    }
}

/// The program and the arguments that a command is launched with.
pub fn launch_command_line(command: &FxSystemCommand) -> (r: (String, Vec<String>))
    ensures
        seq![r.0@] + texts(r.1@) == command@.launch_words(),
{
    let mut cmd = command.command.clone();
    let mut args = copy_strings(&command.args);
    let ghost mut words = command@.words();
    assert(seq![cmd@] + texts(args@) =~= words);
    if let Some(level) = &command.nice_level {
        let mut nice_args: Vec<String> = Vec::new();
        nice_args.push("-n".to_owned());
        nice_args.push(level.to_string());
        nice_args.push(cmd);
        append_strings(&mut nice_args, &args);
        proof {
            words = seq!["nice"@, "-n"@, signed_decimal(level.level() as int)] + words;
            assert(seq!["nice"@] + texts(nice_args@) =~= words);
        }
        cmd = "nice".to_owned();
        args = nice_args;
    } else {
        proof {
            assert(Seq::<Seq<char>>::empty() + words =~= words);
        }
    }
    if let Some(cpus) = &command.pin_to_cpus {
        let mut list: Vec<String> = Vec::new();
        for i in 0..cpus.len()
            invariant
                list.len() == i,
                forall|j: int| 0 <= j < i ==> texts(list@)[j] == decimals(cpus@)[j],
        {
            list.push(decimal_text(cpus[i] as u64));
        }
        proof {
            assert(texts(list@) =~= decimals(cpus@));
        }
        let mut cpu_args: Vec<String> = Vec::new();
        cpu_args.push("-c".to_owned());
        cpu_args.push(join_texts(&list, ","));
        cpu_args.push(cmd);
        append_strings(&mut cpu_args, &args);
        proof {
            words = seq!["taskset"@, "-c"@, joined(decimals(cpus@), ","@)] + words;
            assert(seq!["taskset"@] + texts(cpu_args@) =~= words);
        }
        cmd = "taskset".to_owned();
        args = cpu_args;
    }
    proof {
        assert(words =~= command@.launch_words());
    }
    (cmd, args)
}

/// Whether a process command line is exactly `command` followed by `args`.
pub fn command_equal(command: &str, args: &Vec<String>, line: &Vec<String>) -> (r: bool)
    ensures
        r == (texts(line@) == seq![command@] + texts(args@)),
{
    let ghost expected = seq![command@] + texts(args@);
    if line.len() == 0 || args.len() != line.len() - 1 {
        assert(texts(line@).len() != expected.len());
        return false;
    }
    if !same_text(command, line[0].as_str()) {
        assert(texts(line@)[0] != expected[0]);
        return false;
    }
    for i in 0..args.len()
        invariant
            args.len() == line.len() - 1,
            expected == seq![command@] + texts(args@),
            forall|j: int| 0 <= j < i + 1 ==> texts(line@)[j] == expected[j],
    {
        if !same_text(args[i].as_str(), line[i + 1].as_str()) {
            assert(texts(line@)[i + 1] != expected[i + 1]);
            return false;
        }
    }
    proof {
        assert(texts(line@) =~= expected);
    }
    true
}

/// Whether the process with the given id has the given command line.
pub open spec fn pid_runs(table: Seq<Process>, pid: u32, words: Seq<Seq<char>>) -> bool {
    match process_with_pid(table, pid) {
        Some(process) => process.command_line() == words,
        None => false,
    }
}

/// The first process in a table with the given command line.
pub open spec fn first_running(table: Seq<Process>, words: Seq<Seq<char>>) -> Option<u32>
    decreases table.len(),
{
    if table.len() == 0 {
        None
    } else if table[0].command_line() == words {
        Some(table[0].pid)
    } else {
        first_running(table.drop_first(), words)
    }
}

/// A process with the command line is found exactly when the table has one.
pub proof fn law_first_running(table: Seq<Process>, words: Seq<Seq<char>>)
    ensures
        first_running(table, words) is Some <==> exists|i: int|
            0 <= i < table.len() && (#[trigger] table[i]).command_line() == words,
        first_running(table, words) matches Some(pid) ==> exists|i: int|
            0 <= i < table.len() && (#[trigger] table[i]).command_line() == words && table[i].pid == pid,
    decreases table.len(),
{
    if table.len() > 0 {
        if table[0].command_line() == words {
        } else {
            let rest = table.drop_first();
            law_first_running(rest, words);
            if first_running(rest, words) is Some {
                let i = choose|i: int|
                    0 <= i < rest.len() && (#[trigger] rest[i]).command_line() == words && rest[i].pid
                        == first_running(rest, words)->0;
                assert(table[i + 1] == rest[i]);
            }
            if exists|i: int| 0 <= i < table.len() && (#[trigger] table[i]).command_line() == words {
                let i = choose|i: int|
                    0 <= i < table.len() && (#[trigger] table[i]).command_line() == words;
                assert(rest[i - 1] == table[i]);
            }
        }
    }
}

impl CommandModel {
    /// The state that a process table shows of the command.
    ///
    /// A recorded pid is looked up first: it is running if it still has the
    /// command line, unknown if another process took the pid, and not started
    /// if the pid is gone. Without a recorded pid the table is searched.
    pub open spec fn observed_state(self, table: Seq<Process>) -> StateModel {
        match self.state {
            StateModel::Running(pid) => match process_with_pid(table, pid) {
                Some(process) => if process.command_line() == self.words() {
                    StateModel::Running(pid)
                } else {
                    StateModel::Unknown
                },
                None => StateModel::NotStarted,
            },
            _ => match first_running(table, self.words()) {
                Some(pid) => StateModel::Running(pid),
                None => self.state,
            },
        }
    }

    /// Whether a process table shows the command as running.
    pub open spec fn observed_running(self, table: Seq<Process>) -> bool {
        match self.state {
            StateModel::Running(pid) => pid_runs(table, pid, self.words()),
            _ => first_running(table, self.words()) is Some,
        }
    }
}

impl FxSystemCommand {
    /// Creates a command in the `NotStarted` state, with the optional launch
    /// settings left unset.
    pub fn new(command: String, args: Vec<String>, desired_state: FxDesiredExecutionState) -> (r:
        Self)
        ensures
            r@ == (CommandModel {
                command: command@,
                args: texts(args@),
                state: StateModel::NotStarted,
                desired_state,
                nice_level: None,
                pid_directory: None,
                pin_to_cpus: None,
                stdout_path: None,
                stderr_path: None,
            }),
    {
        FxSystemCommand {
            command,
            args,
            state: FxExecutionState::NotStarted,
            desired_state,
            nice_level: None,
            pid_directory: None,
            pin_to_cpus: None,
            stdout_path: None,
            stderr_path: None,
        }
    }

    /// Creates a command from an existing process.
    ///
    /// Fails when the pid is not in the table, or when the process has an empty
    /// command vector.
    pub fn new_from_pid(table: &Vec<Process>, pid: u32) -> (r: Result<Self, FxSysCommandError>)
        ensures
            match process_with_pid(table@, pid) {
                None => r is Err && r->Err_0@ == SysErrorModel::PidNotFound(pid),
                Some(process) => if process.command_line().len() == 0 {
                    r is Err && r->Err_0@ == SysErrorModel::EmptyCommand(pid)
                } else {
                    r is Ok && r->Ok_0@ == (CommandModel {
                        command: process.command_line()[0],
                        args: process.command_line().drop_first(),
                        state: StateModel::Running(pid),
                        desired_state: FxDesiredExecutionState::Running,
                        nice_level: None,
                        pid_directory: None,
                        pin_to_cpus: None,
                        stdout_path: None,
                        stderr_path: None,
                    })
                },
            },
    {
        match get_process(table, pid) {
            Some(process) => {
                if process.args.len() == 0 {
                    return Err(FxSysCommandError::EmptyCommand(pid));
                }
                let mut args: Vec<String> = Vec::new();
                for i in 1..process.args.len()
                    invariant
                        process.args.len() > 0,
                        args.len() == i - 1,
                        forall|j: int| 0 <= j < i - 1 ==> texts(args@)[j] == texts(process.args@)[j + 1],
                {
                    args.push(process.args[i].clone());
                }
                proof {
                    assert(texts(args@) =~= process.command_line().drop_first());
                }
                let mut command = FxSystemCommand::new(
                    process.args[0].clone(),
                    args,
                    FxDesiredExecutionState::Running,
                );
                command.state = FxExecutionState::Running(pid);
                Ok(command)
            },
            None => Err(FxSysCommandError::PidNotFound(pid)),
        }
    }

    /// The first process of the table with this command line.
    fn find_running(&self, table: &Vec<Process>) -> (r: Option<u32>)
        ensures
            r == first_running(table@, self@.words()),
    {
        proof {
            assert(table@.skip(0) =~= table@);
        }
        let mut i: usize = 0;
        while i < table.len()
            invariant
                i <= table.len(),
                first_running(table@.skip(i as int), self@.words()) == first_running(
                    table@,
                    self@.words(),
                ),
            decreases table.len() - i,
        {
            if command_equal(self.command.as_str(), &self.args, &table[i].args) {
                return Some(table[i].pid);
            }
            proof {
                assert(table@.skip(i as int).drop_first() =~= table@.skip(i + 1));
            }
            i += 1;
        }
        None
    }

    /// Returns whether a matching process is currently running on the host.
    pub fn is_running(&self, table: &Vec<Process>) -> (r: bool)
        ensures
            r == self@.observed_running(table@),
    {
        match &self.state {
            FxExecutionState::Running(pid) => match get_process(table, *pid) {
                Some(process) => command_equal(self.command.as_str(), &self.args, &process.args),
                None => false,
            },
            _ => self.find_running(table).is_some(),
        }
    }

    /// Returns the current host-observed execution state for this command.
    pub fn current_system_state(&self, table: &Vec<Process>) -> (r: FxExecutionState)
        ensures
            r@ == self@.observed_state(table@),
    {
        match &self.state {
            FxExecutionState::Running(pid) => match get_process(table, *pid) {
                Some(process) => if command_equal(self.command.as_str(), &self.args, &process.args) {
                    FxExecutionState::Running(*pid)
                } else {
                    FxExecutionState::Unknown
                },
                None => FxExecutionState::NotStarted,
            },
            _ => match self.find_running(table) {
                Some(pid) => FxExecutionState::Running(pid),
                None => self.state.clone(),
            },
        }
    }

    /// The status of a process that is tracked only by its pid.
    pub fn fx_status_of_pid(&self, pid: u32, process: Option<&Process>) -> (r: FxExecutionState)
        ensures
            r@ == (match process {
                Some(p) => if p.command_line() == self@.words() {
                    StateModel::Running(pid)
                } else {
                    StateModel::Unknown
                },
                None => StateModel::NotStarted,
            }),
    {
        match process {
            Some(p) => if command_equal(self.command.as_str(), &self.args, &p.args) {
                FxExecutionState::Running(pid)
            } else {
                FxExecutionState::Unknown
            },
            None => FxExecutionState::NotStarted,
        }
    }

    /// The status of a child of this process, from a look that does not wait.
    ///
    /// Observed states are successes; a failed look is the one error.
    pub fn fx_status_of_child(pid: u32, look: Result<Option<ExitStatus>, String>) -> (r: Result<
        FxExecutionState,
        FxExecutionState,
    >)
        ensures
            match look {
                Ok(None) => r is Ok && r->Ok_0@ == StateModel::Running(pid),
                Ok(Some(status)) => r is Ok && r->Ok_0@ == StateModel::Exited(status),
                Err(message) => r is Err && r->Err_0@ == StateModel::Error(message@),
            },
    {
        match look {
            Ok(None) => Ok(FxExecutionState::Running(pid)),
            Ok(Some(status)) => Ok(FxExecutionState::Exited(status)),
            Err(message) => Err(FxExecutionState::Error(message)),
        }
    }

    /// The stable identifier of the command.
    pub fn id(&self) -> (r: String)
        ensures
            r@ == command_id(self@.words()),
    {
        encode_command_id(self.command.as_str(), &self.args)
    }

    /// Archiving a process is not implemented.
    pub fn fx_archive(&self) -> (r: Result<(), FxSysCommandError>)
        ensures
            r is Err,
            r->Err_0@ == SysErrorModel::Unsupported("system-command archive is not implemented"@),
    {
        Err(FxSysCommandError::Unsupported("system-command archive is not implemented"))
    }
}

/// A command is shown as running exactly when its observed state is running.
pub proof fn law_running_agrees_with_state(command: CommandModel, table: Seq<Process>)
    ensures
        command.observed_running(table) <==> command.observed_state(table) is Running,
{
}

/// The number of bytes that a text takes in UTF-8.
pub open spec fn utf8_len(s: Seq<char>) -> nat {
    encode_utf8(s).len()
}

/// One part of a command identifier: its length in bytes, a colon, the part.
pub open spec fn id_component(s: Seq<char>) -> Seq<char> {
    decimal(utf8_len(s)) + seq![':'] + s
}

/// The identifier of a command line: its length-prefixed words after another.
pub open spec fn command_id(words: Seq<Seq<char>>) -> Seq<char>
    decreases words.len(),
{
    if words.len() == 0 {
        seq![]
    } else {
        command_id(words.drop_last()) + id_component(words.last())
    }
}

fn append_id_component(encoded: &mut String, value: &str)
    ensures
        final(encoded)@ == old(encoded)@ + id_component(value@),
{
    let len: usize = value.as_bytes().len();
    encoded.append(decimal_text(len as u64).as_str());
    encoded.push(':');
    encoded.append(value);
    proof {
        assert(encoded@ =~= old(encoded)@ + id_component(value@));
    }
}

/// A stable command identifier using a length-prefixed encoding of the
/// executable and arguments.
pub fn encode_command_id(command: &str, args: &Vec<String>) -> (r: String)
    ensures
        r@ == command_id(seq![command@] + texts(args@)),
{
    let ghost words = seq![command@] + texts(args@);
    let mut encoded = String::new();
    append_id_component(&mut encoded, command);
    proof {
        assert(words.take(1).drop_last() =~= Seq::<Seq<char>>::empty());
        assert(command_id(words.take(1).drop_last()) =~= Seq::<char>::empty());
        assert(encoded@ =~= command_id(words.take(1)));
    }
    for i in 0..args.len()
        invariant
            words == seq![command@] + texts(args@),
            encoded@ == command_id(words.take(i + 1)),
    {
        append_id_component(&mut encoded, args[i].as_str());
        proof {
            assert(words.take(i + 2).drop_last() =~= words.take(i + 1));
            assert(words.take(i + 2).last() == args@[i as int]@);
        }
    }
    proof {
        assert(words.take(args@.len() as int + 1) =~= words);
    }
    encoded
}

/// The hexadecimal writing of bytes, two digits each.
pub open spec fn hex_of(bytes: Seq<u8>) -> Seq<char> {
    Seq::new(
        2 * bytes.len(),
        |i: int|
            if i % 2 == 0 {
                hex_digit(bytes[i / 2] as nat / 16)
            } else {
                hex_digit(bytes[i / 2] as nat % 16)
            },
    )
}

/// The name of the pid file of an effect, without its extension.
pub open spec fn pid_stem(id: FxIdModel) -> Seq<char> {
    "fx-"@ + hex_of(encode_utf8(fx_id_text(id)))
}

fn hex_char(n: u8) -> (r: char)
    requires
        n < 16,
    ensures
        r == hex_digit(n as nat),
{
    if n < 10 {
        (48 + n) as char
    } else {
        (87 + n) as char
    }
}

/// The name of the pid file of an effect, without its extension.
pub fn pid_file_stem(fx_id: &FxId) -> (r: String)
    ensures
        r@ == pid_stem(fx_id@),
{
    let mut stem = "fx-".to_owned();
    let text = fx_id.to_string();
    let bytes = text.as_str().as_bytes();
    for i in 0..bytes.len()
        invariant
            stem@ == "fx-"@ + hex_of(bytes@).take(2 * i),
    {
        let byte: u8 = bytes[i];
        stem.push(hex_char(byte / 16));
        stem.push(hex_char(byte % 16));
        proof {
            let h = hex_of(bytes@);
            assert(h[2 * i] == hex_digit(byte as nat / 16));
            assert(h[2 * i + 1] == hex_digit(byte as nat % 16));
            assert(stem@ =~= "fx-"@ + h.take(2 * (i + 1)));
        }
    }
    proof {
        assert(hex_of(bytes@).take(2 * bytes@.len() as int) =~= hex_of(bytes@));
    }
    stem
}

/// The path of the pid file of an effect, where a command has a pid directory.
pub open spec fn pid_path(command: CommandModel, id: FxIdModel) -> Option<Seq<char>> {
    match command.pid_directory {
        Some(dir) => Some(path_join(dir, pid_stem(id) + ".pid"@)),
        None => None,
    }
}

/// The path of the pid file of an effect, where a command has a pid directory.
pub fn pid_file_path(command: &FxSystemCommand, fx_id: &FxId) -> (r: Option<String>)
    ensures
        opt_text(r) == pid_path(command@, fx_id@),
{
    match &command.pid_directory {
        Some(dir) => {
            let name = cat2(pid_file_stem(fx_id).as_str(), ".pid");
            Some(join_path(dir.as_str(), name.as_str()))
        },
        None => None,
    }
}

/// What a pid file holds: the pid in decimal and a line feed.
pub open spec fn pid_file_text(pid: u32) -> Seq<char> {
    decimal(pid as nat).push('\n')
}

/// What to write into a pid file.
pub fn pid_file_contents(pid: u32) -> (r: String)
    ensures
        r@ == pid_file_text(pid),
{
    let mut r = decimal_text(pid as u64);
    r.push('\n');
    r
}

/// The pid that the contents of a pid file give, if they give one.
pub open spec fn pid_in(contents: Seq<char>) -> Option<nat> {
    bounded_number_of(trimmed(contents), u32::MAX as nat)
}

/// Reads the contents of a pid file.
pub fn parse_pid_file(contents: &str) -> (r: Option<u32>)
    ensures
        r is Some == pid_in(contents@) is Some,
        r is Some ==> r->0 as nat == pid_in(contents@)->0,
{
    parse_u32(trim_text(contents).as_str())
}

/// A process spawned by this controller.
#[derive(Clone, Copy, Debug, PartialEq, Eq, Structural)]
pub struct SystemProcessRunningTokio {
    /// The pid of the child.
    pub pid: u32,
}

/// A running process associated with an [`FxSystemCommand`].
#[derive(Clone, Copy, Debug, PartialEq, Eq, Structural)]
pub enum FxSystemProcessRunning {
    /// A process spawned by this controller.
    Tokio(SystemProcessRunningTokio),
    /// A process that already existed and is tracked only by pid.
    Pid(u32),
}

/// How far a start has come, and what it waits for.
#[derive(Clone, Copy, Debug, PartialEq, Eq, Structural)]
pub enum StartPhase {
    /// The contents of the pid file are to be read.
    ReadPidFile,
    /// The command line of the process named by the pid file is to be looked up.
    CheckPidFile(u32),
    /// The stale pid file is to be removed.
    RemovePidFile,
    /// The command line of the recorded process is to be looked up.
    CheckRecorded(u32),
    /// The process table is to be listed.
    Scan,
    /// The command is to be spawned.
    Spawn,
    /// The pid file is to be written; the flag tells a spawned process from one
    /// that was found.
    WritePidFile(u32, bool),
    /// The spawned child, which has no pid, is to be killed.
    Cleanup,
    /// A running process was found.
    Attached(u32),
    /// A process was spawned.
    Spawned(u32),
    /// The spawned child had no pid.
    NoPid,
    /// An operation of the system failed.
    Failed,
}

/// What came back from an action of a start.
#[derive(Debug)]
pub enum StartAnswer {
    /// The contents of a file.
    Text(Result<String, IoError>),
    /// The command line of a process, if there is a process with the pid.
    CommandLine(Option<Vec<String>>),
    /// The process table.
    Processes(Vec<Process>),
    /// Whether an operation succeeded.
    Finished(Result<(), IoError>),
    /// The pid of a new child.
    Child(Result<Option<u32>, IoError>),
}

/// The start of a command: it attaches to a matching process or spawns one.
#[derive(Debug)]
pub struct Start {
    /// The command being started.
    pub command: FxSystemCommand,
    /// The program to launch.
    pub program: String,
    /// The arguments to launch it with.
    pub args: Vec<String>,
    /// The pid file, where the command has a pid directory.
    pub pid_file: Option<String>,
    /// How far the start has come.
    pub phase: StartPhase,
    /// The failure that ended the start.
    pub failure: Option<IoError>,
}

impl Start {
    /// The command line that is launched.
    pub open spec fn launched(self) -> Seq<Seq<char>> {
        seq![self.program@] + texts(self.args@)
    }

    /// The start in another phase.
    pub open spec fn in_phase(self, phase: StartPhase) -> Start {
        Start { phase, ..self }
    }

    /// The start with another recorded state of its command.
    pub open spec fn recording(self, state: FxExecutionState) -> Start {
        Start { command: FxSystemCommand { state, ..self.command }, ..self }
    }

    /// The start ended by a failure.
    pub open spec fn failed(self, err: IoError) -> Start {
        Start { phase: StartPhase::Failed, failure: Some(err), ..self }
    }

    /// The search for a running process without the help of the pid file.
    ///
    /// With a pid file only the recorded pid is considered, so that effects
    /// with the same command line stay apart; otherwise the table is searched.
    pub open spec fn look_further(self) -> Start {
        if self.pid_file is Some {
            match self.command.state {
                FxExecutionState::Running(pid) => self.in_phase(StartPhase::CheckRecorded(pid)),
                _ => self.in_phase(StartPhase::Spawn),
            }
        } else {
            self.in_phase(StartPhase::Scan)
        }
    }

    /// The start after a running process was found, or spawned.
    pub open spec fn running(self, pid: u32, spawned: bool) -> Start {
        let s = self.recording(FxExecutionState::Running(pid));
        if self.pid_file is Some {
            s.in_phase(StartPhase::WritePidFile(pid, spawned))
        } else if spawned {
            s.in_phase(StartPhase::Spawned(pid))
        } else {
            s.in_phase(StartPhase::Attached(pid))
        }
    }

    /// The start after the contents of the pid file came back.
    pub open spec fn after_text(self, contents: Result<String, IoError>) -> Start {
        match contents {
            Ok(text) => match pid_in(text@) {
                Some(pid) => self.in_phase(StartPhase::CheckPidFile(pid as u32)),
                None => self.look_further(),
            },
            Err(err) => if err.kind is NotFound {
                self.look_further()
            } else {
                self.failed(err)
            },
        }
    }

    /// Whether a command line is that of the command: the one that it is known
    /// by, or the one that is launched. A process shows the latter only until
    /// `taskset` and `nice` have replaced themselves by the command.
    pub open spec fn is_own(self, line: Option<Vec<String>>) -> bool {
        line matches Some(words) && (texts(words@) == self.command@.words() || texts(words@)
            == self.launched())
    }

    /// The start after an answer.
    ///
    /// An answer to another question than the one asked changes nothing.
    pub open spec fn after(self, answer: StartAnswer) -> Start {
        match (self.phase, answer) {
            (StartPhase::ReadPidFile, StartAnswer::Text(contents)) => self.after_text(contents),
            (StartPhase::CheckPidFile(pid), StartAnswer::CommandLine(line)) => if self.is_own(line) {
                self.recording(FxExecutionState::Running(pid)).in_phase(StartPhase::Attached(pid))
            } else {
                self.in_phase(StartPhase::RemovePidFile)
            },
            (StartPhase::RemovePidFile, StartAnswer::Finished(done)) => match done {
                Ok(()) => self.look_further(),
                Err(err) => if err.kind is NotFound {
                    self.look_further()
                } else {
                    self.failed(err)
                },
            },
            (StartPhase::CheckRecorded(pid), StartAnswer::CommandLine(line)) => if self.is_own(line) {
                self.running(pid, false)
            } else {
                self.in_phase(StartPhase::Spawn)
            },
            (StartPhase::Scan, StartAnswer::Processes(table)) => match self.command@.observed_state(
                table@,
            ) {
                StateModel::Running(pid) => self.running(pid, false),
                _ => self.in_phase(StartPhase::Spawn),
            },
            (StartPhase::Spawn, StartAnswer::Child(child)) => match child {
                Ok(Some(pid)) => self.running(pid, true),
                Ok(None) => self.recording(FxExecutionState::Unknown).in_phase(StartPhase::Cleanup),
                Err(err) => self.failed(err),
            },
            (StartPhase::Cleanup, StartAnswer::Finished(_)) => self.in_phase(StartPhase::NoPid),
            (StartPhase::WritePidFile(pid, spawned), StartAnswer::Finished(done)) => match done {
                Ok(()) => if spawned {
                    self.in_phase(StartPhase::Spawned(pid))
                } else {
                    self.in_phase(StartPhase::Attached(pid))
                },
                Err(err) => self.failed(err),
            },
            _ => self,
        }
    }

    /// Moves on to the search without the help of the pid file.
    fn go_look_further(&mut self)
        ensures
            *final(self) == old(self).look_further(),
    {
        if self.pid_file.is_some() {
            match self.command.state {
                FxExecutionState::Running(pid) => {
                    self.phase = StartPhase::CheckRecorded(pid);
                },
                _ => {
                    self.phase = StartPhase::Spawn;
                },
            }
        } else {
            self.phase = StartPhase::Scan;
        }
    }

    /// Records a running process.
    fn go_running(&mut self, pid: u32, spawned: bool)
        ensures
            *final(self) == old(self).running(pid, spawned),
    {
        self.command.state = FxExecutionState::Running(pid);
        self.phase = if self.pid_file.is_some() {
            StartPhase::WritePidFile(pid, spawned)
        } else if spawned {
            StartPhase::Spawned(pid)
        } else {
            StartPhase::Attached(pid)
        };
    }

    /// Ends the start with a failure.
    fn go_failed(&mut self, err: IoError)
        ensures
            *final(self) == old(self).failed(err),
    {
        self.phase = StartPhase::Failed;
        self.failure = Some(err);
    }

    /// Takes in the answer to the current question.
    pub fn advance(&mut self, answer: StartAnswer)
        ensures
            *final(self) == old(self).after(answer),
    {
        match (self.phase, answer) {
            (StartPhase::ReadPidFile, StartAnswer::Text(contents)) => match contents {
                Ok(text) => match parse_pid_file(text.as_str()) {
                    Some(pid) => {
                        self.phase = StartPhase::CheckPidFile(pid);
                    },
                    None => self.go_look_further(),
                },
                Err(err) => if err.is_not_found() {
                    self.go_look_further();
                } else {
                    self.go_failed(err);
                },
            },
            (StartPhase::CheckPidFile(pid), StartAnswer::CommandLine(line)) => {
                if self.line_is_own(&line) {
                    self.command.state = FxExecutionState::Running(pid);
                    self.phase = StartPhase::Attached(pid);
                } else {
                    self.phase = StartPhase::RemovePidFile;
                }
            },
            (StartPhase::RemovePidFile, StartAnswer::Finished(done)) => match done {
                Ok(()) => self.go_look_further(),
                Err(err) => if err.is_not_found() {
                    self.go_look_further();
                } else {
                    self.go_failed(err);
                },
            },
            (StartPhase::CheckRecorded(pid), StartAnswer::CommandLine(line)) => {
                if self.line_is_own(&line) {
                    self.go_running(pid, false);
                } else {
                    self.phase = StartPhase::Spawn;
                }
            },
            (StartPhase::Scan, StartAnswer::Processes(table)) => {
                match self.command.current_system_state(&table) {
                    FxExecutionState::Running(pid) => self.go_running(pid, false),
                    _ => {
                        self.phase = StartPhase::Spawn;
                    },
                }
            },
            (StartPhase::Spawn, StartAnswer::Child(child)) => match child {
                Ok(Some(pid)) => self.go_running(pid, true),
                Ok(None) => {
                    self.command.state = FxExecutionState::Unknown;
                    self.phase = StartPhase::Cleanup;
                },
                Err(err) => self.go_failed(err),
            },
            (StartPhase::Cleanup, StartAnswer::Finished(_)) => {
                self.phase = StartPhase::NoPid;
            },
            (StartPhase::WritePidFile(pid, spawned), StartAnswer::Finished(done)) => match done {
                Ok(()) => {
                    self.phase = if spawned {
                        StartPhase::Spawned(pid)
                    } else {
                        StartPhase::Attached(pid)
                    };
                },
                Err(err) => self.go_failed(err),
            },
            _ => {},
        }
    }

    /// Whether a command line is that of the command.
    fn line_is_own(&self, line: &Option<Vec<String>>) -> (r: bool)
        ensures
            r == self.is_own(*line),
    {
        match line {
            Some(words) => command_equal(
                self.command.command.as_str(),
                &self.command.args,
                words,
            ) || command_equal(self.program.as_str(), &self.args, words),
            None => false,
        }
    }

    /// The result of the start, once it has ended.
    pub open spec fn outcome(self) -> Option<Result<FxSystemProcessRunning, SysErrorModel>> {
        match self.phase {
            StartPhase::Attached(pid) => Some(Ok(FxSystemProcessRunning::Pid(pid))),
            StartPhase::Spawned(pid) => Some(
                Ok(FxSystemProcessRunning::Tokio(SystemProcessRunningTokio { pid })),
            ),
            StartPhase::NoPid => Some(Err(SysErrorModel::String("pid is None"@))),
            StartPhase::Failed => match self.failure {
                Some(err) => Some(Err(SysErrorModel::IO(err))),
                None => None,
            },
            _ => None,
        }
    }

    /// The result of the start, once it has ended.
    pub fn result(&self) -> (r: Option<Result<FxSystemProcessRunning, FxSysCommandError>>)
        ensures
            match self.outcome() {
                None => r is None,
                Some(Ok(process)) => r == Some(Ok::<FxSystemProcessRunning, FxSysCommandError>(process)),
                Some(Err(err)) => r is Some && r->0 is Err && r->0->Err_0@ == err,
            },
    {
        match self.phase {
            StartPhase::Attached(pid) => Some(Ok(FxSystemProcessRunning::Pid(pid))),
            StartPhase::Spawned(pid) => Some(
                Ok(FxSystemProcessRunning::Tokio(SystemProcessRunningTokio { pid })),
            ),
            StartPhase::NoPid => Some(Err(FxSysCommandError::String("pid is None".to_owned()))),
            StartPhase::Failed => match &self.failure {
                Some(err) => Some(Err(FxSysCommandError::IO(err.clone()))),
                None => None,
            },
            _ => None,
        }
    }
}

impl FxSystemCommand {
    /// Begins to start the command, or to attach to a running process.
    ///
    /// The command is from now on meant to run. With a pid directory the pid
    /// file is consulted first; without one the process table.
    pub fn fx_start(self, fx_id: &FxId) -> (r: Start)
        ensures
            r.command == (FxSystemCommand {
                desired_state: FxDesiredExecutionState::Running,
                ..self
            }),
            r.launched() == self@.launch_words(),
            opt_text(r.pid_file) == pid_path(self@, fx_id@),
            r.phase == (if self.pid_directory is Some {
                StartPhase::ReadPidFile
            } else {
                StartPhase::Scan
            }),
            r.failure is None,
    {
        let mut command = self;
        command.desired_state = FxDesiredExecutionState::Running;
        let (program, args) = launch_command_line(&command);
        let pid_file = pid_file_path(&command, fx_id);
        let phase = if pid_file.is_some() {
            StartPhase::ReadPidFile
        } else {
            StartPhase::Scan
        };
        Start { command, program, args, pid_file, phase, failure: None }
    }
}

/// The signals that end a process.
#[derive(Clone, Copy, Debug, PartialEq, Eq, Structural)]
pub enum Signal {
    /// Asks for termination.
    Term,
    /// Forces termination.
    Kill,
}

/// Whom a signal goes to.
#[derive(Clone, Copy, Debug, PartialEq, Eq, Structural)]
pub enum SignalTarget {
    /// All processes of the group that the child leads.
    Group(u32),
    /// One process.
    Process(u32),
}

/// What became of a signal.
#[derive(Clone, Copy, Debug, PartialEq, Eq, Structural)]
pub enum SignalReport {
    /// There is no process with that pid.
    NoProcess,
    /// The signal was sent.
    Sent,
    /// The signal was not accepted.
    NotSent,
}

/// The result of a signal request.
pub fn signal_process(report: SignalReport) -> (r: Result<(), FxSysCommandError>)
    ensures
        match report {
            SignalReport::NoProcess => r is Err && r->Err_0@ == SysErrorModel::ProcessNotRunning,
            SignalReport::Sent => r is Ok,
            SignalReport::NotSent => r is Err && r->Err_0@ == SysErrorModel::SignalFailedToSend,
        },
{
    match report {
        SignalReport::NoProcess => Err(FxSysCommandError::ProcessNotRunning),
        SignalReport::Sent => Ok(()),
        SignalReport::NotSent => Err(FxSysCommandError::SignalFailedToSend),
    }
}

/// How the wait for a killed child ended.
#[derive(Debug)]
pub enum ChildEnd {
    /// The task that waits for the child finished.
    Waited(Result<(), IoError>),
    /// The task that waits for the child was lost, with the reason.
    WaiterLost(String),
    /// There was no such task any more, and the child was waited for directly.
    WaitedDirectly(Result<(), IoError>),
}

/// The result of destroying a spawned child, once the wait for it ended.
///
/// A direct wait on a child that was already waited for counts as done.
pub fn destroy_child(end: ChildEnd) -> (r: Result<(), FxSysCommandError>)
    ensures
        match end {
            ChildEnd::Waited(Ok(())) => r is Ok,
            ChildEnd::Waited(Err(err)) => r is Err && r->Err_0@ == SysErrorModel::IO(err),
            ChildEnd::WaiterLost(reason) => r is Err && r->Err_0@ == SysErrorModel::String(
                "destroy waiter task failed: "@ + reason@,
            ),
            ChildEnd::WaitedDirectly(Ok(())) => r is Ok,
            ChildEnd::WaitedDirectly(Err(err)) => if err.kind is InvalidInput {
                r is Ok
            } else {
                r is Err && r->Err_0@ == SysErrorModel::IO(err)
            },
        },
{
    match end {
        ChildEnd::Waited(Ok(())) => Ok(()),
        ChildEnd::Waited(Err(err)) => Err(FxSysCommandError::IO(err)),
        ChildEnd::WaiterLost(reason) => Err(
            FxSysCommandError::String(cat2("destroy waiter task failed: ", reason.as_str())),
        ),
        ChildEnd::WaitedDirectly(Ok(())) => Ok(()),
        ChildEnd::WaitedDirectly(Err(err)) => if err.is_invalid_input() {
            Ok(())
        } else {
            Err(FxSysCommandError::IO(err))
        },
    }
}

impl FxSystemProcessRunning {
    /// The pid of the process.
    pub open spec fn pid(self) -> u32 {
        match self {
            FxSystemProcessRunning::Tokio(handle) => handle.pid,
            FxSystemProcessRunning::Pid(pid) => pid,
        }
    }

    /// Whom the signals for this process go to: a child leads a group of its
    /// own, and a process that was found is signalled alone.
    pub open spec fn target(self) -> SignalTarget {
        match self {
            FxSystemProcessRunning::Tokio(handle) => SignalTarget::Group(handle.pid),
            FxSystemProcessRunning::Pid(pid) => SignalTarget::Process(pid),
        }
    }

    /// Returns the operating-system process id for this running process.
    pub fn get_pid(&self) -> (r: u32)
        ensures
            r == self.pid(),
    {
        match self {
            FxSystemProcessRunning::Tokio(handle) => handle.pid,
            FxSystemProcessRunning::Pid(pid) => *pid,
        }
    }

    /// The signal that asks the process to end.
    pub fn stop(&self) -> (r: (SignalTarget, Signal))
        ensures
            r == (self.target(), Signal::Term),
    {
        (self.signal_target(), Signal::Term)
    }

    /// The signal that forces the process to end.
    pub fn destroy(&self) -> (r: (SignalTarget, Signal))
        ensures
            r == (self.target(), Signal::Kill),
    {
        (self.signal_target(), Signal::Kill)
    }

    fn signal_target(&self) -> (r: SignalTarget)
        ensures
            r == self.target(),
    {
        match self {
            FxSystemProcessRunning::Tokio(handle) => SignalTarget::Group(handle.pid),
            FxSystemProcessRunning::Pid(pid) => SignalTarget::Process(*pid),
        }
    }
}

/// How often a killed process is looked for before the wait is given up.
pub const DESTROY_EXIT_POLL_ATTEMPTS: usize = 100;

/// The milliseconds between two looks for a killed process.
pub const DESTROY_EXIT_POLL_INTERVAL: u64 = 50;

/// The wait for a process to be gone.
#[derive(Clone, Copy, Debug, PartialEq, Eq, Structural)]
pub struct PidExitWait {
    /// The process waited for.
    pub pid: u32,
    /// How often it was seen so far.
    pub seen: usize,
}

/// What follows from a look for the process.
#[derive(Debug)]
pub enum WaitStep {
    /// Wait for the given milliseconds and look again.
    Sleep(u64),
    /// The wait is over.
    Over(Result<(), FxSysCommandError>),
}

/// Begins to wait for a process to be gone.
pub fn wait_for_pid_exit(pid: u32) -> (r: PidExitWait)
    ensures
        r == (PidExitWait { pid, seen: 0 }),
{
    PidExitWait { pid, seen: 0 }
}

impl PidExitWait {
    /// Takes in whether the process exists.
    ///
    /// The wait ends well as soon as the process is gone. After
    /// [`DESTROY_EXIT_POLL_ATTEMPTS`] pauses one last look decides.
    pub fn look(&mut self, exists: bool) -> (r: WaitStep)
        ensures
            final(self).pid == old(self).pid,
            !exists ==> r is Over && r->Over_0 is Ok && *final(self) == *old(self),
            exists && old(self).seen < DESTROY_EXIT_POLL_ATTEMPTS ==> r == WaitStep::Sleep(
                DESTROY_EXIT_POLL_INTERVAL,
            ) && final(self).seen == old(self).seen + 1,
            exists && old(self).seen >= DESTROY_EXIT_POLL_ATTEMPTS ==> r is Over && r->Over_0 is Err
                && r->Over_0->Err_0@ == SysErrorModel::ProcessDidNotExit(old(self).pid) && *final(self)
                == *old(self),
    {
        if !exists {
            WaitStep::Over(Ok(()))
        } else if self.seen < DESTROY_EXIT_POLL_ATTEMPTS {
            self.seen = self.seen + 1;
            WaitStep::Sleep(DESTROY_EXIT_POLL_INTERVAL)
        } else {
            WaitStep::Over(Err(FxSysCommandError::ProcessDidNotExit(self.pid)))
        }
    }
}

/// How many answers a start can still take in before it has ended.
pub open spec fn start_rank(phase: StartPhase) -> nat {
    match phase {
        StartPhase::ReadPidFile => 6,
        StartPhase::CheckPidFile(_) => 5,
        StartPhase::RemovePidFile => 4,
        StartPhase::CheckRecorded(_) => 3,
        StartPhase::Scan => 3,
        StartPhase::Spawn => 2,
        StartPhase::WritePidFile(_, _) => 1,
        StartPhase::Cleanup => 1,
        _ => 0,
    }
}

/// Whether an answer is to the question that the start asked.
pub open spec fn start_asks(phase: StartPhase, answer: StartAnswer) -> bool {
    match phase {
        StartPhase::ReadPidFile => answer is Text,
        StartPhase::CheckPidFile(_) => answer is CommandLine,
        StartPhase::RemovePidFile => answer is Finished,
        StartPhase::CheckRecorded(_) => answer is CommandLine,
        StartPhase::Scan => answer is Processes,
        StartPhase::Spawn => answer is Child,
        StartPhase::WritePidFile(_, _) => answer is Finished,
        StartPhase::Cleanup => answer is Finished,
        _ => false,
    }
}

/// What holds of a start from its beginning to its end.
pub open spec fn start_inv(s: Start) -> bool {
    &&& s.command.desired_state is Running
    &&& s.phase is ReadPidFile || s.phase is CheckPidFile || s.phase is RemovePidFile
        || s.phase is CheckRecorded || s.phase is WritePidFile ==> s.pid_file is Some
    &&& s.phase is Scan ==> s.pid_file is None
    &&& s.phase matches StartPhase::WritePidFile(pid, _) ==> s.command.state
        == FxExecutionState::Running(pid)
    &&& s.phase matches StartPhase::Attached(pid) ==> s.command.state == FxExecutionState::Running(
        pid,
    )
    &&& s.phase matches StartPhase::Spawned(pid) ==> s.command.state == FxExecutionState::Running(
        pid,
    )
    &&& s.phase is NoPid || s.phase is Cleanup ==> s.command.state is Unknown
    &&& s.phase is Failed <==> s.failure is Some
}

/// Every answer keeps the invariant of a start, and leaves the command line,
/// the pid file and the launch settings as they were.
///
/// In particular a start with a pid file never searches the process table, a
/// start that ended well has recorded the process it returns, and one that
/// failed has its failure.
pub proof fn law_start_keeps_invariant(s: Start, answer: StartAnswer)
    requires
        start_inv(s),
    ensures
        start_inv(s.after(answer)),
        s.after(answer).pid_file == s.pid_file,
        s.after(answer).launched() == s.launched(),
        s.after(answer).command == (FxSystemCommand {
            state: s.after(answer).command.state,
            ..s.command
        }),
{
}

/// Every answer to the question asked brings a start nearer to its end, an
/// ended start stays as it is, and a start without a question has a result.
pub proof fn law_start_ends(s: Start, answer: StartAnswer)
    requires
        start_inv(s),
    ensures
        start_asks(s.phase, answer) ==> start_rank(s.after(answer).phase) < start_rank(s.phase),
        !start_asks(s.phase, answer) ==> s.after(answer) == s,
        start_rank(s.phase) == 0 <==> s.outcome() is Some,
{
}

/// A start attaches to the process that its pid file names where that process
/// has the command line that the command is known by, whatever the command is
/// launched through.
pub proof fn law_recorded_process_is_kept(s: Start, pid: u32, line: Vec<String>)
    requires
        s.phase == StartPhase::CheckPidFile(pid),
        texts(line@) == s.command@.words(),
    ensures
        s.after(StartAnswer::CommandLine(Some(line))).outcome() == Some(
            Ok::<_, SysErrorModel>(FxSystemProcessRunning::Pid(pid)),
        ),
{
}

/// A start spawns only after a look that showed no process with its command
/// line, and it attaches only after one that did.
pub proof fn law_start_spawns_only_what_does_not_run(s: Start, answer: StartAnswer)
    requires
        start_inv(s),
        start_asks(s.phase, answer),
    ensures
        s.after(answer).phase is Spawn ==> match answer {
            StartAnswer::CommandLine(line) => !s.is_own(line),
            StartAnswer::Processes(table) => !s.command@.observed_running(table@),
            _ => !(s.command.state is Running),
        },
        s.after(answer).phase is Attached ==> match answer {
            StartAnswer::CommandLine(line) => s.is_own(line),
            StartAnswer::Processes(table) => s.command@.observed_running(table@),
            _ => s.phase matches StartPhase::WritePidFile(_, spawned) && !spawned,
        },
{
    if let StartAnswer::Processes(table) = answer {
        law_running_agrees_with_state(s.command@, table@);
    }
}

/// A pid file gives back the pid that was written into it.
pub proof fn law_pid_file_reads_back(pid: u32)
    ensures
        pid_in(pid_file_text(pid)) == Some(pid as nat),
{
    let d = decimal(pid as nat);
    let t = pid_file_text(pid);
    lemma_decimal(pid as nat);
    assert(t[0] == d[0]);
    assert(is_digit(d[0]));
    assert(crate::text::trim_start(t) == t);
    assert(t.drop_last() =~= d);
    assert(is_digit(d[d.len() - 1]));
    assert(crate::text::trim_end(d) == d);
    assert(trimmed(t) == d);
}

/// No two effect texts share a pid file name.
pub proof fn law_pid_stem_injective(a: FxIdModel, b: FxIdModel)
    requires
        pid_stem(a) == pid_stem(b),
    ensures
        fx_id_text(a) == fx_id_text(b),
{
    let x = encode_utf8(fx_id_text(a));
    let y = encode_utf8(fx_id_text(b));
    let p = "fx-"@;
    assert(hex_of(x) =~= pid_stem(a).skip(p.len() as int));
    assert(hex_of(y) =~= pid_stem(b).skip(p.len() as int));
    assert(x.len() == y.len());
    assert forall|i: int| 0 <= i < x.len() implies x[i] == y[i] by {
        assert(hex_of(x)[2 * i] == hex_digit(x[i] as nat / 16));
        assert(hex_of(y)[2 * i] == hex_digit(y[i] as nat / 16));
        assert(hex_of(x)[2 * i + 1] == hex_digit(x[i] as nat % 16));
        assert(hex_of(y)[2 * i + 1] == hex_digit(y[i] as nat % 16));
    }
    assert(x =~= y);
    vstd::utf8::encode_utf8_decode_utf8(fx_id_text(a));
    vstd::utf8::encode_utf8_decode_utf8(fx_id_text(b));
}

proof fn lemma_utf8_concat(a: Seq<char>, b: Seq<char>)
    ensures
        encode_utf8(a + b) == encode_utf8(a) + encode_utf8(b),
    decreases a.len(),
{
    if a.len() == 0 {
        assert(a + b =~= b);
        assert(encode_utf8(a) + encode_utf8(b) =~= encode_utf8(b));
    } else {
        let rest = a.drop_first();
        lemma_utf8_concat(rest, b);
        assert((a + b).drop_first() =~= rest + b);
        assert((a + b)[0] == a[0]);
        assert(encode_utf8(a + b) =~= encode_utf8(a) + encode_utf8(b));
    }
}

proof fn lemma_utf8_len_positive(s: Seq<char>)
    requires
        s.len() > 0,
    ensures
        utf8_len(s) > 0,
{
    vstd::utf8::encode_utf8_decode_utf8(s);
    if utf8_len(s) == 0 {
        assert(encode_utf8(s) =~= encode_utf8(Seq::<char>::empty()));
        vstd::utf8::encode_utf8_decode_utf8(Seq::<char>::empty());
    }
}

proof fn lemma_same_bytes_same_text(a: Seq<char>, r: Seq<char>, b: Seq<char>, s: Seq<char>)
    requires
        a + r == b + s,
        utf8_len(a) == utf8_len(b),
        a.len() <= b.len(),
    ensures
        a == b,
{
    let rest = b.skip(a.len() as int);
    assert forall|i: int| 0 <= i < a.len() implies a[i] == b[i] by {
        assert((a + r)[i] == a[i]);
        assert((b + s)[i] == b[i]);
    }
    assert(b =~= a + rest);
    lemma_utf8_concat(a, rest);
    if rest.len() > 0 {
        lemma_utf8_len_positive(rest);
    }
    assert(b =~= a);
}

proof fn lemma_component_splits(a: Seq<char>, r: Seq<char>, b: Seq<char>, s: Seq<char>)
    requires
        id_component(a) + r == id_component(b) + s,
    ensures
        a == b,
        r == s,
{
    let x = id_component(a) + r;
    let m = decimal(utf8_len(a));
    let n = decimal(utf8_len(b));
    lemma_decimal(utf8_len(a));
    lemma_decimal(utf8_len(b));
    assert forall|i: int| 0 <= i < m.len() implies x[i] != ':' by {
        assert(x[i] == m[i]);
        assert(is_digit(m[i]));
    }
    assert(x[m.len() as int] == ':');
    assert forall|i: int| 0 <= i < n.len() implies x[i] != ':' by {
        assert(x[i] == (id_component(b) + s)[i]);
        assert(x[i] == n[i]);
        assert(is_digit(n[i]));
    }
    assert(x[n.len() as int] == (id_component(b) + s)[n.len() as int]);
    assert(x[n.len() as int] == ':');
    assert(m.len() == n.len());
    assert(m =~= x.take(m.len() as int));
    assert(n =~= (id_component(b) + s).take(n.len() as int));
    assert(m == n);
    let k = m.len() as int + 1;
    assert(x.skip(k) =~= a + r);
    assert((id_component(b) + s).skip(k) =~= b + s);
    if a.len() <= b.len() {
        lemma_same_bytes_same_text(a, r, b, s);
    } else {
        lemma_same_bytes_same_text(b, s, a, r);
    }
    assert(r =~= (a + r).skip(a.len() as int));
    assert(s =~= (b + s).skip(b.len() as int));
}

proof fn lemma_command_id_first(words: Seq<Seq<char>>)
    requires
        words.len() > 0,
    ensures
        command_id(words) == id_component(words[0]) + command_id(words.drop_first()),
    decreases words.len(),
{
    let last = words.last();
    let init = words.drop_last();
    if words.len() == 1 {
        assert(init =~= Seq::<Seq<char>>::empty());
        assert(words.drop_first() =~= Seq::<Seq<char>>::empty());
        assert(command_id(words) =~= id_component(words[0]) + command_id(words.drop_first()));
    } else {
        lemma_command_id_first(init);
        assert(words.drop_first().drop_last() =~= init.drop_first());
        assert(words.drop_first().last() == last);
        assert(init[0] == words[0]);
        assert(command_id(words) =~= id_component(words[0]) + command_id(words.drop_first()));
    }
}

/// No two command lines have the same identifier.
pub proof fn law_command_id_injective(a: Seq<Seq<char>>, b: Seq<Seq<char>>)
    requires
        command_id(a) == command_id(b),
    ensures
        a == b,
    decreases a.len(),
{
    if a.len() > 0 {
        lemma_command_id_first(a);
        assert(id_component(a[0]).len() > 0);
    }
    if b.len() > 0 {
        lemma_command_id_first(b);
        assert(id_component(b[0]).len() > 0);
    }
    if a.len() > 0 && b.len() > 0 {
        lemma_component_splits(
            a[0],
            command_id(a.drop_first()),
            b[0],
            command_id(b.drop_first()),
        );
        law_command_id_injective(a.drop_first(), b.drop_first());
        assert(a =~= seq![a[0]] + a.drop_first());
        assert(b =~= seq![b[0]] + b.drop_first());
    } else {
        assert(a =~= b);
    }
}

/// A start takes up the process of a pid only where a process with that pid was
/// shown, with the command line that the command is known by or the one that it
/// is launched with.
///
/// A pid file that names any other process, or none, is stale and is removed; a
/// recorded pid of any other process, or of none, leads to a new process.
pub proof fn law_start_attaches_to_own_process(s: Start, line: Option<Vec<String>>)
    ensures
        ({
            let t = s.after(StartAnswer::CommandLine(line));
            let known = seq![s.command.command@] + texts(s.command.args@);
            let launched = seq![s.program@] + texts(s.args@);
            let own = match line {
                Some(words) => texts(words@) == known || texts(words@) == launched,
                None => false,
            };
            &&& match s.phase {
                StartPhase::CheckPidFile(pid) => if own {
                    t.phase == StartPhase::Attached(pid) && t.command.state
                        == FxExecutionState::Running(pid)
                } else {
                    t == (Start { phase: StartPhase::RemovePidFile, ..s })
                },
                StartPhase::CheckRecorded(pid) => if own {
                    &&& t.command.state == FxExecutionState::Running(pid)
                    &&& s.pid_file is Some ==> t.phase == StartPhase::WritePidFile(pid, false)
                    &&& s.pid_file is None ==> t.phase == StartPhase::Attached(pid)
                } else {
                    t == (Start { phase: StartPhase::Spawn, ..s })
                },
                _ => t == s,
            }
        }),
        s.phase is CheckPidFile ==> s.after(StartAnswer::CommandLine(None)).phase is RemovePidFile,
        s.phase is CheckRecorded ==> s.after(StartAnswer::CommandLine(None)).phase is Spawn,
{
}

/// Where no process is known or shown, the command is spawned: with a pid file
/// the new pid is written into it, and either way the start ends with the new
/// child, whose pid is recorded.
pub proof fn law_fresh_start_spawns(
    s: Start,
    not_found: IoError,
    table: Vec<Process>,
    pid: u32,
)
    requires
        not_found.kind is NotFound,
        !(s.command.state is Running),
        forall|i: int|
            0 <= i < table@.len() ==> texts((#[trigger] table@[i]).args@) != seq![s.command.command@]
                + texts(s.command.args@),
    ensures
        ({
            let child = StartAnswer::Child(Ok(Some(pid)));
            let absent = s.after(StartAnswer::Text(Err(not_found)));
            let scanned = s.after(StartAnswer::Processes(table));
            let ended = Some(
                Ok::<_, SysErrorModel>(
                    FxSystemProcessRunning::Tokio(SystemProcessRunningTokio { pid }),
                ),
            );
            &&& s.phase is ReadPidFile && s.pid_file is Some ==> {
                let spawned = absent.after(child);
                let done = spawned.after(StartAnswer::Finished(Ok(())));
                &&& absent == (Start { phase: StartPhase::Spawn, ..s })
                &&& spawned.phase == StartPhase::WritePidFile(pid, true)
                &&& done.phase == StartPhase::Spawned(pid)
                &&& done.command.state == FxExecutionState::Running(pid)
                &&& done.outcome() == ended
            }
            &&& s.phase is Scan && s.pid_file is None ==> {
                let done = scanned.after(child);
                &&& scanned == (Start { phase: StartPhase::Spawn, ..s })
                &&& done.phase == StartPhase::Spawned(pid)
                &&& done.command.state == FxExecutionState::Running(pid)
                &&& done.outcome() == ended
            }
        }),
{
    law_first_running(table@, s.command@.words());
}

/// A pid file that gives a pid leads to a look at that process, and once it is
/// removed as stale, which a missing file counts as, the recorded pid is looked
/// at, and without one the command is spawned. A pid file that gives no pid is
/// passed over in the same way.
pub proof fn law_pid_file_is_consulted(s: Start, text: String, not_found: IoError, pid: u32)
    requires
        s.pid_file is Some,
        not_found.kind is NotFound,
    ensures
        ({
            let read = s.after(StartAnswer::Text(Ok(text)));
            let next = Start {
                phase: match s.command.state {
                    FxExecutionState::Running(recorded) => StartPhase::CheckRecorded(recorded),
                    _ => StartPhase::Spawn,
                },
                ..s
            };
            &&& s.phase is ReadPidFile ==> {
                &&& pid_in(text@) == Some(pid as nat) ==> read == (Start {
                    phase: StartPhase::CheckPidFile(pid),
                    ..s
                })
                &&& pid_in(text@) is None ==> read == next
                &&& s.after(StartAnswer::Text(Err(not_found))) == next
            }
            &&& s.phase is RemovePidFile ==> {
                &&& s.after(StartAnswer::Finished(Ok(()))) == next
                &&& s.after(StartAnswer::Finished(Err(not_found))) == next
            }
        }),
{
}

/// Without a pid file, a process in the table with the command line of the
/// command is what the start ends with, the first of them where no pid is
/// recorded.
pub proof fn law_scan_finds_process(s: Start, table: Vec<Process>, i: int)
    requires
        s.phase is Scan,
        s.pid_file is None,
        !(s.command.state is Running),
        0 <= i < table@.len(),
        texts(table@[i].args@) == seq![s.command.command@] + texts(s.command.args@),
        forall|j: int|
            0 <= j < i ==> texts((#[trigger] table@[j]).args@) != seq![s.command.command@] + texts(
                s.command.args@,
            ),
    ensures
        s.after(StartAnswer::Processes(table)).phase == StartPhase::Attached(table@[i].pid),
        s.after(StartAnswer::Processes(table)).command.state == FxExecutionState::Running(
            table@[i].pid,
        ),
        s.after(StartAnswer::Processes(table)).outcome() == Some(
            Ok::<_, SysErrorModel>(FxSystemProcessRunning::Pid(table@[i].pid)),
        ),
{
    law_first_running_is_first(table@, s.command@.words(), i);
}

/// Of the processes with a command line the first in the table is found.
pub proof fn law_first_running_is_first(table: Seq<Process>, words: Seq<Seq<char>>, i: int)
    requires
        0 <= i < table.len(),
        texts(table[i].args@) == words,
        forall|j: int| 0 <= j < i ==> texts((#[trigger] table[j]).args@) != words,
    ensures
        first_running(table, words) == Some(table[i].pid),
    decreases table.len(),
{
    if i > 0 {
        let rest = table.drop_first();
        assert(texts(table[0].args@) != words);
        assert(rest[i - 1] == table[i]);
        assert forall|j: int| 0 <= j < i - 1 implies texts((#[trigger] rest[j]).args@) != words by {
            assert(rest[j] == table[j + 1]);
        }
        law_first_running_is_first(rest, words, i - 1);
    }
}

/// A child without a pid is killed, and the start ends with an error of its own,
/// whatever became of the killing; nothing is recorded as running.
pub proof fn law_child_without_pid_is_an_error(s: Start, killed: Result<(), IoError>)
    requires
        s.phase is Spawn,
    ensures
        ({
            let cleaning = s.after(StartAnswer::Child(Ok(None)));
            let done = cleaning.after(StartAnswer::Finished(killed));
            &&& cleaning.phase is Cleanup
            &&& done.phase is NoPid
            &&& done.command.state is Unknown
            &&& done.outcome() == Some(
                Err::<FxSystemProcessRunning, _>(SysErrorModel::String("pid is None"@)),
            )
        }),
{
}

/// A start fails only by an answer that reports an error of the system, and its
/// result is that error.
pub proof fn law_start_fails_for_cause(s: Start, answer: StartAnswer)
    requires
        !(s.phase is Failed),
    ensures
        s.after(answer).phase is Failed ==> match answer {
            StartAnswer::Text(Err(err)) => !(err.kind is NotFound) && s.after(answer).outcome() == Some(
                Err::<FxSystemProcessRunning, _>(SysErrorModel::IO(err)),
            ),
            StartAnswer::Finished(Err(err)) => s.after(answer).outcome() == Some(
                Err::<FxSystemProcessRunning, _>(SysErrorModel::IO(err)),
            ),
            StartAnswer::Child(Err(err)) => s.after(answer).outcome() == Some(
                Err::<FxSystemProcessRunning, _>(SysErrorModel::IO(err)),
            ),
            _ => false,
        },
        s.phase is RemovePidFile && s.after(answer).phase is Failed ==> !(
        answer->Finished_0->Err_0.kind is NotFound),
{
}

/// An error of the system ends a start, with that error: a pid file that cannot
/// be read or removed though it exists, one that cannot be written, and a
/// command that cannot be spawned.
pub proof fn law_failed_step_ends_start(s: Start, err: IoError)
    ensures
        ({
            let failed = Start { phase: StartPhase::Failed, failure: Some(err), ..s };
            &&& s.phase is ReadPidFile && !(err.kind is NotFound) ==> s.after(
                StartAnswer::Text(Err(err)),
            ) == failed
            &&& s.phase is RemovePidFile && !(err.kind is NotFound) ==> s.after(
                StartAnswer::Finished(Err(err)),
            ) == failed
            &&& s.phase is WritePidFile ==> s.after(StartAnswer::Finished(Err(err))) == failed
            &&& s.phase is Spawn ==> s.after(StartAnswer::Child(Err(err))) == failed
        }),
{
}

/// Once a process that was found is written into the pid file, the start ends
/// with that process.
pub proof fn law_found_process_is_recorded(s: Start, pid: u32)
    requires
        s.phase == StartPhase::WritePidFile(pid, false),
    ensures
        s.after(StartAnswer::Finished(Ok(()))) == (Start { phase: StartPhase::Attached(pid), ..s }),
        s.after(StartAnswer::Finished(Ok(()))).outcome() == Some(
            Ok::<_, SysErrorModel>(FxSystemProcessRunning::Pid(pid)),
        ),
{
}

/// The command line that is launched is the command itself, through `nice` where
/// a priority is set, and all of that through `taskset` where it is pinned.
pub proof fn law_launch_words(command: CommandModel)
    ensures
        ({
            let own = seq![command.command] + command.args;
            let nice = |level: NiceLevel|
                seq!["nice"@, "-n"@, signed_decimal(level.level() as int)];
            let pin = |cpus: Seq<usize>|
                seq![
                    "taskset"@,
                    "-c"@,
                    joined(cpus.map(|i: int, cpu: usize| decimal(cpu as nat)), ","@),
                ];
            command.launch_words() == match (command.pin_to_cpus, command.nice_level) {
                (None, None) => own,
                (None, Some(level)) => nice(level) + own,
                (Some(cpus), None) => pin(cpus) + own,
                (Some(cpus), Some(level)) => pin(cpus) + nice(level) + own,
            }
        }),
{
    let own = seq![command.command] + command.args;
    let none = Seq::<Seq<char>>::empty();
    assert(none + none + own =~= own);
    if let Some(level) = command.nice_level {
        let nice = seq!["nice"@, "-n"@, signed_decimal(level.level() as int)];
        assert(none + nice + own =~= nice + own);
    }
    if let Some(cpus) = command.pin_to_cpus {
        assert(decimals(cpus) =~= cpus.map(|i: int, cpu: usize| decimal(cpu as nat)));
        let pin = seq!["taskset"@, "-c"@, joined(decimals(cpus), ","@)];
        assert(pin + none + own =~= pin + own);
    }
}

/// What a process table shows of a command with a recorded pid: it runs if the
/// process with this pid has its command line, its state is not known if the
/// process has another, and it is not started if there is no such process.
pub proof fn law_recorded_pid_is_observed(command: CommandModel, table: Seq<Process>, pid: u32, i: int)
    requires
        command.state == StateModel::Running(pid),
    ensures
        0 <= i < table.len() && table[i].pid == pid && (forall|j: int|
            0 <= j < i ==> (#[trigger] table[j]).pid != pid) ==> command.observed_state(table) == if texts(
            table[i].args@,
        ) == seq![command.command] + command.args {
            StateModel::Running(pid)
        } else {
            StateModel::Unknown
        },
        (forall|j: int| 0 <= j < table.len() ==> (#[trigger] table[j]).pid != pid)
            ==> command.observed_state(table) is NotStarted,
{
    law_process_is_found(table, pid);
}

/// What a process table shows of a command without a recorded pid: it runs with
/// the pid of the first process that has its command line, and without one its
/// state stays as recorded.
pub proof fn law_unrecorded_command_is_observed(command: CommandModel, table: Seq<Process>)
    requires
        !(command.state is Running),
    ensures
        (forall|j: int|
            0 <= j < table.len() ==> texts((#[trigger] table[j]).args@) != seq![command.command]
                + command.args) ==> command.observed_state(table) == command.state,
        forall|i: int|
            0 <= i < table.len() && texts((#[trigger] table[i]).args@) == seq![command.command]
                + command.args && (forall|j: int|
                0 <= j < i ==> texts((#[trigger] table[j]).args@) != seq![command.command]
                    + command.args) ==> command.observed_state(table) == StateModel::Running(
                table[i].pid,
            ),
{
    let words = seq![command.command] + command.args;
    law_first_running(table, words);
    assert forall|i: int|
        0 <= i < table.len() && texts((#[trigger] table[i]).args@) == words && (forall|j: int|
            0 <= j < i ==> texts((#[trigger] table[j]).args@) != words) implies command.observed_state(
        table,
    ) == StateModel::Running(table[i].pid) by {
        law_first_running_is_first(table, words, i);
    }
}

/// A child is signalled with its whole group, and a process that was found
/// alone; either way by its own pid.
pub proof fn law_signals_reach_process(pid: u32)
    ensures
        ({
            let child = FxSystemProcessRunning::Tokio(SystemProcessRunningTokio { pid });
            let found = FxSystemProcessRunning::Pid(pid);
            &&& child.pid() == pid && child.target() == SignalTarget::Group(pid)
            &&& found.pid() == pid && found.target() == SignalTarget::Process(pid)
        }),
{
}

/// The identifier of a command line says of every word its length in bytes, and
/// then the word.
pub proof fn law_command_id_words(words: Seq<Seq<char>>, word: Seq<char>)
    ensures
        command_id(Seq::empty()) == Seq::<char>::empty(),
        command_id(words.push(word)) == command_id(words) + decimal(encode_utf8(word).len()) + seq![
            ':',
        ] + word,
{
    assert(words.push(word).drop_last() =~= words);
    assert(command_id(words.push(word)) =~= command_id(words) + decimal(encode_utf8(word).len())
        + seq![':'] + word);
}

/// A pid file lies in the pid directory, under the effect id written in lower
/// case hexadecimal digits, two for each byte; without a directory there is none.
pub proof fn law_pid_file_names(command: CommandModel, id: FxIdModel, i: int)
    requires
        0 <= i < encode_utf8(fx_id_text(id)).len(),
    ensures
        command.pid_directory is None <==> pid_path(command, id) is None,
        command.pid_directory matches Some(dir) ==> pid_path(command, id) == Some(
            path_join(dir, pid_stem(id) + ".pid"@),
        ),
        pid_stem(id).len() == 3 + 2 * encode_utf8(fx_id_text(id)).len(),
        pid_stem(id).take(3) == "fx-"@,
        pid_stem(id)[3 + 2 * i] == "0123456789abcdef"@[encode_utf8(fx_id_text(id))[i] as int / 16],
        pid_stem(id)[4 + 2 * i] == "0123456789abcdef"@[encode_utf8(fx_id_text(id))[i] as int % 16],
{
    reveal_strlit("fx-");
    reveal_strlit("0123456789abcdef");
    let bytes = encode_utf8(fx_id_text(id));
    let h = hex_of(bytes);
    assert(pid_stem(id) =~= "fx-"@ + h);
    assert(pid_stem(id).take(3) =~= "fx-"@);
    assert(h[2 * i] == hex_digit(bytes[i] as nat / 16));
    assert((2 * i + 1) / 2 == i && (2 * i + 1) % 2 == 1);
    assert(h[2 * i + 1] == hex_digit(bytes[i] as nat % 16));
    assert(pid_stem(id)[3 + 2 * i] == h[2 * i]);
    assert(pid_stem(id)[4 + 2 * i] == h[2 * i + 1]);
}

/// A pid file holds the pid in decimal and ends its line.
pub proof fn law_pid_file_text(pid: u32)
    ensures
        pid_file_text(pid) == decimal(pid as nat) + seq!['\n'],
{
    assert(pid_file_text(pid) =~= decimal(pid as nat) + seq!['\n']);
}

/// A killed process is waited for in twenty looks a second, for five seconds.
pub proof fn law_destroy_time_limit()
    ensures
        20 * DESTROY_EXIT_POLL_INTERVAL == 1000,
        DESTROY_EXIT_POLL_ATTEMPTS * DESTROY_EXIT_POLL_INTERVAL == 5 * 1000,
{
}

/// The processors of a list are seen as they are, and written in decimal.
pub proof fn law_processor_lists(cpus: Option<Vec<usize>>, row: Seq<usize>, i: int)
    ensures
        opt_numbers(cpus) is Some == cpus is Some,
        cpus is Some ==> opt_numbers(cpus)->0 == cpus->0@,
        decimals(row).len() == row.len(),
        0 <= i < row.len() ==> decimals(row)[i] == decimal(row[i] as nat),
{
}

} // verus!
