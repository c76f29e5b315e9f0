//! A QEMU virtual machine as an effect.
use vstd::prelude::*;

use crate::engine::state::FxDesiredExecutionState;
use crate::engine::state::FxExecutionState;
use crate::engine::state::StateModel;
use crate::engine::sys_conf::SystemConfiguration;
use crate::engine::sys_conf::SystemModel;
use crate::engine::verify::Verification;
use crate::fx_id::FxId;
use crate::fx_id::FxIdModel;
use crate::fx_id::fx_id_text;
use crate::io_error::IoError;
use crate::number::decimal;
use crate::path::join_path;
use crate::path::path_join;
use crate::qemu::comm::ApiReply;
use crate::qemu::command::QemuCommandModel;
use crate::qemu::command::QemuSupportedArch;
use crate::qemu::errors::AllocateError;
use crate::qemu::errors::ArchiveError;
use crate::qemu::errors::CallApiError;
use crate::qemu::errors::CreateError;
use crate::qemu::errors::CreateErrorModel;
use crate::qemu::errors::SpawnError;
use crate::qemu::errors::VerifyError;
use crate::qemu::handle::QemuHandle;
use crate::qemu::handle::offers;
use crate::qemu::machine::ConfModel;
use crate::qemu::machine::MachineModel;
use crate::qemu::machine::QemuArchivePolicy;
use crate::qemu::machine::QemuDesiredMetadataRecord;
use crate::qemu::machine::QemuMachineConfiguration;
use crate::qemu::machine::QemuMetadataRecord;
use crate::qemu::machine::RecordModel;
use crate::qemu::machine::machine_configuration_from_metadata_record;
use crate::qemu::machine::machine_of_record;
use crate::qemu::machine::recorded;
use crate::qemu::machine::recorded_memory;
use crate::qemu::options::command_reading;
use crate::qemu::options::memory_reading;
use crate::qemu::plan::HostFacts;
use crate::qemu::plan::QEMU_PID_FILENAME;
use crate::qemu::plan::configuration_refusal;
use crate::qemu::plan::control_socket;
use crate::qemu::plan::emulator;
use crate::qemu::plan::is_plain_machine;
use crate::qemu::plan::machine_command;
use crate::qemu::plan::machine_dir;
use crate::qemu::plan::machine_file;
use crate::qemu::plan::machine_file_path;
use crate::qemu::plan::machine_result;
use crate::qemu::plan::qemu_from_machine_configuration;
use crate::qemu::storage::data_dir;
use crate::qemu::storage::vm_data_dir;
use crate::qemu::utils::convert_cmd_line_to_qemu_instance;
use crate::qemu::utils::shell_line;
use crate::system_command::CommandModel;
use crate::system_command::FxSysCommandError;
use crate::system_command::FxSystemCommand;
use crate::system_command::parse_pid_file;
use crate::system_command::pid_in;
use crate::text::cat2;
use crate::text::lemma_texts_push;
use crate::text::opt_text;
use crate::text::same_text;
use crate::text::same_texts;
use crate::text::texts;
use crate::utils::Process;
use crate::utils::get_process;
use crate::utils::process_with_pid;

verus! {

broadcast use lemma_texts_push;

/// How many events of a running QEMU are buffered.
pub const QEMU_API_EVENT_BUFFER_SIZE: usize = 100;

/// The directory of the archives of a virtual machine.
pub const QEMU_ARCHIVE_DIR: &'static str = "archive";

/// The run states that QEMU reports.
#[derive(Clone, Copy, Debug, PartialEq, Eq, Structural)]
pub enum RunState {
    Debug,
    Inmigrate,
    InternalError,
    IoError,
    Paused,
    Postmigrate,
    Prelaunch,
    FinishMigrate,
    RestoreVm,
    Running,
    SaveVm,
    Shutdown,
    Suspended,
    Watchdog,
    GuestPanicked,
    Colo,
}

/// The status that QEMU reports.
#[derive(Clone, Copy, Debug, PartialEq, Eq, Structural)]
pub struct StatusInfo {
    pub running: bool,
    pub status: RunState,
}

/// The execution state that a run state stands for.
pub open spec fn run_state(status: RunState, pid: u32) -> StateModel {
    match status {
        RunState::Running => StateModel::Running(pid),
        RunState::Paused | RunState::Debug | RunState::Inmigrate | RunState::Postmigrate
        | RunState::FinishMigrate | RunState::RestoreVm | RunState::SaveVm | RunState::Suspended
        | RunState::Colo => StateModel::Paused(pid),
        RunState::Prelaunch => StateModel::NotStarted,
        RunState::Shutdown => StateModel::Stopped,
        RunState::InternalError => StateModel::Error("internal_error"@),
        RunState::IoError => StateModel::Error("io_error"@),
        RunState::Watchdog => StateModel::Error("watchdog"@),
        RunState::GuestPanicked => StateModel::Error("guest_panicked"@),
    }
}

/// The execution state that a reported status stands for.
pub fn state_from_qmp_status(status: &StatusInfo, pid: u32) -> (r: FxExecutionState)
    ensures
        r@ == run_state(status.status, pid),
{
    match status.status {
        RunState::Running => FxExecutionState::Running(pid),
        RunState::Paused | RunState::Debug | RunState::Inmigrate | RunState::Postmigrate
        | RunState::FinishMigrate | RunState::RestoreVm | RunState::SaveVm | RunState::Suspended
        | RunState::Colo => FxExecutionState::Paused(pid),
        RunState::Prelaunch => FxExecutionState::NotStarted,
        RunState::Shutdown => FxExecutionState::Stopped,
        RunState::InternalError => FxExecutionState::Error("internal_error".to_owned()),
        RunState::IoError => FxExecutionState::Error("io_error".to_owned()),
        RunState::Watchdog => FxExecutionState::Error("watchdog".to_owned()),
        RunState::GuestPanicked => FxExecutionState::Error("guest_panicked".to_owned()),
    }
}

/// The process that a process id file names, if it is running.
pub open spec fn live_pid(contents: Option<Seq<char>>, table: Seq<Process>) -> Option<u32> {
    match contents {
        Some(text) => match pid_in(text) {
            Some(pid) => if process_with_pid(table, pid as u32) is Some {
                Some(pid as u32)
            } else {
                None
            },
            None => None,
        },
        None => None,
    }
}

/// The process that a process id file names, if the file could be read and
/// the process is running.
pub fn live_pid_from_pidfile(contents: &Option<String>, table: &Vec<Process>) -> (r: Option<u32>)
    ensures
        r == live_pid(opt_text(*contents), table@),
{
    match contents {
        Some(text) => match parse_pid_file(text.as_str()) {
            Some(pid) => match get_process(table, pid) {
                Some(_) => Some(pid),
                None => None,
            },
            None => None,
        },
        None => None,
    }
}

/// The files of a machine that is not running any more.
pub open spec fn stale_files(root: Seq<char>, id: FxIdModel) -> Seq<Seq<char>> {
    seq![
        machine_file(root, id, "run"@, "qemu.pid"@),
        machine_file(root, id, "run"@, "ctl.sock"@),
        machine_file(root, id, "run"@, "ga.sock"@),
    ]
}

/// The files to remove before a machine is started: none while it is running.
pub fn reconcile_existing_files(
    system_configuration: &SystemConfiguration,
    fx_id: &FxId,
    live: Option<u32>,
) -> (r: Vec<String>)
    ensures
        texts(r@) == (if live is Some {
            seq![]
        } else {
            stale_files(system_configuration@.vm_root_path, fx_id@)
        }),
{
    let mut files: Vec<String> = Vec::new();
    proof {
        assert(texts(files@) =~= seq![]);
    }
    if live.is_none() {
        let root = system_configuration.vm_root_path.as_str();
        files.push(QemuInstance::pid_path_s(root, fx_id));
        files.push(QemuInstance::ctl_socket_path_s(root, fx_id));
        files.push(QemuInstance::ga_socket_path_s(root, fx_id));
        proof {
            assert(texts(files@) =~= stale_files(system_configuration@.vm_root_path, fx_id@));
        }
    }
    files
}

/// The system command that runs a QEMU command line.
pub open spec fn command_of(words: Seq<Seq<char>>) -> CommandModel {
    CommandModel {
        command: if words.len() > 0 {
            words[0]
        } else {
            seq![]
        },
        args: if words.len() > 0 {
            words.drop_first()
        } else {
            seq![]
        },
        state: StateModel::NotStarted,
        desired_state: FxDesiredExecutionState::Running,
        nice_level: None,
        pid_directory: None,
        pin_to_cpus: None,
        stdout_path: None,
        stderr_path: None,
    }
}

/// The system command that runs a QEMU command line.
pub fn command_from_qemu(qemu: &QemuSupportedArch) -> (r: FxSystemCommand)
    ensures
        r@ == command_of(qemu@.words),
{
    FxSystemCommand::new(qemu.command(), qemu.to_args(), FxDesiredExecutionState::Running)
}

/// A virtual machine.
#[derive(Debug)]
pub struct QemuInstance {
    pub cmd: FxSystemCommand,
    pub qemu: QemuSupportedArch,
    pub fx_id: FxId,
    pub machine_configuration: QemuMachineConfiguration,
    pub system_configuration: SystemConfiguration,
    pub status: StatusInfo,
}

/// The model of a virtual machine.
#[verifier::ext_equal]
pub struct InstanceModel {
    pub cmd: CommandModel,
    pub qemu: QemuCommandModel,
    pub fx_id: FxIdModel,
    pub machine_configuration: MachineModel,
    pub system_configuration: SystemModel,
    pub status: StatusInfo,
}

impl View for QemuInstance {
    type V = InstanceModel;

    open spec fn view(&self) -> InstanceModel {
        InstanceModel {
            cmd: self.cmd@,
            qemu: self.qemu@,
            fx_id: self.fx_id@,
            machine_configuration: self.machine_configuration@,
            system_configuration: self.system_configuration@,
            status: self.status,
        }
    }
}

/// A system command as it is known to run, if it does.
pub open spec fn running_command(command: CommandModel, pid: Option<u32>) -> CommandModel {
    match pid {
        Some(pid) => CommandModel {
            state: StateModel::Running(pid),
            desired_state: FxDesiredExecutionState::Running,
            ..command
        },
        None => command,
    }
}

/// A virtual machine that nothing has been asked of yet; `pid` is its process,
/// if it is running.
pub open spec fn fresh_instance(
    sys: SystemModel,
    machine: MachineModel,
    id: FxIdModel,
    qemu: QemuCommandModel,
    pid: Option<u32>,
) -> InstanceModel {
    InstanceModel {
        cmd: running_command(command_of(qemu.words), pid),
        qemu,
        fx_id: id,
        machine_configuration: machine,
        system_configuration: sys,
        status: StatusInfo { running: false, status: RunState::Prelaunch },
    }
}

/// What is recorded of a virtual machine.
pub open spec fn record_of(instance: InstanceModel, runtime_pid: Option<u32>) -> RecordModel {
    let root = instance.system_configuration.vm_root_path;
    let id = instance.fx_id;
    let ga = instance.machine_configuration.conf.shared().enable_guest_agent;
    RecordModel {
        name: instance.machine_configuration.name,
        command_line: shell_line(instance.qemu.words),
        desired: Some(recorded(instance.machine_configuration)),
        runtime_pid,
        guest_agent_enabled: ga,
        pidfile: machine_file(root, id, "run"@, "qemu.pid"@),
        qmp_socket: machine_file(root, id, "run"@, "ctl.sock"@),
        qga_socket: if ga {
            Some(machine_file(root, id, "run"@, "ga.sock"@))
        } else {
            None
        },
        log_dir: path_join(machine_dir(root, id), "log"@),
        data_dir: data_dir(instance.system_configuration, id),
    }
}

/// The virtual machine that a record stands for, running as `live` or not: its
/// command line as it is read, and its machine by what is recorded of it.
pub open spec fn recovered_instance(
    sys: SystemModel,
    record: RecordModel,
    id: FxIdModel,
    live: Option<u32>,
) -> Result<InstanceModel, CreateErrorModel> {
    match command_reading(record.command_line) {
        Ok((x86, words)) => Ok(
            fresh_instance(
                sys,
                machine_of_record(sys, record, x86, recorded_memory(record)),
                id,
                QemuCommandModel { x86, words },
                live,
            ),
        ),
        Err(message) => Err(CreateErrorModel::ParseQemuCommand(message)),
    }
}

/// A virtual machine that is not known to have been asked anything.
fn new_instance(
    system_configuration: &SystemConfiguration,
    machine_configuration: QemuMachineConfiguration,
    fx_id: &FxId,
    qemu: QemuSupportedArch,
    live: Option<u32>,
) -> (r: QemuInstance)
    ensures
        r@ == fresh_instance(
            system_configuration@,
            machine_configuration@,
            fx_id@,
            qemu@,
            live,
        ),
{
    let mut cmd = command_from_qemu(&qemu);
    if let Some(pid) = live {
        cmd.state = FxExecutionState::Running(pid);
        cmd.desired_state = FxDesiredExecutionState::Running;
    }
    QemuInstance {
        cmd,
        qemu,
        fx_id: fx_id.clone(),
        machine_configuration,
        system_configuration: system_configuration.clone(),
        status: StatusInfo { running: false, status: RunState::Prelaunch },
    }
}

impl QemuInstance {
    /// A virtual machine of the given configuration, already running as `live`
    /// or not. The files to remove before are told by
    /// [`reconcile_existing_files`].
    pub fn existing_or_new(
        system_configuration: &SystemConfiguration,
        machine_configuration: QemuMachineConfiguration,
        fx_id: &FxId,
        host: &HostFacts,
        live: Option<u32>,
    ) -> (r: Result<Self, CreateError>)
        ensures
            ({
                let sys = system_configuration@;
                let machine = machine_configuration@;
                &&& match machine_result(sys, machine, fx_id@, *host) {
                    Ok(command) => r is Ok && r->Ok_0@ == fresh_instance(
                        sys,
                        machine,
                        fx_id@,
                        command,
                        live,
                    ),
                    Err(err) => r is Err && r->Err_0@ == err,
                }
                &&& is_plain_machine(sys, machine, fx_id@) && configuration_refusal(
                    machine.conf,
                    *host,
                ) is None && emulator(sys, machine.conf, *host) is Some ==> r is Ok
                    && r->Ok_0@.qemu == machine_command(
                    sys,
                    machine,
                    fx_id@,
                    emulator(sys, machine.conf, *host)->0,
                    machine.name,
                    seq![control_socket(sys.vm_root_path, fx_id@)],
                )
            }),
    {
        match qemu_from_machine_configuration(
            system_configuration,
            &machine_configuration,
            fx_id,
            host,
        ) {
            Ok(qemu) => Ok(
                new_instance(system_configuration, machine_configuration, fx_id, qemu, live),
            ),
            Err(err) => Err(err),
        }
    }

    /// The virtual machine that a record stands for, running as `live` or not.
    pub fn existing_from_metadata_record(
        system_configuration: &SystemConfiguration,
        record: &QemuMetadataRecord,
        fx_id: &FxId,
        live: Option<u32>,
    ) -> (r: Result<Self, CreateError>)
        ensures
            match recovered_instance(system_configuration@, record@, fx_id@, live) {
                Ok(instance) => r is Ok && r->Ok_0@ == instance,
                Err(err) => r is Err && r->Err_0@ == err,
            },
    {
        match convert_cmd_line_to_qemu_instance(record.command_line.as_str()) {
            Ok(qemu) => {
                let machine = machine_configuration_from_metadata_record(
                    system_configuration,
                    record,
                    &qemu,
                );
                Ok(new_instance(system_configuration, machine, fx_id, qemu, live))
            },
            Err(message) => Err(CreateError::ParseQemuCommand(message)),
        }
    }

    /// What is recorded of the virtual machine.
    pub fn metadata_record(&self, runtime_pid: Option<u32>) -> (r: QemuMetadataRecord)
        ensures
            r@ == record_of(self@, runtime_pid),
    {
        let root = self.system_configuration.vm_root_path.as_str();
        let base = join_path(root, self.fx_id.to_string().as_str());
        let qga_socket = if self.has_ga() {
            Some(self.ga_socket_path())
        } else {
            None
        };
        QemuMetadataRecord {
            name: self.machine_configuration.name.clone(),
            command_line: self.qemu.to_single_command(),
            desired: Some(QemuDesiredMetadataRecord::from(&self.machine_configuration)),
            runtime_pid,
            guest_agent_enabled: self.has_ga(),
            pidfile: QemuInstance::pid_path_s(root, &self.fx_id),
            qmp_socket: self.ctl_socket_path(),
            qga_socket,
            log_dir: join_path(base.as_str(), "log"),
            data_dir: vm_data_dir(&self.system_configuration, &self.fx_id),
        }
    }

    /// Whether two virtual machines are the same: they have one identifier and
    /// one command line.
    pub fn same_instance(&self, other: &Self) -> (r: bool)
        ensures
            r == (self@.fx_id == other@.fx_id && self@.qemu.words == other@.qemu.words),
    {
        same_id(&self.fx_id, &other.fx_id) && same_texts(self.qemu.words(), other.qemu.words())
    }

    /// The control socket.
    pub fn ctl_socket_path(&self) -> (r: String)
        ensures
            r@ == machine_file(
                self@.system_configuration.vm_root_path,
                self@.fx_id,
                "run"@,
                "ctl.sock"@,
            ),
    {
        QemuInstance::ctl_socket_path_s(self.system_configuration.vm_root_path.as_str(), &self.fx_id)
    }

    /// The log of the control socket.
    pub fn ctl_socket_log_path(&self) -> (r: String)
        ensures
            r@ == machine_file(
                self@.system_configuration.vm_root_path,
                self@.fx_id,
                "log"@,
                "ctl.log"@,
            ),
    {
        QemuInstance::ctl_socket_log_path_s(
            self.system_configuration.vm_root_path.as_str(),
            &self.fx_id,
        )
    }

    /// The control socket of a virtual machine.
    pub fn ctl_socket_path_s(root: &str, fx_id: &FxId) -> (r: String)
        ensures
            r@ == machine_file(root@, fx_id@, "run"@, "ctl.sock"@),
    {
        machine_file_path(root, fx_id, "run", "ctl.sock")
    }

    /// The log of the control socket of a virtual machine.
    pub fn ctl_socket_log_path_s(root: &str, fx_id: &FxId) -> (r: String)
        ensures
            r@ == machine_file(root@, fx_id@, "log"@, "ctl.log"@),
    {
        machine_file_path(root, fx_id, "log", "ctl.log")
    }

    /// The process id file of a virtual machine.
    pub fn pid_path_s(root: &str, fx_id: &FxId) -> (r: String)
        ensures
            r@ == machine_file(root@, fx_id@, "run"@, "qemu.pid"@),
    {
        machine_file_path(root, fx_id, "run", QEMU_PID_FILENAME)
    }

    /// The directory of the archives.
    pub fn archive_root_path(&self) -> (r: String)
        ensures
            r@ == path_join(
                machine_dir(self@.system_configuration.vm_root_path, self@.fx_id),
                "archive"@,
            ),
    {
        let base = join_path(
            self.system_configuration.vm_root_path.as_str(),
            self.fx_id.to_string().as_str(),
        );
        join_path(base.as_str(), QEMU_ARCHIVE_DIR)
    }

    /// The debugging control socket of a virtual machine.
    pub fn ctl_debug_socket_path_s(root: &str, fx_id: &FxId) -> (r: String)
        ensures
            r@ == machine_file(root@, fx_id@, "run"@, "ctl_debug.sock"@),
    {
        machine_file_path(root, fx_id, "run", "ctl_debug.sock")
    }

    /// The log of the debugging control socket of a virtual machine.
    pub fn ctl_debug_socket_log_path_s(root: &str, fx_id: &FxId) -> (r: String)
        ensures
            r@ == machine_file(root@, fx_id@, "log"@, "ctl_debug.log"@),
    {
        machine_file_path(root, fx_id, "log", "ctl_debug.log")
    }

    /// The line-oriented control socket of a virtual machine.
    pub fn ctl_readline_socket_path_s(root: &str, fx_id: &FxId) -> (r: String)
        ensures
            r@ == machine_file(root@, fx_id@, "run"@, "ctl_readline.sock"@),
    {
        machine_file_path(root, fx_id, "run", "ctl_readline.sock")
    }

    /// The log of the line-oriented control socket of a virtual machine.
    pub fn ctl_readline_socket_log_path_s(root: &str, fx_id: &FxId) -> (r: String)
        ensures
            r@ == machine_file(root@, fx_id@, "log"@, "ctl_readline.log"@),
    {
        machine_file_path(root, fx_id, "log", "ctl_readline.log")
    }

    /// The socket of the guest agent.
    pub fn ga_socket_path(&self) -> (r: String)
        ensures
            r@ == machine_file(
                self@.system_configuration.vm_root_path,
                self@.fx_id,
                "run"@,
                "ga.sock"@,
            ),
    {
        QemuInstance::ga_socket_path_s(self.system_configuration.vm_root_path.as_str(), &self.fx_id)
    }

    /// The socket of the guest agent of a virtual machine.
    pub fn ga_socket_path_s(root: &str, fx_id: &FxId) -> (r: String)
        ensures
            r@ == machine_file(root@, fx_id@, "run"@, "ga.sock"@),
    {
        machine_file_path(root, fx_id, "run", "ga.sock")
    }

    /// The log of the guest agent of a virtual machine.
    pub fn ga_socket_log_path_s(root: &str, fx_id: &FxId) -> (r: String)
        ensures
            r@ == machine_file(root@, fx_id@, "log"@, "guest_agent.log"@),
    {
        machine_file_path(root, fx_id, "log", "guest_agent.log")
    }

    /// Whether the virtual machine has a guest agent.
    pub fn has_ga(&self) -> (r: bool)
        ensures
            r == self@.machine_configuration.conf.shared().enable_guest_agent,
    {
        self.machine_configuration.conf.common().enable_guest_agent
    }

    /// How long to wait for the control socket, in seconds.
    pub fn qmp_connect_timeout_secs(&self) -> (r: u64)
        ensures
            r == self@.machine_configuration.conf.shared().qmp_connect_timeout_secs,
    {
        self.machine_configuration.conf.common().qmp_connect_timeout_secs
    }

    /// How long to wait for the socket of the guest agent, in seconds.
    pub fn qga_connect_timeout_secs(&self) -> (r: u64)
        ensures
            r == self@.machine_configuration.conf.shared().qga_connect_timeout_secs,
    {
        self.machine_configuration.conf.common().qga_connect_timeout_secs
    }

    /// How long to wait between attempts to connect, in milliseconds.
    pub fn uds_retry_interval_millis(&self) -> (r: u64)
        ensures
            r == self@.machine_configuration.conf.shared().uds_retry_interval_millis,
    {
        self.machine_configuration.conf.common().uds_retry_interval_millis
    }

    /// How long to wait for an answer of the guest agent, in seconds.
    pub fn qga_command_timeout_secs(&self) -> (r: u64)
        ensures
            r == self@.machine_configuration.conf.shared().qga_command_timeout_secs,
    {
        self.machine_configuration.conf.common().qga_command_timeout_secs
    }

    /// How often to ask for the status, in seconds.
    pub fn status_poll_interval_secs(&self) -> (r: u64)
        ensures
            r == self@.machine_configuration.conf.shared().status_poll_interval_secs,
    {
        self.machine_configuration.conf.common().status_poll_interval_secs
    }

    /// What may be archived.
    pub fn archive_policy(&self) -> (r: QemuArchivePolicy)
        ensures
            r == self@.machine_configuration.conf.shared().archive_policy,
    {
        self.machine_configuration.conf.common().archive_policy
    }

    /// The identifier of the virtual machine.
    pub fn id(&self) -> (r: FxId)
        ensures
            r@ == self@.fx_id,
    {
        self.fx_id.clone()
    }
}

/// Whether two identifiers are the same.
pub fn same_id(a: &FxId, b: &FxId) -> (r: bool)
    ensures
        r == (a@ == b@),
{
    match (a, b) {
        (FxId::UuidV4(x), FxId::UuidV4(y)) => *x == *y,
        (FxId::String(x), FxId::String(y)) => same_text(x.as_str(), y.as_str()),
        (FxId::U64(x), FxId::U64(y)) => *x == *y,
        _ => false,
    }
}

/// What is to be done next to prepare a virtual machine.
#[derive(Clone, Copy, Debug, PartialEq, Eq, Structural)]
pub enum AllocatePhase {
    /// Create the runtime directory.
    RootDir,
    /// Create the log directory.
    LogDir,
    /// Create the directory of sockets and process id.
    RunDir,
    /// Create the data directory.
    DataDir,
    /// Create the storage.
    Storage,
    /// Nothing.
    Done,
}

/// How a step of the preparation ended.
#[derive(Debug)]
pub enum AllocateAnswer {
    /// A directory was created, or was there already.
    Created(Result<(), IoError>),
    /// Whether the storage was created.
    StorageCreated(bool),
}

/// The preparation of a virtual machine.
#[derive(Debug)]
pub struct Allocate {
    /// What is to be done next.
    pub phase: AllocatePhase,
    /// Why the preparation failed, if it did.
    pub failure: Option<AllocateError>,
}

impl Allocate {
    /// What follows a created directory.
    pub open spec fn after_dir(self, created: Result<(), IoError>, next: AllocatePhase) -> Allocate {
        match created {
            Ok(_) => Allocate { phase: next, ..self },
            Err(err) => Allocate {
                phase: AllocatePhase::Done,
                failure: Some(AllocateError::Io(err)),
            },
        }
    }

    /// What follows an answer. An answer to something else changes nothing.
    pub open spec fn after(self, answer: AllocateAnswer) -> Allocate {
        match (self.phase, answer) {
            (AllocatePhase::RootDir, AllocateAnswer::Created(created)) => self.after_dir(
                created,
                AllocatePhase::LogDir,
            ),
            (AllocatePhase::LogDir, AllocateAnswer::Created(created)) => self.after_dir(
                created,
                AllocatePhase::RunDir,
            ),
            (AllocatePhase::RunDir, AllocateAnswer::Created(created)) => self.after_dir(
                created,
                AllocatePhase::DataDir,
            ),
            (AllocatePhase::DataDir, AllocateAnswer::Created(created)) => self.after_dir(
                created,
                AllocatePhase::Storage,
            ),
            (AllocatePhase::Storage, AllocateAnswer::StorageCreated(true)) => Allocate {
                phase: AllocatePhase::Done,
                ..self
            },
            (AllocatePhase::Storage, AllocateAnswer::StorageCreated(false)) => Allocate {
                phase: AllocatePhase::Done,
                failure: Some(AllocateError::StorageNotOk),
            },
            _ => self,
        }
    }

    /// What came of the preparation, once nothing more is to be done.
    pub open spec fn outcome(self) -> Option<Result<(), AllocateError>> {
        match (self.phase, self.failure) {
            (AllocatePhase::Done, Some(err)) => Some(Err(err)),
            (AllocatePhase::Done, None) => Some(Ok(())),
            _ => None,
        }
    }

    /// Takes the answer to the creation of a directory.
    fn take_dir(&mut self, created: Result<(), IoError>, next: AllocatePhase)
        ensures
            *final(self) == old(self).after_dir(created, next),
    {
        match created {
            Ok(_) => {
                self.phase = next;
            },
            Err(err) => {
                self.phase = AllocatePhase::Done;
                self.failure = Some(AllocateError::Io(err));
            },
        }
    }

    /// Takes an answer.
    pub fn advance(&mut self, answer: AllocateAnswer)
        ensures
            *final(self) == old(self).after(answer),
    {
        match (self.phase, answer) {
            (AllocatePhase::RootDir, AllocateAnswer::Created(created)) => {
                self.take_dir(created, AllocatePhase::LogDir)
            },
            (AllocatePhase::LogDir, AllocateAnswer::Created(created)) => {
                self.take_dir(created, AllocatePhase::RunDir)
            },
            (AllocatePhase::RunDir, AllocateAnswer::Created(created)) => {
                self.take_dir(created, AllocatePhase::DataDir)
            },
            (AllocatePhase::DataDir, AllocateAnswer::Created(created)) => {
                self.take_dir(created, AllocatePhase::Storage)
            },
            (AllocatePhase::Storage, AllocateAnswer::StorageCreated(created)) => {
                self.phase = AllocatePhase::Done;
                if !created {
                    self.failure = Some(AllocateError::StorageNotOk);
                }
            },
            _ => {},
        }
    }

    /// What came of the preparation, once nothing more is to be done.
    pub fn result(self) -> (r: Option<Result<(), AllocateError>>)
        ensures
            r == (match (self.phase, self.failure) {
                (AllocatePhase::Done, Some(err)) => Some(Err::<(), AllocateError>(err)),
                (AllocatePhase::Done, None) => Some(Ok(())),
                _ => None,
            }),
            r == self.outcome(),
    {
        match (self.phase, self.failure) {
            (AllocatePhase::Done, Some(err)) => Some(Err(err)),
            (AllocatePhase::Done, None) => Some(Ok(())),
            _ => None,
        }
    }
}

/// How many steps a preparation takes at most from a phase on.
pub open spec fn allocate_rank(phase: AllocatePhase) -> nat {
    match phase {
        AllocatePhase::RootDir => 5,
        AllocatePhase::LogDir => 4,
        AllocatePhase::RunDir => 3,
        AllocatePhase::DataDir => 2,
        AllocatePhase::Storage => 1,
        AllocatePhase::Done => 0,
    }
}

/// Storage is created only once every directory is there: after a failure
/// nothing more is done, and otherwise each answer takes the preparation one
/// step on.
pub proof fn law_allocate_stops_at_failure(run: Allocate, answer: AllocateAnswer)
    requires
        run.failure is None,
    ensures
        run.after(answer).failure is Some ==> run.after(answer).phase is Done,
        run.after(answer) != run && run.after(answer).failure is None ==> allocate_rank(
            run.after(answer).phase,
        ) + 1 == allocate_rank(run.phase),
{
}

/// The directory that a phase of the preparation creates.
pub open spec fn allocate_dir(instance: InstanceModel, phase: AllocatePhase) -> Option<Seq<char>> {
    let base = machine_dir(instance.system_configuration.vm_root_path, instance.fx_id);
    match phase {
        AllocatePhase::RootDir => Some(base),
        AllocatePhase::LogDir => Some(path_join(base, "log"@)),
        AllocatePhase::RunDir => Some(path_join(base, "run"@)),
        AllocatePhase::DataDir => Some(data_dir(instance.system_configuration, instance.fx_id)),
        _ => None,
    }
}

/// What is asked for next while a virtual machine is started or attached to.
#[derive(Clone, Copy, Debug, PartialEq, Eq, Structural)]
pub enum QemuStartPhase {
    /// The process that the process id file names, if it is running.
    LivePid,
    /// To remove the files that a machine which is not running left behind.
    Reconcile,
    /// Whether the control socket of the running machine exists.
    SocketExists,
    /// To connect to the control socket of the running machine.
    AttachConnect,
    /// To bring the running machine under watch.
    AttachMonitor,
    /// To create the log directory.
    CreateLogDir,
    /// To start QEMU.
    Spawn,
    /// To connect to the control socket of the machine just started.
    StartConnect,
    /// To bring the machine just started under watch.
    StartMonitor,
    /// To record that the machine runs.
    UpdateState,
    /// To record the machine.
    UpsertRecord,
    /// To connect to the guest agent.
    AgentConnect,
    /// To ask the guest agent whether it is there.
    AgentPing,
    /// To ask the guest agent what it knows.
    AgentInfo,
    /// Nothing: the machine runs and is watched.
    Watched,
    /// Nothing: there is no running machine to attach to.
    NotAttached,
    /// Nothing: it failed.
    Failed,
}

/// An answer to what was asked for.
#[derive(Debug)]
pub enum QemuStartAnswer {
    /// The process that the process id file names, if it is running.
    Live(Option<u32>),
    /// The files were removed as far as possible.
    Reconciled,
    /// Whether the control socket exists.
    Exists(bool),
    /// Whether a connection came about in time.
    Connected(bool),
    /// The process of the machine now under watch, or why it is not.
    Monitored(Result<u32, SpawnError>),
    /// How the creation of the log directory ended.
    Created(Result<(), IoError>),
    /// How the start of QEMU ended.
    Spawned(Result<(), FxSysCommandError>),
    /// Whether the metadata was updated.
    Updated(bool),
    /// What the guest agent answered.
    Agent(ApiReply<()>),
}

/// The start of a virtual machine, or the attachment to a running one.
#[derive(Debug)]
pub struct QemuStart {
    /// What is asked for next.
    pub phase: QemuStartPhase,
    /// Whether only a running machine is looked for.
    pub attach_only: bool,
    /// Whether the machine has a guest agent.
    pub guest_agent: bool,
    /// The process, once it is watched.
    pub pid: Option<u32>,
    /// Why it failed, if it did.
    pub failure: Option<SpawnError>,
}

impl QemuStart {
    /// The same, in another phase.
    pub open spec fn in_phase(self, phase: QemuStartPhase) -> QemuStart {
        QemuStart { phase, ..self }
    }

    /// The same, having failed.
    pub open spec fn failed(self, err: SpawnError) -> QemuStart {
        QemuStart { phase: QemuStartPhase::Failed, failure: Some(err), ..self }
    }

    /// What follows when there is no running machine to attach to.
    pub open spec fn not_attached(self) -> QemuStart {
        self.in_phase(
            if self.attach_only {
                QemuStartPhase::NotAttached
            } else {
                QemuStartPhase::CreateLogDir
            },
        )
    }

    /// What follows once the machine is under watch, or is not.
    pub open spec fn monitored(self, watched: Result<u32, SpawnError>) -> QemuStart {
        match watched {
            Ok(pid) => QemuStart { phase: QemuStartPhase::UpdateState, pid: Some(pid), ..self },
            Err(err) => self.failed(err),
        }
    }

    /// What follows an answer of the guest agent.
    pub open spec fn answered(self, reply: ApiReply<()>, next: QemuStartPhase) -> QemuStart {
        match reply {
            ApiReply::Answered(_) => self.in_phase(next),
            ApiReply::Failed(message) => self.failed(SpawnError::Qmp(message)),
            ApiReply::TimedOut => self.failed(SpawnError::Timeout),
        }
    }

    /// What follows an answer. An answer to something else changes nothing.
    pub open spec fn after(self, answer: QemuStartAnswer) -> QemuStart {
        match (self.phase, answer) {
            (QemuStartPhase::LivePid, QemuStartAnswer::Live(None)) => self.in_phase(
                QemuStartPhase::Reconcile,
            ),
            (QemuStartPhase::LivePid, QemuStartAnswer::Live(Some(_))) => self.in_phase(
                QemuStartPhase::SocketExists,
            ),
            (QemuStartPhase::Reconcile, QemuStartAnswer::Reconciled) => self.not_attached(),
            (QemuStartPhase::SocketExists, QemuStartAnswer::Exists(true)) => self.in_phase(
                QemuStartPhase::AttachConnect,
            ),
            (QemuStartPhase::SocketExists, QemuStartAnswer::Exists(false)) => self.not_attached(),
            (QemuStartPhase::AttachConnect, QemuStartAnswer::Connected(true)) => self.in_phase(
                QemuStartPhase::AttachMonitor,
            ),
            (QemuStartPhase::AttachConnect, QemuStartAnswer::Connected(false)) => self.not_attached(),
            (QemuStartPhase::AttachMonitor, QemuStartAnswer::Monitored(watched)) => self.monitored(
                watched,
            ),
            (QemuStartPhase::CreateLogDir, QemuStartAnswer::Created(Ok(_))) => self.in_phase(
                QemuStartPhase::Spawn,
            ),
            (QemuStartPhase::CreateLogDir, QemuStartAnswer::Created(Err(err))) => self.failed(
                SpawnError::Io(err),
            ),
            (QemuStartPhase::Spawn, QemuStartAnswer::Spawned(Ok(_))) => self.in_phase(
                QemuStartPhase::StartConnect,
            ),
            (QemuStartPhase::Spawn, QemuStartAnswer::Spawned(Err(err))) => self.failed(
                SpawnError::SystemCommand(err),
            ),
            (QemuStartPhase::StartConnect, QemuStartAnswer::Connected(true)) => self.in_phase(
                QemuStartPhase::StartMonitor,
            ),
            (QemuStartPhase::StartConnect, QemuStartAnswer::Connected(false)) => self.failed(
                SpawnError::Timeout,
            ),
            (QemuStartPhase::StartMonitor, QemuStartAnswer::Monitored(watched)) => self.monitored(
                watched,
            ),
            (QemuStartPhase::UpdateState, QemuStartAnswer::Updated(true)) => self.in_phase(
                QemuStartPhase::UpsertRecord,
            ),
            (QemuStartPhase::UpsertRecord, QemuStartAnswer::Updated(true)) => self.in_phase(
                if self.guest_agent {
                    QemuStartPhase::AgentConnect
                } else {
                    QemuStartPhase::Watched
                },
            ),
            (QemuStartPhase::UpdateState, QemuStartAnswer::Updated(false)) => self.failed(
                SpawnError::Db,
            ),
            (QemuStartPhase::UpsertRecord, QemuStartAnswer::Updated(false)) => self.failed(
                SpawnError::Db,
            ),
            (QemuStartPhase::AgentConnect, QemuStartAnswer::Connected(true)) => self.in_phase(
                QemuStartPhase::AgentPing,
            ),
            (QemuStartPhase::AgentConnect, QemuStartAnswer::Connected(false)) => self.failed(
                SpawnError::Timeout,
            ),
            (QemuStartPhase::AgentPing, QemuStartAnswer::Agent(reply)) => self.answered(
                reply,
                QemuStartPhase::AgentInfo,
            ),
            (QemuStartPhase::AgentInfo, QemuStartAnswer::Agent(reply)) => self.answered(
                reply,
                QemuStartPhase::Watched,
            ),
            _ => self,
        }
    }

    /// Notes a failure.
    fn fail(&mut self, err: SpawnError)
        ensures
            *final(self) == old(self).failed(err),
    {
        self.phase = QemuStartPhase::Failed;
        self.failure = Some(err);
    }

    /// Goes on without a running machine.
    fn go_on_unattached(&mut self)
        ensures
            *final(self) == old(self).not_attached(),
    {
        if self.attach_only {
            self.phase = QemuStartPhase::NotAttached;
        } else {
            self.phase = QemuStartPhase::CreateLogDir;
        }
    }

    /// Notes that the machine is under watch, or is not.
    fn watch(&mut self, watched: Result<u32, SpawnError>)
        ensures
            *final(self) == old(self).monitored(watched),
    {
        match watched {
            Ok(pid) => {
                self.phase = QemuStartPhase::UpdateState;
                self.pid = Some(pid);
            },
            Err(err) => self.fail(err),
        }
    }

    /// Notes an answer of the guest agent.
    fn hear(&mut self, reply: ApiReply<()>, next: QemuStartPhase)
        ensures
            *final(self) == old(self).answered(reply, next),
    {
        match reply {
            ApiReply::Answered(_) => {
                self.phase = next;
            },
            ApiReply::Failed(message) => self.fail(SpawnError::Qmp(message)),
            ApiReply::TimedOut => self.fail(SpawnError::Timeout),
        }
    }

    /// Takes an answer.
    pub fn advance(&mut self, answer: QemuStartAnswer)
        ensures
            *final(self) == old(self).after(answer),
    {
        match (self.phase, answer) {
            (QemuStartPhase::LivePid, QemuStartAnswer::Live(live)) => {
                if live.is_some() {
                    self.phase = QemuStartPhase::SocketExists;
                } else {
                    self.phase = QemuStartPhase::Reconcile;
                }
            },
            (QemuStartPhase::Reconcile, QemuStartAnswer::Reconciled) => self.go_on_unattached(),
            (QemuStartPhase::SocketExists, QemuStartAnswer::Exists(exists)) => {
                if exists {
                    self.phase = QemuStartPhase::AttachConnect;
                } else {
                    self.go_on_unattached();
                }
            },
            (QemuStartPhase::AttachConnect, QemuStartAnswer::Connected(connected)) => {
                if connected {
                    self.phase = QemuStartPhase::AttachMonitor;
                } else {
                    self.go_on_unattached();
                }
            },
            (QemuStartPhase::AttachMonitor, QemuStartAnswer::Monitored(watched)) => {
                self.watch(watched)
            },
            (QemuStartPhase::CreateLogDir, QemuStartAnswer::Created(created)) => match created {
                Ok(_) => {
                    self.phase = QemuStartPhase::Spawn;
                },
                Err(err) => self.fail(SpawnError::Io(err)),
            },
            (QemuStartPhase::Spawn, QemuStartAnswer::Spawned(spawned)) => match spawned {
                Ok(_) => {
                    self.phase = QemuStartPhase::StartConnect;
                },
                Err(err) => self.fail(SpawnError::SystemCommand(err)),
            },
            (QemuStartPhase::StartConnect, QemuStartAnswer::Connected(connected)) => {
                if connected {
                    self.phase = QemuStartPhase::StartMonitor;
                } else {
                    self.fail(SpawnError::Timeout);
                }
            },
            (QemuStartPhase::StartMonitor, QemuStartAnswer::Monitored(watched)) => {
                self.watch(watched)
            },
            (QemuStartPhase::UpdateState, QemuStartAnswer::Updated(updated)) => {
                if updated {
                    self.phase = QemuStartPhase::UpsertRecord;
                } else {
                    self.fail(SpawnError::Db);
                }
            },
            (QemuStartPhase::UpsertRecord, QemuStartAnswer::Updated(updated)) => {
                if !updated {
                    self.fail(SpawnError::Db);
                } else if self.guest_agent {
                    self.phase = QemuStartPhase::AgentConnect;
                } else {
                    self.phase = QemuStartPhase::Watched;
                }
            },
            (QemuStartPhase::AgentConnect, QemuStartAnswer::Connected(connected)) => {
                if connected {
                    self.phase = QemuStartPhase::AgentPing;
                } else {
                    self.fail(SpawnError::Timeout);
                }
            },
            (QemuStartPhase::AgentPing, QemuStartAnswer::Agent(reply)) => {
                self.hear(reply, QemuStartPhase::AgentInfo)
            },
            (QemuStartPhase::AgentInfo, QemuStartAnswer::Agent(reply)) => {
                self.hear(reply, QemuStartPhase::Watched)
            },
            _ => {},
        }
    }

    /// The state to record now, if one is: the machine runs as the watched
    /// process.
    pub fn state(&self) -> (r: Option<FxExecutionState>)
        ensures
            r == (match (self.phase, self.pid) {
                (QemuStartPhase::UpdateState, Some(pid)) => Some(FxExecutionState::Running(pid)),
                _ => None,
            }),
            self.phase is UpdateState && qemu_start_inv(*self) ==> r is Some,
    {
        match (self.phase, self.pid) {
            (QemuStartPhase::UpdateState, Some(pid)) => Some(FxExecutionState::Running(pid)),
            _ => None,
        }
    }

    /// The record to keep of the machine now, if one is: it names the watched
    /// process.
    pub fn record(&self, qemu: &QemuInstance) -> (r: Option<QemuMetadataRecord>)
        ensures
            r is Some == self.phase is UpsertRecord,
            r is Some ==> r->0@ == record_of(qemu@, self.pid),
    {
        match self.phase {
            QemuStartPhase::UpsertRecord => Some(qemu.metadata_record(self.pid)),
            _ => None,
        }
    }

    /// What came of it, once nothing more is asked for.
    pub open spec fn outcome(self) -> Option<Result<Option<u32>, SpawnError>> {
        match (self.phase, self.failure) {
            (QemuStartPhase::Watched, _) => Some(Ok(self.pid)),
            (QemuStartPhase::NotAttached, _) => Some(Ok(None)),
            (QemuStartPhase::Failed, Some(err)) => Some(Err(err)),
            _ => None,
        }
    }

    /// What came of it, once nothing more is asked for: the process that is
    /// watched, or none to attach to.
    pub fn result(self) -> (r: Option<Result<Option<u32>, SpawnError>>)
        ensures
            r == (match (self.phase, self.failure) {
                (QemuStartPhase::Watched, _) => Some(Ok::<Option<u32>, SpawnError>(self.pid)),
                (QemuStartPhase::NotAttached, _) => Some(Ok(None)),
                (QemuStartPhase::Failed, Some(err)) => Some(Err(err)),
                _ => None,
            }),
            r == self.outcome(),
    {
        match (self.phase, self.failure) {
            (QemuStartPhase::Watched, _) => Some(Ok(self.pid)),
            (QemuStartPhase::NotAttached, _) => Some(Ok(None)),
            (QemuStartPhase::Failed, Some(err)) => Some(Err(err)),
            _ => None,
        }
    }
}

/// How far a start is from its end.
pub open spec fn qemu_start_rank(phase: QemuStartPhase) -> nat {
    match phase {
        QemuStartPhase::LivePid => 13,
        QemuStartPhase::Reconcile => 12,
        QemuStartPhase::SocketExists => 12,
        QemuStartPhase::AttachConnect => 11,
        QemuStartPhase::AttachMonitor => 6,
        QemuStartPhase::CreateLogDir => 10,
        QemuStartPhase::Spawn => 9,
        QemuStartPhase::StartConnect => 8,
        QemuStartPhase::StartMonitor => 7,
        QemuStartPhase::UpdateState => 5,
        QemuStartPhase::UpsertRecord => 4,
        QemuStartPhase::AgentConnect => 3,
        QemuStartPhase::AgentPing => 2,
        QemuStartPhase::AgentInfo => 1,
        QemuStartPhase::Watched => 0,
        QemuStartPhase::NotAttached => 0,
        QemuStartPhase::Failed => 0,
    }
}

/// Whether an answer is one to what a phase asks for.
pub open spec fn qemu_start_asks(phase: QemuStartPhase, answer: QemuStartAnswer) -> bool {
    match phase {
        QemuStartPhase::LivePid => answer is Live,
        QemuStartPhase::Reconcile => answer is Reconciled,
        QemuStartPhase::SocketExists => answer is Exists,
        QemuStartPhase::AttachConnect => answer is Connected,
        QemuStartPhase::AttachMonitor => answer is Monitored,
        QemuStartPhase::CreateLogDir => answer is Created,
        QemuStartPhase::Spawn => answer is Spawned,
        QemuStartPhase::StartConnect => answer is Connected,
        QemuStartPhase::StartMonitor => answer is Monitored,
        QemuStartPhase::UpdateState => answer is Updated,
        QemuStartPhase::UpsertRecord => answer is Updated,
        QemuStartPhase::AgentConnect => answer is Connected,
        QemuStartPhase::AgentPing => answer is Agent,
        QemuStartPhase::AgentInfo => answer is Agent,
        _ => false,
    }
}

/// Each answer to what was asked for brings a start nearer to its end, and
/// every other answer changes nothing.
pub proof fn law_qemu_start_ends(start: QemuStart, answer: QemuStartAnswer)
    ensures
        qemu_start_asks(start.phase, answer) ==> qemu_start_rank(start.after(answer).phase)
            < qemu_start_rank(start.phase),
        !qemu_start_asks(start.phase, answer) ==> start.after(answer) == start,
{
}

/// What is known at each phase of a start.
pub open spec fn qemu_start_inv(start: QemuStart) -> bool {
    &&& start.failure is Some == start.phase is Failed
    &&& match start.phase {
        QemuStartPhase::UpdateState | QemuStartPhase::UpsertRecord | QemuStartPhase::Watched => {
            start.pid is Some
        },
        QemuStartPhase::AgentConnect | QemuStartPhase::AgentPing | QemuStartPhase::AgentInfo => {
            start.pid is Some && start.guest_agent
        },
        QemuStartPhase::CreateLogDir | QemuStartPhase::Spawn | QemuStartPhase::StartConnect
        | QemuStartPhase::StartMonitor => start.pid is None && !start.attach_only,
        QemuStartPhase::NotAttached => start.pid is None && start.attach_only,
        QemuStartPhase::Failed => true,
        _ => start.pid is None,
    }
}

/// What is known at each phase stays so: a watched machine has a process, only
/// an attachment ends without a machine, and an attachment starts nothing.
pub proof fn law_qemu_start_keeps_invariant(start: QemuStart, answer: QemuStartAnswer)
    requires
        qemu_start_inv(start),
    ensures
        qemu_start_inv(start.after(answer)),
{
}

/// Once the control socket of a running machine is connected, no second QEMU
/// is started: what follows is to watch the running one, or to fail.
pub proof fn law_running_machine_not_started_again(start: QemuStart, answer: QemuStartAnswer)
    requires
        start.phase is AttachMonitor || start.phase is UpdateState || start.phase is UpsertRecord
            || start.phase is AgentConnect || start.phase is AgentPing || start.phase is AgentInfo
            || start.phase is Watched || start.phase is Failed,
    ensures
        ({
            let next = start.after(answer).phase;
            next is AttachMonitor || next is UpdateState || next is UpsertRecord || next
                is AgentConnect || next is AgentPing || next is AgentInfo || next is Watched || next
                is Failed
        }),
{
}

/// The status after a reported one could not be read.
pub open spec fn lost_status() -> StatusInfo {
    StatusInfo { running: false, status: RunState::IoError }
}

/// A request to save the state of a virtual machine.
#[derive(Debug, PartialEq, Eq)]
pub struct SnapshotSave {
    /// The name of the job.
    pub job_id: String,
    /// The name of the snapshot.
    pub tag: String,
    /// Where the state goes.
    pub vmstate: String,
    /// The disks to save: none.
    pub devices: Vec<String>,
}

/// How the check of the process of a virtual machine ended.
#[derive(Debug)]
pub enum VerifyLook {
    /// The process does not exist any more.
    Gone,
    /// The process exists, and QEMU answered as follows.
    Asked(Result<StatusInfo, String>),
}

impl QemuInstance {
    /// The preparation of the virtual machine.
    pub fn fx_allocate(&self) -> (r: Allocate)
        ensures
            r == (Allocate { phase: AllocatePhase::RootDir, failure: None }),
    {
        Allocate { phase: AllocatePhase::RootDir, failure: None }
    }

    /// The directory that a phase of the preparation creates.
    pub fn allocate_dir(&self, phase: AllocatePhase) -> (r: Option<String>)
        ensures
            opt_text(r) == allocate_dir(self@, phase),
    {
        let base = join_path(
            self.system_configuration.vm_root_path.as_str(),
            self.fx_id.to_string().as_str(),
        );
        match phase {
            AllocatePhase::RootDir => Some(base),
            AllocatePhase::LogDir => Some(join_path(base.as_str(), "log")),
            AllocatePhase::RunDir => Some(join_path(base.as_str(), "run")),
            AllocatePhase::DataDir => Some(vm_data_dir(&self.system_configuration, &self.fx_id)),
            _ => None,
        }
    }

    /// The attachment to the virtual machine, if it is running.
    pub fn try_attach_existing(&self) -> (r: QemuStart)
        ensures
            r == (QemuStart {
                phase: QemuStartPhase::LivePid,
                attach_only: true,
                guest_agent: self@.machine_configuration.conf.shared().enable_guest_agent,
                pid: None,
                failure: None,
            }),
            qemu_start_inv(r),
    {
        QemuStart {
            phase: QemuStartPhase::LivePid,
            attach_only: true,
            guest_agent: self.has_ga(),
            pid: None,
            failure: None,
        }
    }

    /// The start of the virtual machine; a running one is attached to instead.
    pub fn fx_start(&self) -> (r: QemuStart)
        ensures
            r == (QemuStart {
                phase: QemuStartPhase::LivePid,
                attach_only: false,
                guest_agent: self@.machine_configuration.conf.shared().enable_guest_agent,
                pid: None,
                failure: None,
            }),
            qemu_start_inv(r),
    {
        QemuStart {
            phase: QemuStartPhase::LivePid,
            attach_only: false,
            guest_agent: self.has_ga(),
            pid: None,
            failure: None,
        }
    }

    /// The log directory.
    pub fn log_dir(&self) -> (r: String)
        ensures
            r@ == path_join(
                machine_dir(self@.system_configuration.vm_root_path, self@.fx_id),
                "log"@,
            ),
    {
        let base = join_path(
            self.system_configuration.vm_root_path.as_str(),
            self.fx_id.to_string().as_str(),
        );
        join_path(base.as_str(), "log")
    }

    /// Makes the system command ready to run the command line, with its output
    /// in the log directory.
    pub fn prepare_spawn(&mut self)
        ensures
            ({
                let root = old(self)@.system_configuration.vm_root_path;
                let id = old(self)@.fx_id;
                final(self)@ == (InstanceModel {
                    cmd: CommandModel {
                        stdout_path: Some(machine_file(root, id, "log"@, "qemu_stdout.log"@)),
                        stderr_path: Some(machine_file(root, id, "log"@, "qemu_stderr.log"@)),
                        ..command_of(old(self)@.qemu.words)
                    },
                    ..old(self)@
                })
            }),
    {
        let log_dir = self.log_dir();
        let mut cmd = command_from_qemu(&self.qemu);
        cmd.stdout_path = Some(join_path(log_dir.as_str(), "qemu_stdout.log"));
        cmd.stderr_path = Some(join_path(log_dir.as_str(), "qemu_stderr.log"));
        self.cmd = cmd;
    }

    /// The state of the virtual machine, once QEMU was asked for its status;
    /// the status is kept, and a failed call counts as an I/O error.
    pub fn fx_status(&mut self, pid: u32, reply: Result<StatusInfo, String>) -> (r: Result<
        FxExecutionState,
        CallApiError,
    >)
        ensures
            match reply {
                Ok(status) => r is Ok && r->Ok_0@ == run_state(status.status, pid) && final(self)@
                    == (InstanceModel { status, ..old(self)@ }),
                Err(message) => r == Err::<FxExecutionState, CallApiError>(
                    CallApiError::Executor(message),
                ) && final(self)@ == (InstanceModel { status: lost_status(), ..old(self)@ }),
            },
    {
        match reply {
            Ok(status) => {
                let state = state_from_qmp_status(&status, pid);
                self.status = status;
                Ok(state)
            },
            Err(message) => {
                self.status = StatusInfo { running: false, status: RunState::IoError };
                Err(CallApiError::Executor(message))
            },
        }
    }

    /// The state of the virtual machine, once QEMU was asked for its status;
    /// the status is kept, and a failed call leaves it as it was.
    pub fn state_collect(&mut self, pid: u32, reply: Result<StatusInfo, String>) -> (r: Result<
        FxExecutionState,
        CallApiError,
    >)
        ensures
            match reply {
                Ok(status) => r is Ok && r->Ok_0@ == run_state(status.status, pid) && final(self)@
                    == (InstanceModel { status, ..old(self)@ }),
                Err(message) => r == Err::<FxExecutionState, CallApiError>(
                    CallApiError::Executor(message),
                ) && final(self)@ == old(self)@,
            },
    {
        match reply {
            Ok(status) => {
                let state = state_from_qmp_status(&status, pid);
                self.status = status;
                Ok(state)
            },
            Err(message) => Err(CallApiError::Executor(message)),
        }
    }

    /// Whether QEMU may be asked to power the machine down: it has to offer
    /// that, under either of its names.
    pub fn fx_stop(handle: &QemuHandle) -> (r: Result<(), CallApiError>)
        ensures
            r == (if offers(handle.schema@, "system_powerdown"@) || offers(
                handle.schema@,
                "system-powerdown"@,
            ) {
                Ok::<(), CallApiError>(())
            } else {
                Err(CallApiError::UnsupportedCommand("system_powerdown"))
            }),
    {
        if !handle.supported_command("system_powerdown") && !handle.supported_command(
            "system-powerdown",
        ) {
            return Err(CallApiError::UnsupportedCommand("system_powerdown"));
        }
        Ok(())
    }

    /// The directory to create before an archive is made, if the archive
    /// policy allows one.
    pub fn archive_dir(&self) -> (r: Result<String, ArchiveError>)
        ensures
            match self@.machine_configuration.conf.shared().archive_policy {
                QemuArchivePolicy::StateOnly => r is Ok && r->Ok_0@ == path_join(
                    machine_dir(self@.system_configuration.vm_root_path, self@.fx_id),
                    "archive"@,
                ),
                QemuArchivePolicy::Disabled => r == Err::<String, ArchiveError>(
                    ArchiveError::UnsupportedPolicy("archive disabled by QEMU archive policy"),
                ),
            },
    {
        match self.archive_policy() {
            QemuArchivePolicy::StateOnly => Ok(self.archive_root_path()),
            QemuArchivePolicy::Disabled => Err(
                ArchiveError::UnsupportedPolicy("archive disabled by QEMU archive policy"),
            ),
        }
    }

    /// The request that archives the virtual machine, once the directory of
    /// its archives was created or was not.
    pub fn fx_archive(&self, handle: &QemuHandle, created: Result<(), IoError>) -> (r: Result<
        SnapshotSave,
        ArchiveError,
    >)
        ensures
            ({
                let root = self@.system_configuration.vm_root_path;
                let id = self@.fx_id;
                let policy = self@.machine_configuration.conf.shared().archive_policy;
                let supported = offers(handle.schema@, "snapshot-save"@) || offers(
                    handle.schema@,
                    "snapshot_save"@,
                );
                match (policy, created) {
                    (QemuArchivePolicy::Disabled, _) => r == Err::<SnapshotSave, ArchiveError>(
                        ArchiveError::UnsupportedPolicy("archive disabled by QEMU archive policy"),
                    ),
                    (QemuArchivePolicy::StateOnly, Err(err)) => r == Err::<
                        SnapshotSave,
                        ArchiveError,
                    >(ArchiveError::IO(err)),
                    (QemuArchivePolicy::StateOnly, Ok(_)) => if supported {
                        r is Ok && r->Ok_0.job_id@ == "becky-"@ + fx_id_text(id)
                            && r->Ok_0.tag@ == "becky-"@ + fx_id_text(id) && r->Ok_0.vmstate@
                            == machine_file(root, id, "archive"@, "vmstate.snap"@)
                            && r->Ok_0.devices@.len() == 0
                    } else {
                        r == Err::<SnapshotSave, ArchiveError>(
                            ArchiveError::CallApiError(
                                CallApiError::UnsupportedCommand("snapshot-save"),
                            ),
                        )
                    },
                }
            }),
    {
        let archive_root = match self.archive_dir() {
            Ok(dir) => dir,
            Err(err) => return Err(err),
        };
        if let Err(err) = created {
            return Err(ArchiveError::IO(err));
        }
        let archive_path = join_path(archive_root.as_str(), "vmstate.snap");
        let tag = cat2("becky-", self.fx_id.to_string().as_str());
        if !handle.supported_command("snapshot-save") && !handle.supported_command("snapshot_save") {
            return Err(ArchiveError::CallApiError(CallApiError::UnsupportedCommand("snapshot-save")));
        }
        Ok(SnapshotSave { job_id: tag.clone(), tag, vmstate: archive_path, devices: Vec::new() })
    }

    /// Where the archive lies, once QEMU has saved the state.
    pub fn archived(request: SnapshotSave, reply: Result<(), String>) -> (r: Result<
        String,
        ArchiveError,
    >)
        ensures
            r == (match reply {
                Ok(_) => Ok::<String, ArchiveError>(request.vmstate),
                Err(message) => Err(ArchiveError::CallApiError(CallApiError::Executor(message))),
            }),
    {
        match reply {
            Ok(_) => Ok(request.vmstate),
            Err(message) => Err(ArchiveError::CallApiError(CallApiError::Executor(message))),
        }
    }

    /// Whether the virtual machine is what it is thought to be: without its
    /// process nothing is known; otherwise QEMU has to answer, and the status
    /// is kept.
    pub fn fx_op_verify(&mut self, look: VerifyLook) -> (r: Result<Verification, VerifyError>)
        ensures
            match look {
                VerifyLook::Gone => r == Ok::<Verification, VerifyError>(Verification::Unknown)
                    && final(self)@ == old(self)@,
                VerifyLook::Asked(Ok(status)) => r == Ok::<Verification, VerifyError>(
                    Verification::Match,
                ) && final(self)@ == (InstanceModel { status, ..old(self)@ }),
                VerifyLook::Asked(Err(message)) => r == Err::<Verification, VerifyError>(
                    VerifyError::CallApiError(CallApiError::Executor(message)),
                ) && final(self)@ == old(self)@,
            },
    {
        match look {
            VerifyLook::Gone => Ok(Verification::Unknown),
            VerifyLook::Asked(Ok(status)) => {
                self.status = status;
                Ok(Verification::Match)
            },
            VerifyLook::Asked(Err(message)) => Err(
                VerifyError::CallApiError(CallApiError::Executor(message)),
            ),
        }
    }
}

/// A machine of the processor model `max` is recovered from its record, given
/// that the outside parsers read its memory and its command line as they were
/// written: it is the machine that it was, running as the recorded process, and
/// its record is the record that it had.
pub proof fn law_record_reads_back(instance: InstanceModel, pid: Option<u32>)
    requires
        instance.machine_configuration.system_configuration == instance.system_configuration,
        instance.machine_configuration.conf.model() == "max"@,
    ensures
        ({
            let memory = instance.machine_configuration.conf.shared().memory;
            let record = record_of(instance, pid);
            let back = fresh_instance(
                instance.system_configuration,
                instance.machine_configuration,
                instance.fx_id,
                instance.qemu,
                pid,
            );
            memory_reading(memory) == Some(memory) && command_reading(
                shell_line(instance.qemu.words),
            ) == Ok::<(bool, Seq<Seq<char>>), Seq<char>>((instance.qemu.x86, instance.qemu.words)) ==> {
                &&& recovered_instance(
                    instance.system_configuration,
                    record,
                    instance.fx_id,
                    pid,
                ) == Ok::<InstanceModel, CreateErrorModel>(back)
                &&& record_of(back, pid) == record
            }
        }),
{
    crate::qemu::machine::law_record_restores_machine(instance.machine_configuration);
}

/// A start of a machine that does not run, in which every step succeeds: the
/// leftovers are removed, the log directory is made, QEMU is started once, its
/// socket is connected, the machine is watched and then recorded, and with a
/// guest agent that is connected and asked twice. It ends with the watched
/// process and has no result before.
pub proof fn law_fresh_start_watches_machine(guest_agent: bool, pid: u32)
    ensures
        ({
            let s0 = QemuStart {
                phase: QemuStartPhase::LivePid,
                attach_only: false,
                guest_agent,
                pid: None,
                failure: None,
            };
            let s1 = s0.after(QemuStartAnswer::Live(None));
            let s2 = s1.after(QemuStartAnswer::Reconciled);
            let s3 = s2.after(QemuStartAnswer::Created(Ok(())));
            let s4 = s3.after(QemuStartAnswer::Spawned(Ok(())));
            let s5 = s4.after(QemuStartAnswer::Connected(true));
            let s6 = s5.after(QemuStartAnswer::Monitored(Ok(pid)));
            let s7 = s6.after(QemuStartAnswer::Updated(true));
            let s8 = s7.after(QemuStartAnswer::Updated(true));
            let s9 = s8.after(QemuStartAnswer::Connected(true));
            let s10 = s9.after(QemuStartAnswer::Agent(ApiReply::Answered(())));
            let s11 = s10.after(QemuStartAnswer::Agent(ApiReply::Answered(())));
            &&& s1.phase is Reconcile && s2.phase is CreateLogDir && s3.phase is Spawn
            &&& s4.phase is StartConnect && s5.phase is StartMonitor && s6.phase is UpdateState
            &&& s7.phase is UpsertRecord
            &&& s0.outcome() is None && s1.outcome() is None && s2.outcome() is None
            &&& s3.outcome() is None && s4.outcome() is None && s5.outcome() is None
            &&& s6.outcome() is None && s7.outcome() is None
            &&& if guest_agent {
                &&& s8.phase is AgentConnect && s9.phase is AgentPing && s10.phase is AgentInfo
                &&& s8.outcome() is None && s9.outcome() is None && s10.outcome() is None
                &&& s11.outcome() == Some(Ok::<Option<u32>, SpawnError>(Some(pid)))
            } else {
                s8.outcome() == Some(Ok::<Option<u32>, SpawnError>(Some(pid)))
            }
        }),
{
}

/// A machine that runs and whose socket can be connected is watched without
/// QEMU being started, by a start as by an attachment.
pub proof fn law_running_machine_is_watched(attach_only: bool, guest_agent: bool, live: u32, pid: u32)
    ensures
        ({
            let s0 = QemuStart {
                phase: QemuStartPhase::LivePid,
                attach_only,
                guest_agent,
                pid: None,
                failure: None,
            };
            let s1 = s0.after(QemuStartAnswer::Live(Some(live)));
            let s2 = s1.after(QemuStartAnswer::Exists(true));
            let s3 = s2.after(QemuStartAnswer::Connected(true));
            let s4 = s3.after(QemuStartAnswer::Monitored(Ok(pid)));
            let s5 = s4.after(QemuStartAnswer::Updated(true));
            let s6 = s5.after(QemuStartAnswer::Updated(true));
            let s7 = s6.after(QemuStartAnswer::Connected(true));
            let s8 = s7.after(QemuStartAnswer::Agent(ApiReply::Answered(())));
            let s9 = s8.after(QemuStartAnswer::Agent(ApiReply::Answered(())));
            &&& s1.phase is SocketExists && s2.phase is AttachConnect && s3.phase is AttachMonitor
            &&& s4.phase is UpdateState && s5.phase is UpsertRecord
            &&& if guest_agent {
                &&& s6.phase is AgentConnect && s7.phase is AgentPing && s8.phase is AgentInfo
                &&& s9.outcome() == Some(Ok::<Option<u32>, SpawnError>(Some(pid)))
            } else {
                s6.outcome() == Some(Ok::<Option<u32>, SpawnError>(Some(pid)))
            }
        }),
{
}

/// Where no machine runs, where the socket of a running one is missing, and
/// where it cannot be connected, an attachment ends without a machine and a
/// start goes on to start one, in the same way for all three.
pub proof fn law_nothing_to_attach_to(attach_only: bool, guest_agent: bool, live: u32)
    ensures
        ({
            let s0 = QemuStart {
                phase: QemuStartPhase::LivePid,
                attach_only,
                guest_agent,
                pid: None,
                failure: None,
            };
            let found = s0.after(QemuStartAnswer::Live(Some(live)));
            let idle = s0.after(QemuStartAnswer::Live(None)).after(QemuStartAnswer::Reconciled);
            let lost = found.after(QemuStartAnswer::Exists(false));
            let deaf = found.after(QemuStartAnswer::Exists(true)).after(
                QemuStartAnswer::Connected(false),
            );
            &&& idle == lost && lost == deaf
            &&& attach_only ==> idle.outcome() == Some(Ok::<Option<u32>, SpawnError>(None))
            &&& !attach_only ==> idle.outcome() is None && idle.phase is CreateLogDir
        }),
{
}

/// A start fails only after an answer that reports a failure, with the error
/// that the answer stands for.
pub proof fn law_start_fails_for_cause(start: QemuStart, answer: QemuStartAnswer)
    requires
        start.phase !is Failed,
        start.after(answer).phase is Failed,
    ensures
        start.after(answer).outcome() == Some(
            Err::<Option<u32>, SpawnError>(
                match answer {
                    QemuStartAnswer::Connected(_) => SpawnError::Timeout,
                    QemuStartAnswer::Monitored(Err(err)) => err,
                    QemuStartAnswer::Created(Err(err)) => SpawnError::Io(err),
                    QemuStartAnswer::Spawned(Err(err)) => SpawnError::SystemCommand(err),
                    QemuStartAnswer::Updated(_) => SpawnError::Db,
                    QemuStartAnswer::Agent(ApiReply::Failed(message)) => SpawnError::Qmp(message),
                    _ => SpawnError::Timeout,
                },
            ),
        ),
        match answer {
            QemuStartAnswer::Connected(connected) => !connected,
            QemuStartAnswer::Monitored(watched) => watched is Err,
            QemuStartAnswer::Created(created) => created is Err,
            QemuStartAnswer::Spawned(spawned) => spawned is Err,
            QemuStartAnswer::Updated(updated) => !updated,
            QemuStartAnswer::Agent(reply) => reply !is Answered,
            _ => false,
        },
{
}

/// A step that is asked for and fails ends the start: no step is passed over.
/// The one exception is the connection to a machine that was found running.
pub proof fn law_failed_step_ends_start(start: QemuStart, answer: QemuStartAnswer)
    requires
        match (start.phase, answer) {
            (QemuStartPhase::AttachMonitor, QemuStartAnswer::Monitored(watched)) => watched is Err,
            (QemuStartPhase::StartMonitor, QemuStartAnswer::Monitored(watched)) => watched is Err,
            (QemuStartPhase::CreateLogDir, QemuStartAnswer::Created(created)) => created is Err,
            (QemuStartPhase::Spawn, QemuStartAnswer::Spawned(spawned)) => spawned is Err,
            (QemuStartPhase::StartConnect, QemuStartAnswer::Connected(connected)) => !connected,
            (QemuStartPhase::AgentConnect, QemuStartAnswer::Connected(connected)) => !connected,
            (QemuStartPhase::UpdateState, QemuStartAnswer::Updated(updated)) => !updated,
            (QemuStartPhase::UpsertRecord, QemuStartAnswer::Updated(updated)) => !updated,
            (QemuStartPhase::AgentPing, QemuStartAnswer::Agent(reply)) => reply !is Answered,
            (QemuStartPhase::AgentInfo, QemuStartAnswer::Agent(reply)) => reply !is Answered,
            _ => false,
        },
    ensures
        start.after(answer).outcome() matches Some(Err(_)),
{
}

/// A preparation in which every step succeeds makes the four directories in
/// order, then the storage, and succeeds.
pub proof fn law_allocation_succeeds()
    ensures
        ({
            let ok = AllocateAnswer::Created(Ok(()));
            let s0 = Allocate { phase: AllocatePhase::RootDir, failure: None };
            let s1 = s0.after(ok);
            let s2 = s1.after(ok);
            let s3 = s2.after(ok);
            let s4 = s3.after(ok);
            let s5 = s4.after(AllocateAnswer::StorageCreated(true));
            &&& s1.phase is LogDir && s2.phase is RunDir && s3.phase is DataDir
            &&& s4.phase is Storage
            &&& s0.outcome() is None && s1.outcome() is None && s2.outcome() is None
            &&& s3.outcome() is None && s4.outcome() is None
            &&& s5.outcome() == Some(Ok::<(), AllocateError>(()))
        }),
{
}

/// A preparation fails exactly when a step that is asked for fails, with the
/// error of that step.
pub proof fn law_allocation_fails_for_cause(run: Allocate, answer: AllocateAnswer)
    requires
        run.phase !is Done,
        run.failure is None,
    ensures
        run.after(answer).outcome() == (match answer {
            AllocateAnswer::Created(Err(err)) => if run.phase is Storage {
                None
            } else {
                Some(Err::<(), AllocateError>(AllocateError::Io(err)))
            },
            AllocateAnswer::Created(Ok(_)) => None,
            AllocateAnswer::StorageCreated(created) => if run.phase !is Storage {
                None
            } else if created {
                Some(Ok(()))
            } else {
                Some(Err(AllocateError::StorageNotOk))
            },
        }),
{
}

/// What a preparation makes is what the record of the machine names: the
/// directory of its logs, that of its data, and that of its process id and
/// sockets, the last three under the first.
pub proof fn law_allocated_dirs_hold_runtime_files(instance: InstanceModel, pid: Option<u32>)
    ensures
        ({
            let record = record_of(instance, pid);
            let root = instance.system_configuration.vm_root_path;
            let base = path_join(root, fx_id_text(instance.fx_id));
            let run = path_join(base, "run"@);
            &&& allocate_dir(instance, AllocatePhase::RootDir) == Some(base)
            &&& allocate_dir(instance, AllocatePhase::LogDir) == Some(record.log_dir)
            &&& record.log_dir == path_join(base, "log"@)
            &&& allocate_dir(instance, AllocatePhase::RunDir) == Some(run)
            &&& record.pidfile == path_join(run, "qemu.pid"@)
            &&& record.qmp_socket == path_join(run, "ctl.sock"@)
            &&& allocate_dir(instance, AllocatePhase::DataDir) == Some(record.data_dir)
            &&& record.data_dir == path_join(
                instance.system_configuration.vm_data_root_path,
                fx_id_text(instance.fx_id),
            )
            &&& allocate_dir(instance, AllocatePhase::Storage) is None
            &&& stale_files(root, instance.fx_id) == seq![
                record.pidfile,
                record.qmp_socket,
                path_join(run, "ga.sock"@),
            ]
        }),
{
}

/// What a record says of a machine: its name, its process, its command line and
/// its configuration, and its guest agent with the socket of that, exactly where
/// it has one.
pub proof fn law_record_describes_machine(instance: InstanceModel, pid: Option<u32>)
    ensures
        ({
            let record = record_of(instance, pid);
            let agent = match instance.machine_configuration.conf {
                ConfModel::Amd64 { common, .. } => common.enable_guest_agent,
                ConfModel::Aarch64 { common, .. } => common.enable_guest_agent,
            };
            &&& record.name == instance.machine_configuration.name
            &&& record.runtime_pid == pid
            &&& record.guest_agent_enabled == agent
            &&& record.qga_socket is Some == agent
            &&& agent ==> record.qga_socket->0 == path_join(
                path_join(
                    path_join(
                        instance.system_configuration.vm_root_path,
                        fx_id_text(instance.fx_id),
                    ),
                    "run"@,
                ),
                "ga.sock"@,
            )
            &&& record.command_line == shell_line(instance.qemu.words)
            &&& record.desired == Some(recorded(instance.machine_configuration))
        }),
{
}

/// The process that a process id file names is live only if the file holds its
/// number and the table shows a process with it, and then it is.
pub proof fn law_live_process_is_shown(contents: Seq<char>, table: Seq<Process>, pid: u32)
    ensures
        live_pid(None, table) is None,
        live_pid(Some(contents), table) == Some(pid) <==> pid_in(contents) == Some(pid as nat) && (
        exists|i: int| 0 <= i < table.len() && (#[trigger] table[i]).pid == pid),
        live_pid(Some(decimal(pid as nat).push('\n')), table) == Some(pid) <==> (exists|i: int|
            0 <= i < table.len() && (#[trigger] table[i]).pid == pid),
{
    crate::utils::law_process_is_found(table, pid);
    crate::system_command::law_pid_file_reads_back(pid);
}

/// What a status that QEMU reports means: a machine counts as running or paused
/// only with its process, each as reported, and every other status has a state
/// of its own.
pub proof fn law_run_states(status: RunState, pid: u32)
    ensures
        run_state(status, pid) == StateModel::Running(pid) <==> status is Running,
        run_state(status, pid) is Running ==> status is Running,
        run_state(status, pid) == StateModel::Paused(pid) <==> status is Paused || status is Debug
            || status is Inmigrate || status is Postmigrate || status is FinishMigrate || status
            is RestoreVm || status is SaveVm || status is Suspended || status is Colo,
        run_state(status, pid) is Paused ==> run_state(status, pid) == StateModel::Paused(pid),
        run_state(status, pid) is NotStarted <==> status is Prelaunch,
        run_state(status, pid) is Stopped <==> status is Shutdown,
        run_state(status, pid) == StateModel::Error("internal_error"@) <==> status is InternalError,
        run_state(status, pid) == StateModel::Error("io_error"@) <==> status is IoError,
        run_state(status, pid) == StateModel::Error("watchdog"@) <==> status is Watchdog,
        run_state(status, pid) == StateModel::Error("guest_panicked"@) <==> status is GuestPanicked,
        lost_status().status is IoError && !lost_status().running,
{
    reveal_strlit("internal_error");
    reveal_strlit("io_error");
    reveal_strlit("watchdog");
    reveal_strlit("guest_panicked");
    assert("internal_error"@.len() == 14 && "guest_panicked"@.len() == 14);
    assert("internal_error"@[0] == 'i' && "guest_panicked"@[0] == 'g');
    assert("io_error"@.len() == 8 && "watchdog"@.len() == 8);
    assert("io_error"@[0] == 'i' && "watchdog"@[0] == 'w');
}

/// The system command of a machine runs its command line as it is, through no
/// other program; a machine known to run is recorded with its process.
pub proof fn law_command_runs_command_line(
    sys: SystemModel,
    machine: MachineModel,
    id: FxIdModel,
    qemu: QemuCommandModel,
    pid: Option<u32>,
)
    requires
        qemu.words.len() > 0,
    ensures
        ({
            let instance = fresh_instance(sys, machine, id, qemu, pid);
            &&& instance.cmd.words() == qemu.words
            &&& instance.cmd.launch_words() == qemu.words
            &&& instance.cmd.state == (match pid {
                Some(p) => StateModel::Running(p),
                None => StateModel::NotStarted,
            })
            &&& instance.cmd.desired_state is Running
            &&& instance.cmd.pid_directory is None
            &&& instance.qemu == qemu && instance.fx_id == id
            &&& instance.machine_configuration == machine
            &&& instance.system_configuration == sys
            &&& instance.status.status is Prelaunch
        }),
{
    let instance = fresh_instance(sys, machine, id, qemu, pid);
    assert(instance.cmd.words() =~= qemu.words);
    assert(instance.cmd.launch_words() =~= qemu.words);
}

/// A record stands for a machine where its command line is read: one with the
/// words that were read, known to run as the process found, and not asked
/// anything yet. Where it is not read, that is the error.
pub proof fn law_recorded_command_line(
    sys: SystemModel,
    record: RecordModel,
    id: FxIdModel,
    live: Option<u32>,
)
    ensures
        ({
            let recovered = recovered_instance(sys, record, id, live);
            match command_reading(record.command_line) {
                Ok((x86, words)) => {
                    &&& recovered is Ok
                    &&& recovered->Ok_0.qemu.words == words && recovered->Ok_0.qemu.x86 == x86
                    &&& recovered->Ok_0.fx_id == id
                    &&& recovered->Ok_0.system_configuration == sys
                    &&& recovered->Ok_0.machine_configuration == machine_of_record(
                        sys,
                        record,
                        x86,
                        recorded_memory(record),
                    )
                    &&& live is Some ==> recovered->Ok_0.cmd.state == StateModel::Running(live->0)
                    &&& live is None ==> recovered->Ok_0.cmd.state is NotStarted
                    &&& recovered->Ok_0.status.status is Prelaunch
                },
                Err(message) => recovered == Err::<InstanceModel, _>(
                    CreateErrorModel::ParseQemuCommand(message),
                ),
            }
        }),
{
}

} // verus!
