//! The worker that watches one virtual machine: what it is told, what it
//! does, and what it reports.
use vstd::prelude::*;

use crate::engine::state::FxExecutionState;
use crate::engine::state::StateModel;
use crate::fx_id::FxId;
use crate::qemu::comm::call_supported_ga_api;
use crate::qemu::handle::QemuHandle;
use crate::qemu::handle::enables;
use crate::qemu::handle::offers;

verus! {

/// What a worker reports of its virtual machine.
#[derive(Clone, Copy, Debug, PartialEq, Eq, Structural)]
pub enum WorkerEvent {
    Panic,
    Watchdog,
    BlockIoError,
    BlockImageCorrupted,
    DeviceDeleted,
    DeviceUnplugGuestError,
    Migration,
    MemoryFailure,
    Shutdown,
    Suspend,
    Resume,
    Powerdown,
    Reset,
    Stop,
}

/// Commands to a running QEMU.
#[derive(Clone, Copy, Debug, PartialEq, Eq, Structural)]
pub enum QmpCmd {
    Status,
    SystemPowerdown,
    QueryBlock,
}

/// Commands to a guest agent.
#[derive(Clone, Copy, Debug, PartialEq, Eq, Structural)]
pub enum GuestAgentCmd {
    Ping,
    Info,
}

/// What a worker is told.
#[derive(Clone, Copy, Debug, PartialEq, Eq, Structural)]
pub enum WorkerCommand {
    /// To end.
    Shutdown,
    /// To send a command to QEMU.
    Qmp(QmpCmd),
    /// To send a command to the guest agent.
    GuestAgent(GuestAgentCmd),
}

/// The events that QEMU sends, by their names in the control protocol.
#[derive(Clone, Copy, Debug, PartialEq, Eq, Structural)]
pub enum QmpEvent {
    /// `SHUTDOWN`.
    Shutdown,
    /// `POWERDOWN`.
    Powerdown,
    /// `RESET`.
    Reset,
    /// `STOP`.
    Stop,
    /// `RESUME`.
    Resume,
    /// `SUSPEND`.
    Suspend,
    /// `SUSPEND_DISK`.
    SuspendDisk,
    /// `WAKEUP`.
    Wakeup,
    /// `WATCHDOG`.
    Watchdog,
    /// `GUEST_PANICKED`.
    GuestPanicked,
    /// `GUEST_CRASHLOADED`.
    GuestCrashloaded,
    /// `GUEST_PVSHUTDOWN`.
    GuestPvshutdown,
    /// `MEMORY_FAILURE`.
    MemoryFailure,
    /// `JOB_STATUS_CHANGE`.
    JobStatusChange,
    /// `DEVICE_TRAY_MOVED`.
    DeviceTrayMoved,
    /// `PR_MANAGER_STATUS_CHANGED`.
    PrManagerStatusChanged,
    /// `BLOCK_IMAGE_CORRUPTED`.
    BlockImageCorrupted,
    /// `BLOCK_IO_ERROR`.
    BlockIoError,
    /// `BLOCK_JOB_COMPLETED`.
    BlockJobCompleted,
    /// `BLOCK_JOB_CANCELLED`.
    BlockJobCancelled,
    /// `BLOCK_JOB_ERROR`.
    BlockJobError,
    /// `BLOCK_JOB_READY`.
    BlockJobReady,
    /// `BLOCK_JOB_PENDING`.
    BlockJobPending,
    /// `BLOCK_WRITE_THRESHOLD`.
    BlockWriteThreshold,
    /// `QUORUM_FAILURE`.
    QuorumFailure,
    /// `QUORUM_REPORT_BAD`.
    QuorumReportBad,
    /// `BLOCK_EXPORT_DELETED`.
    BlockExportDeleted,
    /// `VSERPORT_CHANGE`.
    VserportChange,
    /// `DUMP_COMPLETED`.
    DumpCompleted,
    /// `NIC_RX_FILTER_CHANGED`.
    NicRxFilterChanged,
    /// `FAILOVER_NEGOTIATED`.
    FailoverNegotiated,
    /// `NETDEV_STREAM_CONNECTED`.
    NetdevStreamConnected,
    /// `NETDEV_STREAM_DISCONNECTED`.
    NetdevStreamDisconnected,
    /// `SPICE_CONNECTED`.
    SpiceConnected,
    /// `SPICE_INITIALIZED`.
    SpiceInitialized,
    /// `SPICE_DISCONNECTED`.
    SpiceDisconnected,
    /// `SPICE_MIGRATE_COMPLETED`.
    SpiceMigrateCompleted,
    /// `VNC_CONNECTED`.
    VncConnected,
    /// `VNC_INITIALIZED`.
    VncInitialized,
    /// `VNC_DISCONNECTED`.
    VncDisconnected,
    /// `MIGRATION`.
    Migration,
    /// `MIGRATION_PASS`.
    MigrationPass,
    /// `COLO_EXIT`.
    ColoExit,
    /// `UNPLUG_PRIMARY`.
    UnplugPrimary,
    /// `DEVICE_DELETED`.
    DeviceDeleted,
    /// `DEVICE_UNPLUG_GUEST_ERROR`.
    DeviceUnplugGuestError,
    /// `BALLOON_CHANGE`.
    BalloonChange,
    /// `HV_BALLOON_STATUS_REPORT`.
    HvBalloonStatusReport,
    /// `MEMORY_DEVICE_SIZE_CHANGE`.
    MemoryDeviceSizeChange,
    /// `CPU_POLARIZATION_CHANGE`.
    CpuPolarizationChange,
    /// `RTC_CHANGE`.
    RtcChange,
    /// `VFU_CLIENT_HANGUP`.
    VfuClientHangup,
    /// `ACPI_DEVICE_OST`.
    AcpiDeviceOst,
    /// `VFIO_MIGRATION`.
    VfioMigration,
}

/// What a worker reports of an event of QEMU, if it reports it.
pub open spec fn reported(event: QmpEvent) -> Option<WorkerEvent> {
    match event {
        QmpEvent::Shutdown => Some(WorkerEvent::Shutdown),
        QmpEvent::Powerdown => Some(WorkerEvent::Powerdown),
        QmpEvent::Reset => Some(WorkerEvent::Reset),
        QmpEvent::Stop => Some(WorkerEvent::Stop),
        QmpEvent::Resume => Some(WorkerEvent::Resume),
        QmpEvent::Suspend => Some(WorkerEvent::Suspend),
        QmpEvent::Watchdog => Some(WorkerEvent::Watchdog),
        QmpEvent::GuestPanicked => Some(WorkerEvent::Panic),
        QmpEvent::MemoryFailure => Some(WorkerEvent::MemoryFailure),
        QmpEvent::BlockImageCorrupted => Some(WorkerEvent::BlockImageCorrupted),
        QmpEvent::BlockIoError => Some(WorkerEvent::BlockIoError),
        QmpEvent::Migration => Some(WorkerEvent::Migration),
        QmpEvent::MigrationPass => Some(WorkerEvent::Migration),
        QmpEvent::DeviceDeleted => Some(WorkerEvent::DeviceDeleted),
        QmpEvent::DeviceUnplugGuestError => Some(WorkerEvent::DeviceUnplugGuestError),
        _ => None,
    }
}

/// What a worker reports of an event of QEMU, if it reports it.
pub fn handle_event(event: QmpEvent) -> (r: Option<WorkerEvent>)
    ensures
        r == reported(event),
{
    match event {
        QmpEvent::Shutdown => Some(WorkerEvent::Shutdown),
        QmpEvent::Powerdown => Some(WorkerEvent::Powerdown),
        QmpEvent::Reset => Some(WorkerEvent::Reset),
        QmpEvent::Stop => Some(WorkerEvent::Stop),
        QmpEvent::Resume => Some(WorkerEvent::Resume),
        QmpEvent::Suspend => Some(WorkerEvent::Suspend),
        QmpEvent::Watchdog => Some(WorkerEvent::Watchdog),
        QmpEvent::GuestPanicked => Some(WorkerEvent::Panic),
        QmpEvent::MemoryFailure => Some(WorkerEvent::MemoryFailure),
        QmpEvent::BlockImageCorrupted => Some(WorkerEvent::BlockImageCorrupted),
        QmpEvent::BlockIoError => Some(WorkerEvent::BlockIoError),
        QmpEvent::Migration => Some(WorkerEvent::Migration),
        QmpEvent::MigrationPass => Some(WorkerEvent::Migration),
        QmpEvent::DeviceDeleted => Some(WorkerEvent::DeviceDeleted),
        QmpEvent::DeviceUnplugGuestError => Some(WorkerEvent::DeviceUnplugGuestError),
        QmpEvent::SuspendDisk
        | QmpEvent::Wakeup
        | QmpEvent::GuestCrashloaded
        | QmpEvent::GuestPvshutdown
        | QmpEvent::JobStatusChange
        | QmpEvent::DeviceTrayMoved
        | QmpEvent::PrManagerStatusChanged
        | QmpEvent::BlockJobCompleted
        | QmpEvent::BlockJobCancelled
        | QmpEvent::BlockJobError
        | QmpEvent::BlockJobReady
        | QmpEvent::BlockJobPending
        | QmpEvent::BlockWriteThreshold
        | QmpEvent::QuorumFailure
        | QmpEvent::QuorumReportBad
        | QmpEvent::BlockExportDeleted
        | QmpEvent::VserportChange
        | QmpEvent::DumpCompleted
        | QmpEvent::NicRxFilterChanged
        | QmpEvent::FailoverNegotiated
        | QmpEvent::NetdevStreamConnected
        | QmpEvent::NetdevStreamDisconnected
        | QmpEvent::SpiceConnected
        | QmpEvent::SpiceInitialized
        | QmpEvent::SpiceDisconnected
        | QmpEvent::SpiceMigrateCompleted
        | QmpEvent::VncConnected
        | QmpEvent::VncInitialized
        | QmpEvent::VncDisconnected
        | QmpEvent::ColoExit
        | QmpEvent::UnplugPrimary
        | QmpEvent::BalloonChange
        | QmpEvent::HvBalloonStatusReport
        | QmpEvent::MemoryDeviceSizeChange
        | QmpEvent::CpuPolarizationChange
        | QmpEvent::RtcChange
        | QmpEvent::VfuClientHangup
        | QmpEvent::AcpiDeviceOst
        | QmpEvent::VfioMigration => None,
    }
}

/// The state that a reported event leaves a virtual machine in.
pub open spec fn event_state(event: WorkerEvent, pid: u32) -> StateModel {
    match event {
        WorkerEvent::Panic => StateModel::Error("guest panicked"@),
        WorkerEvent::Watchdog => StateModel::Error("guest watchdog fired"@),
        WorkerEvent::BlockIoError => StateModel::Error("qemu block I/O error"@),
        WorkerEvent::BlockImageCorrupted => StateModel::Error("qemu block image corrupted"@),
        WorkerEvent::DeviceUnplugGuestError => StateModel::Error("qemu device unplug guest error"@),
        WorkerEvent::MemoryFailure => StateModel::Error("qemu memory failure"@),
        WorkerEvent::Shutdown | WorkerEvent::Powerdown => StateModel::Stopped,
        WorkerEvent::Suspend | WorkerEvent::Stop => StateModel::Paused(pid),
        WorkerEvent::Resume | WorkerEvent::Reset | WorkerEvent::DeviceDeleted
        | WorkerEvent::Migration => StateModel::Running(pid),
    }
}

/// The state that a reported event leaves a virtual machine in.
pub fn state_from_worker_event(event: &WorkerEvent, pid: u32) -> (r: FxExecutionState)
    ensures
        r@ == event_state(*event, pid),
{
    match event {
        WorkerEvent::Panic => FxExecutionState::Error("guest panicked".to_owned()),
        WorkerEvent::Watchdog => FxExecutionState::Error("guest watchdog fired".to_owned()),
        WorkerEvent::BlockIoError => FxExecutionState::Error("qemu block I/O error".to_owned()),
        WorkerEvent::BlockImageCorrupted => FxExecutionState::Error(
            "qemu block image corrupted".to_owned(),
        ),
        WorkerEvent::DeviceUnplugGuestError => FxExecutionState::Error(
            "qemu device unplug guest error".to_owned(),
        ),
        WorkerEvent::MemoryFailure => FxExecutionState::Error("qemu memory failure".to_owned()),
        WorkerEvent::Shutdown | WorkerEvent::Powerdown => FxExecutionState::Stopped,
        WorkerEvent::Suspend | WorkerEvent::Stop => FxExecutionState::Paused(pid),
        WorkerEvent::Resume | WorkerEvent::Reset | WorkerEvent::DeviceDeleted
        | WorkerEvent::Migration => FxExecutionState::Running(pid),
    }
}

/// A reported event, as the manager keeps it.
#[derive(Debug)]
pub struct QemuWorkerEvent {
    pub fx_id: FxId,
    pub event: WorkerEvent,
    pub state: FxExecutionState,
}

impl Clone for QemuWorkerEvent {
    fn clone(&self) -> (r: Self)
        ensures
            r == *self,
    {
        QemuWorkerEvent {
            fx_id: self.fx_id.clone(),
            event: self.event,
            state: self.state.clone(),
        }
    }
}

/// A reported event, as the manager keeps it.
pub fn forward_worker_event(fx_id: &FxId, pid: u32, event: WorkerEvent) -> (r: QemuWorkerEvent)
    ensures
        r.fx_id == *fx_id,
        r.event == event,
        r.state@ == event_state(event, pid),
{
    QemuWorkerEvent { fx_id: fx_id.clone(), event, state: state_from_worker_event(&event, pid) }
}

/// The commands that a worker is told again and again: to ask for the status
/// and the disks, and with a guest agent also to ask whether it is there and
/// what it knows.
pub open spec fn scheduled(guest_agent: bool) -> Seq<WorkerCommand> {
    let always = seq![WorkerCommand::Qmp(QmpCmd::Status), WorkerCommand::Qmp(QmpCmd::QueryBlock)];
    if guest_agent {
        always + seq![
            WorkerCommand::GuestAgent(GuestAgentCmd::Ping),
            WorkerCommand::GuestAgent(GuestAgentCmd::Info),
        ]
    } else {
        always
    }
}

/// The commands that a worker is told again and again.
pub fn scheduled_commands(guest_agent_enabled: bool) -> (r: Vec<WorkerCommand>)
    ensures
        r@ == scheduled(guest_agent_enabled),
{
    let mut commands: Vec<WorkerCommand> = Vec::new();
    commands.push(WorkerCommand::Qmp(QmpCmd::Status));
    commands.push(WorkerCommand::Qmp(QmpCmd::QueryBlock));
    if guest_agent_enabled {
        commands.push(WorkerCommand::GuestAgent(GuestAgentCmd::Ping));
        commands.push(WorkerCommand::GuestAgent(GuestAgentCmd::Info));
    }
    proof {
        assert(commands@ =~= scheduled(guest_agent_enabled));
    }
    commands
}

/// The commands that a worker schedules as it begins; without the events of
/// QEMU it ends at once.
pub fn worker_start(events_available: bool, guest_agent_enabled: bool) -> (r: Option<
    Vec<WorkerCommand>,
>)
    ensures
        r is Some == events_available,
        r is Some ==> r->0@ == scheduled(guest_agent_enabled),
{
    if events_available {
        Some(scheduled_commands(guest_agent_enabled))
    } else {
        None
    }
}

/// What reaches a worker.
#[derive(Clone, Copy, Debug, PartialEq, Eq, Structural)]
pub enum WorkerInput {
    /// A command.
    Command(WorkerCommand),
    /// That no more commands will come.
    CommandsClosed,
    /// An event of QEMU.
    Event(QmpEvent),
    /// That no more events will come.
    EventsClosed,
}

/// What a worker does.
#[derive(Clone, Copy, Debug, PartialEq, Eq, Structural)]
pub enum WorkerAction {
    /// Ends the scheduled commands and the watch, and itself.
    Stop,
    /// Asks QEMU for its status.
    QueryStatus,
    /// Asks QEMU for its disks.
    QueryBlock,
    /// Asks QEMU to power the machine down, if it offers that.
    Powerdown,
    /// Sends a command to the guest agent.
    Agent(GuestAgentCmd),
    /// Reports an event.
    Report(WorkerEvent),
    /// Nothing: QEMU or the guest agent does not offer what is asked for.
    Unsupported,
    /// Nothing: the event is of no interest.
    Ignore,
}

/// The name of a guest-agent command.
pub open spec fn agent_command(cmd: GuestAgentCmd) -> &'static str {
    match cmd {
        GuestAgentCmd::Ping => "guest-ping",
        GuestAgentCmd::Info => "guest-info",
    }
}

/// The name of a guest-agent command.
pub fn guest_agent_command(cmd: GuestAgentCmd) -> (r: &'static str)
    ensures
        r == agent_command(cmd),
{
    match cmd {
        GuestAgentCmd::Ping => "guest-ping",
        GuestAgentCmd::Info => "guest-info",
    }
}

/// Whether a guest agent offers a command.
pub open spec fn agent_offers(handle: QemuHandle, cmd: GuestAgentCmd) -> bool {
    handle.ga_info is Some && enables(
        handle.ga_info->0.supported_commands@,
        agent_command(cmd)@,
    )
}

/// What a worker does about what reaches it.
pub open spec fn worker_action(handle: QemuHandle, input: WorkerInput) -> WorkerAction {
    match input {
        WorkerInput::CommandsClosed | WorkerInput::EventsClosed => WorkerAction::Stop,
        WorkerInput::Command(WorkerCommand::Shutdown) => WorkerAction::Stop,
        WorkerInput::Command(WorkerCommand::Qmp(QmpCmd::Status)) => WorkerAction::QueryStatus,
        WorkerInput::Command(WorkerCommand::Qmp(QmpCmd::QueryBlock)) => if offers(
            handle.schema@,
            "query-block"@,
        ) || offers(handle.schema@, "query_block"@) {
            WorkerAction::QueryBlock
        } else {
            WorkerAction::Unsupported
        },
        WorkerInput::Command(WorkerCommand::Qmp(QmpCmd::SystemPowerdown)) => WorkerAction::Powerdown,
        WorkerInput::Command(WorkerCommand::GuestAgent(cmd)) => if agent_offers(handle, cmd) {
            WorkerAction::Agent(cmd)
        } else {
            WorkerAction::Unsupported
        },
        WorkerInput::Event(event) => match reported(event) {
            Some(report) => WorkerAction::Report(report),
            None => WorkerAction::Ignore,
        },
    }
}

/// What a worker does about what reaches it.
pub fn worker_process(handle: &QemuHandle, input: WorkerInput) -> (r: WorkerAction)
    ensures
        r == worker_action(*handle, input),
{
    match input {
        WorkerInput::CommandsClosed | WorkerInput::EventsClosed => WorkerAction::Stop,
        WorkerInput::Command(command) => match command {
            WorkerCommand::Shutdown => WorkerAction::Stop,
            WorkerCommand::Qmp(cmd) => match cmd {
                QmpCmd::Status => WorkerAction::QueryStatus,
                QmpCmd::QueryBlock => {
                    if !handle.supported_command("query-block") && !handle.supported_command(
                        "query_block",
                    ) {
                        WorkerAction::Unsupported
                    } else {
                        WorkerAction::QueryBlock
                    }
                },
                QmpCmd::SystemPowerdown => WorkerAction::Powerdown,
            },
            WorkerCommand::GuestAgent(cmd) => {
                match call_supported_ga_api(handle, guest_agent_command(cmd)) {
                    Ok(_) => WorkerAction::Agent(cmd),
                    Err(_) => WorkerAction::Unsupported,
                }
            },
        },
        WorkerInput::Event(event) => match handle_event(event) {
            Some(report) => WorkerAction::Report(report),
            None => WorkerAction::Ignore,
        },
    }
}

/// A worker ends when it is told to or when nothing more can reach it, and at
/// no other time.
pub proof fn law_worker_ends_when_told(handle: QemuHandle, input: WorkerInput)
    ensures
        worker_action(handle, input) is Stop <==> input is CommandsClosed || input is EventsClosed
            || input == WorkerInput::Command(WorkerCommand::Shutdown),
{
}

/// A reported event leaves the machine stopped, paused, running or in error,
/// and while it runs or pauses it does so as the process that it was.
pub proof fn law_events_keep_process(event: WorkerEvent, pid: u32)
    ensures
        match event_state(event, pid) {
            StateModel::Stopped | StateModel::Error(_) => true,
            StateModel::Running(p) => p == pid,
            StateModel::Paused(p) => p == pid,
            _ => false,
        },
{
}

/// The events that are reported, each as what it is; both of the events of a
/// migration are reported as one, and all others are not reported.
pub proof fn law_reported_events(event: QmpEvent, report: WorkerEvent)
    ensures
        reported(event) == Some(report) <==> {
            ||| event is Shutdown && report is Shutdown
            ||| event is Powerdown && report is Powerdown
            ||| event is Reset && report is Reset
            ||| event is Stop && report is Stop
            ||| event is Resume && report is Resume
            ||| event is Suspend && report is Suspend
            ||| event is Watchdog && report is Watchdog
            ||| event is GuestPanicked && report is Panic
            ||| event is MemoryFailure && report is MemoryFailure
            ||| event is BlockImageCorrupted && report is BlockImageCorrupted
            ||| event is BlockIoError && report is BlockIoError
            ||| event is Migration && report is Migration
            ||| event is MigrationPass && report is Migration
            ||| event is DeviceDeleted && report is DeviceDeleted
            ||| event is DeviceUnplugGuestError && report is DeviceUnplugGuestError
        },
{
}

/// The state that each event leaves a machine in: it has stopped after a
/// shutdown or a power-down, is paused after a stop or a suspension, and runs
/// after a resumption, a reset, a migration or the removal of a device; the
/// failures are errors that say what failed.
pub proof fn law_event_states(event: WorkerEvent, pid: u32)
    ensures
        event_state(event, pid) is Stopped <==> event is Shutdown || event is Powerdown,
        event_state(event, pid) == StateModel::Paused(pid) <==> event is Stop || event is Suspend,
        event_state(event, pid) == StateModel::Running(pid) <==> event is Resume || event is Reset
            || event is Migration || event is DeviceDeleted,
        event is Panic ==> event_state(event, pid) == StateModel::Error("guest panicked"@),
        event is Watchdog ==> event_state(event, pid) == StateModel::Error(
            "guest watchdog fired"@,
        ),
        event is BlockIoError ==> event_state(event, pid) == StateModel::Error(
            "qemu block I/O error"@,
        ),
        event is BlockImageCorrupted ==> event_state(event, pid) == StateModel::Error(
            "qemu block image corrupted"@,
        ),
        event is DeviceUnplugGuestError ==> event_state(event, pid) == StateModel::Error(
            "qemu device unplug guest error"@,
        ),
        event is MemoryFailure ==> event_state(event, pid) == StateModel::Error(
            "qemu memory failure"@,
        ),
{
}

/// The status and the disks are always asked for, and the guest agent only where
/// there is one; a worker is never told again and again to end anything.
pub proof fn law_scheduled_commands(guest_agent: bool, command: WorkerCommand)
    ensures
        scheduled(guest_agent).len() == (if guest_agent {
            4int
        } else {
            2int
        }),
        scheduled(guest_agent).contains(command) <==> match command {
            WorkerCommand::Shutdown => false,
            WorkerCommand::Qmp(cmd) => cmd is Status || cmd is QueryBlock,
            WorkerCommand::GuestAgent(_) => guest_agent,
        },
{
    let all = scheduled(guest_agent);
    assert(all[0] == WorkerCommand::Qmp(QmpCmd::Status));
    assert(all[1] == WorkerCommand::Qmp(QmpCmd::QueryBlock));
    if guest_agent {
        assert(all[2] == WorkerCommand::GuestAgent(GuestAgentCmd::Ping));
        assert(all[3] == WorkerCommand::GuestAgent(GuestAgentCmd::Info));
    }
}

/// What a worker does with a command: the status and the power-down are passed
/// on to QEMU, the disks are asked for where QEMU offers the command, in either
/// notation, and the guest agent is asked only for what it offers.
pub proof fn law_worker_obeys(handle: QemuHandle, cmd: GuestAgentCmd)
    ensures
        worker_action(handle, WorkerInput::Command(WorkerCommand::Qmp(QmpCmd::Status)))
            is QueryStatus,
        worker_action(handle, WorkerInput::Command(WorkerCommand::Qmp(QmpCmd::SystemPowerdown)))
            is Powerdown,
        worker_action(handle, WorkerInput::Command(WorkerCommand::Qmp(QmpCmd::QueryBlock))) == (
        if offers(handle.schema@, "query-block"@) || offers(handle.schema@, "query_block"@) {
            WorkerAction::QueryBlock
        } else {
            WorkerAction::Unsupported
        }),
        ({
            let name = if cmd is Ping {
                "guest-ping"@
            } else {
                "guest-info"@
            };
            let offered = handle.ga_info is Some && enables(
                handle.ga_info->0.supported_commands@,
                name,
            );
            worker_action(handle, WorkerInput::Command(WorkerCommand::GuestAgent(cmd))) == (
            if offered {
                WorkerAction::Agent(cmd)
            } else {
                WorkerAction::Unsupported
            })
        }),
{
}

/// A worker reports what an event is reported as, and passes over the others.
pub proof fn law_worker_reports(handle: QemuHandle, event: QmpEvent, report: WorkerEvent)
    ensures
        worker_action(handle, WorkerInput::Event(event)) == WorkerAction::Report(report) <==> reported(
            event,
        ) == Some(report),
        worker_action(handle, WorkerInput::Event(event)) is Ignore <==> reported(event) is None,
{
}

} // verus!
