use becky::engine::os::Arch;
use becky::engine::state::FxExecutionState;
use becky::engine::sys_conf::SystemConfiguration;
use becky::engine::verify::Verification;
use becky::fx_id::FxId;
use becky::io_error::IoError;
use becky::io_error::IoErrorKind;
use becky::qemu::comm::call_api;
use becky::qemu::comm::call_ga_api;
use becky::qemu::comm::call_supported_ga_api;
use becky::qemu::comm::try_connect_ctl_socket;
use becky::qemu::comm::try_connect_ga_socket;
use becky::qemu::comm::try_monitor_qemu_with_api;
use becky::qemu::comm::ApiReply;
use becky::qemu::comm::ConnectStep;
use becky::qemu::comm::MonitorAnswer;
use becky::qemu::comm::SocketAttempt;
use becky::qemu::errors::AllocateError;
use becky::qemu::errors::ArchiveError;
use becky::qemu::errors::CallApiError;
use becky::qemu::errors::CreateError;
use becky::qemu::errors::QemuManagerStopError;
use becky::qemu::errors::SpawnError;
use becky::qemu::errors::VerifyError;
use becky::qemu::handle::command_name_matches;
use becky::qemu::handle::ga_supports_command;
use becky::qemu::handle::normalize_command_name;
use becky::qemu::handle::schema_supports_command;
use becky::qemu::handle::GuestAgentCommandInfo;
use becky::qemu::handle::GuestAgentInfo;
use becky::qemu::handle::QemuHandle;
use becky::qemu::handle::SchemaInfo;
use becky::qemu::handle::VersionInfo;
use becky::qemu::instance::live_pid_from_pidfile;
use becky::qemu::instance::reconcile_existing_files;
use becky::qemu::instance::state_from_qmp_status;
use becky::qemu::instance::AllocateAnswer;
use becky::qemu::instance::AllocatePhase;
use becky::qemu::instance::QemuInstance;
use becky::qemu::instance::QemuStartAnswer;
use becky::qemu::instance::QemuStartPhase;
use becky::qemu::instance::RunState;
use becky::qemu::instance::StatusInfo;
use becky::qemu::instance::VerifyLook;
use becky::qemu::machine::QemuMachineConfiguration;
use becky::qemu::machine::QemuMachineRequest;
use becky::qemu::manager::allocate;
use becky::qemu::manager::runtime_dir_id;
use becky::qemu::manager::runtime_root_error;
use becky::qemu::manager::wait_for_process_exit;
use becky::qemu::manager::ExitStep;
use becky::qemu::manager::QemuManager;
use becky::qemu::manager::RecordedStep;
use becky::qemu::manager::RuntimeEntry;
use becky::qemu::manager::StopAnswer;
use becky::qemu::manager::StopPhase;
use becky::qemu::manager::WatchPhase;
use becky::qemu::plan::HostFacts;
use becky::qemu::worker::forward_worker_event;
use becky::qemu::worker::handle_event;
use becky::qemu::worker::state_from_worker_event;
use becky::qemu::worker::worker_process;
use becky::qemu::worker::worker_start;
use becky::qemu::worker::GuestAgentCmd;
use becky::qemu::worker::QmpCmd;
use becky::qemu::worker::QmpEvent;
use becky::qemu::worker::WorkerAction;
use becky::qemu::worker::WorkerCommand;
use becky::qemu::worker::WorkerEvent;
use becky::qemu::worker::WorkerInput;
use becky::utils::HostOs;
use becky::utils::Process;

fn sys() -> SystemConfiguration {
    SystemConfiguration {
        emulator_paths: vec![],
        binary_paths: vec![],
        run_path: "/run".to_string(),
        vm_root_path: "/vm".to_string(),
        vm_data_root_path: "/data".to_string(),
        os_cache_root_path: "/os".to_string(),
    }
}

fn host() -> HostFacts {
    HostFacts {
        os: HostOs::Linux,
        kvm_available: false,
        emulator_exists: vec![],
        which: Ok("/usr/bin/qemu-system-x86_64".to_string()),
    }
}

fn machine() -> QemuMachineConfiguration {
    QemuMachineRequest::default_for_host(Arch::Amd64).to_machine_configuration(&sys())
}

fn instance(id: u64) -> QemuInstance {
    match QemuInstance::existing_or_new(&sys(), machine(), &FxId::U64(id), &host(), None) {
        Ok(qemu) => qemu,
        Err(err) => panic!("the machine should be made: {err:?}"),
    }
}

fn io_error(kind: IoErrorKind) -> IoError {
    IoError { kind, message: "failed".to_string() }
}

fn command(name: &str) -> SchemaInfo {
    SchemaInfo::Command { name: name.to_string() }
}

fn qemu_process(pid: u32) -> Process {
    Process { pid, name: "qemu".to_string(), args: vec![] }
}

fn agent_command(name: &str, enabled: bool) -> GuestAgentCommandInfo {
    GuestAgentCommandInfo { enabled, name: name.to_string(), success_response: true }
}

fn handle(commands: &[&str]) -> QemuHandle {
    QemuHandle {
        process: qemu_process(42),
        version: None,
        schema: commands.iter().map(|name| command(name)).collect(),
        ga_info: Some(GuestAgentInfo {
            version: "9.0".to_string(),
            supported_commands: vec![agent_command("guest-ping", true), agent_command("guest-info", false)],
        }),
    }
}

#[test]
fn schema_supports_command_matches_case_insensitively() {
    let schema = vec![command("query-status")];

    assert!(schema_supports_command(&schema, "QUERY-STATUS"));
    assert!(!schema_supports_command(&schema, "query-block"));
    assert!(!schema_supports_command(&vec![SchemaInfo::Other { name: "query-status".to_string() }], "query-status"));
}

#[test]
fn ga_supports_command_matches_enabled_commands_only() {
    let commands = vec![agent_command("guest-ping", true), agent_command("guest-shutdown", false)];

    assert!(ga_supports_command(&commands, "GUEST_PING"));
    assert!(!ga_supports_command(&commands, "guest-shutdown"));
    assert!(!ga_supports_command(&commands, "guest-info"));
}

#[test]
fn command_names_are_normalized() {
    assert_eq!(normalize_command_name("Guest_Get_OSInfo"), "guest-get-osinfo");
    assert!(command_name_matches("guest_ping", "GUEST-PING"));
    assert!(!command_name_matches("guest_ping", "guestping"));
}

#[test]
fn worker_events_map_to_execution_state() {
    assert_eq!(state_from_worker_event(&WorkerEvent::Shutdown, 42), FxExecutionState::Stopped);
    assert_eq!(state_from_worker_event(&WorkerEvent::Powerdown, 42), FxExecutionState::Stopped);
    assert_eq!(state_from_worker_event(&WorkerEvent::Stop, 42), FxExecutionState::Paused(42));
    assert_eq!(state_from_worker_event(&WorkerEvent::Suspend, 42), FxExecutionState::Paused(42));
    assert_eq!(state_from_worker_event(&WorkerEvent::Resume, 42), FxExecutionState::Running(42));
    assert_eq!(state_from_worker_event(&WorkerEvent::Reset, 42), FxExecutionState::Running(42));
    assert_eq!(
        state_from_worker_event(&WorkerEvent::Panic, 42),
        FxExecutionState::Error("guest panicked".to_string())
    );
    assert_eq!(
        state_from_worker_event(&WorkerEvent::BlockIoError, 42),
        FxExecutionState::Error("qemu block I/O error".to_string())
    );
    assert_eq!(state_from_worker_event(&WorkerEvent::DeviceDeleted, 42), FxExecutionState::Running(42));
    assert_eq!(state_from_worker_event(&WorkerEvent::Migration, 42), FxExecutionState::Running(42));
}

#[test]
fn wait_for_process_exit_returns_for_missing_pid() {
    assert_eq!(wait_for_process_exit(false, 0, 1), ExitStep::Exited);
    assert_eq!(wait_for_process_exit(true, 0, 1), ExitStep::LookAfter(100));
    assert_eq!(wait_for_process_exit(true, 1, 1), ExitStep::TimedOut);
}

#[test]
fn workers_act_on_commands_and_events() {
    let handle = handle(&["query-status", "QUERY_BLOCK"]);
    let act = |input: WorkerInput| worker_process(&handle, input);
    assert_eq!(act(WorkerInput::CommandsClosed), WorkerAction::Stop);
    assert_eq!(act(WorkerInput::EventsClosed), WorkerAction::Stop);
    assert_eq!(act(WorkerInput::Command(WorkerCommand::Shutdown)), WorkerAction::Stop);
    assert_eq!(act(WorkerInput::Command(WorkerCommand::Qmp(QmpCmd::Status))), WorkerAction::QueryStatus);
    assert_eq!(act(WorkerInput::Command(WorkerCommand::Qmp(QmpCmd::QueryBlock))), WorkerAction::QueryBlock);
    assert_eq!(act(WorkerInput::Command(WorkerCommand::Qmp(QmpCmd::SystemPowerdown))), WorkerAction::Powerdown);
    assert_eq!(
        act(WorkerInput::Command(WorkerCommand::GuestAgent(GuestAgentCmd::Ping))),
        WorkerAction::Agent(GuestAgentCmd::Ping)
    );
    assert_eq!(
        act(WorkerInput::Command(WorkerCommand::GuestAgent(GuestAgentCmd::Info))),
        WorkerAction::Unsupported
    );
    assert_eq!(act(WorkerInput::Event(QmpEvent::GuestPanicked)), WorkerAction::Report(WorkerEvent::Panic));
    assert_eq!(act(WorkerInput::Event(QmpEvent::RtcChange)), WorkerAction::Ignore);
    assert_eq!(handle_event(QmpEvent::Shutdown), Some(WorkerEvent::Shutdown));
    assert_eq!(handle_event(QmpEvent::VncConnected), None);
    let forwarded = forward_worker_event(&FxId::U64(3), 42, WorkerEvent::Stop);
    assert_eq!(forwarded.fx_id, FxId::U64(3));
    assert_eq!(forwarded.state, FxExecutionState::Paused(42));
}

#[test]
fn workers_begin_with_what_they_poll() {
    assert!(worker_start(false, true).is_none());
    assert_eq!(
        worker_start(true, false),
        Some(vec![WorkerCommand::Qmp(QmpCmd::Status), WorkerCommand::Qmp(QmpCmd::QueryBlock)])
    );
    assert_eq!(worker_start(true, true).map(|commands| commands.len()), Some(4));
}

#[test]
fn sockets_are_tried_until_the_deadline() {
    assert_eq!(try_connect_ctl_socket(SocketAttempt::Connected, 2_999, 3, 100), ConnectStep::Connected);
    assert_eq!(try_connect_ctl_socket(SocketAttempt::Connected, 9_000, 3, 100), ConnectStep::TimedOut);
    assert_eq!(try_connect_ctl_socket(SocketAttempt::OpenFailed, 2_900, 3, 100), ConnectStep::RetryAfter(100));
    assert_eq!(try_connect_ctl_socket(SocketAttempt::OpenFailed, 2_999, 3, 100), ConnectStep::RetryAfter(1));
    assert_eq!(try_connect_ctl_socket(SocketAttempt::OpenFailed, 0, 1, 5_000), ConnectStep::RetryAfter(1_000));
    assert_eq!(try_connect_ctl_socket(SocketAttempt::NegotiateFailed, 3_000, 3, 100), ConnectStep::TimedOut);
    assert_eq!(try_connect_ctl_socket(SocketAttempt::NegotiateFailed, 7, u64::MAX, u64::MAX), ConnectStep::RetryAfter(u64::MAX));
    assert_eq!(try_connect_ga_socket(true, 0, 3, 100), ConnectStep::Connected);
    assert_eq!(try_connect_ga_socket(true, 3_001, 3, 100), ConnectStep::TimedOut);
    assert_eq!(try_connect_ga_socket(false, 2_950, 3, 100), ConnectStep::RetryAfter(50));
    assert_eq!(try_connect_ga_socket(false, 3_000, 3, 100), ConnectStep::TimedOut);
}

#[test]
fn the_monitored_machine_is_described() {
    let mut monitoring = try_monitor_qemu_with_api();
    monitoring.advance(MonitorAnswer::Contents(Ok("42\n".to_string())));
    monitoring.advance(MonitorAnswer::Found(Some(qemu_process(42))));
    monitoring.advance(MonitorAnswer::Version(Ok(VersionInfo {
        major: 9,
        minor: 1,
        micro: 0,
        package: String::new(),
    })));
    monitoring.advance(MonitorAnswer::Schema(Ok(vec![command("query-status")])));
    match monitoring.result() {
        Some(Ok(handle)) => {
            assert_eq!(handle.process.pid, 42);
            assert_eq!(handle.version().map(|version| version.major), Some(9));
            assert!(handle.supported_command("Query-Status"));
            assert!(!handle.supported_command("query_status"));
            assert!(handle.guest_agent_info().is_none());
            assert!(!handle.supported_ga_command("guest-ping"));
        }
        other => panic!("the machine should be watched: {other:?}"),
    }

    let mut monitoring = try_monitor_qemu_with_api();
    monitoring.advance(MonitorAnswer::Contents(Ok("no".to_string())));
    assert!(matches!(monitoring.result(), Some(Err(SpawnError::ParsePid(_)))));
    let mut monitoring = try_monitor_qemu_with_api();
    monitoring.advance(MonitorAnswer::Contents(Ok("42".to_string())));
    monitoring.advance(MonitorAnswer::Found(None));
    assert!(matches!(monitoring.result(), Some(Err(SpawnError::PidNotFound))));
}

#[test]
fn replies_become_results() {
    assert_eq!(call_api(Ok(1)), Ok(1));
    assert_eq!(call_api::<u8>(Err("x".to_string())), Err(CallApiError::Executor("x".to_string())));
    assert_eq!(call_ga_api(false, ApiReply::Answered(1)), Err(CallApiError::NoGaAvailable));
    assert_eq!(call_ga_api(true, ApiReply::Answered(1)), Ok(1));
    assert_eq!(call_ga_api::<u8>(true, ApiReply::TimedOut), Err(CallApiError::Timeout));
    let handle = handle(&["system-powerdown"]);
    assert_eq!(call_supported_ga_api(&handle, "guest-ping"), Ok(()));
    assert_eq!(
        call_supported_ga_api(&handle, "guest-info"),
        Err(CallApiError::UnsupportedGuestAgentCommand("guest-info"))
    );
    assert_eq!(QemuInstance::fx_stop(&handle), Ok(()));
}

#[test]
fn a_running_machine_is_attached_to() {
    let qemu = instance(7);
    let mut start = qemu.fx_start();
    start.advance(QemuStartAnswer::Live(Some(42)));
    start.advance(QemuStartAnswer::Exists(true));
    start.advance(QemuStartAnswer::Connected(true));
    assert_eq!(start.phase, QemuStartPhase::AttachMonitor);
    assert_eq!(start.state(), None);
    start.advance(QemuStartAnswer::Monitored(Ok(42)));
    assert_eq!(start.state(), Some(FxExecutionState::Running(42)));
    assert!(start.record(&instance(7)).is_none());
    start.advance(QemuStartAnswer::Updated(true));
    assert_eq!(start.state(), None);
    assert_eq!(start.record(&instance(7)), Some(instance(7).metadata_record(Some(42)).clone()));
    start.advance(QemuStartAnswer::Updated(true));
    assert!(matches!(start.result(), Some(Ok(Some(42)))));
}

#[test]
fn a_machine_that_is_not_running_is_started() {
    let mut qemu = instance(7);
    let mut start = qemu.fx_start();
    start.advance(QemuStartAnswer::Live(None));
    start.advance(QemuStartAnswer::Reconciled);
    assert_eq!(start.phase, QemuStartPhase::CreateLogDir);
    start.advance(QemuStartAnswer::Created(Ok(())));
    start.advance(QemuStartAnswer::Spawned(Ok(())));
    start.advance(QemuStartAnswer::Connected(false));
    assert!(matches!(start.result(), Some(Err(SpawnError::Timeout))));
    let mut attach = qemu.try_attach_existing();
    attach.advance(QemuStartAnswer::Live(None));
    attach.advance(QemuStartAnswer::Reconciled);
    assert!(matches!(attach.result(), Some(Ok(None))));
    qemu.prepare_spawn();
    assert_eq!(qemu.cmd.stdout_path, Some("/vm/7/log/qemu_stdout.log".to_string()));
    assert_eq!(qemu.log_dir(), "/vm/7/log");
}

#[test]
fn the_guest_agent_is_asked_last() {
    let mut machine = machine();
    let mut common = machine.conf.common().clone();
    common.enable_guest_agent = true;
    machine.conf = becky::qemu::machine::default_machine_configuration_by_host(common, Arch::Amd64);
    let qemu = match QemuInstance::existing_or_new(&sys(), machine, &FxId::U64(7), &host(), None) {
        Ok(qemu) => qemu,
        Err(err) => panic!("the machine should be made: {err:?}"),
    };
    assert!(qemu.has_ga());
    let mut start = qemu.fx_start();
    start.advance(QemuStartAnswer::Live(Some(42)));
    start.advance(QemuStartAnswer::Exists(true));
    start.advance(QemuStartAnswer::Connected(true));
    start.advance(QemuStartAnswer::Monitored(Ok(42)));
    start.advance(QemuStartAnswer::Updated(true));
    start.advance(QemuStartAnswer::Updated(true));
    assert_eq!(start.phase, QemuStartPhase::AgentConnect);
    start.advance(QemuStartAnswer::Connected(true));
    start.advance(QemuStartAnswer::Agent(ApiReply::Answered(())));
    start.advance(QemuStartAnswer::Agent(ApiReply::Failed("no".to_string())));
    assert!(matches!(start.result(), Some(Err(SpawnError::Qmp(why))) if why == "no"));
}

#[test]
fn directories_are_allocated_in_order() {
    let qemu = instance(7);
    let mut run = qemu.fx_allocate();
    assert_eq!(qemu.allocate_dir(AllocatePhase::RootDir), Some("/vm/7".to_string()));
    assert_eq!(qemu.allocate_dir(AllocatePhase::DataDir), Some("/data/7".to_string()));
    for _ in 0..4 {
        run.advance(AllocateAnswer::Created(Ok(())));
    }
    assert_eq!(run.phase, AllocatePhase::Storage);
    run.advance(AllocateAnswer::StorageCreated(false));
    assert!(matches!(run.result(), Some(Err(AllocateError::StorageNotOk))));
    let mut run = qemu.fx_allocate();
    run.advance(AllocateAnswer::Created(Err(io_error(IoErrorKind::Other))));
    assert!(matches!(run.result(), Some(Err(AllocateError::Io(_)))));
    assert!(allocate(Ok(()), Ok(())).is_ok());
    assert!(matches!(allocate(Ok(()), Err("db".to_string())), Err(CreateError::Metadata(_))));
    assert!(matches!(allocate(Err(AllocateError::StorageNotOk), Ok(())), Err(CreateError::Allocate(_))));
}

#[test]
fn statuses_are_kept() {
    let mut qemu = instance(7);
    let paused = StatusInfo { running: false, status: RunState::Paused };
    assert!(matches!(qemu.fx_status(42, Ok(paused)), Ok(FxExecutionState::Paused(42))));
    assert_eq!(qemu.status, paused);
    assert!(matches!(qemu.fx_status(42, Err("gone".to_string())), Err(CallApiError::Executor(_))));
    assert!(matches!(qemu.fx_op_verify(VerifyLook::Gone), Ok(Verification::Unknown)));
    assert!(matches!(qemu.fx_op_verify(VerifyLook::Asked(Ok(paused))), Ok(Verification::Match)));
    assert!(matches!(
        qemu.fx_op_verify(VerifyLook::Asked(Err("no".to_string()))),
        Err(VerifyError::CallApiError(CallApiError::Executor(_)))
    ));
    assert_eq!(
        state_from_qmp_status(&StatusInfo { running: false, status: RunState::GuestPanicked }, 1),
        FxExecutionState::Error("guest_panicked".to_string())
    );
}

#[test]
fn machines_are_archived_by_a_snapshot() {
    let qemu = instance(7);
    assert_eq!(qemu.archive_dir().ok(), Some("/vm/7/archive".to_string()));
    match qemu.fx_archive(&handle(&["snapshot-save"]), Ok(())) {
        Ok(save) => {
            assert_eq!(save.job_id, "becky-7");
            assert_eq!(save.vmstate, "/vm/7/archive/vmstate.snap");
            assert_eq!(QemuInstance::archived(save, Ok(())).ok(), Some("/vm/7/archive/vmstate.snap".to_string()));
        }
        Err(err) => panic!("the machine should be archived: {err:?}"),
    }
    assert!(matches!(
        qemu.fx_archive(&handle(&[]), Ok(())),
        Err(ArchiveError::CallApiError(CallApiError::UnsupportedCommand("snapshot-save")))
    ));
}

#[test]
fn stale_files_are_removed_only_when_nothing_runs() {
    let fx_id = FxId::U64(7);
    let table = vec![qemu_process(42)];
    assert_eq!(live_pid_from_pidfile(&Some("42\n".to_string()), &table), Some(42));
    assert_eq!(live_pid_from_pidfile(&Some("43".to_string()), &table), None);
    assert_eq!(live_pid_from_pidfile(&None, &table), None);
    assert!(reconcile_existing_files(&sys(), &fx_id, Some(42)).is_empty());
    assert_eq!(
        reconcile_existing_files(&sys(), &fx_id, None),
        ["/vm/7/run/qemu.pid", "/vm/7/run/ctl.sock", "/vm/7/run/ga.sock"]
    );
}

#[test]
fn the_files_of_a_machine_are_distinct() {
    let fx_id = FxId::U64(7);
    let files = [
        QemuInstance::ctl_socket_path_s("/vm", &fx_id),
        QemuInstance::ctl_socket_log_path_s("/vm", &fx_id),
        QemuInstance::pid_path_s("/vm", &fx_id),
        QemuInstance::ctl_debug_socket_path_s("/vm", &fx_id),
        QemuInstance::ctl_debug_socket_log_path_s("/vm", &fx_id),
        QemuInstance::ctl_readline_socket_path_s("/vm", &fx_id),
        QemuInstance::ctl_readline_socket_log_path_s("/vm", &fx_id),
        QemuInstance::ga_socket_path_s("/vm", &fx_id),
        QemuInstance::ga_socket_log_path_s("/vm", &fx_id),
    ];
    for (i, a) in files.iter().enumerate() {
        assert!(a.starts_with("/vm/7/"));
        for b in &files[i + 1..] {
            assert_ne!(a, b);
        }
    }
    assert_eq!(files[8], "/vm/7/log/guest_agent.log");
}

#[test]
fn the_manager_discovers_running_machines() {
    let mut manager = QemuManager::new(sys());
    let entry = |name: &str, pid: Option<u32>| {
        Ok(RuntimeEntry { is_dir: true, name: Some(name.to_string()), live: pid, runtime_pid: pid })
    };
    let entries = vec![
        entry("7", Some(42)),
        entry("8", None),
        Ok(RuntimeEntry { is_dir: false, name: Some("9".to_string()), live: Some(1), runtime_pid: Some(1) }),
        entry("vm", Some(43)),
    ];
    match manager.discover_existing_from_runtime_dir(&machine(), &host(), entries) {
        Ok(found) => assert_eq!(found, [(FxId::U64(7), 42), (FxId::String("vm".to_string()), 43)]),
        Err(err) => panic!("the machines should be found: {err:?}"),
    }
    assert_eq!(manager.vms.len(), 2);

    let mut manager = QemuManager::new(sys());
    let entries = vec![entry("7", Some(42)), Err(io_error(IoErrorKind::Other)), entry("8", Some(43))];
    assert!(matches!(
        manager.discover_existing_from_runtime_dir(&machine(), &host(), entries),
        Err(CreateError::Io(_))
    ));
    assert_eq!(manager.vms.len(), 1);
    assert_eq!(runtime_dir_id(true, &None), None);
    assert!(runtime_root_error(io_error(IoErrorKind::NotFound)).is_ok());
    assert!(runtime_root_error(io_error(IoErrorKind::Other)).is_err());
}

#[test]
fn the_manager_registers_recorded_machines() {
    let mut manager = QemuManager::new(sys());
    let record = instance(7).metadata_record(Some(42));
    assert!(matches!(
        manager.register_recorded(&record, FxId::U64(7), None, None),
        Ok(RecordedStep::MarkStopped)
    ));
    assert!(matches!(
        manager.register_recorded(&record, FxId::U64(7), Some(42), Some(42)),
        Ok(RecordedStep::Registered(42))
    ));
    assert_eq!(manager.vms.len(), 1);
    let mut broken = instance(7).metadata_record(None);
    broken.command_line = "x".to_string();
    assert!(matches!(
        manager.register_recorded(&broken, FxId::U64(7), None, None),
        Err(CreateError::ParseQemuCommand(_))
    ));
}

#[test]
fn workers_are_started_for_machines_without_one() {
    let mut manager = QemuManager::new(sys());
    for id in [7, 8, 9] {
        assert!(manager.register_existing(machine(), FxId::U64(id), &host(), Some(1), Some(1)).is_ok());
    }
    manager.watcher_started(&FxId::U64(8), 80);
    let mut run = manager.run_watchers();
    assert_eq!(run.pending, [FxId::U64(7), FxId::U64(9)]);
    assert!(matches!(run.next(), Some((FxId::U64(7), WatchPhase::Attach))));
    run.advance(&mut manager, Ok(None));
    assert!(matches!(run.next(), Some((FxId::U64(7), WatchPhase::Start))));
    run.advance(&mut manager, Err(SpawnError::Timeout));
    assert!(matches!(run.next(), Some((FxId::U64(9), WatchPhase::Attach))));
    run.advance(&mut manager, Ok(Some(90)));
    assert!(run.next().is_none());
    assert_eq!(run.started, [FxId::U64(9)]);
    assert!(!manager.is_watched(&FxId::U64(7)));
    assert!(manager.is_watched(&FxId::U64(9)));
    let taken = manager.take_workers();
    assert_eq!(taken.len(), 2);
    assert!(!manager.is_watched(&FxId::U64(9)));
}

#[test]
fn the_manager_creates_and_stops_machines() {
    let mut manager = QemuManager::new(sys());
    let fx_id = FxId::U64(7);
    assert!(matches!(manager.stop(&fx_id), Err(QemuManagerStopError::NotFound(FxId::U64(7)))));
    assert!(matches!(
        manager.create(fx_id.clone(), instance(7), Err(SpawnError::Db), Ok(Verification::Match)),
        Err(CreateError::Spawn(SpawnError::Db))
    ));
    assert!(manager.create(fx_id.clone(), instance(7), Ok(42), Ok(Verification::Match)).is_ok());
    let mut stop = match manager.stop(&fx_id) {
        Ok(stop) => stop,
        Err(err) => panic!("the machine should be known: {err:?}"),
    };
    assert_eq!(stop.pid, 42);
    stop.advance(&mut manager, StopAnswer::Sent(Ok(())));
    stop.advance(&mut manager, StopAnswer::Exited(true));
    assert_eq!(stop.phase, StopPhase::EndWorker);
    assert!(!manager.is_watched(&fx_id));
    assert_eq!(manager.vms.len(), 1);
    assert_eq!(stop.state(), None);
    stop.advance(&mut manager, StopAnswer::Joined(Ok(())));
    assert_eq!(stop.state(), Some(FxExecutionState::Stopped));
    stop.advance(&mut manager, StopAnswer::Updated(Ok(())));
    stop.advance(&mut manager, StopAnswer::Updated(Ok(())));
    assert!(matches!(stop.result(), Some(Ok(()))));
    assert!(manager.vms.is_empty());

    assert!(manager.create(fx_id.clone(), instance(7), Ok(42), Ok(Verification::Match)).is_ok());
    let mut stop = match manager.stop(&fx_id) {
        Ok(stop) => stop,
        Err(err) => panic!("the machine should be known: {err:?}"),
    };
    stop.advance(&mut manager, StopAnswer::Sent(Ok(())));
    stop.advance(&mut manager, StopAnswer::Exited(false));
    assert!(matches!(
        stop.result(),
        Some(Err(QemuManagerStopError::Timeout { fx_id: FxId::U64(7), pid: 42, timeout_secs: 30 }))
    ));
    assert_eq!(manager.vms.len(), 1);
    assert!(manager.is_watched(&fx_id));

    let mut stop = match manager.stop(&fx_id) {
        Ok(stop) => stop,
        Err(err) => panic!("the machine should be known: {err:?}"),
    };
    stop.advance(&mut manager, StopAnswer::Sent(Ok(())));
    stop.advance(&mut manager, StopAnswer::Exited(true));
    stop.advance(&mut manager, StopAnswer::Joined(Err("lost".to_string())));
    assert!(matches!(stop.result(), Some(Err(QemuManagerStopError::Join(_)))));
    assert_eq!(manager.vms.len(), 1);
    assert!(!manager.is_watched(&fx_id));
}

#[test]
fn the_manager_follows_its_workers() {
    let mut manager = QemuManager::new(sys());
    let fx_id = FxId::U64(7);
    assert!(manager.create(fx_id.clone(), instance(7), Ok(42), Ok(Verification::Match)).is_ok());
    let (state, record) = manager.drain_worker_event(&forward_worker_event(&fx_id, 42, WorkerEvent::Stop));
    assert_eq!(state, FxExecutionState::Paused(42));
    assert_eq!(record.map(|record| record.runtime_pid), Some(Some(42)));
    let (_, record) = manager.drain_worker_event(&forward_worker_event(&FxId::U64(8), 1, WorkerEvent::Stop));
    assert!(record.is_none());
    let paused = StatusInfo { running: false, status: RunState::Paused };
    assert!(matches!(manager.status_reported(&fx_id, 42, Ok(paused)), Some(Ok(FxExecutionState::Paused(42)))));
    assert_eq!(manager.vms[0].1.qemu.status.status, RunState::Paused);
    assert!(matches!(manager.status_reported(&fx_id, 42, Err("gone".to_string())), Some(Err(_))));
    assert_eq!(manager.vms[0].1.qemu.status.status, RunState::IoError);
    assert!(manager.status_reported(&FxId::U64(8), 42, Err("gone".to_string())).is_none());
    assert!(manager.worker_exited(&fx_id, false, false).is_none());
    match manager.worker_exited(&fx_id, true, false) {
        Some(update) => {
            assert_eq!(update.state, FxExecutionState::Stopped);
            assert_eq!(update.record.runtime_pid, None);
        }
        None => panic!("the machine should be updated"),
    }
    assert!(manager.vms.is_empty());
}
