use becky::engine::state::ExitStatus;
use becky::engine::state::FxDesiredExecutionState;
use becky::engine::state::FxExecutionState;
use becky::fx_id::FxId;
use becky::io_error::IoError;
use becky::io_error::IoErrorKind;
use becky::system_command::command_equal;
use becky::system_command::destroy_child;
use becky::system_command::encode_command_id;
use becky::system_command::launch_command_line;
use becky::system_command::parse_pid_file;
use becky::system_command::pid_file_contents;
use becky::system_command::pid_file_path;
use becky::system_command::pid_file_stem;
use becky::system_command::signal_process;
use becky::system_command::wait_for_pid_exit;
use becky::system_command::ChildEnd;
use becky::system_command::FxSysCommandError;
use becky::system_command::FxSystemCommand;
use becky::system_command::FxSystemProcessRunning;
use becky::system_command::NiceLevel;
use becky::system_command::Signal;
use becky::system_command::SignalReport;
use becky::system_command::SignalTarget;
use becky::system_command::StartAnswer;
use becky::system_command::StartPhase;
use becky::system_command::SystemProcessRunningTokio;
use becky::system_command::WaitStep;
use becky::utils::HostOs;
use becky::utils::Process;

fn strings(words: &[&str]) -> Vec<String> {
    words.iter().map(|word| word.to_string()).collect()
}

fn shell(script: &str) -> FxSystemCommand {
    FxSystemCommand::new("/bin/sh".to_string(), strings(&["-c", script]), FxDesiredExecutionState::Running)
}

fn io_error(kind: IoErrorKind, message: &str) -> IoError {
    IoError { kind, message: message.to_string() }
}

fn process(pid: u32, words: &[&str]) -> Process {
    Process { pid, name: "sh".to_string(), args: strings(words) }
}

#[test]
fn test_command_equal_match() {
    let cmd_a = "ls";
    let cmd_a_args = vec!["-l".to_string(), "/tmp".to_string()];
    let cmd_b = strings(&["ls", "-l", "/tmp"]);
    assert!(command_equal(cmd_a, &cmd_a_args, &cmd_b));
}

#[test]
fn test_command_equal_cmd_mismatch() {
    let cmd_a = "ls";
    let cmd_a_args = vec!["-l".to_string()];
    let cmd_b = strings(&["ps", "-l"]);
    assert!(!command_equal(cmd_a, &cmd_a_args, &cmd_b));
}

#[test]
fn test_command_equal_args_mismatch() {
    let cmd_a = "ls";
    let cmd_a_args = vec!["-l".to_string()];
    let cmd_b = strings(&["ls", "-a"]);
    assert!(!command_equal(cmd_a, &cmd_a_args, &cmd_b));
}

#[test]
fn test_command_equal_length_mismatch_b_longer() {
    let cmd_a = "ls";
    let cmd_a_args = vec!["-l".to_string()];
    let cmd_b = strings(&["ls", "-l", "/tmp"]);
    assert!(!command_equal(cmd_a, &cmd_a_args, &cmd_b));
}

#[test]
fn test_command_equal_length_mismatch_a_longer() {
    let cmd_a = "ls";
    let cmd_a_args = vec!["-l".to_string(), "/tmp".to_string()];
    let cmd_b = strings(&["ls", "-l"]);
    assert!(!command_equal(cmd_a, &cmd_a_args, &cmd_b));
}

#[test]
fn test_command_equal_empty_b() {
    let cmd_a = "ls";
    let cmd_a_args = vec![];
    let cmd_b: Vec<String> = vec![];
    assert!(!command_equal(cmd_a, &cmd_a_args, &cmd_b));
}

#[test]
fn launch_command_line_composes_nice() {
    let mut command = shell("true");
    command.nice_level = Some(NiceLevel::default_priority());

    let (cmd, args) = launch_command_line(&command);

    assert_eq!(cmd, "nice");
    assert_eq!(args, ["-n", "0", "/bin/sh", "-c", "true"]);
}

#[test]
fn encoded_ids_do_not_collide_for_space_join_ambiguity() {
    let command_a = FxSystemCommand::new("ab".to_string(), vec!["c d".to_string()], FxDesiredExecutionState::Running);
    let command_b = FxSystemCommand::new("ab c".to_string(), vec!["d".to_string()], FxDesiredExecutionState::Running);

    assert_ne!(command_a.id(), command_b.id());
}

#[test]
fn launch_command_line_composes_taskset_and_nice() {
    let mut command = shell("true");
    command.nice_level = Some(NiceLevel::default_priority());
    command.pin_to_cpus = Some(vec![0, 1]);

    let (cmd, args) = launch_command_line(&command);

    assert_eq!(cmd, "taskset");
    assert_eq!(args, ["-c", "0,1", "nice", "-n", "0", "/bin/sh", "-c", "true"]);
}

#[test]
fn destroy_kills_tokio_child_and_joins_waiter() {
    let mut start = shell("while :; do sleep 1; done").fx_start(&FxId::String("fx".to_string()));
    assert_eq!(start.phase, StartPhase::Scan);
    start.advance(StartAnswer::Processes(vec![process(1, &["/sbin/init"])]));
    assert_eq!(start.phase, StartPhase::Spawn);
    start.advance(StartAnswer::Child(Ok(Some(4711))));
    let running = match start.result() {
        Some(Ok(running)) => running,
        other => panic!("system command should start: {other:?}"),
    };
    assert_eq!(running, FxSystemProcessRunning::Tokio(SystemProcessRunningTokio { pid: 4711 }));
    assert_eq!(running.stop(), (SignalTarget::Group(4711), Signal::Term));
    assert_eq!(running.destroy(), (SignalTarget::Group(4711), Signal::Kill));
    assert!(signal_process(SignalReport::Sent).is_ok());
    assert!(destroy_child(ChildEnd::Waited(Ok(()))).is_ok());
}

#[test]
fn start_accepts_short_lived_child_without_process_table_verification() {
    let mut start = shell("exit 0").fx_start(&FxId::String("fx".to_string()));
    start.advance(StartAnswer::Processes(Vec::new()));
    start.advance(StartAnswer::Child(Ok(Some(12))));
    assert_eq!(start.phase, StartPhase::Spawned(12));

    assert_eq!(
        FxSystemCommand::fx_status_of_child(12, Ok(None)),
        Ok(FxExecutionState::Running(12))
    );
    assert_eq!(
        FxSystemCommand::fx_status_of_child(12, Ok(Some(ExitStatus { raw: 0 }))),
        Ok(FxExecutionState::Exited(ExitStatus { raw: 0 }))
    );
    assert!(FxSystemCommand::fx_status_of_child(12, Err("gone".to_string())).is_err());
}

#[test]
fn pid_files_allow_identical_commands_to_spawn_separately() {
    let mut pids = Vec::new();
    for (id, pid) in [("a", 100), ("b", 101)] {
        let mut command = FxSystemCommand::new("sleep".to_string(), vec!["10".to_string()], FxDesiredExecutionState::Running);
        command.pid_directory = Some("/run/becky".to_string());
        let mut start = command.fx_start(&FxId::String(id.to_string()));
        start.advance(StartAnswer::Text(Err(io_error(IoErrorKind::NotFound, "no such file"))));
        assert_eq!(start.phase, StartPhase::Spawn);
        start.advance(StartAnswer::Child(Ok(Some(pid))));
        assert_eq!(start.phase, StartPhase::WritePidFile(pid, true));
        start.advance(StartAnswer::Finished(Ok(())));
        match start.result() {
            Some(Ok(running)) => pids.push(running.get_pid()),
            other => panic!("command should start: {other:?}"),
        }
    }
    assert_ne!(pids[0], pids[1]);
}

#[test]
fn start_reattaches_from_matching_pid_file() {
    let mut command = shell("while :; do sleep 1; done");
    command.pid_directory = Some("/run/becky".to_string());
    let fx_id = FxId::String("reattach".to_string());
    let pid = 5005;

    let mut start = command.fx_start(&fx_id);
    start.advance(StartAnswer::Text(Ok(pid_file_contents(pid))));
    assert_eq!(start.phase, StartPhase::CheckPidFile(pid));
    start.advance(StartAnswer::CommandLine(Some(strings(&["/bin/sh", "-c", "while :; do sleep 1; done"]))));

    match start.result() {
        Some(Ok(FxSystemProcessRunning::Pid(found_pid))) => assert_eq!(found_pid, pid),
        other => panic!("pid file reattach should return pid-only handle: {other:?}"),
    }
    assert_eq!(start.command.state, FxExecutionState::Running(pid));
}

#[test]
fn a_niced_command_is_found_by_its_own_line() {
    for line in [&["sleep", "10"][..], &["nice", "-n", "0", "sleep", "10"][..]] {
        let mut command = FxSystemCommand::new("sleep".to_string(), vec!["10".to_string()], FxDesiredExecutionState::Running);
        command.pid_directory = Some("/run/becky".to_string());
        command.nice_level = Some(NiceLevel::default());
        let mut start = command.clone().fx_start(&FxId::U64(3));
        start.advance(StartAnswer::Text(Ok(pid_file_contents(77))));
        start.advance(StartAnswer::CommandLine(Some(strings(line))));
        assert!(matches!(start.result(), Some(Ok(FxSystemProcessRunning::Pid(77)))));

        let mut start = command.fx_start(&FxId::U64(3));
        start.advance(StartAnswer::Text(Ok(pid_file_contents(77))));
        start.advance(StartAnswer::CommandLine(Some(strings(&["sleep", "11"]))));
        assert_eq!(start.phase, StartPhase::RemovePidFile);
    }
}

#[test]
fn a_stale_pid_file_is_removed_before_spawning() {
    let mut command = shell("true");
    command.pid_directory = Some("/run/becky".to_string());
    let mut start = command.fx_start(&FxId::U64(3));
    start.advance(StartAnswer::Text(Ok(" 77 \n".to_string())));
    start.advance(StartAnswer::CommandLine(Some(strings(&["/bin/cat"]))));
    assert_eq!(start.phase, StartPhase::RemovePidFile);
    start.advance(StartAnswer::Finished(Ok(())));
    assert_eq!(start.phase, StartPhase::Spawn);
    start.advance(StartAnswer::Child(Ok(None)));
    assert_eq!(start.phase, StartPhase::Cleanup);
    start.advance(StartAnswer::Finished(Ok(())));
    assert_eq!(start.command.state, FxExecutionState::Unknown);
    assert!(matches!(start.result(), Some(Err(_))));
}

#[test]
fn a_recorded_process_is_found_again() {
    let mut command = shell("true");
    command.pid_directory = Some("/run/becky".to_string());
    command.state = FxExecutionState::Running(8);
    let mut start = command.fx_start(&FxId::U64(3));
    start.advance(StartAnswer::Text(Ok("no number".to_string())));
    assert_eq!(start.phase, StartPhase::CheckRecorded(8));
    start.advance(StartAnswer::CommandLine(Some(strings(&["/bin/sh", "-c", "true"]))));
    assert_eq!(start.phase, StartPhase::WritePidFile(8, false));
    start.advance(StartAnswer::Finished(Err(io_error(IoErrorKind::Other, "disk full"))));
    assert!(matches!(start.result(), Some(Err(FxSysCommandError::IO(err))) if err.message == "disk full"));
}

#[test]
fn a_running_command_is_not_spawned_again() {
    let mut start = shell("true").fx_start(&FxId::U64(3));
    start.advance(StartAnswer::Processes(vec![
        process(1, &["/sbin/init"]),
        process(9, &["/bin/sh", "-c", "true"]),
    ]));
    assert_eq!(start.result().map(|r| r.is_ok()), Some(true));
    assert_eq!(start.phase, StartPhase::Attached(9));
}

#[test]
fn a_failed_spawn_ends_the_start() {
    let mut start = shell("true").fx_start(&FxId::U64(3));
    assert!(start.result().is_none());
    start.advance(StartAnswer::Processes(Vec::new()));
    start.advance(StartAnswer::Child(Err(io_error(IoErrorKind::NotFound, "no sh"))));
    assert!(matches!(start.result(), Some(Err(FxSysCommandError::IO(err))) if err.message == "no sh"));
}

#[test]
fn destroy_waits_for_attached_pid_to_exit() {
    let running = FxSystemProcessRunning::Pid(31);
    assert_eq!(running.destroy(), (SignalTarget::Process(31), Signal::Kill));

    let mut wait = wait_for_pid_exit(31);
    for _ in 0..100 {
        assert!(matches!(wait.look(true), WaitStep::Sleep(50)));
    }
    assert!(matches!(
        wait.look(true),
        WaitStep::Over(Err(FxSysCommandError::ProcessDidNotExit(31)))
    ));

    let mut wait = wait_for_pid_exit(31);
    assert!(matches!(wait.look(true), WaitStep::Sleep(50)));
    assert!(matches!(wait.look(false), WaitStep::Over(Ok(()))));
}

#[test]
fn signals_that_do_not_arrive_are_errors() {
    assert!(matches!(signal_process(SignalReport::NoProcess), Err(FxSysCommandError::ProcessNotRunning)));
    assert!(matches!(signal_process(SignalReport::NotSent), Err(FxSysCommandError::SignalFailedToSend)));
    assert!(destroy_child(ChildEnd::WaiterLost("panicked".to_string())).is_err());
    assert!(destroy_child(ChildEnd::WaitedDirectly(Ok(()))).is_ok());
    assert!(matches!(
        destroy_child(ChildEnd::Waited(Err(io_error(IoErrorKind::Other, "x")))),
        Err(FxSysCommandError::IO(_))
    ));
}

#[test]
fn commands_are_made_from_processes() {
    let table = vec![process(4, &["/bin/sh", "-c", "true"]), process(5, &[])];
    match FxSystemCommand::new_from_pid(&table, 4) {
        Ok(command) => {
            assert_eq!(command.command, "/bin/sh");
            assert_eq!(command.args, ["-c", "true"]);
            assert_eq!(command.state, FxExecutionState::Running(4));
            assert!(command.is_running(&table));
        }
        Err(err) => panic!("the process has a command line: {err:?}"),
    }
    assert!(matches!(FxSystemCommand::new_from_pid(&table, 5), Err(FxSysCommandError::EmptyCommand(5))));
    assert!(matches!(FxSystemCommand::new_from_pid(&table, 6), Err(FxSysCommandError::PidNotFound(6))));
}

#[test]
fn the_process_table_decides_the_state() {
    let table = vec![
        process(4, &["/bin/sh", "-c", "true"]),
        process(5, &["/bin/sh", "-c", "true"]),
    ];
    let mut command = shell("true");
    assert!(matches!(command.current_system_state(&table), FxExecutionState::Running(4)));
    assert!(!shell("false").is_running(&table));
    command.state = FxExecutionState::Running(5);
    assert_eq!(command.fx_status_of_pid(5, Some(&table[1])), FxExecutionState::Running(5));
    assert_ne!(command.fx_status_of_pid(6, None), FxExecutionState::Running(6));
}

#[test]
fn pid_files_are_named_by_the_bytes_of_the_id() {
    assert_eq!(pid_file_stem(&FxId::String("a/b".to_string())), "fx-612f62");
    assert_eq!(pid_file_stem(&FxId::U64(7)), "fx-37");
    assert_eq!(pid_file_stem(&FxId::String("\u{e9}".to_string())), "fx-c3a9");
    assert_ne!(
        pid_file_stem(&FxId::String("a/b".to_string())),
        pid_file_stem(&FxId::String("a_b".to_string()))
    );
    let mut command = shell("true");
    assert_eq!(pid_file_path(&command, &FxId::U64(7)), None);
    command.pid_directory = Some("/run/becky".to_string());
    assert_eq!(pid_file_path(&command, &FxId::U64(7)), Some("/run/becky/fx-37.pid".to_string()));
}

#[test]
fn pid_files_read_back() {
    for pid in [0, 1, 65_535, u32::MAX] {
        assert_eq!(parse_pid_file(&pid_file_contents(pid)), Some(pid));
    }
    assert_eq!(parse_pid_file("12 34"), None);
    assert_eq!(parse_pid_file(""), None);
}

#[test]
fn command_ids_carry_the_length_of_each_part() {
    assert_eq!(encode_command_id("ls", &strings(&["-l"])), shell_id());
    assert_ne!(encode_command_id("ls", &strings(&["-l", ""])), encode_command_id("ls", &strings(&["-l"])));
}

fn shell_id() -> String {
    FxSystemCommand::new("ls".to_string(), strings(&["-l"]), FxDesiredExecutionState::Stopped).id()
}

#[test]
fn nice_levels_span_the_range_of_the_host() {
    assert_eq!(NiceLevel::highest_priority().to_string(), "-20");
    assert_eq!(NiceLevel::lowest_priority().to_string(), "19");
    assert_eq!(NiceLevel::default().to_string(), "0");
    assert_eq!(NiceLevel::lowest_priority_on(HostOs::Linux).map(|level| level.to_string()), Some("19".to_string()));
    assert_eq!(NiceLevel::lowest_priority_on(HostOs::MacOs).map(|level| level.to_string()), Some("20".to_string()));
    assert!(NiceLevel::lowest_priority_on(HostOs::Windows).is_none());
}

#[test]
fn commands_are_not_archived() {
    assert!(matches!(shell("true").fx_archive(), Err(FxSysCommandError::Unsupported(_))));
}
