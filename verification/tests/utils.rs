use becky::engine::state::ExitStatus;
use becky::io_error::IoError;
use becky::io_error::IoErrorKind;
use becky::number::decimal_text;
use becky::number::parse_u32;
use becky::number::parse_u64;
use becky::number::signed_decimal_text;
use becky::path::join_path;
use becky::path::path_file_name;
use becky::path::path_file_stem;
use becky::utils::get_process;
use becky::utils::run_system_command;
use becky::utils::CommandEnd;
use becky::utils::CommandOptions;
use becky::utils::CommandOutput;
use becky::utils::CommandRanError;
use becky::utils::Process;

fn table() -> Vec<Process> {
    vec![
        Process { pid: 1, name: "init".to_string(), args: vec!["/sbin/init".to_string()] },
        Process { pid: 77, name: "becky".to_string(), args: Vec::new() },
    ]
}

fn exited(raw: i32, stdout: &[u8], stderr: &[u8]) -> CommandEnd {
    CommandEnd::Exited(CommandOutput {
        status: ExitStatus { raw },
        stdout: stdout.to_vec(),
        stderr: stderr.to_vec(),
    })
}

#[test]
fn get_process_returns_current_process() {
    let table = table();
    let pid = 77;
    let process = match get_process(&table, pid) {
        Some(process) => process,
        None => panic!("current process should be visible"),
    };

    assert_eq!(process.pid, pid);
    assert!(!process.name.is_empty());
}

#[test]
fn get_process_returns_none_for_missing_pid() {
    assert_eq!(get_process(&table(), u32::MAX), None);
}

#[test]
fn run_system_command_captures_stdout_and_stderr() {
    let result = match run_system_command(CommandOptions::default(), exited(0, b"hello", b"warn"), 3) {
        Ok(result) => result,
        Err(err) => panic!("command should run successfully: {err:?}"),
    };

    assert!(result.output.status.success());
    assert_eq!(result.output.stdout, b"hello");
    assert_eq!(result.output.stderr, b"warn");
    assert!(result.duration > 0);
}

#[test]
fn run_system_command_returns_nonzero_status_without_error() {
    let result = match run_system_command(CommandOptions::default(), exited(7 * 256, b"", b""), 1) {
        Ok(result) => result,
        Err(err) => panic!("nonzero command should return output: {err:?}"),
    };

    assert!(!result.output.status.success());
    assert_eq!(result.output.status, ExitStatus { raw: 7 * 256 });
}

#[test]
fn run_system_command_reports_spawn_errors() {
    let missing = IoError { kind: IoErrorKind::NotFound, message: "no such program".to_string() };
    let err = match run_system_command(CommandOptions::default(), CommandEnd::SpawnFailed(missing.clone()), 0) {
        Ok(result) => panic!("missing command should fail, got {result:?}"),
        Err(err) => err,
    };

    assert!(matches!(err, CommandRanError::Io(actual) if actual == missing));
}

#[test]
fn run_system_command_reports_wait_errors() {
    let broken = IoError { kind: IoErrorKind::Other, message: "interrupted".to_string() };
    let err = run_system_command(CommandOptions::default(), CommandEnd::WaitFailed(broken.clone()), 4);
    assert!(matches!(err, Err(CommandRanError::Io(actual)) if actual == broken));
}

#[test]
fn run_system_command_times_out() {
    let timeout = 25;
    let err = match run_system_command(CommandOptions { timeout: Some(timeout) }, CommandEnd::DeadlinePassed, 26) {
        Ok(result) => panic!("sleep command should time out, got {result:?}"),
        Err(err) => err,
    };

    assert!(matches!(err, CommandRanError::TimedOut(actual) if actual == timeout));
}

#[test]
fn commands_have_no_deadline_by_default() {
    assert_eq!(CommandOptions::default().timeout, None);
}

#[test]
fn numbers_read_back_as_written() {
    for n in [0, 9, 10, 4_294_967_295, u64::MAX] {
        assert_eq!(parse_u64(&decimal_text(n)), Some(n));
    }
    assert_eq!(decimal_text(1_048_576), "1048576");
    assert_eq!(signed_decimal_text(-20), "-20");
    assert_eq!(signed_decimal_text(-128), "-128");
    assert_eq!(parse_u32("4294967295"), Some(u32::MAX));
    assert_eq!(parse_u32("4294967296"), None);
    assert_eq!(parse_u32("+12"), Some(12));
    assert_eq!(parse_u32("-12"), None);
    assert_eq!(parse_u32("+"), None);
    assert_eq!(parse_u32(""), None);
    assert_eq!(parse_u32("1 2"), None);
}

#[test]
fn paths_are_joined_and_taken_apart() {
    assert_eq!(join_path("/var/run", "vm"), "/var/run/vm");
    assert_eq!(join_path("/var/run/", "vm"), "/var/run/vm");
    assert_eq!(join_path("/var/run", "/vm"), "/vm");
    assert_eq!(join_path("", "vm"), "vm");
    assert_eq!(path_file_name("/images/disk.tar.gz"), Some("disk.tar.gz".to_string()));
    assert_eq!(path_file_stem("/images/disk.tar.gz"), Some("disk.tar".to_string()));
    assert_eq!(path_file_stem("/images/.hidden"), Some(".hidden".to_string()));
    assert_eq!(path_file_name("/images/.."), None);
    assert_eq!(path_file_name("/"), None);
}
