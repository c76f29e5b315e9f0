use becky::engine::state::ExitStatus;
use becky::engine::state::FxExecutionState;
use becky::io_error::IoError;
use becky::io_error::IoErrorKind;
use becky::rust_fn::observe_worker_process;
use becky::rust_fn::pid_file_path;
use becky::rust_fn::process_cmd_contains_worker;
use becky::rust_fn::remove_pid_file;
use becky::rust_fn::sanitize_pid_name;
use becky::rust_fn::wait_for_process_exit;
use becky::rust_fn::FxRustFn;
use becky::rust_fn::ObservedProcess;
use becky::rust_fn::RustFnError;
use becky::rust_fn::RustFnExit;
use becky::rust_fn::RustFnHandle;
use becky::rust_fn::RustFnRegistry;
use becky::rust_fn::RustFnStartAnswer;
use becky::rust_fn::RustFnStartPhase;
use becky::rust_fn::RustFnStopAnswer;
use becky::rust_fn::RustFnStopPhase;
use becky::rust_fn::WorkerExitStep;
use becky::rust_fn::DEFAULT_WORKER_ARG;
use becky::system_command::Signal;
use becky::system_command::SignalReport;

fn strings(words: &[&str]) -> Vec<String> {
    words.iter().map(|word| word.to_string()).collect()
}

fn io_error(kind: IoErrorKind) -> IoError {
    IoError { kind, message: "failed".to_string() }
}

fn success() -> RustFnExit {
    RustFnExit::success()
}

fn handle(pid: u32) -> RustFnHandle {
    FxRustFn::new("work", "/tmp").running(pid, true)
}

#[test]
fn registry_ignores_non_worker_args() {
    let registry: RustFnRegistry<fn() -> RustFnExit> = RustFnRegistry::new();
    let result = registry.run_worker_from_args(&strings(&["app", "--other"]), DEFAULT_WORKER_ARG);
    assert!(matches!(result, Ok(None)));
}

#[test]
fn registry_dispatches_worker_args() {
    let mut registry: RustFnRegistry<fn() -> RustFnExit> = RustFnRegistry::new();
    registry.register("work", success);
    let args = strings(&["app", DEFAULT_WORKER_ARG, "work", "a", "b"]);
    match registry.run_worker_from_args(&args, DEFAULT_WORKER_ARG) {
        Ok(Some((function, context))) => {
            assert_eq!(context.name, "work");
            assert_eq!(context.args, ["a", "b"]);
            assert!(matches!(function(), RustFnExit { code: 0 }));
        }
        _ => panic!("the worker should be dispatched"),
    }
}

#[test]
fn registry_reports_missing_function() {
    let registry: RustFnRegistry<fn() -> RustFnExit> = RustFnRegistry::new();
    let args = strings(&["app", DEFAULT_WORKER_ARG, "missing"]);
    let result = registry.run_worker_from_args(&args, DEFAULT_WORKER_ARG);
    assert!(matches!(result, Err(RustFnError::FunctionNotFound(name)) if name == "missing"));
    let args = strings(&["app", DEFAULT_WORKER_ARG]);
    let result = registry.run_worker_from_args(&args, DEFAULT_WORKER_ARG);
    assert!(matches!(result, Err(RustFnError::MissingFunctionName)));
}

#[test]
fn registering_a_name_again_replaces_the_function() {
    let mut registry: RustFnRegistry<i32> = RustFnRegistry::new();
    registry.register("a", 1);
    registry.register("b", 2);
    registry.register("a", 3);
    let args = strings(&[DEFAULT_WORKER_ARG, "a"]);
    assert!(matches!(registry.run_worker_from_args(&args, DEFAULT_WORKER_ARG), Ok(Some((3, _)))));
    let args = strings(&[DEFAULT_WORKER_ARG, "b"]);
    assert!(matches!(registry.run_worker_from_args(&args, DEFAULT_WORKER_ARG), Ok(Some((2, _)))));
}

#[test]
fn pid_names_are_sanitized() {
    assert_eq!(sanitize_pid_name("module::work/1"), "module__work_1");
}

#[test]
fn pid_files_stay_in_the_run_directory() {
    assert_eq!(pid_file_path("/run/becky", "../etc/work"), "/run/becky/___etc_work.pid");
    assert_eq!(FxRustFn::new("my-work_1", "/run/becky").pid_file(), "/run/becky/my-work_1.pid");
}

#[test]
fn detects_worker_command_line() {
    let cmd = strings(&["/tmp/app", DEFAULT_WORKER_ARG, "work"]);
    assert!(process_cmd_contains_worker(&cmd, DEFAULT_WORKER_ARG, "work"));
    assert!(!process_cmd_contains_worker(&cmd, DEFAULT_WORKER_ARG, "other"));
    assert_eq!(observe_worker_process(&Some(cmd), DEFAULT_WORKER_ARG, "work"), ObservedProcess::Matching);
    assert_eq!(
        observe_worker_process(&Some(Vec::new()), DEFAULT_WORKER_ARG, "work"),
        ObservedProcess::Mismatched
    );
    assert_eq!(observe_worker_process(&None, DEFAULT_WORKER_ARG, "work"), ObservedProcess::Missing);
}

#[test]
fn workers_recognise_their_own_command_line() {
    let fx = FxRustFn::new("work", "/run").with_args(strings(&["x"])).with_env("A", "1");
    let mut cmd = strings(&["/bin/app"]);
    cmd.extend(fx.worker_args());
    assert_eq!(cmd, ["/bin/app", DEFAULT_WORKER_ARG, "work", "x"]);
    assert!(process_cmd_contains_worker(&cmd, DEFAULT_WORKER_ARG, "work"));
    assert_eq!(fx.env, [("A".to_string(), "1".to_string())]);
    assert_eq!(fx.id(), "work");
    assert_eq!(fx.executable(Ok("/self".to_string())), Ok("/self".to_string()));
    assert!(matches!(
        fx.executable(Err(io_error(IoErrorKind::Other))),
        Err(RustFnError::CurrentExe(_))
    ));
}

#[test]
fn status_reports_pid_mismatch_for_live_non_worker_process() {
    let pid = 4321;
    let mut handle = handle(pid);

    let result = handle.fx_status(ObservedProcess::Mismatched);

    assert!(matches!(
        result,
        Err(RustFnError::PidMismatch { pid: found, function }) if found == pid && function == "work"
    ));
    assert_eq!(
        handle.latest_state(),
        FxExecutionState::Error("pid 4321 no longer matches rust function worker \"work\"".to_string())
    );
}

#[test]
fn the_name_of_a_lost_worker_is_quoted() {
    let mut handle = FxRustFn::new("a\"b", "/tmp").running(1, false);
    assert!(handle.fx_status(ObservedProcess::Mismatched).is_err());
    assert_eq!(
        handle.latest_state(),
        FxExecutionState::Error("pid 1 no longer matches rust function worker \"a\\\"b\"".to_string())
    );
}

#[test]
fn status_follows_the_process() {
    let mut handle = handle(5);
    assert_eq!(handle.fx_status(ObservedProcess::Matching), Ok(FxExecutionState::Running(5)));
    handle.child_ended(Ok(ExitStatus { raw: 0 }));
    assert_eq!(
        handle.fx_status(ObservedProcess::Missing),
        Ok(FxExecutionState::Exited(ExitStatus { raw: 0 }))
    );
    handle.child_ended(Err("lost".to_string()));
    assert_eq!(handle.latest_state(), FxExecutionState::Error("lost".to_string()));
}

#[test]
fn only_a_stop_that_succeeded_is_kept() {
    let mut worker = handle(9);
    let mut stop = FxRustFn::fx_stop(&worker);
    stop.advance(RustFnStopAnswer::Signalled(SignalReport::NotSent));
    assert_eq!(worker.stopped(stop), Some(Err(RustFnError::SignalFailed(9))));
    assert_eq!(worker.latest_state(), FxExecutionState::Running(9));

    let mut stop = FxRustFn::fx_stop(&worker);
    stop.advance(RustFnStopAnswer::Signalled(SignalReport::Sent));
    stop.advance(RustFnStopAnswer::Exited(true));
    stop.advance(RustFnStopAnswer::MonitorStopped);
    stop.advance(RustFnStopAnswer::Removed(Ok(())));
    assert_eq!(worker.stopped(stop), Some(Ok(())));
    assert_eq!(worker.latest_state(), FxExecutionState::Stopped);
}

#[test]
fn arguments_are_added_to_those_of_a_worker() {
    let fx = FxRustFn::new("work", "/run").with_args(strings(&["x", "y"])).with_args(strings(&["z"])).with_args(Vec::new());
    assert_eq!(fx.args, ["x", "y", "z"]);
    assert_eq!(fx.worker_args(), [DEFAULT_WORKER_ARG, "work", "x", "y", "z"]);
}

#[test]
fn reattach_monitor_marks_live_non_worker_pid_as_error() {
    let mut handle = handle(77);
    assert!(handle.monitor_reattached_pid(ObservedProcess::Matching));
    assert!(!handle.monitor_reattached_pid(ObservedProcess::Mismatched));
    assert!(matches!(handle.latest_state(), FxExecutionState::Error(_)));
    assert!(!handle.monitor_reattached_pid(ObservedProcess::Missing));
    assert_eq!(handle.latest_state(), FxExecutionState::NotStarted);
}

#[test]
fn start_cleans_up_child_when_pid_file_write_fails() {
    let mut fx = FxRustFn::new("while :; do sleep 1; done", "/tmp/not-a-directory");
    fx.executable = Some("/bin/sh".to_string());
    fx.worker_arg = "-c".to_string();

    let mut start = fx.fx_start();
    start.advance(RustFnStartAnswer::PidFile(fx.read_pid_file(Err(io_error(IoErrorKind::NotFound)))));
    assert_eq!(start.phase, RustFnStartPhase::Spawn);
    start.advance(RustFnStartAnswer::Started(Ok(Some(60))));
    assert_eq!(start.phase, RustFnStartPhase::CreateRunDir(60));
    start.advance(RustFnStartAnswer::Done(Err(io_error(IoErrorKind::Other))));
    assert_eq!(start.phase, RustFnStartPhase::KillChild);
    start.advance(RustFnStartAnswer::Killed);
    assert!(matches!(start.result(), Some(Err(RustFnError::Io(_)))));
}

#[test]
fn start_reattaches_to_its_worker_only() {
    let fx = FxRustFn::new("work", "/run");
    let mut start = fx.fx_start();
    start.advance(RustFnStartAnswer::PidFile(fx.read_pid_file(Ok("17\n".to_string()))));
    assert_eq!(start.phase, RustFnStartPhase::Observe(17));
    start.advance(RustFnStartAnswer::Observed(ObservedProcess::Matching));
    assert_eq!(start.result(), Some(Ok((17, true))));

    let mut start = fx.fx_start();
    start.advance(RustFnStartAnswer::PidFile(Ok(Some(17))));
    start.advance(RustFnStartAnswer::Observed(ObservedProcess::Mismatched));
    assert!(matches!(start.result(), Some(Err(RustFnError::PidMismatch { pid: 17, .. }))));

    let mut start = fx.fx_start();
    start.advance(RustFnStartAnswer::PidFile(Ok(Some(17))));
    start.advance(RustFnStartAnswer::Observed(ObservedProcess::Missing));
    start.advance(RustFnStartAnswer::Removed(Err(io_error(IoErrorKind::NotFound))));
    assert_eq!(start.phase, RustFnStartPhase::CurrentExe);
    start.advance(RustFnStartAnswer::Current(Ok(())));
    start.advance(RustFnStartAnswer::Started(Ok(Some(18))));
    start.advance(RustFnStartAnswer::Done(Ok(())));
    start.advance(RustFnStartAnswer::Done(Ok(())));
    assert_eq!(start.result(), Some(Ok((18, false))));
}

#[test]
fn starts_report_what_went_wrong() {
    let fx = FxRustFn::new("work", "/run");
    let mut start = fx.fx_start();
    start.advance(RustFnStartAnswer::PidFile(fx.read_pid_file(Ok("x".to_string()))));
    assert!(matches!(
        start.result(),
        Some(Err(RustFnError::InvalidPidFile { path, contents })) if path == "/run/work.pid" && contents == "x"
    ));

    let mut start = fx.fx_start();
    start.advance(RustFnStartAnswer::PidFile(Ok(None)));
    start.advance(RustFnStartAnswer::Current(Ok(())));
    start.advance(RustFnStartAnswer::Started(Ok(None)));
    assert_eq!(start.result(), Some(Err(RustFnError::MissingPid)));
}

#[test]
fn destroy_kills_worker_waits_and_removes_pid_file() {
    let mut destroy = FxRustFn::fx_destroy(&handle(9));
    assert_eq!(destroy.phase, RustFnStopPhase::Observe);
    destroy.advance(RustFnStopAnswer::Observed(ObservedProcess::Matching));
    assert_eq!(destroy.phase, RustFnStopPhase::SendSignal(Signal::Kill));
    destroy.advance(RustFnStopAnswer::Signalled(SignalReport::Sent));
    assert_eq!(destroy.phase, RustFnStopPhase::WaitExit);
    destroy.advance(RustFnStopAnswer::Exited(true));
    assert_eq!(destroy.phase, RustFnStopPhase::StopMonitor);
    destroy.advance(RustFnStopAnswer::MonitorStopped);
    assert_eq!(destroy.phase, RustFnStopPhase::RemovePidFile);
    destroy.advance(RustFnStopAnswer::Removed(Ok(())));
    assert_eq!(destroy.result(), Some(Ok(())));
}

#[test]
fn destroy_spares_processes_of_others() {
    let mut destroy = FxRustFn::fx_destroy(&handle(9));
    destroy.advance(RustFnStopAnswer::Observed(ObservedProcess::Mismatched));
    assert!(matches!(destroy.result(), Some(Err(RustFnError::PidMismatch { pid: 9, .. }))));
}

#[test]
fn stop_reports_signals_and_timeouts() {
    let mut stop = FxRustFn::fx_stop(&handle(9));
    assert_eq!(stop.phase, RustFnStopPhase::SendSignal(Signal::Term));
    stop.advance(RustFnStopAnswer::Signalled(SignalReport::NotSent));
    assert_eq!(stop.result(), Some(Err(RustFnError::SignalFailed(9))));

    let mut stop = FxRustFn::fx_stop(&handle(9));
    stop.advance(RustFnStopAnswer::Signalled(SignalReport::NoProcess));
    assert!(matches!(stop.result(), Some(Err(_))));

    let mut stop = FxRustFn::fx_stop(&handle(9));
    stop.advance(RustFnStopAnswer::Signalled(SignalReport::Sent));
    stop.advance(RustFnStopAnswer::Exited(false));
    assert_eq!(stop.result(), Some(Err(RustFnError::StopTimeout { pid: 9, timeout: 5_000 })));

    assert_eq!(wait_for_process_exit(false, 0, 5_000), WorkerExitStep::Exited);
    assert_eq!(wait_for_process_exit(true, 4_999, 5_000), WorkerExitStep::LookAfter(50));
    assert_eq!(wait_for_process_exit(true, 5_000, 5_000), WorkerExitStep::TimedOut);
}

#[test]
fn a_missing_pid_file_counts_as_removed() {
    assert!(remove_pid_file(Err(io_error(IoErrorKind::NotFound))).is_ok());
    assert!(remove_pid_file(Err(io_error(IoErrorKind::Other))).is_err());
    let fx = FxRustFn::new("work", "/run");
    assert_eq!(fx.read_pid_file(Ok(FxRustFn::pid_file_contents(12))), Ok(Some(12)));
}
