use becky::docker::accumulated_cpu_time;
use becky::docker::disk_usage;
use becky::docker::docker_create_args;
use becky::docker::docker_not_found;
use becky::docker::docker_with_timeout;
use becky::docker::fx_status;
use becky::docker::inspect_container;
use becky::docker::inspect_to_state;
use becky::docker::memory;
use becky::docker::monitor_container;
use becky::docker::monitor_handle;
use becky::docker::run_time;
use becky::docker::size::parse_block_io;
use becky::docker::size::parse_docker_size_bytes;
use becky::docker::size::parse_first_docker_size_bytes;
use becky::docker::trim_docker_name;
use becky::docker::virtual_memory;
use becky::docker::wait_for_container_stop;
use becky::docker::DockerAnswer;
use becky::docker::DockerInspectContainer;
use becky::docker::DockerInspectState;
use becky::docker::DockerNetwork;
use becky::docker::DockerPhase;
use becky::docker::DockerResourceKind;
use becky::docker::DockerStats;
use becky::docker::FxContainerDocker;
use becky::docker::FxDockerError;
use becky::docker::MonitorEvent;
use becky::docker::MonitorPhase;
use becky::docker::MonitorWaitAction;
use becky::docker::WaitEnd;
use becky::engine::state::ExitStatus;
use becky::engine::state::FxExecutionState;
use becky::utils::CommandOutput;
use becky::utils::CommandRanError;
use becky::utils::CommandRanResult;

fn inspected(pid: u32, running: bool, status: &str) -> DockerInspectContainer {
    DockerInspectContainer {
        id: "c0ffee".to_string(),
        name: "/worker".to_string(),
        state: DockerInspectState {
            pid,
            running,
            paused: false,
            status: status.to_string(),
            started_at: "2025-01-01T00:00:00Z".to_string(),
        },
    }
}

fn exit(stderr: &str) -> FxDockerError {
    FxDockerError::DockerExit {
        command: "x".to_string(),
        status: ExitStatus { raw: 256 },
        stderr: stderr.to_string(),
    }
}

#[test]
fn trims_leading_slash_from_docker_name() {
    assert_eq!(trim_docker_name("/worker"), "worker");
    assert_eq!(trim_docker_name("worker"), "worker");
}

#[test]
fn builds_minimal_docker_create_args() {
    assert_eq!(
        docker_create_args("worker", "alpine:latest", None, &[], &[]),
        vec!["create", "--name", "worker", "alpine:latest"]
    );
}

#[test]
fn builds_docker_create_args_with_network_env_and_command() {
    let args = docker_create_args(
        "worker",
        "alpine:latest",
        Some(&DockerNetwork::new("becky")),
        &[("RUST_LOG".to_string(), "debug".to_string())],
        &["sh".to_string(), "-c".to_string(), "sleep 60".to_string()],
    );

    assert_eq!(
        args,
        vec![
            "create",
            "--name",
            "worker",
            "--network",
            "becky",
            "--env",
            "RUST_LOG=debug",
            "alpine:latest",
            "sh",
            "-c",
            "sleep 60"
        ]
    );
}

#[test]
fn parses_docker_size_units() {
    assert_eq!(parse_docker_size_bytes("1B"), Some(1));
    assert_eq!(parse_docker_size_bytes("1KiB"), Some(1024));
    assert_eq!(parse_docker_size_bytes("1.5MiB"), Some(1_572_864));
    assert_eq!(parse_docker_size_bytes("2GB"), Some(2_147_483_648));
}

#[test]
fn parses_first_size_from_docker_pair() {
    assert_eq!(parse_first_docker_size_bytes("12MiB / 128MiB"), 12 * 1024 * 1024);
}

#[test]
fn parses_block_io_into_disk_usage() {
    let usage = parse_block_io("1.5MiB / 2MiB");
    assert_eq!(usage.read_bytes, 1_572_864);
    assert_eq!(usage.written_bytes, 2 * 1024 * 1024);
    assert_eq!(usage.total_read_bytes, usage.read_bytes);
    assert_eq!(usage.total_written_bytes, usage.written_bytes);
}

/// The size that double-precision arithmetic gives.
fn float_size(number: f64, power: i32) -> u64 {
    (number * 1024f64.powi(power)) as u64
}

#[test]
fn sizes_are_those_of_double_precision() {
    assert_eq!(parse_docker_size_bytes("1.1kB"), Some(float_size(1.1, 1)));
    assert_eq!(parse_docker_size_bytes("0.3MB"), Some(float_size(0.3, 2)));
    assert_eq!(parse_docker_size_bytes("123.456GiB"), Some(float_size(123.456, 3)));
    assert_eq!(parse_docker_size_bytes("7.7TiB"), Some(float_size(7.7, 4)));
    assert_eq!(parse_docker_size_bytes("9007199254740993B"), Some(float_size(9007199254740993.0, 0)));
    assert_eq!(parse_docker_size_bytes("99999999999999999999999B"), Some(u64::MAX));
    assert_eq!(parse_docker_size_bytes("0.999B"), Some(0));
}

#[test]
fn sizes_that_are_no_sizes_are_refused() {
    assert_eq!(parse_docker_size_bytes(""), None);
    assert_eq!(parse_docker_size_bytes("MiB"), None);
    assert_eq!(parse_docker_size_bytes("1.2.3MiB"), None);
    assert_eq!(parse_docker_size_bytes("1XB"), None);
    assert_eq!(parse_first_docker_size_bytes("nothing"), 0);
    assert_eq!(parse_block_io("1kB").written_bytes, 0);
}

#[test]
fn containers_are_configured_step_by_step() {
    let container = FxContainerDocker::new("worker")
        .image("alpine")
        .command(vec!["true".to_string()])
        .env("A", "1")
        .networked(DockerNetwork::new("becky"));
    assert_eq!(container.name(), "worker");
    assert_eq!(container.id(), "worker");
    assert_eq!(container.image_ref(), Some("alpine"));
    assert_eq!(container.command_args(), ["true"]);
    assert_eq!(container.env_vars(), [("A".to_string(), "1".to_string())]);
    assert_eq!(container.network().map(|network| network.name()), Some("becky"));
    assert_eq!(
        container.create_container().ok(),
        Some(docker_create_args(
            "worker",
            "alpine",
            Some(&DockerNetwork::new("becky")),
            container.env_vars(),
            container.command_args(),
        ))
    );
    assert!(matches!(
        FxContainerDocker::new("worker").create_container(),
        Err(FxDockerError::MissingImage)
    ));
    assert_eq!(container.fx_stop(), ["stop", "worker"]);
    assert_eq!(container.fx_destroy(), ["rm", "--force", "worker"]);
    let (image, words) = container.fx_archive();
    assert_eq!(image, "becky-archive:worker");
    assert_eq!(words, ["commit", "worker", "becky-archive:worker"]);
}

#[test]
fn a_missing_container_is_created_and_started() {
    let mut run = FxContainerDocker::from_image("worker", "alpine").fx_start();
    assert_eq!(run.phase, DockerPhase::FindContainer);
    run.advance(DockerAnswer::Ran(Err(exit("Error: No such container: worker"))));
    assert_eq!(run.phase, DockerPhase::InspectImage);
    run.advance(DockerAnswer::Ran(Err(exit("Error: No such image: alpine"))));
    assert_eq!(run.command_words(), Some(vec!["pull".to_string(), "alpine".to_string()]));
    assert_eq!(run.command_timeout(), 600_000);
    run.advance(DockerAnswer::Ran(Ok(())));
    assert_eq!(run.command_timeout(), 30_000);
    run.advance(DockerAnswer::Ran(Ok(())));
    run.advance(DockerAnswer::Inspected(Ok(inspected(0, false, "created"))));
    assert_eq!(run.command_words(), Some(vec!["start".to_string(), "worker".to_string()]));
    run.advance(DockerAnswer::Ran(Ok(())));
    run.advance(DockerAnswer::Inspected(Ok(inspected(42, true, "running"))));
    match run.started() {
        Some(Ok(handle)) => {
            assert!(handle.created);
            assert_eq!(handle.name, "worker");
            assert_eq!(handle.latest_state, FxExecutionState::Running(42));
        }
        other => panic!("the container should be running: {other:?}"),
    }
}

#[test]
fn a_missing_container_without_an_image_is_an_error() {
    let mut run = FxContainerDocker::new("worker").fx_start();
    run.advance(DockerAnswer::Ran(Err(exit("No such container: worker"))));
    assert!(matches!(
        run.started(),
        Some(Err(FxDockerError::ContainerMissingNoImage(name))) if name == "worker"
    ));
}

#[test]
fn a_missing_network_is_created_before_the_container() {
    let mut run = FxContainerDocker::with_network("worker", DockerNetwork::new("becky")).fx_allocate();
    assert_eq!(
        run.command_words(),
        Some(vec!["network".to_string(), "inspect".to_string(), "becky".to_string()])
    );
    run.advance(DockerAnswer::Ran(Err(exit("Error response: no such network"))));
    assert_eq!(run.phase, DockerPhase::CreateNetwork);
    run.advance(DockerAnswer::Ran(Ok(())));
    assert!(matches!(run.allocated(), Some(Ok(()))));
}

#[test]
fn other_failures_end_a_start() {
    let mut run = FxContainerDocker::from_image("worker", "alpine").fx_start();
    run.advance(DockerAnswer::Ran(Err(exit("permission denied"))));
    assert!(matches!(run.started(), Some(Err(FxDockerError::DockerExit { .. }))));
    assert!(!docker_not_found(&exit("permission denied"), DockerResourceKind::Container));
    assert!(docker_not_found(&exit("Error: No such object: x"), DockerResourceKind::Image));
    assert!(!docker_not_found(&exit("Error: No such object: x"), DockerResourceKind::Network));
    assert!(!docker_not_found(&FxDockerError::MissingImage, DockerResourceKind::Image));
}

#[test]
fn only_a_successful_exit_yields_output() {
    let args = vec!["start".to_string(), "worker".to_string()];
    let output = |raw: i32, stderr: &[u8]| CommandRanResult {
        output: CommandOutput {
            status: ExitStatus { raw },
            stdout: b"out".to_vec(),
            stderr: stderr.to_vec(),
        },
        duration: 1,
    };
    assert!(matches!(docker_with_timeout(&args, Ok(output(0, b""))), Ok(stdout) if stdout == b"out"));
    match docker_with_timeout(&args, Ok(output(256, b" caf\xc3\xa9 \xff\n"))) {
        Err(FxDockerError::DockerExit { command, status, stderr }) => {
            assert_eq!(command, "start worker");
            assert_eq!(status.raw, 256);
            assert_eq!(stderr, "caf\u{e9} \u{fffd}");
        }
        other => panic!("the exit should be reported: {other:?}"),
    }
    assert!(matches!(
        docker_with_timeout(&args, Err(CommandRanError::TimedOut(30_000))),
        Err(FxDockerError::Command(CommandRanError::TimedOut(30_000)))
    ));
}

#[test]
fn inspections_are_read_into_states() {
    assert_eq!(inspect_to_state(&inspected(7, true, "running")), FxExecutionState::Running(7));
    assert_eq!(inspect_to_state(&inspected(7, false, "Exited")), FxExecutionState::Stopped);
    assert_eq!(inspect_to_state(&inspected(7, false, "dead")), FxExecutionState::Unknown);
    let mut paused = inspected(7, false, "paused");
    paused.state.paused = true;
    assert_eq!(inspect_to_state(&paused), FxExecutionState::Paused(7));

    assert!(matches!(
        inspect_container(Ok(Vec::new())),
        Err(FxDockerError::MissingField { field: "container", .. })
    ));
    assert!(matches!(inspect_container(Err("bad".to_string())), Err(FxDockerError::Json { .. })));
    assert!(inspect_container(Ok(vec![inspected(7, true, "running")])).is_ok());

    let mut handle = monitor_handle(&inspected(7, true, "running"), false);
    assert!(matches!(
        fx_status(&mut handle, Ok(inspected(7, false, "exited"))),
        Ok(FxExecutionState::Stopped)
    ));
    assert_eq!(handle.latest_state, FxExecutionState::Stopped);
}

#[test]
fn the_monitor_follows_a_container_until_it_is_cancelled() {
    let mut monitor = monitor_container(FxExecutionState::NotStarted);
    monitor.advance(MonitorEvent::Inspected(Ok(inspected(7, true, "running"))));
    assert_eq!(monitor.latest_state, FxExecutionState::Running(7));
    assert_eq!(monitor.phase, MonitorPhase::Wait);
    let action = wait_for_container_stop(&WaitEnd::Exited(ExitStatus { raw: 0 }));
    assert_eq!(action, MonitorWaitAction::Stopped);
    monitor.advance(MonitorEvent::Waited(action));
    monitor.advance(MonitorEvent::Inspected(Ok(inspected(7, false, "exited"))));
    assert_eq!(monitor.latest_state, FxExecutionState::Stopped);
    monitor.advance(MonitorEvent::Inspected(Ok(inspected(7, false, "exited"))));
    monitor.advance(MonitorEvent::Cancelled);
    assert_eq!(monitor.phase, MonitorPhase::Ended);
    assert_eq!(wait_for_container_stop(&WaitEnd::Cancelled), MonitorWaitAction::Cancelled);
    assert_eq!(wait_for_container_stop(&WaitEnd::NotSpawned), MonitorWaitAction::Retry);
    assert_eq!(wait_for_container_stop(&WaitEnd::NotWaited), MonitorWaitAction::Retry);
}

#[test]
fn resources_are_read_from_the_statistics() {
    let stats = Ok(DockerStats {
        mem_usage: "12MiB / 128MiB".to_string(),
        block_io: "1kB / 2kB".to_string(),
    });
    assert_eq!(memory(&stats), 12 * 1024 * 1024);
    assert_eq!(virtual_memory(&stats), 12 * 1024 * 1024);
    assert_eq!(disk_usage(&stats).read_bytes, 1024);
    assert_eq!(disk_usage(&stats).total_written_bytes, 2048);
    assert_eq!(memory(&Err(FxDockerError::MissingImage)), 0);
    assert_eq!(disk_usage(&Err(FxDockerError::MissingImage)).written_bytes, 0);
    assert_eq!(accumulated_cpu_time(), 0);
    assert_eq!(run_time(&Ok(inspected(7, true, "running"))), 1);
    let mut never = inspected(7, true, "running");
    never.state.started_at = "0001-01-01T00:00:00Z".to_string();
    assert_eq!(run_time(&Ok(never)), 0);
    assert_eq!(run_time(&Err(FxDockerError::MissingImage)), 0);
}
