use becky::engine::empty_implementations::Metadataless;
use becky::engine::exit_codes::BeckyExitCode;
use becky::engine::machine_conf::FxResourceConstraints;
use becky::engine::machine_conf::ResourceConstraintless;
use becky::engine::machine_conf::StorageConfigurationDisk;
use becky::engine::os::Arch;
use becky::engine::os::OsImageFileType;
use becky::engine::os::SupportedLinuxDistroType;
use becky::engine::os::SupportedOsType;
use becky::engine::state::ExitStatus;
use becky::engine::state::FxDesiredExecutionState;
use becky::engine::state::FxExecutionState;
use becky::engine::storage::DirRun;
use becky::engine::storage::DirStep;
use becky::engine::storage::StorageFilesystem;
use becky::engine::storage::StorageFilesystemError;
use becky::engine::storage::StorageResizeRequest;
use becky::engine::storage::StorageResizeRequestDirection;
use becky::engine::sys_conf::SystemConfiguration;
use becky::io_error::IoError;
use becky::io_error::IoErrorKind;

fn test_system_configuration(root: &str) -> SystemConfiguration {
    SystemConfiguration {
        emulator_paths: Vec::new(),
        binary_paths: Vec::new(),
        run_path: format!("{root}/run"),
        vm_root_path: format!("{root}/vm"),
        vm_data_root_path: format!("{root}/data"),
        os_cache_root_path: format!("{root}/os-cache"),
    }
}

/// Performs the steps of a run on a set of directories.
fn perform(run: DirRun, dirs: &mut Vec<String>) -> Result<(), StorageFilesystemError> {
    let mut run = run;
    loop {
        let answer = match run.next() {
            Some(DirStep::Create(dir)) => {
                dirs.push(dir.clone());
                Ok(true)
            }
            Some(DirStep::Check(dir)) => if dirs.contains(dir) {
                Ok(true)
            } else {
                Err(IoError { kind: IoErrorKind::NotFound, message: "no such directory".to_string() })
            },
            None => break,
        };
        run.advance(answer);
    }
    match run.result() {
        Some(result) => result,
        None => panic!("a finished run has a result"),
    }
}

#[test]
fn filesystem_storage_create_and_open_validate_directories() {
    let sys_conf = test_system_configuration("/tmp/becky-storage-test");
    let mut storage = StorageFilesystem::default();
    let mut dirs = Vec::new();

    let created = perform(StorageFilesystem::sys_storage_create(&sys_conf), &mut dirs);
    assert!(storage.sys_storage_created(&sys_conf, created).is_ok());
    for run in [
        storage.sys_storage_open(),
        storage.sys_storage_info(),
        storage.sys_storage_check(),
        storage.sys_storage_close(),
    ] {
        match run {
            Ok(run) => assert!(perform(run, &mut dirs).is_ok()),
            Err(err) => panic!("the configuration is bound: {err:?}"),
        }
    }
}

#[test]
fn filesystem_storage_resize_reports_unsupported_requests() {
    let storage = StorageFilesystem::default();
    let request = StorageResizeRequest {
        filepath: StorageConfigurationDisk {
            id: "disk".to_string(),
            path: "disk.img".to_string(),
            size: 1,
            bootable: false,
        },
        new_size: 2,
        dir: StorageResizeRequestDirection::Grow,
    };

    let result = storage.sys_storage_resize(&vec![request]);

    assert!(matches!(
        result,
        Err(StorageFilesystemError::Unsupported("StorageFilesystem does not resize provider disks"))
    ));
    assert!(storage.sys_storage_resize(&Vec::new()).is_ok());
}

#[test]
fn unbound_storage_is_not_opened() {
    assert!(matches!(
        StorageFilesystem::default().sys_storage_open(),
        Err(StorageFilesystemError::Unsupported(_))
    ));
}

#[test]
fn a_missing_directory_is_reported() {
    let storage = StorageFilesystem::new(test_system_configuration("/nowhere"));
    match storage.sys_storage_open() {
        Ok(run) => assert!(matches!(
            perform(run, &mut Vec::new()),
            Err(StorageFilesystemError::DirectoryNotFound(_))
        )),
        Err(err) => panic!("the configuration is bound: {err:?}"),
    }
}

#[test]
fn a_file_in_place_of_a_directory_is_refused() {
    let storage = StorageFilesystem::new(test_system_configuration("/there"));
    match storage.validate_bound_configuration() {
        Ok(mut run) => {
            run.advance(Ok(false));
            assert!(matches!(
                run.result(),
                Some(Err(StorageFilesystemError::Unsupported("configured storage path exists but is not a directory")))
            ));
        }
        Err(err) => panic!("the configuration is bound: {err:?}"),
    }
}

#[test]
fn a_set_up_attempts_every_directory() {
    for failing in 0..5 {
        let (conf, mut run) = SystemConfiguration::new(
            "/r".to_string(),
            vec!["/bin/qemu".to_string()],
            "/vm".to_string(),
            "/data".to_string(),
            "/os".to_string(),
        );
        let mut attempted = Vec::new();
        while let Some(step) = run.next() {
            match step {
                DirStep::Create(dir) => attempted.push(dir.clone()),
                DirStep::Check(dir) => panic!("{dir} is only created"),
            }
            run.advance(if attempted.len() == failing {
                Err(IoError { kind: IoErrorKind::Other, message: "full".to_string() })
            } else {
                Ok(true)
            });
        }
        assert_eq!(attempted, ["/r", "/vm", "/data", "/os"]);
        assert!(matches!(run.result(), Some(Ok(()))));
        assert_eq!(conf.run_path, "/r");
        assert_eq!(conf.vm_root_path, "/vm");
        assert_eq!(conf.vm_data_root_path, "/data");
        assert_eq!(conf.os_cache_root_path, "/os");
        assert_eq!(conf.emulator_paths, ["/bin/qemu"]);
        assert!(conf.binary_paths.is_empty());
    }
}

#[test]
fn the_first_failure_ends_the_creation_of_storage() {
    let conf = test_system_configuration("/full");
    let mut storage = StorageFilesystem::default();
    let mut run = StorageFilesystem::sys_storage_create(&conf);
    run.advance(Ok(true));
    run.advance(Err(IoError { kind: IoErrorKind::Other, message: "full".to_string() }));
    run.advance(Ok(true));
    assert!(run.next().is_none());
    match run.result() {
        Some(result) => assert!(matches!(
            storage.sys_storage_created(&conf, result),
            Err(StorageFilesystemError::Io(err)) if err.message == "full"
        )),
        None => panic!("the creation has ended"),
    }
    assert!(matches!(
        storage.sys_storage_open(),
        Err(StorageFilesystemError::Unsupported(_))
    ));
}

#[test]
fn architectures_are_read_and_written() {
    assert!(matches!("amd64".parse::<Arch>(), Ok(Arch::Amd64)));
    for arch in [Arch::Amd64, Arch::Aarch64] {
        assert_eq!(Arch::parse(&arch.to_string()), Ok(arch));
    }
    assert!(Arch::parse("riscv").is_err());
    assert_eq!(OsImageFileType::Qcow2.to_string(), "qcow2");
    assert_eq!(OsImageFileType::Iso.to_string(), "iso");
    assert_eq!(SupportedOsType::Linux.to_string(), "linux");
    assert_eq!(SupportedLinuxDistroType::Alpine.to_string(), "alpine");
}

#[test]
fn exit_codes_are_distinct() {
    let codes = [
        BeckyExitCode::InvalidArgs,
        BeckyExitCode::MetadataInitFailure,
        BeckyExitCode::RemoteServiceUnavailable,
        BeckyExitCode::UnixSignalEnd,
        BeckyExitCode::SyncingImages,
    ];
    for (i, a) in codes.iter().enumerate() {
        for b in &codes[i + 1..] {
            assert_ne!(a.report(), b.report());
        }
    }
}

#[test]
fn states_begin_as_not_started_and_running_is_wanted() {
    assert_eq!(FxExecutionState::default(), FxExecutionState::NotStarted);
    assert_eq!(FxDesiredExecutionState::default(), FxDesiredExecutionState::Running);
    assert!(ExitStatus { raw: 0 }.success());
    assert!(!ExitStatus { raw: 9 }.success());
}

#[test]
fn no_constraints_convert_to_nothing() {
    assert!(ResourceConstraintless.convert_from_metadata_to_fx_configuration(Metadataless {}).is_ok());
}
