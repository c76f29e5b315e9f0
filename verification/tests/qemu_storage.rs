use becky::engine::machine_conf::StorageConfigurationCloudImage;
use becky::engine::machine_conf::StorageConfigurationDisk;
use becky::engine::machine_conf::StorageConfigurationIso;
use becky::engine::os::Alpine;
use becky::engine::os::Arch;
use becky::engine::os::LinuxDistro;
use becky::engine::os::OsImageFileType;
use becky::engine::os::SupportedOs;
use becky::engine::storage::StorageResizeRequest;
use becky::engine::storage::StorageResizeRequestDirection;
use becky::engine::sys_conf::SystemConfiguration;
use becky::fx_id::FxId;
use becky::io_error::IoError;
use becky::io_error::IoErrorKind;
use becky::qemu::img_json::Data2;
use becky::qemu::img_json::FormatSpecificRoot;
use becky::qemu::img_json::QemuImgInfo;
use becky::qemu::machine::default_common_options;
use becky::qemu::machine::default_machine_configuration_by_host;
use becky::qemu::machine::QemuMachineConfiguration;
use becky::qemu::storage::cloud_image_overlay_path;
use becky::qemu::storage::iso_dest_path;
use becky::qemu::storage::os_image_format_arg;
use becky::qemu::storage::qemu_disk_path;
use becky::qemu::storage::sanitize_storage_name;
use becky::qemu::storage::QemuQcowFormat;
use becky::qemu::storage::QemuStorageCreateError;
use becky::qemu::storage::QemuStorageType;
use becky::qemu::storage_ops::sys_storage_create;
use becky::qemu::storage_ops::sys_storage_info;
use becky::qemu::storage_ops::sys_storage_resize;
use becky::qemu::storage_ops::StorageAction;
use becky::qemu::storage_ops::StorageFailure;
use becky::qemu::storage_ops::StorageRun;
use becky::qemu::storage_qcow::inspect_qemu_image;
use becky::qemu::storage_qcow::qemu_img_create;
use becky::qemu::storage_qcow::qemu_img_resize;
use becky::qemu::storage_qcow::QcowOptions;
use becky::qemu::storage_qcow::QcowPreallocation;

fn sys() -> SystemConfiguration {
    SystemConfiguration {
        emulator_paths: vec![],
        binary_paths: vec![],
        run_path: "/run".to_string(),
        vm_root_path: "/vm".to_string(),
        vm_data_root_path: "/data".to_string(),
        os_cache_root_path: "/os".to_string(),
    }
}

fn disk(id: &str, path: &str, size: u64) -> StorageConfigurationDisk {
    StorageConfigurationDisk { id: id.to_string(), path: path.to_string(), size, bootable: false }
}

fn image(id: &str, path: &str, os_type: OsImageFileType) -> StorageConfigurationCloudImage {
    StorageConfigurationCloudImage {
        id: id.to_string(),
        path: path.to_string(),
        os: SupportedOs::Linux(LinuxDistro::Alpine { arch: Arch::Amd64, brand: Alpine::Version3_22_1 }),
        os_type,
    }
}

fn qcow2(id: &str) -> QemuStorageType {
    QemuStorageType::Qcow2(vec![(disk(id, "", 1024), QemuQcowFormat::Qcow2, QcowOptions::default())])
}

/// Reads what `qemu-img info` writes, with nothing for what is left out.
fn read_info(json: &str) -> Result<QemuImgInfo, serde_json::Error> {
    let value = serde_json::from_str::<serde_json::Value>(json)?;
    let text = |value: &serde_json::Value| value.as_str().unwrap_or_default().to_string();
    let specific = &value["format-specific"];
    Ok(QemuImgInfo {
        children: vec![],
        virtual_size: value["virtual-size"].as_i64().unwrap_or_default(),
        filename: text(&value["filename"]),
        cluster_size: value["cluster-size"].as_i64(),
        format: text(&value["format"]),
        actual_size: value["actual-size"].as_i64(),
        format_specific: if specific.is_object() {
            let data = &specific["data"];
            Some(FormatSpecificRoot {
                type_field: text(&specific["type"]),
                data: Data2 {
                    compat: text(&data["compat"]),
                    compression_type: text(&data["compression-type"]),
                    lazy_refcounts: data["lazy-refcounts"].as_bool().unwrap_or_default(),
                    refcount_bits: data["refcount-bits"].as_i64(),
                    corrupt: data["corrupt"].as_bool().unwrap_or_default(),
                    extended_l2: data["extended-l2"].as_bool().unwrap_or_default(),
                },
            })
        } else {
            None
        },
        dirty_flag: value["dirty-flag"].as_bool(),
    })
}

#[test]
fn parses_raw_image_info_without_format_specific() -> Result<(), serde_json::Error> {
    let info = read_info(
        r#"{
            "virtual-size": 1048576,
            "filename": "/tmp/disk.img",
            "format": "raw",
            "actual-size": 4096,
            "dirty-flag": false
        }"#,
    )?;

    assert_eq!(info.format, "raw");
    assert!(!info.is_corrupt());
    Ok(())
}

#[test]
fn parses_qcow2_corruption_flag() -> Result<(), serde_json::Error> {
    let info = read_info(
        r#"{
            "virtual-size": 1048576,
            "filename": "/tmp/disk.qcow2",
            "cluster-size": 65536,
            "format": "qcow2",
            "actual-size": 196616,
            "format-specific": {
                "type": "qcow2",
                "data": {
                    "compat": "1.1",
                    "compression-type": "zlib",
                    "lazy-refcounts": false,
                    "refcount-bits": 16,
                    "corrupt": true,
                    "extended-l2": false
                }
            },
            "dirty-flag": false
        }"#,
    )?;

    assert!(info.is_corrupt());
    Ok(())
}

#[test]
fn host_block_resize_reports_unsupported_storage() {
    let disk = disk("host-disk", "/dev/not-real", 0);
    let storage = QemuMachineConfiguration {
        name: "test".to_string(),
        system_configuration: SystemConfiguration::default(),
        conf: default_machine_configuration_by_host(default_common_options(), Arch::Amd64),
        storage: vec![QemuStorageType::HostBlock(vec![disk.clone()])],
        networking: None,
    };

    let mut run = storage.sys_storage_resize(
        &FxId::String("fx".to_string()),
        &vec![StorageResizeRequest {
            filepath: disk,
            new_size: 1024,
            dir: StorageResizeRequestDirection::Grow,
        }],
    );
    while let Some(action) = run.action() {
        assert!(matches!(action, StorageAction::Nothing));
        run.advance(Ok(true));
    }

    let errors = match run.result() {
        Some(Err(errors)) => errors,
        other => panic!("host block resize should be unsupported: {other:?}"),
    };
    assert!(matches!(errors.first(), Some(QemuStorageCreateError::UnsupportedStorage(message)) if message.contains("host block")));
}

#[test]
fn a_disk_is_created_and_inspected() {
    let mut run = sys_storage_create(&sys(), &FxId::U64(7), &vec![qcow2("root")]);
    let mut actions = Vec::new();
    while let Some(action) = run.action() {
        let answer = match action {
            StorageAction::Exists(_) => Ok(false),
            _ => Ok(true),
        };
        actions.push(action);
        run.advance(answer);
    }
    assert!(matches!(&actions[0], StorageAction::CreateDir(dir) if dir == "/data/7"));
    assert!(matches!(&actions[1], StorageAction::Exists(path) if path == "/data/7/root.qcow2"));
    assert!(matches!(
        &actions[2],
        StorageAction::RunImg(args) if args.join(" ") == "create --format qcow2 /data/7/root.qcow2 1024"
    ));
    assert!(matches!(run.result(), Some(Ok(()))));
}

#[test]
fn a_failed_qemu_img_is_an_error() {
    let perform = |mut run: StorageRun| {
        while let Some(action) = run.action() {
            run.advance(Ok(!matches!(action, StorageAction::RunImg(_) | StorageAction::Exists(_))));
        }
        match run.result() {
            Some(Err(errors)) => errors,
            other => panic!("qemu-img failed: {other:?}"),
        }
    };
    let errors = perform(sys_storage_create(&sys(), &FxId::U64(7), &vec![qcow2("root")]));
    assert!(matches!(
        &errors[..],
        [QemuStorageCreateError::CommandFailed("qemu-img create", path)] if path == "/data/7/root.qcow2"
    ));
    let request = StorageResizeRequest {
        filepath: disk("root", "", 1024),
        new_size: 2048,
        dir: StorageResizeRequestDirection::Grow,
    };
    let errors = perform(sys_storage_resize(&sys(), &FxId::U64(7), &vec![qcow2("root")], &vec![request]));
    assert!(matches!(
        &errors[..],
        [QemuStorageCreateError::CommandFailed("qemu-img resize", path)] if path == "/data/7/root.qcow2"
    ));
}

#[test]
fn every_failure_is_reported() {
    let mut run = sys_storage_create(&sys(), &FxId::U64(7), &vec![qcow2("a"), qcow2("b")]);
    while run.action().is_some() {
        run.advance(Err(StorageFailure::Io(IoError { kind: IoErrorKind::Other, message: "full".to_string() })));
    }
    match run.result() {
        Some(Err(errors)) => assert_eq!(errors.len(), 2),
        other => panic!("both disks should fail: {other:?}"),
    }
}

#[test]
fn corrupt_images_are_refused() {
    let mut run = sys_storage_info(&sys(), &FxId::U64(7), &vec![qcow2("a")]);
    assert!(matches!(
        run.action(),
        Some(StorageAction::Inspect(args)) if args == inspect_qemu_image("/data/7/a.qcow2")
    ));
    run.advance(Ok(true));
    assert!(matches!(
        run.result(),
        Some(Err(errors)) if matches!(&errors[..], [QemuStorageCreateError::CorruptImage(name)] if name == "/data/7/a.qcow2")
    ));
}

#[test]
fn host_blocks_and_isos_have_to_exist() {
    let storage = vec![
        QemuStorageType::HostBlock(vec![disk("b", "/dev/sdb", 0)]),
        QemuStorageType::Iso(vec![StorageConfigurationIso {
            id: "cd".to_string(),
            path: "/iso/cd.iso".to_string(),
            bootable: false,
        }]),
    ];
    let mut run = sys_storage_info(&sys(), &FxId::U64(7), &storage);
    assert!(matches!(run.action(), Some(StorageAction::StatBlock(path)) if path == "/dev/sdb"));
    run.advance(Ok(false));
    assert!(matches!(run.action(), Some(StorageAction::Exists(path)) if path == "/iso/cd.iso"));
    run.advance(Ok(false));
    match run.result() {
        Some(Err(errors)) => {
            assert_eq!(errors.len(), 2);
            assert!(matches!(
                &errors[0],
                QemuStorageCreateError::UnsupportedStorage("host block storage path is not a block device")
            ));
            assert!(matches!(&errors[1], QemuStorageCreateError::FileNotFound(path) if path == "/iso/cd.iso"));
        }
        other => panic!("both should be missing: {other:?}"),
    }
}

#[test]
fn the_errors_of_joined_storage_add_up() {
    let check = |storage: Vec<QemuStorageType>| {
        let mut run = sys_storage_info(&sys(), &FxId::U64(7), &storage);
        while let Some(action) = run.action() {
            let answer = match &action {
                StorageAction::Inspect(args) => Ok(args.iter().any(|arg| arg.contains("bad"))),
                _ => Ok(false),
            };
            run.advance(answer);
        }
        match run.result() {
            Some(Ok(())) => Vec::new(),
            Some(Err(errors)) => {
                assert!(!errors.is_empty());
                errors.iter().map(|err| format!("{err:?}")).collect()
            }
            None => panic!("the check has ended"),
        }
    };
    let first = || vec![qcow2("good"), qcow2("bad-1")];
    let second = || vec![QemuStorageType::HostBlock(vec![disk("block", "/dev/sdb", 0)]), qcow2("bad-2"), qcow2("fine")];
    let mut errors = check(first());
    assert_eq!(errors.len(), 1);
    errors.extend(check(second()));
    assert_eq!(errors.len(), 3);
    assert_eq!(check(first().into_iter().chain(second()).collect()), errors);
    assert!(check(Vec::new()).is_empty());
}

#[test]
fn only_the_named_disk_is_resized() {
    let storage = vec![qcow2("a"), qcow2("b")];
    let request = StorageResizeRequest {
        filepath: disk("b", "", 1024),
        new_size: 2048,
        dir: StorageResizeRequestDirection::Shrink,
    };
    let mut run = sys_storage_resize(&sys(), &FxId::U64(7), &storage, &vec![request]);
    assert!(matches!(
        run.action(),
        Some(StorageAction::RunImg(args)) if args == qemu_img_resize("/data/7/b.qcow2", 2048, true)
    ));
    run.advance(Ok(true));
    assert!(matches!(run.result(), Some(Ok(()))));
}

#[test]
fn storage_that_cannot_be_resized_is_refused() {
    let storage = vec![
        QemuStorageType::Iso(vec![StorageConfigurationIso {
            id: "cd".to_string(),
            path: "/iso/cd.iso".to_string(),
            bootable: false,
        }]),
        QemuStorageType::HostBlock(vec![disk("block", "/dev/sdb", 0)]),
    ];
    let request = |id: &str, path: &str| StorageResizeRequest {
        filepath: disk(id, path, 0),
        new_size: 1024,
        dir: StorageResizeRequestDirection::Grow,
    };
    let requests = vec![request("cd", ""), request("block", "/dev/sdb"), request("none", "/gone.img")];
    let mut run = sys_storage_resize(&sys(), &FxId::U64(7), &storage, &requests);
    while let Some(action) = run.action() {
        assert!(matches!(action, StorageAction::Nothing));
        run.advance(Ok(true));
    }
    match run.result() {
        Some(Err(errors)) => {
            assert_eq!(errors.len(), 3);
            assert!(matches!(&errors[0], QemuStorageCreateError::UnsupportedStorage("ISO storage cannot be resized")));
            assert!(matches!(&errors[1], QemuStorageCreateError::UnsupportedStorage(_)));
            assert!(matches!(&errors[2], QemuStorageCreateError::FileNotFound(path) if path == "/gone.img"));
        }
        other => panic!("nothing should be resized: {other:?}"),
    }
}

#[test]
fn overlays_are_made_of_existing_images() {
    let images = |os_type: OsImageFileType| {
        vec![QemuStorageType::CloudImage(vec![(image("img", "/os/a.img", os_type), QcowOptions::default())])]
    };
    let mut run = sys_storage_create(&sys(), &FxId::U64(7), &images(OsImageFileType::Raw));
    let mut overlay = String::new();
    while let Some(action) = run.action() {
        let answer = match &action {
            StorageAction::Exists(path) => Ok(path == "/os/a.img"),
            StorageAction::RunImg(args) => {
                overlay = args.join(" ");
                Ok(true)
            }
            StorageAction::Inspect(_) => Ok(false),
            _ => Ok(true),
        };
        run.advance(answer);
    }
    assert!(matches!(run.result(), Some(Ok(()))));
    assert!(overlay.contains("backing_file=/os/a.img"));
    assert!(overlay.contains("backing_fmt=raw"));
    assert!(overlay.ends_with(" /data/7/img.qcow2"));

    let mut run = sys_storage_create(&sys(), &FxId::U64(7), &images(OsImageFileType::Raw));
    while run.action().is_some() {
        run.advance(Ok(false));
    }
    assert!(matches!(
        run.result(),
        Some(Err(errors)) if matches!(&errors[..], [QemuStorageCreateError::FileNotFound(path)] if path == "/os/a.img")
    ));
}

#[test]
fn image_commands_are_put_together() {
    assert_eq!(qemu_img_resize("d.img", 2048, true).join(" "), "resize --shrink d.img 2048");
    assert_eq!(qemu_img_resize("d.img", 2048, false).join(" "), "resize d.img 2048");
    assert_eq!(inspect_qemu_image("d.img").join(" "), "info --force-share --output json d.img");
    let options = QcowOptions {
        backing_file: Some("/os/base.qcow2".to_string()),
        backing_format: Some("qcow2".to_string()),
        preallocation: Some(QcowPreallocation::Metadata),
        compat: None,
        cluster_size: Some(65536),
        lazy_refcounts: Some(true),
        extended_l2: Some(false),
    };
    let line = qemu_img_create("qcow2", "d.qcow2", None, &options).join(" ");
    assert!(line.starts_with("create "));
    assert!(line.ends_with(" d.qcow2"));
    assert!(line.contains("preallocation=metadata"));
    assert!(line.contains("cluster_size=65536"));
    assert!(line.contains("lazy_refcounts=on"));
    assert!(line.contains("extended_l2=off"));
}

#[test]
fn managed_files_stay_in_the_data_directory() {
    let fx_id = FxId::U64(7);
    assert_eq!(sanitize_storage_name("a/b c"), "a_b_c");
    assert_eq!(sanitize_storage_name(&sanitize_storage_name("a/b c")), "a_b_c");
    assert_eq!(
        qemu_disk_path(&sys(), &fx_id, &disk("../x", "", 1), &QemuQcowFormat::Raw),
        format!("/data/7/{}.img", sanitize_storage_name("../x"))
    );
    assert_eq!(
        iso_dest_path(&sys(), &fx_id, &StorageConfigurationIso {
            id: "cd".to_string(),
            path: "/iso/other.iso".to_string(),
            bootable: false,
        }),
        "/data/7/cd"
    );
    assert!(cloud_image_overlay_path(&sys(), &fx_id, &image("img", "/os/a.qcow2", OsImageFileType::Qcow2)).starts_with("/data/7/"));
    assert_eq!(os_image_format_arg(&OsImageFileType::Qcow2), Some("qcow2"));
    assert_eq!(os_image_format_arg(&OsImageFileType::Raw), Some("raw"));
    assert_eq!(os_image_format_arg(&OsImageFileType::Iso), None);
}
