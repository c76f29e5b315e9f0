use becky::engine::boot_methods::BootMethod;
use becky::engine::machine_conf::BootStrapMethod;
use becky::engine::machine_conf::NetworkingConfiguration;
use becky::engine::machine_conf::StorageConfigurationCloudImage;
use becky::engine::machine_conf::StorageConfigurationDisk;
use becky::engine::machine_conf::StorageConfigurationIso;
use becky::engine::os::Alpine;
use becky::engine::os::Arch;
use becky::engine::os::LinuxDistro;
use becky::engine::os::OsImageFileType;
use becky::engine::os::SupportedOs;
use becky::engine::sys_conf::SystemConfiguration;
use becky::fx_id::FxId;
use becky::qemu::command::QemuSupportedArch;
use becky::qemu::errors::CreateError;
use becky::qemu::instance::QemuInstance;
use becky::qemu::machine::default_common_options;
use becky::qemu::machine::machine_configuration_from_metadata_record;
use becky::qemu::machine::QemuArchivePolicy;
use becky::qemu::machine::QemuCommonOptions;
use becky::qemu::machine::QemuFxResourceConstraints;
use becky::qemu::machine::QemuMachineConfiguration;
use becky::qemu::machine::QemuMachineConfigurationAmd64;
use becky::qemu::machine::QemuMachineConfigurationAarch64;
use becky::qemu::machine::QemuMachineConfigurationByArch;
use becky::qemu::machine::QemuMachineRequest;
use becky::qemu::options::AccelType;
use becky::qemu::options::CpuTypeAarch64;
use becky::qemu::options::CpuTypeX86_64;
use becky::qemu::options::Memory;
use becky::qemu::options::MemoryUnit;
use becky::qemu::plan::configure_common_qemu_args;
use becky::qemu::plan::configured_storage_drives;
use becky::qemu::plan::drive_id;
use becky::qemu::plan::parse_name;
use becky::qemu::plan::qemu_binary_path;
use becky::qemu::plan::qemu_from_machine_configuration;
use becky::qemu::plan::validate_accelerator;
use becky::qemu::plan::validate_boot_method;
use becky::qemu::plan::validate_common_options;
use becky::qemu::plan::HostFacts;
use becky::qemu::plan::QemuInstanceBase;
use becky::qemu::storage::QemuQcowFormat;
use becky::qemu::storage::QemuStorageType;
use becky::qemu::storage_qcow::QcowOptions;
use becky::qemu::utils::convert_cmd_line_arg_to_qemu_instance;
use becky::qemu::utils::convert_cmd_line_to_qemu_instance;
use becky::qemu::utils::shell_escape_arg;
use becky::utils::HostOs;
use qemu_command_builder::to_command::ToCommand;
use qemu_command_builder::QemuCommand;
use std::str::FromStr;

fn amd64(name: &str, common: QemuCommonOptions, cpus: u64, networking: Option<NetworkingConfiguration>) -> QemuMachineConfiguration {
    QemuMachineConfiguration {
        name: name.to_string(),
        system_configuration: SystemConfiguration::default(),
        conf: QemuMachineConfigurationByArch::Amd64(QemuMachineConfigurationAmd64 {
            common,
            cpu: CpuTypeX86_64::max(),
            cpus,
            boot_method: BootMethod::Bios,
        }),
        storage: vec![],
        networking,
    }
}

fn linux() -> HostFacts {
    HostFacts {
        os: HostOs::Linux,
        kvm_available: false,
        emulator_exists: vec![],
        which: Ok("/usr/bin/qemu-system-x86_64".to_string()),
    }
}

fn sys() -> SystemConfiguration {
    SystemConfiguration {
        emulator_paths: vec![],
        binary_paths: vec![],
        run_path: "/run".to_string(),
        vm_root_path: "/vm".to_string(),
        vm_data_root_path: "/data".to_string(),
        os_cache_root_path: "/os".to_string(),
    }
}

fn disk(id: &str, path: &str) -> StorageConfigurationDisk {
    StorageConfigurationDisk { id: id.to_string(), path: path.to_string(), size: 1024, bootable: true }
}

#[test]
fn default_common_options_include_runtime_timeouts() {
    let opts = default_common_options();

    assert_eq!(opts.qmp_connect_timeout_secs, 3);
    assert_eq!(opts.qga_connect_timeout_secs, 3);
    assert_eq!(opts.uds_retry_interval_millis, 100);
    assert_eq!(opts.qga_command_timeout_secs, 3);
    assert_eq!(opts.status_poll_interval_secs, 10);
}

#[test]
fn tcg_accelerator_is_always_valid() {
    for os in [HostOs::Linux, HostOs::MacOs, HostOs::Windows, HostOs::Other] {
        assert!(validate_accelerator(&AccelType::Tcg, os, false).is_ok());
    }
}

#[test]
fn platform_specific_accelerators_are_rejected_on_wrong_hosts() {
    for os in [HostOs::Linux, HostOs::MacOs, HostOs::Windows, HostOs::Other] {
        if os != HostOs::Linux {
            assert!(validate_accelerator(&AccelType::Kvm, os, true).is_err());
        }
        if os != HostOs::MacOs {
            assert!(validate_accelerator(&AccelType::Hvf, os, true).is_err());
        }
        if os != HostOs::Windows {
            assert!(validate_accelerator(&AccelType::Whpx, os, true).is_err());
        }
    }
    assert!(validate_accelerator(&AccelType::Kvm, HostOs::Linux, true).is_ok());
    assert!(matches!(
        validate_accelerator(&AccelType::Kvm, HostOs::Linux, false),
        Err(CreateError::Config(why)) if why == "KVM acceleration requested but /dev/kvm is not available"
    ));
    assert!(validate_accelerator(&AccelType::Hvf, HostOs::MacOs, false).is_ok());
    assert!(validate_accelerator(&AccelType::Whpx, HostOs::Windows, false).is_ok());
    assert!(matches!(
        validate_accelerator(&AccelType::Xen, HostOs::Linux, true),
        Err(CreateError::Config(why)) if why == "accelerator Xen is not validated by becky-fx-qemu yet"
    ));
}

#[test]
fn guest_agent_options_are_added_to_command_line() -> Result<(), CreateError> {
    let system_configuration = SystemConfiguration::default();
    let fx_id = FxId::String("qga-test".to_string());
    let mut common = default_common_options();
    common.enable_guest_agent = true;
    let machine_configuration = amd64("qga-test", common.clone(), 1, None);
    let mut qemu = QemuInstanceBase::new("qemu-system-x86_64".to_string());

    configure_common_qemu_args(&system_configuration, &machine_configuration, &fx_id, &common, &mut qemu)?;

    let args = qemu.to_command();
    assert!(args.iter().any(|arg| arg == "-chardev"));
    assert!(args.iter().any(|arg| {
        arg.starts_with("socket,id=qga0,path=") && arg.contains("qga-test/run/ga.sock") && arg.contains("server=on") && arg.contains("wait=off")
    }));
    assert!(args.iter().any(|arg| arg == "virtio-serial"));
    assert!(args.iter().any(|arg| arg == "virtserialport,chardev=qga0,name=org.qemu.guest_agent.0"));
    Ok(())
}

#[test]
fn user_networking_options_are_added_to_command_line() -> Result<(), CreateError> {
    let system_configuration = SystemConfiguration::default();
    let fx_id = FxId::String("net-test".to_string());
    let common = default_common_options();
    let machine_configuration = amd64("net-test", common.clone(), 1, Some(NetworkingConfiguration::User));
    let mut qemu = QemuInstanceBase::new("qemu-system-x86_64".to_string());

    configure_common_qemu_args(&system_configuration, &machine_configuration, &fx_id, &common, &mut qemu)?;

    let args = qemu.to_command();
    assert!(args.iter().any(|arg| arg == "-netdev"));
    assert!(args.iter().any(|arg| arg == "user,id=net0"));
    assert!(args.iter().any(|arg| arg == "virtio-net-pci,netdev=net0"));
    Ok(())
}

#[test]
fn inert_common_options_return_config_errors() {
    let mut common = default_common_options();
    common.extra_options = vec!["-s".to_string()];
    assert!(validate_common_options(&common).is_err());

    let mut common = default_common_options();
    common.boot_kernel = true;
    assert!(validate_common_options(&common).is_err());

    let mut common = default_common_options();
    common.bootstrap_method = BootStrapMethod::CloudInit;
    assert!(validate_common_options(&common).is_err());

    assert!(validate_boot_method(&BootMethod::Uefi).is_err());
    assert!(validate_boot_method(&BootMethod::Bios).is_ok());
    assert!(validate_common_options(&default_common_options()).is_ok());
}

#[test]
fn metadata_record_preserves_desired_configuration() {
    let system_configuration = SystemConfiguration::default();
    let fx_id = FxId::String("metadata-test".to_string());
    let mut common = default_common_options();
    common.qmp_connect_timeout_secs = 9;
    common.archive_policy = QemuArchivePolicy::Disabled;
    let machine_configuration = amd64("metadata-test", common, 4, Some(NetworkingConfiguration::User));
    let qemu = match QemuInstance::existing_or_new(&system_configuration, machine_configuration, &fx_id, &linux(), None) {
        Ok(qemu) => qemu,
        Err(err) => panic!("the machine should be made: {err:?}"),
    };

    let record = qemu.metadata_record(Some(42));
    let restored = machine_configuration_from_metadata_record(&system_configuration, &record, &qemu.qemu);

    assert_eq!(record.runtime_pid, Some(42));
    assert_eq!(restored.name, "metadata-test");
    assert_eq!(restored.storage.len(), 0);
    assert!(matches!(restored.networking, Some(NetworkingConfiguration::User)));
    match restored.conf {
        QemuMachineConfigurationByArch::Amd64(restored) => {
            assert_eq!(restored.cpus, 4);
            assert_eq!(restored.common.qmp_connect_timeout_secs, 9);
            assert!(matches!(restored.common.archive_policy, QemuArchivePolicy::Disabled));
        }
        QemuMachineConfigurationByArch::Aarch64(_) => panic!("expected amd64 metadata"),
    }
}

#[test]
fn a_record_without_a_configuration_is_told_by_its_command_line() {
    let machine = amd64("old", default_common_options(), 1, None);
    let qemu = match QemuInstance::existing_or_new(&sys(), machine, &FxId::U64(1), &linux(), None) {
        Ok(qemu) => qemu,
        Err(err) => panic!("the machine should be made: {err:?}"),
    };
    let mut record = qemu.metadata_record(None);
    record.desired = None;
    record.guest_agent_enabled = true;
    let restored = machine_configuration_from_metadata_record(&sys(), &record, &qemu.qemu);
    assert_eq!(restored.name, "old");
    assert!(restored.conf.common().enable_guest_agent);
    assert!(matches!(restored.conf, QemuMachineConfigurationByArch::Amd64(_)));
}

#[test]
fn a_recorded_machine_is_found_again() {
    let machine = amd64("again", default_common_options(), 2, None);
    let fx_id = FxId::U64(1);
    let qemu = match QemuInstance::existing_or_new(&sys(), machine, &fx_id, &linux(), None) {
        Ok(qemu) => qemu,
        Err(err) => panic!("the machine should be made: {err:?}"),
    };
    let record = qemu.metadata_record(Some(42));
    match QemuInstance::existing_from_metadata_record(&sys(), &record, &fx_id, Some(42)) {
        Ok(again) => {
            assert_eq!(again.qemu, qemu.qemu);
            assert_eq!(again.cmd.command, qemu.cmd.command);
            assert!(again.same_instance(&qemu));
        }
        Err(err) => panic!("the record should be read: {err:?}"),
    }
    let mut broken = qemu.metadata_record(None);
    broken.command_line = "true".to_string();
    assert!(matches!(
        QemuInstance::existing_from_metadata_record(&sys(), &broken, &fx_id, None),
        Err(CreateError::ParseQemuCommand(_))
    ));
}

#[test]
fn the_whole_command_line_of_a_machine() {
    let mut machine = amd64("vm", default_common_options(), 2, Some(NetworkingConfiguration::User));
    machine.storage = vec![
        QemuStorageType::Qcow2(vec![(disk("root", "/img/root.qcow2"), QemuQcowFormat::Qcow2, QcowOptions::default())]),
        QemuStorageType::HostBlock(vec![disk("", "/dev/sdb")]),
        QemuStorageType::Iso(vec![StorageConfigurationIso {
            id: "cd".to_string(),
            path: "/iso/cd.iso".to_string(),
            bootable: false,
        }]),
    ];
    let qemu = match qemu_from_machine_configuration(&sys(), &machine, &FxId::U64(7), &linux()) {
        Ok(qemu) => qemu,
        Err(err) => panic!("the command line should be made: {err:?}"),
    };
    assert_eq!(
        qemu.to_command(),
        [
            "/usr/bin/qemu-system-x86_64",
            "-cpu",
            "max",
            "-accel",
            "tcg",
            "-smp",
            "2",
            "-m",
            "512M",
            "-device",
            "virtio-net-pci,netdev=net0",
            "-name",
            "vm",
            "-drive",
            "file=/data/7/root.qcow2,if=virtio,media=disk,format=qcow2,id=disk-root",
            "-drive",
            "file=/dev/sdb,if=virtio,media=disk,format=raw,id=host-block-0",
            "-drive",
            "file=/data/7/cd,media=cdrom,id=iso-cd",
            "-netdev",
            "user,id=net0",
            "-qmp",
            "unix:/vm/7/run/ctl.sock,server=on,wait=off",
            "-pidfile",
            "/vm/7/run/qemu.pid",
        ]
    );
    assert_eq!(qemu.command(), "/usr/bin/qemu-system-x86_64");
    assert_eq!(qemu.to_args().len(), 24);
}

#[test]
fn the_command_line_reads_back() {
    let machine = amd64("vm", default_common_options(), 2, Some(NetworkingConfiguration::User));
    let qemu = match qemu_from_machine_configuration(&sys(), &machine, &FxId::U64(7), &linux()) {
        Ok(qemu) => qemu,
        Err(err) => panic!("the command line should be made: {err:?}"),
    };
    assert_eq!(convert_cmd_line_to_qemu_instance(&qemu.to_single_command()), Ok(qemu.clone()));
    assert_eq!(convert_cmd_line_arg_to_qemu_instance(qemu.to_command()), Ok(qemu.clone()));
    assert_eq!(qemu.to_single_command().parse::<QemuSupportedArch>(), Ok(qemu));
}

#[test]
fn every_option_stands_where_the_builder_writes_it() {
    let mut common = default_common_options();
    common.kernel = Some("/boot/vmlinuz".to_string());
    common.initrd = Some("/boot/initrd".to_string());
    common.snapshot = Some(true);
    common.enable_guest_agent = true;
    let mut machine = amd64("vm", common, 2, Some(NetworkingConfiguration::User));
    machine.storage = vec![
        QemuStorageType::Qcow2(vec![(disk("root", "/img/root.qcow2"), QemuQcowFormat::Qcow2, QcowOptions::default())]),
        QemuStorageType::Iso(vec![StorageConfigurationIso {
            id: "cd".to_string(),
            path: "/iso/cd.iso".to_string(),
            bootable: false,
        }]),
    ];
    let words = match qemu_from_machine_configuration(&sys(), &machine, &FxId::U64(7), &linux()) {
        Ok(qemu) => qemu.to_command(),
        Err(err) => panic!("the command line should be made: {err:?}"),
    };
    let written = match QemuCommand::from_str(&words.join(" ")) {
        Ok(command) => command.to_command(),
        Err(err) => panic!("the command line should be read: {err}"),
    };
    assert_eq!(words, written);
}

#[test]
fn kernels_and_snapshots_are_passed_on() {
    let mut common = default_common_options();
    common.kernel = Some("/boot/vmlinuz".to_string());
    common.initrd = Some("/boot/initrd".to_string());
    common.snapshot = Some(true);
    common.memory = Memory::new(MemoryUnit::GigaBytes(1), Some(3), Some(MemoryUnit::GigaBytes(4)));
    let machine = amd64("vm", common, 1, None);
    let words = match qemu_from_machine_configuration(&sys(), &machine, &FxId::U64(7), &linux()) {
        Ok(qemu) => qemu.to_command(),
        Err(err) => panic!("the command line should be made: {err:?}"),
    };
    let line = words.join(" ");
    assert!(line.contains(" -snapshot "));
    assert!(line.contains(" -kernel /boot/vmlinuz -initrd /boot/initrd "));
    assert!(line.contains(" -m 1G,slots=3,maxmem=4G "));
}

#[test]
fn aarch64_machines_have_their_own_emulator() {
    let machine = QemuMachineConfiguration {
        name: "arm".to_string(),
        system_configuration: sys(),
        conf: QemuMachineConfigurationByArch::Aarch64(QemuMachineConfigurationAarch64 {
            common: default_common_options(),
            cpu: CpuTypeAarch64::max(),
            cpus: 1,
        }),
        storage: vec![],
        networking: None,
    };
    let host = HostFacts {
        os: HostOs::Linux,
        kvm_available: true,
        emulator_exists: vec![],
        which: Err("cannot find binary path".to_string()),
    };
    assert!(matches!(
        qemu_from_machine_configuration(&sys(), &machine, &FxId::U64(7), &host),
        Err(CreateError::Which(why)) if why == "cannot find binary path"
    ));
    let mut found = sys();
    found.emulator_paths = vec!["/opt/a".to_string(), "/opt/b".to_string()];
    let host = HostFacts { emulator_exists: vec![false, true], ..host };
    match qemu_from_machine_configuration(&found, &machine, &FxId::U64(7), &host) {
        Ok(QemuSupportedArch::Aarch64(words)) => assert_eq!(words[0], "/opt/b/qemu-system-aarch64"),
        other => panic!("the emulator should be found: {other:?}"),
    }
    assert_eq!(
        qemu_binary_path(&found, "qemu-img", &host).ok(),
        Some("/opt/b/qemu-img".to_string())
    );
}

#[test]
fn inert_options_stop_a_machine() {
    let mut common = default_common_options();
    common.boot_kernel = true;
    let machine = amd64("vm", common, 1, None);
    assert!(matches!(
        qemu_from_machine_configuration(&sys(), &machine, &FxId::U64(7), &linux()),
        Err(CreateError::Config(_))
    ));
    assert!(matches!(parse_name("a,b=c"), Err(CreateError::Config(_))));
    assert_eq!(parse_name("a b").ok(), Some("a b".to_string()));
}

#[test]
fn cloud_images_are_started_from_their_overlay() {
    let mut machine = amd64("vm", default_common_options(), 1, None);
    machine.storage = vec![QemuStorageType::CloudImage(vec![(
        StorageConfigurationCloudImage {
            id: "img".to_string(),
            path: "/os/alpine.qcow2".to_string(),
            os: SupportedOs::Linux(LinuxDistro::Alpine { arch: Arch::Amd64, brand: Alpine::Version3_22_1 }),
            os_type: OsImageFileType::Qcow2,
        },
        QcowOptions::default(),
    )])];
    let words = configured_storage_drives(&sys(), &machine, &FxId::U64(7));
    assert_eq!(words.len(), 2);
    assert!(words[1].starts_with("file=/data/7/"));
    assert!(words[1].ends_with(",if=virtio,media=disk,format=qcow2,id=cloud-image-img"));
    assert_eq!(drive_id("disk", "", 3), "disk-3");
    assert_eq!(drive_id("disk", "x", 3), "disk-x");
}

#[test]
fn rejects_empty_command_args() {
    assert!(convert_cmd_line_arg_to_qemu_instance(Vec::new()).is_err());
    assert!(convert_cmd_line_to_qemu_instance("true").is_err());
    assert!(convert_cmd_line_to_qemu_instance("/bin/true -m 512M").is_err());
    assert!(matches!(
        convert_cmd_line_to_qemu_instance("/opt/qemu-system-aarch64 -m 512M"),
        Ok(QemuSupportedArch::Aarch64(words)) if words == ["/opt/qemu-system-aarch64", "-m", "512M"]
    ));
    assert!(matches!(
        convert_cmd_line_to_qemu_instance("qemu-system-x86_64 -snapshot"),
        Ok(QemuSupportedArch::X86_64(words)) if words == ["qemu-system-x86_64", "-snapshot"]
    ));
}

#[test]
fn words_are_quoted_for_the_shell() {
    assert_eq!(shell_escape_arg("unix:/vm/7/run/qmp.sock,server=on"), "unix:/vm/7/run/qmp.sock,server=on");
    assert_eq!(shell_escape_arg(""), "''");
    assert_eq!(shell_escape_arg("a b"), "'a b'");
    assert_eq!(shell_escape_arg("it's"), "'it'\\''s'");
}

#[test]
fn options_are_read_and_written() {
    for accel in [
        AccelType::Kvm,
        AccelType::Xen,
        AccelType::Hvf,
        AccelType::Nitro,
        AccelType::Nvmm,
        AccelType::Whpx,
        AccelType::Mshv,
        AccelType::Tcg,
    ] {
        assert_eq!(AccelType::parse(accel.to_arg()), Some(accel));
    }
    assert_eq!(AccelType::parse("KVM"), None);
    assert_eq!(Memory::new(MemoryUnit::Bytes(128), None, None).to_arg(), "128");
    assert_eq!(Memory::parse("size=2G").map(|memory| memory.to_arg().to_string()), Some("2G".to_string()));
    assert_eq!(
        Memory::parse("1G,maxmem=4G,slots=3").map(|memory| memory.to_arg().to_string()),
        Some("1G,slots=3,maxmem=4G".to_string())
    );
    assert!(Memory::parse("1G,slots=3").is_none());
    assert!(Memory::parse("much").is_none());
    assert_eq!(CpuTypeX86_64::parse("max"), Some(CpuTypeX86_64::max()));
    assert!(CpuTypeX86_64::parse("no-such-model").is_none());
    assert_eq!(CpuTypeX86_64::parse("qemu64").map(|cpu| cpu.to_arg().to_string()), Some("qemu64".to_string()));
    assert_eq!(CpuTypeAarch64::parse("max"), Some(CpuTypeAarch64::max()));
    assert!(CpuTypeAarch64::parse("no-such-model").is_none());
}

#[test]
fn requests_become_machines() {
    let request = QemuMachineRequest::default_for_host(Arch::Amd64);
    let machine = request.to_machine_configuration(&sys());
    assert_eq!(machine.name, request.name);
    assert!(matches!(machine.conf, QemuMachineConfigurationByArch::Amd64(_)));
    assert_eq!(request.qemu_machine_configuration(&sys()).conf, machine.conf);
    let request = QemuMachineRequest::default_for_host(Arch::Aarch64);
    assert!(matches!(request.conf, QemuMachineConfigurationByArch::Aarch64(_)));
}
