//! Configurations of virtual machines, and the records kept of them.
use vstd::prelude::*;

use crate::engine::boot_methods::BootMethod;
use crate::engine::empty_implementations::Metadataless;
use crate::engine::machine_conf::BootStrapMethod;
use crate::engine::machine_conf::FxResourceConstraints;
use crate::engine::machine_conf::NetworkingConfiguration;
use crate::engine::os::Arch;
use crate::engine::sys_conf::SystemConfiguration;
use crate::engine::sys_conf::SystemModel;
use crate::qemu::command::QemuSupportedArch;
use crate::qemu::options::AccelType;
use crate::qemu::options::CpuTypeAarch64;
use crate::qemu::options::CpuTypeX86_64;
use crate::qemu::options::Memory;
use crate::qemu::options::MemoryUnit;
use crate::qemu::options::accel_of;
use crate::qemu::options::lemma_accel_of;
use crate::qemu::options::memory_reading;
use crate::qemu::options::memory_text;
use crate::qemu::storage::QemuStorageType;
use crate::qemu::storage::StorageModel;
use crate::qemu::storage::copy_storage;
use crate::qemu::storage::storages;
use crate::text::copy_opt;
use crate::text::copy_strings;
use crate::text::opt_text;
use crate::text::texts;

verus! {

/// The provider under which records of virtual machines are kept.
pub const QEMU_METADATA_PROVIDER: &'static str = "becky-fx-qemu";

/// What may be archived of a virtual machine.
#[derive(Clone, Copy, Debug, PartialEq, Eq, Structural)]
pub enum QemuArchivePolicy {
    /// The state of the machine, without its disks.
    StateOnly,
    /// Nothing.
    Disabled,
}

/// Options of a virtual machine of any architecture.
#[derive(Debug, PartialEq, Eq)]
pub struct QemuCommonOptions {
    pub memory: Memory,
    pub enable_guest_agent: bool,
    pub kernel: Option<String>,
    pub initrd: Option<String>,
    pub extra_options: Vec<String>,
    pub snapshot: Option<bool>,
    pub boot_kernel: bool,
    pub accel_type: AccelType,
    pub bootstrap_method: BootStrapMethod,
    pub qmp_connect_timeout_secs: u64,
    pub qga_connect_timeout_secs: u64,
    pub uds_retry_interval_millis: u64,
    pub qga_command_timeout_secs: u64,
    pub status_poll_interval_secs: u64,
    pub archive_policy: QemuArchivePolicy,
}

/// The model of the common options.
#[verifier::ext_equal]
pub struct CommonModel {
    pub memory: Seq<char>,
    pub enable_guest_agent: bool,
    pub kernel: Option<Seq<char>>,
    pub initrd: Option<Seq<char>>,
    pub extra_options: Seq<Seq<char>>,
    pub snapshot: Option<bool>,
    pub boot_kernel: bool,
    pub accel_type: AccelType,
    pub bootstrap_method: BootStrapMethod,
    pub qmp_connect_timeout_secs: u64,
    pub qga_connect_timeout_secs: u64,
    pub uds_retry_interval_millis: u64,
    pub qga_command_timeout_secs: u64,
    pub status_poll_interval_secs: u64,
    pub archive_policy: QemuArchivePolicy,
}

impl View for QemuCommonOptions {
    type V = CommonModel;

    open spec fn view(&self) -> CommonModel {
        CommonModel {
            memory: self.memory@,
            enable_guest_agent: self.enable_guest_agent,
            kernel: opt_text(self.kernel),
            initrd: opt_text(self.initrd),
            extra_options: texts(self.extra_options@),
            snapshot: self.snapshot,
            boot_kernel: self.boot_kernel,
            accel_type: self.accel_type,
            bootstrap_method: self.bootstrap_method,
            qmp_connect_timeout_secs: self.qmp_connect_timeout_secs,
            qga_connect_timeout_secs: self.qga_connect_timeout_secs,
            uds_retry_interval_millis: self.uds_retry_interval_millis,
            qga_command_timeout_secs: self.qga_command_timeout_secs,
            status_poll_interval_secs: self.status_poll_interval_secs,
            archive_policy: self.archive_policy,
        }
    }
}

impl Clone for QemuCommonOptions {
    fn clone(&self) -> (r: Self)
        ensures
            r@ == self@,
    {
        QemuCommonOptions {
            memory: self.memory.clone(),
            enable_guest_agent: self.enable_guest_agent,
            kernel: copy_opt(&self.kernel),
            initrd: copy_opt(&self.initrd),
            extra_options: copy_strings(&self.extra_options),
            snapshot: self.snapshot,
            boot_kernel: self.boot_kernel,
            accel_type: self.accel_type,
            bootstrap_method: self.bootstrap_method,
            qmp_connect_timeout_secs: self.qmp_connect_timeout_secs,
            qga_connect_timeout_secs: self.qga_connect_timeout_secs,
            uds_retry_interval_millis: self.uds_retry_interval_millis,
            qga_command_timeout_secs: self.qga_command_timeout_secs,
            status_poll_interval_secs: self.status_poll_interval_secs,
            archive_policy: self.archive_policy,
        }
    }
}

/// Desired configuration for an x86 virtual machine.
#[derive(Debug, PartialEq, Eq)]
pub struct QemuMachineConfigurationAmd64 {
    pub common: QemuCommonOptions,
    pub cpu: CpuTypeX86_64,
    pub cpus: u64,
    pub boot_method: BootMethod,
}

impl Clone for QemuMachineConfigurationAmd64 {
    fn clone(&self) -> (r: Self)
        ensures
            r.common@ == self.common@ && r.cpu == self.cpu && r.cpus == self.cpus && r.boot_method
                == self.boot_method,
    {
        QemuMachineConfigurationAmd64 {
            common: self.common.clone(),
            cpu: self.cpu.clone(),
            cpus: self.cpus,
            boot_method: self.boot_method,
        }
    }
}

/// Desired configuration for an aarch64 virtual machine.
#[derive(Debug, PartialEq, Eq)]
pub struct QemuMachineConfigurationAarch64 {
    pub common: QemuCommonOptions,
    pub cpu: CpuTypeAarch64,
    pub cpus: u64,
}

impl Clone for QemuMachineConfigurationAarch64 {
    fn clone(&self) -> (r: Self)
        ensures
            r.common@ == self.common@ && r.cpu == self.cpu && r.cpus == self.cpus,
    {
        QemuMachineConfigurationAarch64 {
            common: self.common.clone(),
            cpu: self.cpu.clone(),
            cpus: self.cpus,
        }
    }
}

/// Desired configuration of a virtual machine, by architecture.
#[derive(Debug, PartialEq, Eq)]
pub enum QemuMachineConfigurationByArch {
    Amd64(QemuMachineConfigurationAmd64),
    Aarch64(QemuMachineConfigurationAarch64),
}

/// The model of a configuration by architecture.
#[verifier::ext_equal]
pub enum ConfModel {
    Amd64 { common: CommonModel, cpu: Seq<char>, cpus: u64, boot_method: BootMethod },
    Aarch64 { common: CommonModel, cpu: Seq<char>, cpus: u64 },
}

impl ConfModel {
    /// The options that machines of any architecture have.
    pub open spec fn shared(self) -> CommonModel {
        match self {
            ConfModel::Amd64 { common, .. } => common,
            ConfModel::Aarch64 { common, .. } => common,
        }
    }

    /// The processor model.
    pub open spec fn model(self) -> Seq<char> {
        match self {
            ConfModel::Amd64 { cpu, .. } => cpu,
            ConfModel::Aarch64 { cpu, .. } => cpu,
        }
    }

    /// The number of processors.
    pub open spec fn count(self) -> u64 {
        match self {
            ConfModel::Amd64 { cpus, .. } => cpus,
            ConfModel::Aarch64 { cpus, .. } => cpus,
        }
    }

    /// The configuration with another processor model.
    pub open spec fn with_cpu(self, model: Seq<char>) -> ConfModel {
        match self {
            ConfModel::Amd64 { common, cpus, boot_method, .. } => ConfModel::Amd64 {
                common,
                cpu: model,
                cpus,
                boot_method,
            },
            ConfModel::Aarch64 { common, cpus, .. } => ConfModel::Aarch64 { common, cpu: model, cpus },
        }
    }
}

impl View for QemuMachineConfigurationByArch {
    type V = ConfModel;

    open spec fn view(&self) -> ConfModel {
        match self {
            QemuMachineConfigurationByArch::Amd64(machine) => ConfModel::Amd64 {
                common: machine.common@,
                cpu: machine.cpu@,
                cpus: machine.cpus,
                boot_method: machine.boot_method,
            },
            QemuMachineConfigurationByArch::Aarch64(machine) => ConfModel::Aarch64 {
                common: machine.common@,
                cpu: machine.cpu@,
                cpus: machine.cpus,
            },
        }
    }
}

impl Clone for QemuMachineConfigurationByArch {
    fn clone(&self) -> (r: Self)
        ensures
            r@ == self@,
    {
        match self {
            QemuMachineConfigurationByArch::Amd64(machine) => QemuMachineConfigurationByArch::Amd64(
                machine.clone(),
            ),
            QemuMachineConfigurationByArch::Aarch64(machine) => {
                QemuMachineConfigurationByArch::Aarch64(machine.clone())
            },
        }
    }
}

impl QemuMachineConfigurationByArch {
    /// The options that machines of any architecture have.
    pub fn common(&self) -> (r: &QemuCommonOptions)
        ensures
            r@ == self@.shared(),
    {
        match self {
            QemuMachineConfigurationByArch::Amd64(machine) => &machine.common,
            QemuMachineConfigurationByArch::Aarch64(machine) => &machine.common,
        }
    }
}

/// Desired configuration of a virtual machine on a host.
#[derive(Debug)]
pub struct QemuMachineConfiguration {
    pub name: String,
    pub system_configuration: SystemConfiguration,
    pub conf: QemuMachineConfigurationByArch,
    pub storage: Vec<QemuStorageType>,
    pub networking: Option<NetworkingConfiguration>,
}

/// The model of a machine configuration.
#[verifier::ext_equal]
pub struct MachineModel {
    pub name: Seq<char>,
    pub system_configuration: SystemModel,
    pub conf: ConfModel,
    pub storage: Seq<StorageModel>,
    pub networking: Option<NetworkingConfiguration>,
}

impl View for QemuMachineConfiguration {
    type V = MachineModel;

    open spec fn view(&self) -> MachineModel {
        MachineModel {
            name: self.name@,
            system_configuration: self.system_configuration@,
            conf: self.conf@,
            storage: storages(self.storage@),
            networking: self.networking,
        }
    }
}

impl Clone for QemuMachineConfiguration {
    fn clone(&self) -> (r: Self)
        ensures
            r@ == self@,
    {
        QemuMachineConfiguration {
            name: self.name.clone(),
            system_configuration: self.system_configuration.clone(),
            conf: self.conf.clone(),
            storage: copy_storage(&self.storage),
            networking: self.networking,
        }
    }
}

/// The options of a machine of which nothing is said.
pub open spec fn default_common() -> CommonModel {
    CommonModel {
        memory: memory_text(MemoryUnit::MegaBytes(512), None, None),
        enable_guest_agent: false,
        kernel: None,
        initrd: None,
        extra_options: seq![],
        snapshot: None,
        boot_kernel: false,
        accel_type: AccelType::Tcg,
        bootstrap_method: BootStrapMethod::NoBootstrap,
        qmp_connect_timeout_secs: 3,
        qga_connect_timeout_secs: 3,
        uds_retry_interval_millis: 100,
        qga_command_timeout_secs: 3,
        status_poll_interval_secs: 10,
        archive_policy: QemuArchivePolicy::StateOnly,
    }
}

/// The options of a machine of which nothing is said.
pub fn default_common_options() -> (r: QemuCommonOptions)
    ensures
        r@ == default_common(),
{
    let r = QemuCommonOptions {
        memory: Memory::new(MemoryUnit::MegaBytes(512), None, None),
        enable_guest_agent: false,
        kernel: None,
        initrd: None,
        extra_options: Vec::new(),
        snapshot: None,
        boot_kernel: false,
        accel_type: AccelType::Tcg,
        bootstrap_method: BootStrapMethod::NoBootstrap,
        qmp_connect_timeout_secs: 3,
        qga_connect_timeout_secs: 3,
        uds_retry_interval_millis: 100,
        qga_command_timeout_secs: 3,
        status_poll_interval_secs: 10,
        archive_policy: QemuArchivePolicy::StateOnly,
    };
    proof {
        assert(r@ =~= default_common());
    }
    r
}

/// A machine of one processor of the model `max`, for the given architecture.
pub open spec fn default_conf(common: CommonModel, arch: Arch) -> ConfModel {
    match arch {
        Arch::Aarch64 => ConfModel::Aarch64 { common, cpu: "max"@, cpus: 1 },
        Arch::Amd64 => ConfModel::Amd64 {
            common,
            cpu: "max"@,
            cpus: 1,
            boot_method: BootMethod::Bios,
        },
    }
}

/// The configuration of a machine of the architecture of the host.
pub fn default_machine_configuration_by_host(common: QemuCommonOptions, host: Arch) -> (r:
    QemuMachineConfigurationByArch)
    ensures
        r@ == default_conf(common@, host),
{
    match host {
        Arch::Aarch64 => QemuMachineConfigurationByArch::Aarch64(
            QemuMachineConfigurationAarch64 { common, cpu: CpuTypeAarch64::max(), cpus: 1 },
        ),
        Arch::Amd64 => QemuMachineConfigurationByArch::Amd64(
            QemuMachineConfigurationAmd64 {
                common,
                cpu: CpuTypeX86_64::max(),
                cpus: 1,
                boot_method: BootMethod::Bios,
            },
        ),
    }
}

/// A request for a virtual machine: its full shape, without the host.
#[derive(Debug)]
pub struct QemuMachineRequest {
    pub name: String,
    pub conf: QemuMachineConfigurationByArch,
    pub storage: Vec<QemuStorageType>,
    pub networking: Option<NetworkingConfiguration>,
}

/// The model of a request.
#[verifier::ext_equal]
pub struct RequestModel {
    pub name: Seq<char>,
    pub conf: ConfModel,
    pub storage: Seq<StorageModel>,
    pub networking: Option<NetworkingConfiguration>,
}

impl RequestModel {
    /// The configuration of the requested machine on a host.
    pub open spec fn on(self, system_configuration: SystemModel) -> MachineModel {
        MachineModel {
            name: self.name,
            system_configuration,
            conf: self.conf,
            storage: self.storage,
            networking: self.networking,
        }
    }
}

impl View for QemuMachineRequest {
    type V = RequestModel;

    open spec fn view(&self) -> RequestModel {
        RequestModel {
            name: self.name@,
            conf: self.conf@,
            storage: storages(self.storage@),
            networking: self.networking,
        }
    }
}

impl Clone for QemuMachineRequest {
    fn clone(&self) -> (r: Self)
        ensures
            r@ == self@,
    {
        QemuMachineRequest {
            name: self.name.clone(),
            conf: self.conf.clone(),
            storage: copy_storage(&self.storage),
            networking: self.networking,
        }
    }
}

impl QemuMachineRequest {
    /// The request for a machine of the architecture of the host, without
    /// disks and with user-mode networking.
    pub fn default_for_host(host: Arch) -> (r: Self)
        ensures
            r@ == (RequestModel {
                name: "becky-qemu"@,
                conf: default_conf(default_common(), host),
                storage: seq![],
                networking: Some(NetworkingConfiguration::User),
            }),
    {
        let r = QemuMachineRequest {
            name: "becky-qemu".to_owned(),
            conf: default_machine_configuration_by_host(default_common_options(), host),
            storage: Vec::new(),
            networking: Some(NetworkingConfiguration::User),
        };
        proof {
            assert(storages(r.storage@) =~= seq![]);
        }
        r
    }

    /// The configuration of the requested machine on a host.
    pub fn to_machine_configuration(&self, system_configuration: &SystemConfiguration) -> (r:
        QemuMachineConfiguration)
        ensures
            r@ == self@.on(system_configuration@),
    {
        QemuMachineConfiguration {
            name: self.name.clone(),
            system_configuration: system_configuration.clone(),
            conf: self.conf.clone(),
            storage: copy_storage(&self.storage),
            networking: self.networking,
        }
    }
}

impl FxResourceConstraints for QemuMachineRequest {
    type Metadata = Metadataless;

    type FxStorageConfiguration = Vec<QemuStorageType>;

    type FxConfiguration = QemuMachineRequest;

    type FxConfigurationError = ();

    fn convert_from_metadata_to_fx_configuration(&self, mdt: Self::Metadata) -> (r: Result<
        Self::FxConfiguration,
        Self::FxConfigurationError,
    >)
        ensures
            r is Ok && r->Ok_0@ == self@,
    {
        Ok(self.clone())
    }

    fn storage_configurations(&self) -> (r: Self::FxStorageConfiguration)
        ensures
            storages(r@) == self@.storage,
    {
        copy_storage(&self.storage)
    }
}

/// Resource constraints that can be turned into the configuration of a
/// virtual machine.
pub trait QemuFxResourceConstraints: FxResourceConstraints {
    /// The configuration of the requested machine on a host.
    fn qemu_machine_configuration(&self, system_configuration: &SystemConfiguration) ->
        QemuMachineConfiguration;
}

impl QemuFxResourceConstraints for QemuMachineRequest {
    fn qemu_machine_configuration(&self, system_configuration: &SystemConfiguration) -> (r:
        QemuMachineConfiguration)
        ensures
            r@ == self@.on(system_configuration@),
    {
        self.to_machine_configuration(system_configuration)
    }
}

/// Architectures of recorded machines.
#[derive(Clone, Copy, Debug, PartialEq, Eq, Structural)]
pub enum QemuDesiredArchitecture {
    X86_64,
    Aarch64,
}

/// The recorded options of a machine.
#[derive(Debug, PartialEq, Eq)]
pub struct QemuDesiredCommonOptions {
    pub memory: String,
    pub enable_guest_agent: bool,
    pub kernel: Option<String>,
    pub initrd: Option<String>,
    pub extra_options: Vec<String>,
    pub snapshot: Option<bool>,
    pub boot_kernel: bool,
    pub accel_type: String,
    pub bootstrap_method: BootStrapMethod,
    pub qmp_connect_timeout_secs: u64,
    pub qga_connect_timeout_secs: u64,
    pub uds_retry_interval_millis: u64,
    pub qga_command_timeout_secs: u64,
    pub status_poll_interval_secs: u64,
    pub archive_policy: QemuArchivePolicy,
}

/// The model of the recorded options.
#[verifier::ext_equal]
pub struct DesiredCommonModel {
    pub memory: Seq<char>,
    pub enable_guest_agent: bool,
    pub kernel: Option<Seq<char>>,
    pub initrd: Option<Seq<char>>,
    pub extra_options: Seq<Seq<char>>,
    pub snapshot: Option<bool>,
    pub boot_kernel: bool,
    pub accel_type: Seq<char>,
    pub bootstrap_method: BootStrapMethod,
    pub qmp_connect_timeout_secs: u64,
    pub qga_connect_timeout_secs: u64,
    pub uds_retry_interval_millis: u64,
    pub qga_command_timeout_secs: u64,
    pub status_poll_interval_secs: u64,
    pub archive_policy: QemuArchivePolicy,
}

impl View for QemuDesiredCommonOptions {
    type V = DesiredCommonModel;

    open spec fn view(&self) -> DesiredCommonModel {
        DesiredCommonModel {
            memory: self.memory@,
            enable_guest_agent: self.enable_guest_agent,
            kernel: opt_text(self.kernel),
            initrd: opt_text(self.initrd),
            extra_options: texts(self.extra_options@),
            snapshot: self.snapshot,
            boot_kernel: self.boot_kernel,
            accel_type: self.accel_type@,
            bootstrap_method: self.bootstrap_method,
            qmp_connect_timeout_secs: self.qmp_connect_timeout_secs,
            qga_connect_timeout_secs: self.qga_connect_timeout_secs,
            uds_retry_interval_millis: self.uds_retry_interval_millis,
            qga_command_timeout_secs: self.qga_command_timeout_secs,
            status_poll_interval_secs: self.status_poll_interval_secs,
            archive_policy: self.archive_policy,
        }
    }
}

impl Clone for QemuDesiredCommonOptions {
    fn clone(&self) -> (r: Self)
        ensures
            r@ == self@,
    {
        QemuDesiredCommonOptions {
            memory: self.memory.clone(),
            enable_guest_agent: self.enable_guest_agent,
            kernel: copy_opt(&self.kernel),
            initrd: copy_opt(&self.initrd),
            extra_options: copy_strings(&self.extra_options),
            snapshot: self.snapshot,
            boot_kernel: self.boot_kernel,
            accel_type: self.accel_type.clone(),
            bootstrap_method: self.bootstrap_method,
            qmp_connect_timeout_secs: self.qmp_connect_timeout_secs,
            qga_connect_timeout_secs: self.qga_connect_timeout_secs,
            uds_retry_interval_millis: self.uds_retry_interval_millis,
            qga_command_timeout_secs: self.qga_command_timeout_secs,
            status_poll_interval_secs: self.status_poll_interval_secs,
            archive_policy: self.archive_policy,
        }
    }
}

/// The recorded configuration of a machine.
#[derive(Debug, PartialEq, Eq)]
pub struct QemuDesiredMetadataRecord {
    pub name: String,
    pub arch: QemuDesiredArchitecture,
    pub common: QemuDesiredCommonOptions,
    pub cpus: u64,
    pub boot_method: Option<BootMethod>,
    pub storage: Vec<QemuStorageType>,
    pub networking: Option<NetworkingConfiguration>,
}

/// The model of a recorded configuration.
#[verifier::ext_equal]
pub struct DesiredModel {
    pub name: Seq<char>,
    pub arch: QemuDesiredArchitecture,
    pub common: DesiredCommonModel,
    pub cpus: u64,
    pub boot_method: Option<BootMethod>,
    pub storage: Seq<StorageModel>,
    pub networking: Option<NetworkingConfiguration>,
}

impl View for QemuDesiredMetadataRecord {
    type V = DesiredModel;

    open spec fn view(&self) -> DesiredModel {
        DesiredModel {
            name: self.name@,
            arch: self.arch,
            common: self.common@,
            cpus: self.cpus,
            boot_method: self.boot_method,
            storage: storages(self.storage@),
            networking: self.networking,
        }
    }
}

impl Clone for QemuDesiredMetadataRecord {
    fn clone(&self) -> (r: Self)
        ensures
            r@ == self@,
    {
        QemuDesiredMetadataRecord {
            name: self.name.clone(),
            arch: self.arch,
            common: self.common.clone(),
            cpus: self.cpus,
            boot_method: self.boot_method,
            storage: copy_storage(&self.storage),
            networking: self.networking,
        }
    }
}

/// What is recorded of the options of a machine.
pub open spec fn recorded_common(common: CommonModel) -> DesiredCommonModel {
    DesiredCommonModel {
        memory: common.memory,
        enable_guest_agent: common.enable_guest_agent,
        kernel: common.kernel,
        initrd: common.initrd,
        extra_options: common.extra_options,
        snapshot: common.snapshot,
        boot_kernel: common.boot_kernel,
        accel_type: common.accel_type.text(),
        bootstrap_method: common.bootstrap_method,
        qmp_connect_timeout_secs: common.qmp_connect_timeout_secs,
        qga_connect_timeout_secs: common.qga_connect_timeout_secs,
        uds_retry_interval_millis: common.uds_retry_interval_millis,
        qga_command_timeout_secs: common.qga_command_timeout_secs,
        status_poll_interval_secs: common.status_poll_interval_secs,
        archive_policy: common.archive_policy,
    }
}

/// What is recorded of the options of a machine.
pub fn desired_common_options(common: &QemuCommonOptions) -> (r: QemuDesiredCommonOptions)
    ensures
        r@ == recorded_common(common@),
{
    QemuDesiredCommonOptions {
        memory: common.memory.to_arg().to_owned(),
        enable_guest_agent: common.enable_guest_agent,
        kernel: copy_opt(&common.kernel),
        initrd: copy_opt(&common.initrd),
        extra_options: copy_strings(&common.extra_options),
        snapshot: common.snapshot,
        boot_kernel: common.boot_kernel,
        accel_type: common.accel_type.to_arg().to_owned(),
        bootstrap_method: common.bootstrap_method,
        qmp_connect_timeout_secs: common.qmp_connect_timeout_secs,
        qga_connect_timeout_secs: common.qga_connect_timeout_secs,
        uds_retry_interval_millis: common.uds_retry_interval_millis,
        qga_command_timeout_secs: common.qga_command_timeout_secs,
        status_poll_interval_secs: common.status_poll_interval_secs,
        archive_policy: common.archive_policy,
    }
}

/// What is recorded of a machine.
pub open spec fn recorded(machine: MachineModel) -> DesiredModel {
    DesiredModel {
        name: machine.name,
        arch: match machine.conf {
            ConfModel::Amd64 { .. } => QemuDesiredArchitecture::X86_64,
            ConfModel::Aarch64 { .. } => QemuDesiredArchitecture::Aarch64,
        },
        common: recorded_common(machine.conf.shared()),
        cpus: machine.conf.count(),
        boot_method: match machine.conf {
            ConfModel::Amd64 { boot_method, .. } => Some(boot_method),
            ConfModel::Aarch64 { .. } => None,
        },
        storage: machine.storage,
        networking: machine.networking,
    }
}

impl QemuDesiredMetadataRecord {
    /// What is recorded of a machine.
    pub fn from(value: &QemuMachineConfiguration) -> (r: Self)
        ensures
            r@ == recorded(value@),
    {
        match &value.conf {
            QemuMachineConfigurationByArch::Amd64(machine) => QemuDesiredMetadataRecord {
                name: value.name.clone(),
                arch: QemuDesiredArchitecture::X86_64,
                common: desired_common_options(&machine.common),
                cpus: machine.cpus,
                boot_method: Some(machine.boot_method),
                storage: copy_storage(&value.storage),
                networking: value.networking,
            },
            QemuMachineConfigurationByArch::Aarch64(machine) => QemuDesiredMetadataRecord {
                name: value.name.clone(),
                arch: QemuDesiredArchitecture::Aarch64,
                common: desired_common_options(&machine.common),
                cpus: machine.cpus,
                boot_method: None,
                storage: copy_storage(&value.storage),
                networking: value.networking,
            },
        }
    }
}

/// The options that a record stands for, where `memory` is what its memory
/// was read as. What cannot be read is taken from the default.
pub open spec fn restored_common(desired: DesiredCommonModel, memory: Option<Seq<char>>) -> CommonModel {
    CommonModel {
        memory: match memory {
            Some(arg) => arg,
            None => default_common().memory,
        },
        enable_guest_agent: desired.enable_guest_agent,
        kernel: desired.kernel,
        initrd: desired.initrd,
        extra_options: desired.extra_options,
        snapshot: desired.snapshot,
        boot_kernel: desired.boot_kernel,
        accel_type: match accel_of(desired.accel_type) {
            Some(accel) => accel,
            None => default_common().accel_type,
        },
        bootstrap_method: desired.bootstrap_method,
        qmp_connect_timeout_secs: desired.qmp_connect_timeout_secs,
        qga_connect_timeout_secs: desired.qga_connect_timeout_secs,
        uds_retry_interval_millis: desired.uds_retry_interval_millis,
        qga_command_timeout_secs: desired.qga_command_timeout_secs,
        status_poll_interval_secs: desired.status_poll_interval_secs,
        archive_policy: desired.archive_policy,
    }
}

/// The machine that a record stands for, where `memory` is what its memory
/// was read as. The record does not hold the processor model.
pub open spec fn restored(
    system_configuration: SystemModel,
    desired: DesiredModel,
    memory: Option<Seq<char>>,
) -> MachineModel {
    let common = restored_common(desired.common, memory);
    MachineModel {
        name: desired.name,
        system_configuration,
        conf: match desired.arch {
            QemuDesiredArchitecture::X86_64 => ConfModel::Amd64 {
                common,
                cpu: "max"@,
                cpus: desired.cpus,
                boot_method: match desired.boot_method {
                    Some(boot_method) => boot_method,
                    None => BootMethod::Bios,
                },
            },
            QemuDesiredArchitecture::Aarch64 => ConfModel::Aarch64 {
                common,
                cpu: "max"@,
                cpus: desired.cpus,
            },
        },
        storage: desired.storage,
        networking: desired.networking,
    }
}

/// The machine that a record stands for. Memory of an amount, alone or with
/// both slots and a largest amount, is read as it was recorded.
pub fn desired_machine_configuration_from_metadata(
    system_configuration: &SystemConfiguration,
    desired: &QemuDesiredMetadataRecord,
) -> (r: QemuMachineConfiguration)
    ensures
        r@ == restored(
            system_configuration@,
            desired@,
            memory_reading(desired@.common.memory),
        ),
        forall|mem: MemoryUnit, slots: Option<u64>, maxmem: Option<MemoryUnit>|
            desired@.common.memory == #[trigger] memory_text(mem, slots, maxmem) && slots is Some
                == maxmem is Some ==> r@.conf.shared().memory == desired@.common.memory,
{
    let recorded = &desired.common;
    let defaults = default_common_options();
    let memory = match Memory::parse(recorded.memory.as_str()) {
        Some(memory) => memory,
        None => defaults.memory,
    };
    let accel_type = match AccelType::parse(recorded.accel_type.as_str()) {
        Some(accel_type) => accel_type,
        None => defaults.accel_type,
    };
    let common = QemuCommonOptions {
        memory,
        enable_guest_agent: recorded.enable_guest_agent,
        kernel: copy_opt(&recorded.kernel),
        initrd: copy_opt(&recorded.initrd),
        extra_options: copy_strings(&recorded.extra_options),
        snapshot: recorded.snapshot,
        boot_kernel: recorded.boot_kernel,
        accel_type,
        bootstrap_method: recorded.bootstrap_method,
        qmp_connect_timeout_secs: recorded.qmp_connect_timeout_secs,
        qga_connect_timeout_secs: recorded.qga_connect_timeout_secs,
        uds_retry_interval_millis: recorded.uds_retry_interval_millis,
        qga_command_timeout_secs: recorded.qga_command_timeout_secs,
        status_poll_interval_secs: recorded.status_poll_interval_secs,
        archive_policy: recorded.archive_policy,
    };
    let conf = match desired.arch {
        QemuDesiredArchitecture::X86_64 => QemuMachineConfigurationByArch::Amd64(
            QemuMachineConfigurationAmd64 {
                common,
                cpu: CpuTypeX86_64::max(),
                cpus: desired.cpus,
                boot_method: match desired.boot_method {
                    Some(boot_method) => boot_method,
                    None => BootMethod::Bios,
                },
            },
        ),
        QemuDesiredArchitecture::Aarch64 => QemuMachineConfigurationByArch::Aarch64(
            QemuMachineConfigurationAarch64 {
                common,
                cpu: CpuTypeAarch64::max(),
                cpus: desired.cpus,
            },
        ),
    };
    QemuMachineConfiguration {
        name: desired.name.clone(),
        system_configuration: system_configuration.clone(),
        conf,
        storage: copy_storage(&desired.storage),
        networking: desired.networking,
    }
}

/// A machine is restored from its record as it was, but for the processor
/// model, which becomes `max`, given that its memory is read as it was
/// recorded.
pub proof fn law_record_restores_machine(machine: MachineModel)
    ensures
        restored(
            machine.system_configuration,
            recorded(machine),
            Some(recorded(machine).common.memory),
        ) == (MachineModel { conf: machine.conf.with_cpu("max"@), ..machine }),
{
    lemma_accel_of(machine.conf.shared().accel_type);
}

/// The record kept of a virtual machine.
#[derive(Debug, PartialEq, Eq)]
pub struct QemuMetadataRecord {
    pub name: String,
    pub command_line: String,
    pub desired: Option<QemuDesiredMetadataRecord>,
    pub runtime_pid: Option<u32>,
    pub guest_agent_enabled: bool,
    pub pidfile: String,
    pub qmp_socket: String,
    pub qga_socket: Option<String>,
    pub log_dir: String,
    pub data_dir: String,
}

/// The model of a record.
#[verifier::ext_equal]
pub struct RecordModel {
    pub name: Seq<char>,
    pub command_line: Seq<char>,
    pub desired: Option<DesiredModel>,
    pub runtime_pid: Option<u32>,
    pub guest_agent_enabled: bool,
    pub pidfile: Seq<char>,
    pub qmp_socket: Seq<char>,
    pub qga_socket: Option<Seq<char>>,
    pub log_dir: Seq<char>,
    pub data_dir: Seq<char>,
}

impl View for QemuMetadataRecord {
    type V = RecordModel;

    open spec fn view(&self) -> RecordModel {
        RecordModel {
            name: self.name@,
            command_line: self.command_line@,
            desired: match self.desired {
                Some(desired) => Some(desired@),
                None => None,
            },
            runtime_pid: self.runtime_pid,
            guest_agent_enabled: self.guest_agent_enabled,
            pidfile: self.pidfile@,
            qmp_socket: self.qmp_socket@,
            qga_socket: opt_text(self.qga_socket),
            log_dir: self.log_dir@,
            data_dir: self.data_dir@,
        }
    }
}

impl Clone for QemuMetadataRecord {
    fn clone(&self) -> (r: Self)
        ensures
            r@ == self@,
    {
        let desired = match &self.desired {
            Some(desired) => Some(desired.clone()),
            None => None,
        };
        QemuMetadataRecord {
            name: self.name.clone(),
            command_line: self.command_line.clone(),
            desired,
            runtime_pid: self.runtime_pid,
            guest_agent_enabled: self.guest_agent_enabled,
            pidfile: self.pidfile.clone(),
            qmp_socket: self.qmp_socket.clone(),
            qga_socket: copy_opt(&self.qga_socket),
            log_dir: self.log_dir.clone(),
            data_dir: self.data_dir.clone(),
        }
    }
}

/// The machine that a record without a configuration stands for: a default
/// one of the architecture that its command line runs.
pub open spec fn inferred(
    system_configuration: SystemModel,
    record: RecordModel,
    x86: bool,
) -> MachineModel {
    let common = CommonModel {
        enable_guest_agent: record.guest_agent_enabled,
        ..default_common()
    };
    MachineModel {
        name: record.name,
        system_configuration,
        conf: default_conf(common, if x86 {
            Arch::Amd64
        } else {
            Arch::Aarch64
        }),
        storage: seq![],
        networking: None,
    }
}

/// The machine that a record stands for.
pub open spec fn machine_of_record(
    system_configuration: SystemModel,
    record: RecordModel,
    x86: bool,
    memory: Option<Seq<char>>,
) -> MachineModel {
    match record.desired {
        Some(desired) => restored(system_configuration, desired, memory),
        None => inferred(system_configuration, record, x86),
    }
}

/// What the memory of a record is read as.
pub open spec fn recorded_memory(record: RecordModel) -> Option<Seq<char>> {
    match record.desired {
        Some(desired) => memory_reading(desired.common.memory),
        None => None,
    }
}

/// The machine that a record stands for.
pub fn machine_configuration_from_metadata_record(
    system_configuration: &SystemConfiguration,
    record: &QemuMetadataRecord,
    qemu: &QemuSupportedArch,
) -> (r: QemuMachineConfiguration)
    ensures
        r@ == machine_of_record(
            system_configuration@,
            record@,
            qemu@.x86,
            recorded_memory(record@),
        ),
{
    if let Some(desired) = &record.desired {
        return desired_machine_configuration_from_metadata(system_configuration, desired);
    }
    let mut common = default_common_options();
    common.enable_guest_agent = record.guest_agent_enabled;
    let arch = match qemu {
        QemuSupportedArch::X86_64(_) => Arch::Amd64,
        QemuSupportedArch::Aarch64(_) => Arch::Aarch64,
    };
    let r = QemuMachineConfiguration {
        name: record.name.clone(),
        system_configuration: system_configuration.clone(),
        conf: default_machine_configuration_by_host(common, arch),
        storage: Vec::new(),
        networking: None,
    };
    proof {
        assert(storages(r.storage@) =~= seq![]);
    }
    r
}

/// A machine of which nothing is said has half a gigabyte of memory and one
/// processor of the model `max`, is emulated, boots by BIOS where it is an x86
/// machine, and runs no guest agent.
pub proof fn law_default_machine(arch: Arch)
    ensures
        ({
            let conf = default_conf(default_common(), arch);
            let common = conf.shared();
            &&& conf is Amd64 <==> arch is Amd64
            &&& conf is Aarch64 <==> arch is Aarch64
            &&& conf.model() == "max"@
            &&& conf.count() == 1
            &&& conf is Amd64 ==> conf->boot_method is Bios
            &&& common.memory == memory_text(MemoryUnit::MegaBytes(512), None, None)
            &&& common.accel_type is Tcg
            &&& !common.enable_guest_agent && !common.boot_kernel
            &&& common.kernel is None && common.initrd is None && common.snapshot is None
            &&& common.extra_options.len() == 0
            &&& common.bootstrap_method is NoBootstrap
            &&& common.archive_policy is StateOnly
            &&& common.qmp_connect_timeout_secs == 3
            &&& common.qga_connect_timeout_secs == 3
            &&& common.qga_command_timeout_secs == 3
            &&& common.uds_retry_interval_millis == 100
            &&& common.status_poll_interval_secs == 10
        }),
{
}

/// What a configuration tells of itself is what it was made of, whatever its
/// architecture, and another processor model changes nothing else.
pub proof fn law_configuration_parts(
    common: CommonModel,
    cpu: Seq<char>,
    other: Seq<char>,
    cpus: u64,
    boot_method: BootMethod,
)
    ensures
        ({
            let amd = ConfModel::Amd64 { common, cpu, cpus, boot_method };
            let arm = ConfModel::Aarch64 { common, cpu, cpus };
            &&& amd.shared() == common && amd.model() == cpu && amd.count() == cpus
            &&& arm.shared() == common && arm.model() == cpu && arm.count() == cpus
            &&& amd.with_cpu(other) == ConfModel::Amd64 { common, cpu: other, cpus, boot_method }
            &&& arm.with_cpu(other) == ConfModel::Aarch64 { common, cpu: other, cpus }
        }),
{
}

/// A request is for one machine on any host: only the host is added.
pub proof fn law_request_on_host(request: RequestModel, sys: SystemModel)
    ensures
        request.on(sys) == (MachineModel {
            name: request.name,
            system_configuration: sys,
            conf: request.conf,
            storage: request.storage,
            networking: request.networking,
        }),
{
}

/// The record of a machine holds each of its options as it is, the accelerator by
/// its name; only an x86 machine has a boot method.
pub proof fn law_recorded_machine(machine: MachineModel)
    ensures
        ({
            let desired = recorded(machine);
            let common = machine.conf.shared();
            &&& desired.name == machine.name
            &&& desired.arch is X86_64 <==> machine.conf is Amd64
            &&& desired.cpus == machine.conf.count()
            &&& desired.boot_method == (match machine.conf {
                ConfModel::Amd64 { boot_method, .. } => Some(boot_method),
                ConfModel::Aarch64 { .. } => None,
            })
            &&& desired.storage == machine.storage
            &&& desired.networking == machine.networking
            &&& desired.common.memory == common.memory
            &&& desired.common.enable_guest_agent == common.enable_guest_agent
            &&& desired.common.kernel == common.kernel
            &&& desired.common.initrd == common.initrd
            &&& desired.common.extra_options == common.extra_options
            &&& desired.common.snapshot == common.snapshot
            &&& desired.common.boot_kernel == common.boot_kernel
            &&& desired.common.accel_type == common.accel_type.text()
            &&& desired.common.bootstrap_method == common.bootstrap_method
            &&& desired.common.qmp_connect_timeout_secs == common.qmp_connect_timeout_secs
            &&& desired.common.qga_connect_timeout_secs == common.qga_connect_timeout_secs
            &&& desired.common.uds_retry_interval_millis == common.uds_retry_interval_millis
            &&& desired.common.qga_command_timeout_secs == common.qga_command_timeout_secs
            &&& desired.common.status_poll_interval_secs == common.status_poll_interval_secs
            &&& desired.common.archive_policy == common.archive_policy
        }),
{
}

/// Where a record cannot be read, the machine has what one has of which nothing
/// is said: the memory, the accelerator, and the boot method of an x86 machine.
pub proof fn law_unreadable_record(
    sys: SystemModel,
    desired: DesiredModel,
    memory: Option<Seq<char>>,
)
    ensures
        ({
            let machine = restored(sys, desired, memory);
            let common = machine.conf.shared();
            &&& memory is None ==> common.memory == memory_text(
                MemoryUnit::MegaBytes(512),
                None,
                None,
            )
            &&& memory is Some ==> common.memory == memory->0
            &&& accel_of(desired.common.accel_type) is None ==> common.accel_type is Tcg
            &&& accel_of(desired.common.accel_type) is Some ==> common.accel_type == accel_of(
                desired.common.accel_type,
            )->0
            &&& machine.conf is Amd64 && desired.boot_method is None
                ==> machine.conf->boot_method is Bios
            &&& machine.conf is Amd64 && desired.boot_method is Some ==> machine.conf->boot_method
                == desired.boot_method->0
            &&& machine.conf is Amd64 <==> desired.arch is X86_64
            &&& machine.conf.count() == desired.cpus
            &&& machine.name == desired.name && machine.system_configuration == sys
            &&& machine.storage == desired.storage && machine.networking == desired.networking
        }),
{
}

/// A record with a configuration stands for the machine of that configuration,
/// and one without for a default machine of the architecture that its command
/// line runs, with its name and its guest agent and without disks or network.
pub proof fn law_machine_of_record(
    sys: SystemModel,
    record: RecordModel,
    x86: bool,
    memory: Option<Seq<char>>,
)
    ensures
        ({
            let machine = machine_of_record(sys, record, x86, memory);
            let common = CommonModel {
                enable_guest_agent: record.guest_agent_enabled,
                ..default_common()
            };
            match record.desired {
                Some(desired) => machine == restored(sys, desired, memory),
                None => {
                    &&& machine.name == record.name
                    &&& machine.system_configuration == sys
                    &&& machine.storage.len() == 0 && machine.networking is None
                    &&& x86 ==> machine.conf is Amd64
                    &&& !x86 ==> machine.conf is Aarch64
                    &&& machine.conf.shared() == common
                    &&& machine.conf.model() == "max"@ && machine.conf.count() == 1
                },
            }
        }),
{
}

/// The memory of a record is that of its configuration, as it is read.
pub proof fn law_recorded_memory(record: RecordModel)
    ensures
        record.desired is Some ==> recorded_memory(record) == memory_reading(
            record.desired->0.common.memory,
        ),
        record.desired is None ==> recorded_memory(record) is None,
{
}

} // verus!
