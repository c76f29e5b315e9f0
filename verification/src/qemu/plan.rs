//! From the configuration of a virtual machine to its QEMU command line.
use vstd::prelude::*;

use crate::engine::boot_methods::BootMethod;
use crate::engine::machine_conf::BootStrapMethod;
use crate::engine::machine_conf::NetworkingConfiguration;
use crate::engine::machine_conf::StorageConfigurationCloudImage;
use crate::engine::machine_conf::StorageConfigurationDisk;
use crate::engine::machine_conf::StorageConfigurationIso;
use crate::engine::sys_conf::SystemConfiguration;
use crate::engine::sys_conf::SystemModel;
use crate::fx_id::FxId;
use crate::fx_id::FxIdModel;
use crate::fx_id::fx_id_text;
use crate::number::decimal;
use crate::number::decimal_text;
use crate::path::file_name;
use crate::path::join_path;
use crate::path::path_file_name;
use crate::path::path_join;
use crate::qemu::command::QemuCommandModel;
use crate::qemu::command::QemuSupportedArch;
use crate::qemu::errors::CreateError;
use crate::qemu::errors::CreateErrorModel;
use crate::qemu::machine::CommonModel;
use crate::qemu::machine::ConfModel;
use crate::qemu::machine::MachineModel;
use crate::qemu::machine::QemuCommonOptions;
use crate::qemu::machine::QemuMachineConfiguration;
use crate::qemu::machine::QemuMachineConfigurationByArch;
use crate::qemu::options::AccelType;
use crate::qemu::options::accel_words;
use crate::qemu::options::device_with_prop;
use crate::qemu::options::device_with_two_props;
use crate::qemu::options::device_words;
use crate::qemu::options::disk_drive;
use crate::qemu::options::drive_for_disk;
use crate::qemu::options::drive_for_iso;
use crate::qemu::options::iso_drive;
use crate::qemu::options::listening_socket;
use crate::qemu::options::name_reading;
use crate::qemu::options::read_name;
use crate::qemu::options::read_special_device;
use crate::qemu::options::smp_words;
use crate::qemu::options::socket_chardev_words;
use crate::qemu::options::special_device_reading;
use crate::qemu::options::user_netdev_words;
use crate::qemu::storage::QemuQcowFormat;
use crate::qemu::storage::QemuStorageType;
use crate::qemu::storage::StorageModel;
use crate::qemu::storage::cloud_image_overlay_path;
use crate::qemu::storage::disk_path;
use crate::qemu::storage::iso_dest_path;
use crate::qemu::storage::iso_path;
use crate::qemu::storage::overlay_path;
use crate::qemu::storage::qemu_disk_format_arg;
use crate::qemu::storage::qemu_disk_path;
use crate::qemu::storage::storages;
use crate::qemu::storage_qcow::QEMU_IMG_FORMAT_QCOW2;
use crate::qemu::storage_qcow::QcowOptions;
use crate::text::append_strings;
use crate::text::cat3;
use crate::text::copy_opt;
use crate::text::lemma_texts_add;
use crate::text::lemma_texts_push;
use crate::text::opt_text;
use crate::text::same_text;
use crate::text::texts;
use crate::utils::HostOs;

verus! {

broadcast use {lemma_texts_push, lemma_texts_add};

/// The file that holds the process id of a virtual machine.
pub const QEMU_PID_FILENAME: &'static str = "qemu.pid";

/// The character device of the guest agent.
pub const QEMU_GA_CHARDEV_ID: &'static str = "qga0";

/// The port of the guest agent.
pub const QEMU_GA_PORT_NAME: &'static str = "org.qemu.guest_agent.0";

/// The network device of user-mode networking.
pub const QEMU_USER_NETDEV_ID: &'static str = "net0";

/// The runtime directory of a virtual machine.
pub open spec fn machine_dir(root: Seq<char>, id: FxIdModel) -> Seq<char> {
    path_join(root, fx_id_text(id))
}

/// A file in a directory of a virtual machine.
pub open spec fn machine_file(
    root: Seq<char>,
    id: FxIdModel,
    dir: Seq<char>,
    name: Seq<char>,
) -> Seq<char> {
    path_join(path_join(machine_dir(root, id), dir), name)
}

/// A file in a directory of a virtual machine.
pub fn machine_file_path(root: &str, fx_id: &FxId, dir: &str, name: &str) -> (r: String)
    ensures
        r@ == machine_file(root@, fx_id@, dir@, name@),
{
    let base = join_path(root, fx_id.to_string().as_str());
    let within = join_path(base.as_str(), dir);
    join_path(within.as_str(), name)
}

/// Why an accelerator cannot be used on a host, if it cannot.
pub open spec fn accelerator_refusal(accel: AccelType, os: HostOs, kvm_available: bool) -> Option<
    Seq<char>,
> {
    match accel {
        AccelType::Tcg => None,
        AccelType::Kvm => if os != HostOs::Linux {
            Some("KVM acceleration is only supported on Linux hosts"@)
        } else if !kvm_available {
            Some("KVM acceleration requested but /dev/kvm is not available"@)
        } else {
            None
        },
        AccelType::Hvf => if os != HostOs::MacOs {
            Some("HVF acceleration is only supported on macOS hosts"@)
        } else {
            None
        },
        AccelType::Whpx => if os != HostOs::Windows {
            Some("WHPX acceleration is only supported on Windows hosts"@)
        } else {
            None
        },
        other => Some(
            "accelerator "@ + other.variant() + " is not validated by becky-fx-qemu yet"@,
        ),
    }
}

/// The result of a check that may refuse for a reason.
pub open spec fn checked(r: Result<(), CreateError>, refusal: Option<Seq<char>>) -> bool {
    match refusal {
        Some(reason) => r is Err && r->Err_0@ == CreateErrorModel::Config(reason),
        None => r is Ok,
    }
}

/// Checks that an accelerator can be used on a host.
pub fn validate_accelerator(accel_type: &AccelType, os: HostOs, kvm_available: bool) -> (r: Result<
    (),
    CreateError,
>)
    ensures
        checked(r, accelerator_refusal(*accel_type, os, kvm_available)),
{
    match accel_type {
        AccelType::Tcg => Ok(()),
        AccelType::Kvm => {
            if os == HostOs::Linux {
                if kvm_available {
                    Ok(())
                } else {
                    Err(
                        CreateError::Config(
                            "KVM acceleration requested but /dev/kvm is not available".to_owned(),
                        ),
                    )
                }
            } else {
                Err(
                    CreateError::Config(
                        "KVM acceleration is only supported on Linux hosts".to_owned(),
                    ),
                )
            }
        },
        AccelType::Hvf => {
            if os == HostOs::MacOs {
                Ok(())
            } else {
                Err(
                    CreateError::Config(
                        "HVF acceleration is only supported on macOS hosts".to_owned(),
                    ),
                )
            }
        },
        AccelType::Whpx => {
            if os == HostOs::Windows {
                Ok(())
            } else {
                Err(
                    CreateError::Config(
                        "WHPX acceleration is only supported on Windows hosts".to_owned(),
                    ),
                )
            }
        },
        other => Err(
            CreateError::Config(
                cat3(
                    "accelerator ",
                    other.variant_name(),
                    " is not validated by becky-fx-qemu yet",
                ),
            ),
        ),
    }
}

/// Why common options cannot be realised, if they cannot: an option that would
/// have no effect is refused.
pub open spec fn common_refusal(common: CommonModel) -> Option<Seq<char>> {
    if common.extra_options.len() > 0 {
        Some("QEMU extra_options is not implemented; use typed configuration fields instead"@)
    } else if common.boot_kernel {
        Some(
            "QEMU boot_kernel is not implemented; set kernel/initrd directly or leave boot_kernel=false"@,
        )
    } else if common.bootstrap_method is CloudInit {
        Some("QEMU bootstrap_method=CloudInit is not implemented as a command-line feature yet"@)
    } else {
        None
    }
}

/// Checks that the common options can be realised.
pub fn validate_common_options(common: &QemuCommonOptions) -> (r: Result<(), CreateError>)
    ensures
        checked(r, common_refusal(common@)),
{
    proof {
        assert(texts(common.extra_options@).len() == common.extra_options@.len());
    }
    if common.extra_options.len() > 0 {
        return Err(
            CreateError::Config(
                "QEMU extra_options is not implemented; use typed configuration fields instead".to_owned(),
            ),
        );
    }
    if common.boot_kernel {
        return Err(
            CreateError::Config(
                "QEMU boot_kernel is not implemented; set kernel/initrd directly or leave boot_kernel=false".to_owned(),
            ),
        );
    }
    match common.bootstrap_method {
        BootStrapMethod::NoBootstrap => Ok(()),
        BootStrapMethod::CloudInit => Err(
            CreateError::Config(
                "QEMU bootstrap_method=CloudInit is not implemented as a command-line feature yet".to_owned(),
            ),
        ),
    }
}

/// Why a boot method cannot be realised, if it cannot.
pub open spec fn boot_refusal(boot_method: BootMethod) -> Option<Seq<char>> {
    match boot_method {
        BootMethod::Bios => None,
        BootMethod::Uefi => Some(
            "QEMU boot_method=Uefi is not implemented; configure firmware support before selecting UEFI"@,
        ),
    }
}

/// Checks that the boot method can be realised.
pub fn validate_boot_method(boot_method: &BootMethod) -> (r: Result<(), CreateError>)
    ensures
        checked(r, boot_refusal(*boot_method)),
{
    match boot_method {
        BootMethod::Bios => Ok(()),
        BootMethod::Uefi => Err(
            CreateError::Config(
                "QEMU boot_method=Uefi is not implemented; configure firmware support before selecting UEFI".to_owned(),
            ),
        ),
    }
}

/// The identifier of a drive: by that of its storage, or by its place.
pub open spec fn drive_name(prefix: Seq<char>, id: Seq<char>, index: int) -> Seq<char> {
    prefix + "-"@ + (if id.len() == 0 {
        decimal(index as nat)
    } else {
        id
    })
}

/// The identifier of a drive.
pub fn drive_id(prefix: &str, id: &str, index: usize) -> (r: String)
    ensures
        r@ == drive_name(prefix@, id@, index as int),
{
    if id.unicode_len() == 0 {
        cat3(prefix, "-", decimal_text(index as u64).as_str())
    } else {
        cat3(prefix, "-", id)
    }
}

/// The words for file-backed disks, up to the `n`-th.
pub open spec fn disk_drives(
    sys: SystemModel,
    id: FxIdModel,
    files: Seq<(StorageConfigurationDisk, QemuQcowFormat, QcowOptions)>,
    n: int,
) -> Seq<Seq<char>>
    decreases n,
{
    if n <= 0 {
        seq![]
    } else {
        let (disk, format, options) = files[n - 1];
        disk_drives(sys, id, files, n - 1) + disk_drive(
            disk_path(sys, id, disk, format),
            format.text(),
            drive_name("disk"@, disk.id@, n - 1),
        )
    }
}

/// The words for host block devices, up to the `n`-th.
pub open spec fn block_drives(devices: Seq<StorageConfigurationDisk>, n: int) -> Seq<Seq<char>>
    decreases n,
{
    if n <= 0 {
        seq![]
    } else {
        let device = devices[n - 1];
        block_drives(devices, n - 1) + disk_drive(
            device.path@,
            "raw"@,
            drive_name("host-block"@, device.id@, n - 1),
        )
    }
}

/// The words for ISO images, up to the `n`-th.
pub open spec fn iso_drives(
    sys: SystemModel,
    id: FxIdModel,
    isos: Seq<StorageConfigurationIso>,
    n: int,
) -> Seq<Seq<char>>
    decreases n,
{
    if n <= 0 {
        seq![]
    } else {
        let iso = isos[n - 1];
        iso_drives(sys, id, isos, n - 1) + iso_drive(
            iso_path(sys, id, iso),
            drive_name("iso"@, iso.id@, n - 1),
        )
    }
}

/// The words for cloud images, up to the `n`-th.
pub open spec fn image_drives(
    sys: SystemModel,
    id: FxIdModel,
    images: Seq<(StorageConfigurationCloudImage, QcowOptions)>,
    n: int,
) -> Seq<Seq<char>>
    decreases n,
{
    if n <= 0 {
        seq![]
    } else {
        let (image, options) = images[n - 1];
        image_drives(sys, id, images, n - 1) + disk_drive(
            overlay_path(sys, id, image),
            "qcow2"@,
            drive_name("cloud-image"@, image.id@, n - 1),
        )
    }
}

/// The words for the drives of one storage entry.
pub open spec fn storage_drives(sys: SystemModel, id: FxIdModel, storage: StorageModel) -> Seq<
    Seq<char>,
> {
    match storage {
        StorageModel::Qcow2(files) => disk_drives(sys, id, files, files.len() as int),
        StorageModel::HostBlock(devices) => block_drives(devices, devices.len() as int),
        StorageModel::Iso(isos) => iso_drives(sys, id, isos, isos.len() as int),
        StorageModel::CloudImage(images) => image_drives(sys, id, images, images.len() as int),
    }
}

/// The words for the drives of a machine, up to its `n`-th storage entry.
pub open spec fn all_drives(
    sys: SystemModel,
    id: FxIdModel,
    storage: Seq<StorageModel>,
    n: int,
) -> Seq<Seq<char>>
    decreases n,
{
    if n <= 0 {
        seq![]
    } else {
        all_drives(sys, id, storage, n - 1) + storage_drives(sys, id, storage[n - 1])
    }
}

/// Puts the drives of one storage entry behind `words`.
fn append_storage_drives(
    words: &mut Vec<String>,
    system_configuration: &SystemConfiguration,
    fx_id: &FxId,
    storage: &QemuStorageType,
)
    ensures
        texts(final(words)@) == texts(old(words)@) + storage_drives(
            system_configuration@,
            fx_id@,
            storage@,
        ),
{
    let ghost before = texts(words@);
    let ghost sys = system_configuration@;
    let ghost id = fx_id@;
    match storage {
        QemuStorageType::Qcow2(files) => {
            proof {
                assert(before + disk_drives(sys, id, files@, 0) =~= before);
            }
            for i in 0..files.len()
                invariant
                    sys == system_configuration@,
                    id == fx_id@,
                    texts(words@) == before + disk_drives(sys, id, files@, i as int),
            {
                let disk = &files[i].0;
                let format = &files[i].1;
                let path = qemu_disk_path(system_configuration, fx_id, disk, format);
                let name = drive_id("disk", disk.id.as_str(), i);
                let drive = drive_for_disk(path.as_str(), qemu_disk_format_arg(format), name.as_str());
                append_strings(words, &drive);
                proof {
                    assert(texts(words@) =~= before + disk_drives(sys, id, files@, i + 1));
                }
            }
        },
        QemuStorageType::HostBlock(devices) => {
            proof {
                assert(before + block_drives(devices@, 0) =~= before);
            }
            for i in 0..devices.len()
                invariant
                    texts(words@) == before + block_drives(devices@, i as int),
            {
                let device = &devices[i];
                let name = drive_id("host-block", device.id.as_str(), i);
                let drive = drive_for_disk(device.path.as_str(), "raw", name.as_str());
                append_strings(words, &drive);
                proof {
                    assert(texts(words@) =~= before + block_drives(devices@, i + 1));
                }
            }
        },
        QemuStorageType::Iso(isos) => {
            proof {
                assert(before + iso_drives(sys, id, isos@, 0) =~= before);
            }
            for i in 0..isos.len()
                invariant
                    sys == system_configuration@,
                    id == fx_id@,
                    texts(words@) == before + iso_drives(sys, id, isos@, i as int),
            {
                let iso = &isos[i];
                let path = iso_dest_path(system_configuration, fx_id, iso);
                let name = drive_id("iso", iso.id.as_str(), i);
                let drive = drive_for_iso(path.as_str(), name.as_str());
                append_strings(words, &drive);
                proof {
                    assert(texts(words@) =~= before + iso_drives(sys, id, isos@, i + 1));
                }
            }
        },
        QemuStorageType::CloudImage(images) => {
            proof {
                assert(before + image_drives(sys, id, images@, 0) =~= before);
            }
            for i in 0..images.len()
                invariant
                    sys == system_configuration@,
                    id == fx_id@,
                    texts(words@) == before + image_drives(sys, id, images@, i as int),
            {
                let image = &images[i].0;
                let path = cloud_image_overlay_path(system_configuration, fx_id, image);
                let name = drive_id("cloud-image", image.id.as_str(), i);
                let drive = drive_for_disk(path.as_str(), QEMU_IMG_FORMAT_QCOW2, name.as_str());
                append_strings(words, &drive);
                proof {
                    assert(texts(words@) =~= before + image_drives(sys, id, images@, i + 1));
                }
            }
        },
    }
}

/// The words for the drives of a machine, in the order of its storage.
pub fn configured_storage_drives(
    system_configuration: &SystemConfiguration,
    machine_configuration: &QemuMachineConfiguration,
    fx_id: &FxId,
) -> (r: Vec<String>)
    ensures
        texts(r@) == all_drives(
            system_configuration@,
            fx_id@,
            machine_configuration@.storage,
            machine_configuration@.storage.len() as int,
        ),
{
    let mut words: Vec<String> = Vec::new();
    let storage = &machine_configuration.storage;
    let ghost sys = system_configuration@;
    let ghost id = fx_id@;
    let ghost all = storages(storage@);
    proof {
        assert(texts(words@) =~= all_drives(sys, id, all, 0));
    }
    for i in 0..storage.len()
        invariant
            sys == system_configuration@,
            id == fx_id@,
            all == storages(storage@),
            texts(words@) == all_drives(sys, id, all, i as int),
    {
        append_storage_drives(&mut words, system_configuration, fx_id, &storage[i]);
        proof {
            assert(all[i as int] == storage@[i as int]@);
        }
    }
    words
}

/// A QEMU command line under construction: the words of each option, by the
/// place at which QEMU's options are written.
#[derive(Debug)]
pub struct QemuInstanceBase {
    pub qemu_binary: String,
    pub cpu: Vec<String>,
    pub accel: Vec<String>,
    pub smp: Vec<String>,
    pub m: Vec<String>,
    pub device: Vec<String>,
    pub name: Vec<String>,
    pub drive: Vec<String>,
    pub snapshot: Option<bool>,
    pub netdev: Vec<String>,
    pub chardev: Vec<String>,
    pub kernel: Option<String>,
    pub initrd: Option<String>,
    pub qmp: Vec<String>,
    pub pidfile: Option<String>,
}

/// The model of a command line under construction.
#[verifier::ext_equal]
pub struct BaseModel {
    pub qemu_binary: Seq<char>,
    pub cpu: Seq<Seq<char>>,
    pub accel: Seq<Seq<char>>,
    pub smp: Seq<Seq<char>>,
    pub m: Seq<Seq<char>>,
    pub device: Seq<Seq<char>>,
    pub name: Seq<Seq<char>>,
    pub drive: Seq<Seq<char>>,
    pub snapshot: Option<bool>,
    pub netdev: Seq<Seq<char>>,
    pub chardev: Seq<Seq<char>>,
    pub kernel: Option<Seq<char>>,
    pub initrd: Option<Seq<char>>,
    pub qmp: Seq<Seq<char>>,
    pub pidfile: Option<Seq<char>>,
}

/// An option with a value, if there is one.
pub open spec fn option_words(option: Seq<char>, value: Option<Seq<char>>) -> Seq<Seq<char>> {
    match value {
        Some(text) => seq![option, text],
        None => seq![],
    }
}

impl BaseModel {
    /// The command line that only names the program.
    pub open spec fn bare(qemu_binary: Seq<char>) -> BaseModel {
        BaseModel {
            qemu_binary,
            cpu: seq![],
            accel: seq![],
            smp: seq![],
            m: seq![],
            device: seq![],
            name: seq![],
            drive: seq![],
            snapshot: None,
            netdev: seq![],
            chardev: seq![],
            kernel: None,
            initrd: None,
            qmp: seq![],
            pidfile: None,
        }
    }

    /// The words of the command line: the options in the order in which
    /// `QemuInstanceBase` of `qemu-command-builder` writes them.
    pub open spec fn words(self) -> Seq<Seq<char>> {
        seq![self.qemu_binary] + self.cpu + self.accel + self.smp + self.m + self.device + self.name
            + self.drive + (if self.snapshot == Some(true) {
            seq!["-snapshot"@]
        } else {
            seq![]
        }) + self.netdev + self.chardev + option_words("-kernel"@, self.kernel) + option_words(
            "-initrd"@,
            self.initrd,
        ) + self.qmp + option_words("-pidfile"@, self.pidfile)
    }
}

impl View for QemuInstanceBase {
    type V = BaseModel;

    open spec fn view(&self) -> BaseModel {
        BaseModel {
            qemu_binary: self.qemu_binary@,
            cpu: texts(self.cpu@),
            accel: texts(self.accel@),
            smp: texts(self.smp@),
            m: texts(self.m@),
            device: texts(self.device@),
            name: texts(self.name@),
            drive: texts(self.drive@),
            snapshot: self.snapshot,
            netdev: texts(self.netdev@),
            chardev: texts(self.chardev@),
            kernel: opt_text(self.kernel),
            initrd: opt_text(self.initrd),
            qmp: texts(self.qmp@),
            pidfile: opt_text(self.pidfile),
        }
    }
}

/// Puts an option with a value behind `words`, if there is a value.
fn append_option(words: &mut Vec<String>, option: &str, value: &Option<String>)
    ensures
        texts(final(words)@) == texts(old(words)@) + option_words(option@, opt_text(*value)),
{
    let ghost before = texts(words@);
    if let Some(text) = value {
        words.push(option.to_owned());
        words.push(text.clone());
    }
    proof {
        assert(texts(words@) =~= before + option_words(option@, opt_text(*value)));
    }
}

/// An option with a value.
fn option_pair(option: &str, value: &str) -> (r: Vec<String>)
    ensures
        texts(r@) == seq![option@, value@],
{
    let mut r: Vec<String> = Vec::new();
    r.push(option.to_owned());
    r.push(value.to_owned());
    proof {
        assert(texts(r@) =~= seq![option@, value@]);
    }
    r
}

impl QemuInstanceBase {
    /// The command line that only names the program.
    pub fn new(qemu_binary: String) -> (r: Self)
        ensures
            r@ == BaseModel::bare(qemu_binary@),
    {
        let r = QemuInstanceBase {
            qemu_binary,
            cpu: Vec::new(),
            accel: Vec::new(),
            smp: Vec::new(),
            m: Vec::new(),
            device: Vec::new(),
            name: Vec::new(),
            drive: Vec::new(),
            snapshot: None,
            netdev: Vec::new(),
            chardev: Vec::new(),
            kernel: None,
            initrd: None,
            qmp: Vec::new(),
            pidfile: None,
        };
        proof {
            assert(r@ =~= BaseModel::bare(qemu_binary@));
        }
        r
    }

    /// The words of the command line.
    pub fn to_command(&self) -> (r: Vec<String>)
        ensures
            texts(r@) == self@.words(),
    {
        let mut words: Vec<String> = Vec::new();
        words.push(self.qemu_binary.clone());
        proof {
            assert(texts(words@) =~= seq![self@.qemu_binary]);
        }
        append_strings(&mut words, &self.cpu);
        append_strings(&mut words, &self.accel);
        append_strings(&mut words, &self.smp);
        append_strings(&mut words, &self.m);
        append_strings(&mut words, &self.device);
        append_strings(&mut words, &self.name);
        append_strings(&mut words, &self.drive);
        let ghost before = texts(words@);
        if let Some(state) = self.snapshot {
            if state {
                words.push("-snapshot".to_owned());
            }
        }
        proof {
            if self.snapshot == Some(true) {
                assert(texts(words@) =~= before + seq!["-snapshot"@]);
            } else {
                assert(texts(words@) =~= before + Seq::<Seq<char>>::empty());
            }
        }
        append_strings(&mut words, &self.netdev);
        append_strings(&mut words, &self.chardev);
        append_option(&mut words, "-kernel", &self.kernel);
        append_option(&mut words, "-initrd", &self.initrd);
        append_strings(&mut words, &self.qmp);
        append_option(&mut words, "-pidfile", &self.pidfile);
        words
    }
}

/// The command line with the network of a machine.
pub open spec fn with_networking(
    qemu: BaseModel,
    networking: Option<NetworkingConfiguration>,
) -> BaseModel {
    match networking {
        None => qemu,
        Some(NetworkingConfiguration::User) => BaseModel {
            netdev: qemu.netdev + seq!["-netdev"@, "user,id="@ + "net0"@],
            device: qemu.device + seq![
                "-device"@,
                "virtio-net-pci"@ + ","@ + "netdev"@ + "="@ + "net0"@,
            ],
            ..qemu
        },
    }
}

/// Adds the network of a machine to its command line.
pub fn configure_networking(
    machine_configuration: &QemuMachineConfiguration,
    qemu: &mut QemuInstanceBase,
)
    ensures
        final(qemu)@ == with_networking(old(qemu)@, machine_configuration@.networking),
{
    match machine_configuration.networking {
        None => {},
        Some(NetworkingConfiguration::User) => {
            append_strings(&mut qemu.netdev, &user_netdev_words(QEMU_USER_NETDEV_ID));
            append_strings(
                &mut qemu.device,
                &device_with_prop("virtio-net-pci", "netdev", QEMU_USER_NETDEV_ID),
            );
        },
    }
}

/// The command line with the guest agent at a socket.
pub open spec fn with_guest_agent(qemu: BaseModel, socket: Seq<char>) -> BaseModel {
    BaseModel {
        chardev: qemu.chardev + seq![
            "-chardev"@,
            "socket,id="@ + "qga0"@ + ",path="@ + socket + ",server=on,wait=off"@,
        ],
        device: qemu.device + seq!["-device"@, "virtio-serial"@] + seq![
            "-device"@,
            "virtserialport"@ + ","@ + "chardev"@ + "="@ + "qga0"@ + ","@ + "name"@ + "="@
                + "org.qemu.guest_agent.0"@,
        ],
        ..qemu
    }
}

/// Adds the guest agent of a machine to its command line.
pub fn configure_guest_agent(
    system_configuration: &SystemConfiguration,
    fx_id: &FxId,
    qemu: &mut QemuInstanceBase,
)
    ensures
        final(qemu)@ == with_guest_agent(
            old(qemu)@,
            machine_file(system_configuration@.vm_root_path, fx_id@, "run"@, "ga.sock"@),
        ),
{
    let root = system_configuration.vm_root_path.as_str();
    let socket = machine_file_path(root, fx_id, "run", "ga.sock");
    append_strings(&mut qemu.chardev, &socket_chardev_words(QEMU_GA_CHARDEV_ID, socket.as_str()));
    append_strings(&mut qemu.device, &device_words("virtio-serial"));
    proof {
        reveal_strlit("chardev");
        reveal_strlit("name");
    }
    let port = device_with_two_props(
        "virtserialport",
        ("chardev", QEMU_GA_CHARDEV_ID),
        ("name", QEMU_GA_PORT_NAME),
    );
    append_strings(&mut qemu.device, &port);
}

/// The name of a machine as it stands on the command line.
pub fn parse_name(value: &str) -> (r: Result<String, CreateError>)
    ensures
        match name_reading(value@) {
            Ok(arg) => r is Ok && r->Ok_0@ == arg,
            Err(message) => r is Err && r->Err_0@ == CreateErrorModel::Config(message),
        },
        !value@.contains(',') ==> r is Ok && r->Ok_0@ == value@,
{
    match read_name(value) {
        Ok(arg) => Ok(arg),
        Err(message) => Err(CreateError::Config(message)),
    }
}

/// A character device as it stands on the command line.
pub fn parse_special_device(value: String) -> (r: Result<Vec<String>, CreateError>)
    ensures
        match special_device_reading(value@) {
            Ok(words) => r is Ok && texts(r->Ok_0@) == words,
            Err(message) => r is Err && r->Err_0@ == CreateErrorModel::Config(message),
        },
        forall|path: Seq<char>|
            value@ == #[trigger] listening_socket(path) && !path.contains(',') ==> r is Ok && texts(
                r->Ok_0@,
            ) == seq![value@],
{
    match read_special_device(value.as_str()) {
        Ok(words) => Ok(words),
        Err(message) => Err(CreateError::Config(message)),
    }
}

/// What the parts of a command line that a reader decides about were read as.
#[verifier::ext_equal]
pub struct Readings {
    /// What stands behind `-name`.
    pub name: Result<Seq<char>, Seq<char>>,
    /// The words behind `-qmp`.
    pub qmp: Result<Seq<Seq<char>>, Seq<char>>,
}

/// The control socket of a machine, as QEMU listens on it.
pub open spec fn control_socket(root: Seq<char>, id: FxIdModel) -> Seq<char> {
    listening_socket(machine_file(root, id, "run"@, "ctl.sock"@))
}

/// How the name and the control socket of a machine are read.
pub open spec fn readings(sys: SystemModel, machine: MachineModel, id: FxIdModel) -> Readings {
    Readings {
        name: name_reading(machine.name),
        qmp: special_device_reading(control_socket(sys.vm_root_path, id)),
    }
}

/// The readings of a name and a control socket that are read as they are.
pub open spec fn plain_readings(sys: SystemModel, machine: MachineModel, id: FxIdModel) -> Readings {
    Readings {
        name: Ok(machine.name),
        qmp: Ok(seq![control_socket(sys.vm_root_path, id)]),
    }
}

/// Whether neither the name nor the control socket of a machine holds a comma:
/// both are then read as they are.
pub open spec fn is_plain_machine(sys: SystemModel, machine: MachineModel, id: FxIdModel) -> bool {
    !machine.name.contains(',') && !machine_file(
        sys.vm_root_path,
        id,
        "run"@,
        "ctl.sock"@,
    ).contains(',')
}

/// The command line with the name and the process id file of a machine.
pub open spec fn with_name(
    qemu: BaseModel,
    sys: SystemModel,
    id: FxIdModel,
    name: Seq<char>,
) -> BaseModel {
    BaseModel {
        name: seq!["-name"@, name],
        pidfile: Some(machine_file(sys.vm_root_path, id, "run"@, "qemu.pid"@)),
        ..qemu
    }
}

/// The command line with what machines of any architecture have.
pub open spec fn with_common_args(
    qemu: BaseModel,
    sys: SystemModel,
    machine: MachineModel,
    id: FxIdModel,
    common: CommonModel,
    name: Seq<char>,
    qmp: Seq<Seq<char>>,
) -> BaseModel {
    let named = BaseModel {
        qmp: seq!["-qmp"@] + qmp,
        kernel: common.kernel,
        initrd: common.initrd,
        snapshot: common.snapshot,
        ..with_name(qemu, sys, id, name)
    };
    let networked = with_networking(named, machine.networking);
    let agented = if common.enable_guest_agent {
        with_guest_agent(networked, machine_file(sys.vm_root_path, id, "run"@, "ga.sock"@))
    } else {
        networked
    };
    let drives = all_drives(sys, id, machine.storage, machine.storage.len() as int);
    if drives.len() == 0 {
        agented
    } else {
        BaseModel { drive: drives, ..agented }
    }
}

/// Adds what machines of any architecture have to a command line. A name or a
/// control socket that cannot be read is refused; the name and the process id
/// file are set before the control socket is looked at.
pub fn configure_common_qemu_args(
    system_configuration: &SystemConfiguration,
    machine_configuration: &QemuMachineConfiguration,
    fx_id: &FxId,
    common: &QemuCommonOptions,
    qemu: &mut QemuInstanceBase,
) -> (r: Result<(), CreateError>)
    ensures
        ({
            let sys = system_configuration@;
            let machine = machine_configuration@;
            let read = readings(sys, machine, fx_id@);
            match (read.name, read.qmp) {
                (Err(message), _) => r is Err && r->Err_0@ == CreateErrorModel::Config(message)
                    && final(qemu)@ == old(qemu)@,
                (Ok(name), Err(message)) => r is Err && r->Err_0@ == CreateErrorModel::Config(
                    message,
                ) && final(qemu)@ == with_name(old(qemu)@, sys, fx_id@, name),
                (Ok(name), Ok(qmp)) => r is Ok && final(qemu)@ == with_common_args(
                    old(qemu)@,
                    sys,
                    machine,
                    fx_id@,
                    common@,
                    name,
                    qmp,
                ),
            }
        }),
        is_plain_machine(system_configuration@, machine_configuration@, fx_id@) ==> readings(
            system_configuration@,
            machine_configuration@,
            fx_id@,
        ) == plain_readings(system_configuration@, machine_configuration@, fx_id@) && r is Ok,
{
    let root = system_configuration.vm_root_path.as_str();
    match parse_name(machine_configuration.name.as_str()) {
        Ok(name) => qemu.name = option_pair("-name", name.as_str()),
        Err(err) => return Err(err),
    }
    qemu.pidfile = Some(machine_file_path(root, fx_id, "run", QEMU_PID_FILENAME));
    let socket = machine_file_path(root, fx_id, "run", "ctl.sock");
    proof {
        assert(listening_socket(socket@) == control_socket(system_configuration@.vm_root_path, fx_id@));
    }
    match parse_special_device(cat3("unix:", socket.as_str(), ",server=on,wait=off")) {
        Ok(device) => {
            let mut words: Vec<String> = Vec::new();
            words.push("-qmp".to_owned());
            proof {
                assert(texts(words@) =~= seq!["-qmp"@]);
            }
            append_strings(&mut words, &device);
            qemu.qmp = words;
        },
        Err(err) => return Err(err),
    }
    qemu.kernel = copy_opt(&common.kernel);
    qemu.initrd = copy_opt(&common.initrd);
    qemu.snapshot = common.snapshot;
    configure_networking(machine_configuration, qemu);
    if common.enable_guest_agent {
        configure_guest_agent(system_configuration, fx_id, qemu);
    }
    let drives = configured_storage_drives(system_configuration, machine_configuration, fx_id);
    proof {
        assert(texts(drives@).len() == drives@.len());
    }
    if drives.len() > 0 {
        qemu.drive = drives;
    }
    Ok(())
}

/// What is known of a host when a command line is made for it.
#[derive(Debug)]
pub struct HostFacts {
    /// The operating system.
    pub os: HostOs,
    /// Whether `/dev/kvm` exists.
    pub kvm_available: bool,
    /// For each configured emulator path, whether the emulator lies in it as
    /// in a directory.
    pub emulator_exists: Vec<bool>,
    /// Where the emulator is found on the search path, or why it is not.
    pub which: Result<String, String>,
}

/// Where a search for the emulator ends: at the first configured path that is
/// the emulator itself or a directory that holds it.
pub open spec fn configured_binary(
    paths: Seq<Seq<char>>,
    exists: Seq<bool>,
    name: Seq<char>,
    at: int,
) -> Option<Seq<char>>
    decreases paths.len() - at,
{
    if at < 0 || at >= paths.len() {
        None
    } else if file_name(paths[at]) == Some(name) {
        Some(paths[at])
    } else if at < exists.len() && exists[at] {
        Some(path_join(paths[at], name))
    } else {
        configured_binary(paths, exists, name, at + 1)
    }
}

/// The result of looking an emulator up.
pub open spec fn binary_found(
    r: Result<String, CreateError>,
    sys: SystemModel,
    host: HostFacts,
    name: Seq<char>,
) -> bool {
    match configured_binary(sys.emulator_paths, host.emulator_exists@, name, 0) {
        Some(path) => r is Ok && r->Ok_0@ == path,
        None => match host.which {
            Ok(path) => r is Ok && r->Ok_0@ == path@,
            Err(message) => r is Err && r->Err_0@ == CreateErrorModel::Which(message@),
        },
    }
}

/// The emulator to run: as configured, or else from the search path.
pub fn qemu_binary_path(
    system_configuration: &SystemConfiguration,
    binary_name: &str,
    host: &HostFacts,
) -> (r: Result<String, CreateError>)
    ensures
        binary_found(r, system_configuration@, *host, binary_name@),
{
    let paths = &system_configuration.emulator_paths;
    let exists = &host.emulator_exists;
    let ghost all = system_configuration@.emulator_paths;
    for i in 0..paths.len()
        invariant
            paths == &system_configuration.emulator_paths,
            exists == &host.emulator_exists,
            all == texts(paths@),
            configured_binary(all, exists@, binary_name@, 0) == configured_binary(
                all,
                exists@,
                binary_name@,
                i as int,
            ),
    {
        let configured = &paths[i];
        proof {
            assert(all[i as int] == configured@);
        }
        if let Some(name) = path_file_name(configured.as_str()) {
            if same_text(name.as_str(), binary_name) {
                return Ok(configured.clone());
            }
        }
        if i < exists.len() && exists[i] {
            return Ok(join_path(configured.as_str(), binary_name));
        }
    }
    match &host.which {
        Ok(path) => Ok(path.clone()),
        Err(message) => Err(CreateError::Which(message.clone())),
    }
}

/// The emulator for a machine.
pub open spec fn emulator_name(conf: ConfModel) -> Seq<char> {
    match conf {
        ConfModel::Amd64 { .. } => "qemu-system-x86_64"@,
        ConfModel::Aarch64 { .. } => "qemu-system-aarch64"@,
    }
}

/// The emulator for a machine.
pub fn qemu_binary_name(conf: &QemuMachineConfigurationByArch) -> (r: &'static str)
    ensures
        r@ == emulator_name(conf@),
{
    match conf {
        QemuMachineConfigurationByArch::Amd64(_) => "qemu-system-x86_64",
        QemuMachineConfigurationByArch::Aarch64(_) => "qemu-system-aarch64",
    }
}

/// Where the emulator for a machine lies, if it is found.
pub open spec fn emulator(sys: SystemModel, conf: ConfModel, host: HostFacts) -> Option<Seq<char>> {
    match configured_binary(sys.emulator_paths, host.emulator_exists@, emulator_name(conf), 0) {
        Some(path) => Some(path),
        None => match host.which {
            Ok(path) => Some(path@),
            Err(_) => None,
        },
    }
}

/// Why a configuration cannot be realised on a host, if it cannot: the common
/// options are looked at first, then the boot method, then the accelerator.
pub open spec fn configuration_refusal(conf: ConfModel, host: HostFacts) -> Option<Seq<char>> {
    if common_refusal(conf.shared()) is Some {
        common_refusal(conf.shared())
    } else if conf matches ConfModel::Amd64 { boot_method, .. } && boot_refusal(boot_method) is Some {
        boot_refusal(conf->boot_method)
    } else {
        accelerator_refusal(conf.shared().accel_type, host.os, host.kvm_available)
    }
}

/// Checks that a configuration can be realised on a host.
pub fn validate_configuration(conf: &QemuMachineConfigurationByArch, host: &HostFacts) -> (r: Result<
    (),
    CreateError,
>)
    ensures
        checked(r, configuration_refusal(conf@, *host)),
{
    let common = conf.common();
    if let Err(err) = validate_common_options(common) {
        return Err(err);
    }
    if let QemuMachineConfigurationByArch::Amd64(machine) = conf {
        if let Err(err) = validate_boot_method(&machine.boot_method) {
            return Err(err);
        }
    }
    validate_accelerator(&common.accel_type, host.os, host.kvm_available)
}

/// The command line with what depends on the architecture.
pub open spec fn machine_base(binary: Seq<char>, conf: ConfModel) -> BaseModel {
    BaseModel {
        cpu: seq!["-cpu"@, conf.model()],
        smp: seq!["-smp"@, decimal(conf.count() as nat)],
        m: seq!["-m"@, conf.shared().memory],
        accel: seq!["-accel"@, conf.shared().accel_type.text()],
        ..BaseModel::bare(binary)
    }
}

/// The command line of a machine.
pub open spec fn machine_command(
    sys: SystemModel,
    machine: MachineModel,
    id: FxIdModel,
    binary: Seq<char>,
    name: Seq<char>,
    qmp: Seq<Seq<char>>,
) -> QemuCommandModel {
    QemuCommandModel {
        x86: machine.conf is Amd64,
        words: with_common_args(
            machine_base(binary, machine.conf),
            sys,
            machine,
            id,
            machine.conf.shared(),
            name,
            qmp,
        ).words(),
    }
}

/// The command line of a machine on a host, or the first reason why there is
/// none: a configuration that cannot be realised, no emulator, a name or a
/// control socket that cannot be read.
pub open spec fn machine_result(
    sys: SystemModel,
    machine: MachineModel,
    id: FxIdModel,
    host: HostFacts,
) -> Result<QemuCommandModel, CreateErrorModel> {
    let read = readings(sys, machine, id);
    if configuration_refusal(machine.conf, host) is Some {
        Err(CreateErrorModel::Config(configuration_refusal(machine.conf, host)->0))
    } else {
        match (emulator(sys, machine.conf, host), read.name, read.qmp) {
            (None, _, _) => Err(CreateErrorModel::Which(host.which->Err_0@)),
            (Some(binary), Err(message), _) => Err(CreateErrorModel::Config(message)),
            (Some(binary), Ok(name), Err(message)) => Err(CreateErrorModel::Config(message)),
            (Some(binary), Ok(name), Ok(qmp)) => Ok(
                machine_command(sys, machine, id, binary, name, qmp),
            ),
        }
    }
}

/// The command line of a machine on a host.
pub fn qemu_from_machine_configuration(
    system_configuration: &SystemConfiguration,
    machine_configuration: &QemuMachineConfiguration,
    fx_id: &FxId,
    host: &HostFacts,
) -> (r: Result<QemuSupportedArch, CreateError>)
    ensures
        match machine_result(system_configuration@, machine_configuration@, fx_id@, *host) {
            Ok(command) => r is Ok && r->Ok_0@ == command,
            Err(err) => r is Err && r->Err_0@ == err,
        },
        ({
            let sys = system_configuration@;
            let machine = machine_configuration@;
            let found = emulator(sys, machine.conf, *host);
            is_plain_machine(sys, machine, fx_id@) && configuration_refusal(machine.conf, *host) is None
                && found is Some ==> r is Ok && r->Ok_0@ == machine_command(
                sys,
                machine,
                fx_id@,
                found->0,
                machine.name,
                seq![control_socket(sys.vm_root_path, fx_id@)],
            )
        }),
{
    let conf = &machine_configuration.conf;
    if let Err(err) = validate_configuration(conf, host) {
        return Err(err);
    }
    let binary = match qemu_binary_path(system_configuration, qemu_binary_name(conf), host) {
        Ok(path) => path,
        Err(err) => return Err(err),
    };
    let common = conf.common();
    let mut qemu = QemuInstanceBase::new(binary);
    match conf {
        QemuMachineConfigurationByArch::Amd64(machine) => {
            qemu.cpu = option_pair("-cpu", machine.cpu.to_arg());
            qemu.smp = smp_words(machine.cpus);
        },
        QemuMachineConfigurationByArch::Aarch64(machine) => {
            qemu.cpu = option_pair("-cpu", machine.cpu.to_arg());
            qemu.smp = smp_words(machine.cpus);
        },
    }
    qemu.m = option_pair("-m", common.memory.to_arg());
    qemu.accel = accel_words(common.accel_type);
    if let Err(err) = configure_common_qemu_args(
        system_configuration,
        machine_configuration,
        fx_id,
        common,
        &mut qemu,
    ) {
        return Err(err);
    }
    let words = qemu.to_command();
    match conf {
        QemuMachineConfigurationByArch::Amd64(_) => Ok(QemuSupportedArch::X86_64(words)),
        QemuMachineConfigurationByArch::Aarch64(_) => Ok(QemuSupportedArch::Aarch64(words)),
    }
}

/// An identifier that names a directory of its own: it is not empty and holds
/// no separator.
pub open spec fn is_dir_name(s: Seq<char>) -> bool {
    s.len() > 0 && !s.contains('/')
}

/// Machines whose identifiers have different texts share no file of their
/// runtime directories.
pub proof fn law_machine_files_distinct(
    root: Seq<char>,
    a: FxIdModel,
    b: FxIdModel,
    dir: Seq<char>,
    name: Seq<char>,
)
    requires
        fx_id_text(a) != fx_id_text(b),
        is_dir_name(fx_id_text(a)),
        is_dir_name(fx_id_text(b)),
        is_dir_name(dir),
        is_dir_name(name),
    ensures
        machine_file(root, a, dir, name) != machine_file(root, b, dir, name),
{
    let x = fx_id_text(a);
    let y = fx_id_text(b);
    let sep = seq!['/'];
    let base = if root.len() == 0 || root.last() == '/' {
        root
    } else {
        root + sep
    };
    assert(x.contains(x[0]) && y.contains(y[0]));
    assert(dir.contains(dir[0]) && name.contains(name[0]));
    assert(x.contains(x.last()) && y.contains(y.last()) && dir.contains(dir.last()));
    assert(machine_dir(root, a) =~= base + x);
    assert(machine_dir(root, b) =~= base + y);
    let tail = sep + dir + sep + name;
    assert(machine_file(root, a, dir, name) =~= base + x + tail);
    assert(machine_file(root, b, dir, name) =~= base + y + tail);
    if machine_file(root, a, dir, name) == machine_file(root, b, dir, name) {
        let p = base + x + tail;
        let q = base + y + tail;
        assert(p.len() == q.len());
        assert(x =~= p.subrange(base.len() as int, (base.len() + x.len()) as int));
        assert(y =~= q.subrange(base.len() as int, (base.len() + y.len()) as int));
    }
}

/// A configuration with an option that would have no effect is refused: such
/// a machine has no command line, whatever the host.
pub proof fn law_inert_options_refused(
    sys: SystemModel,
    machine: MachineModel,
    id: FxIdModel,
    host: HostFacts,
)
    requires
        ({
            let common = machine.conf.shared();
            ||| common.extra_options.len() > 0
            ||| common.boot_kernel
            ||| common.bootstrap_method is CloudInit
            ||| machine.conf matches ConfModel::Amd64 { boot_method, .. } && boot_method is Uefi
        }),
    ensures
        machine_result(sys, machine, id, host) matches Err(CreateErrorModel::Config(_)),
{
}

/// Emulation in software can be used on every host.
pub proof fn law_tcg_on_every_host(os: HostOs, kvm_available: bool)
    ensures
        accelerator_refusal(AccelType::Tcg, os, kvm_available) is None,
{
}

/// The command line of a machine begins with the emulator, and QEMU is told to
/// write its process id to the file of the machine.
pub proof fn law_command_line_frame(
    sys: SystemModel,
    machine: MachineModel,
    id: FxIdModel,
    binary: Seq<char>,
    name: Seq<char>,
    qmp: Seq<Seq<char>>,
)
    ensures
        ({
            let words = machine_command(sys, machine, id, binary, name, qmp).words;
            &&& words.len() > 2
            &&& words[0] == binary
            &&& words[words.len() - 2] == "-pidfile"@
            &&& words.last() == machine_file(sys.vm_root_path, id, "run"@, "qemu.pid"@)
        }),
{
}

/// Which of the configured paths the emulator is taken from.
proof fn lemma_configured_binary(paths: Seq<Seq<char>>, exists: Seq<bool>, name: Seq<char>, at: int)
    requires
        0 <= at <= paths.len(),
    ensures
        configured_binary(paths, exists, name, at) is None ==> forall|i: int|
            at <= i < paths.len() ==> file_name(#[trigger] paths[i]) != Some(name) && !(i
                < exists.len() && exists[i]),
        configured_binary(paths, exists, name, at) matches Some(path) ==> exists|i: int|
            at <= i < paths.len() && (forall|j: int|
                at <= j < i ==> file_name(#[trigger] paths[j]) != Some(name) && !(j < exists.len()
                    && exists[j])) && (if file_name(#[trigger] paths[i]) == Some(name) {
                path == paths[i]
            } else {
                i < exists.len() && exists[i] && path == path_join(paths[i], name)
            }),
    decreases paths.len() - at,
{
    if at < paths.len() {
        lemma_configured_binary(paths, exists, name, at + 1);
        if file_name(paths[at]) == Some(name) || (at < exists.len() && exists[at]) {
            assert(0 <= at < paths.len());
            let first = paths[at];
        } else if let Some(path) = configured_binary(paths, exists, name, at) {
            let i = choose|i: int|
                at + 1 <= i < paths.len() && (forall|j: int|
                    at + 1 <= j < i ==> file_name(#[trigger] paths[j]) != Some(name) && !(j
                        < exists.len() && exists[j])) && (if file_name(#[trigger] paths[i]) == Some(
                    name,
                ) {
                    path == paths[i]
                } else {
                    i < exists.len() && exists[i] && path == path_join(paths[i], name)
                });
            let found = paths[i];
        }
    }
}

/// The emulator of a machine is the one for its architecture: the first
/// configured path that is named like it or is a directory that holds it, and
/// without such a path the one of the search path.
pub proof fn law_emulator_of_architecture(sys: SystemModel, conf: ConfModel, host: HostFacts)
    ensures
        ({
            let name = if conf is Amd64 {
                "qemu-system-x86_64"@
            } else {
                "qemu-system-aarch64"@
            };
            let paths = sys.emulator_paths;
            let held = |i: int| i < host.emulator_exists@.len() && host.emulator_exists@[i];
            let found = emulator(sys, conf, host);
            ||| exists|i: int|
                0 <= i < paths.len() && (forall|j: int|
                    0 <= j < i ==> file_name(#[trigger] paths[j]) != Some(name) && !held(j)) && (
                if file_name(#[trigger] paths[i]) == Some(name) {
                    found == Some(paths[i])
                } else {
                    held(i) && found == Some(path_join(paths[i], name))
                })
            ||| (forall|i: int|
                0 <= i < paths.len() ==> file_name(#[trigger] paths[i]) != Some(name) && !held(i))
                && found == (match host.which {
                Ok(path) => Some(path@),
                Err(_) => None,
            })
        }),
{
    let name = emulator_name(conf);
    let paths = sys.emulator_paths;
    let there = host.emulator_exists@;
    lemma_configured_binary(paths, there, name, 0);
    if let Some(path) = configured_binary(paths, there, name, 0) {
        let i = choose|i: int|
            0 <= i < paths.len() && (forall|j: int|
                0 <= j < i ==> file_name(#[trigger] paths[j]) != Some(name) && !(j < there.len()
                    && there[j])) && (if file_name(#[trigger] paths[i]) == Some(name) {
                path == paths[i]
            } else {
                i < there.len() && there[i] && path == path_join(paths[i], name)
            });
        let found = paths[i];
    }
}

/// An accelerator can be used exactly on its own host: hardware virtualisation
/// of Linux only there and with its device, those of macOS and Windows only
/// there, software emulation everywhere, and no other at all.
pub proof fn law_accelerator_hosts(accel: AccelType, os: HostOs, kvm_available: bool)
    ensures
        accelerator_refusal(accel, os, kvm_available) is None <==> (accel is Tcg || (accel is Kvm && os
            == HostOs::Linux && kvm_available) || (accel is Hvf && os == HostOs::MacOs) || (accel
            is Whpx && os == HostOs::Windows)),
{
}

/// A machine has a command line exactly where its options can be realised, its
/// accelerator is one of the host, its emulator is found, and its name and
/// control socket can be read.
pub proof fn law_when_a_machine_has_a_command_line(
    sys: SystemModel,
    machine: MachineModel,
    id: FxIdModel,
    host: HostFacts,
)
    ensures
        ({
            let common = match machine.conf {
                ConfModel::Amd64 { common, .. } => common,
                ConfModel::Aarch64 { common, .. } => common,
            };
            let accel = common.accel_type;
            let socket = path_join(
                path_join(path_join(sys.vm_root_path, fx_id_text(id)), "run"@),
                "ctl.sock"@,
            );
            machine_result(sys, machine, id, host) is Ok <==> {
                &&& common.extra_options.len() == 0
                &&& !common.boot_kernel
                &&& common.bootstrap_method is NoBootstrap
                &&& machine.conf matches ConfModel::Amd64 { boot_method, .. } ==> boot_method
                    is Bios
                &&& accel is Tcg || (accel is Kvm && host.os == HostOs::Linux && host.kvm_available)
                    || (accel is Hvf && host.os == HostOs::MacOs) || (accel is Whpx && host.os
                    == HostOs::Windows)
                &&& emulator(sys, machine.conf, host) is Some
                &&& name_reading(machine.name) is Ok
                &&& special_device_reading("unix:"@ + socket + ",server=on,wait=off"@) is Ok
            }
        }),
{
}

/// The whole command line of a machine, from its configuration: the emulator,
/// the processor, the accelerator, the number of processors and the memory;
/// the devices of network and guest agent; the name; the drives; what the
/// network and the agent are attached to; kernel and initial disk; the control
/// socket; and the process id file.
pub proof fn law_command_line_carries_configuration(
    sys: SystemModel,
    machine: MachineModel,
    id: FxIdModel,
    host: HostFacts,
)
    requires
        machine_result(sys, machine, id, host) is Ok,
    ensures
        ({
            let command = machine_result(sys, machine, id, host)->Ok_0;
            let (common, cpu, cpus) = match machine.conf {
                ConfModel::Amd64 { common, cpu, cpus, .. } => (common, cpu, cpus),
                ConfModel::Aarch64 { common, cpu, cpus } => (common, cpu, cpus),
            };
            let accel = match common.accel_type {
                AccelType::Kvm => "kvm"@,
                AccelType::Hvf => "hvf"@,
                AccelType::Whpx => "whpx"@,
                _ => "tcg"@,
            };
            let run = path_join(path_join(sys.vm_root_path, fx_id_text(id)), "run"@);
            let none = Seq::<Seq<char>>::empty();
            let network = machine.networking is Some;
            let agent = common.enable_guest_agent;
            let name = name_reading(machine.name)->Ok_0;
            let qmp = special_device_reading(
                "unix:"@ + path_join(run, "ctl.sock"@) + ",server=on,wait=off"@,
            )->Ok_0;
            &&& command.x86 == machine.conf is Amd64
            &&& command.words == seq![
                emulator(sys, machine.conf, host)->0,
                "-cpu"@,
                cpu,
                "-accel"@,
                accel,
                "-smp"@,
                decimal(cpus as nat),
                "-m"@,
                common.memory,
            ] + (if network {
                seq!["-device"@, "virtio-net-pci"@ + ","@ + "netdev"@ + "="@ + "net0"@]
            } else {
                none
            }) + (if agent {
                seq![
                    "-device"@,
                    "virtio-serial"@,
                    "-device"@,
                    "virtserialport"@ + ","@ + "chardev"@ + "="@ + "qga0"@ + ","@ + "name"@ + "="@
                        + "org.qemu.guest_agent.0"@,
                ]
            } else {
                none
            }) + seq!["-name"@, name] + all_drives(
                sys,
                id,
                machine.storage,
                machine.storage.len() as int,
            ) + (if common.snapshot == Some(true) {
                seq!["-snapshot"@]
            } else {
                none
            }) + (if network {
                seq!["-netdev"@, "user,id="@ + "net0"@]
            } else {
                none
            }) + (if agent {
                seq![
                    "-chardev"@,
                    "socket,id="@ + "qga0"@ + ",path="@ + path_join(run, "ga.sock"@)
                        + ",server=on,wait=off"@,
                ]
            } else {
                none
            }) + (match common.kernel {
                Some(file) => seq!["-kernel"@, file],
                None => none,
            }) + (match common.initrd {
                Some(file) => seq!["-initrd"@, file],
                None => none,
            }) + seq!["-qmp"@] + qmp + seq!["-pidfile"@, path_join(run, "qemu.pid"@)]
        }),
{
    let command = machine_result(sys, machine, id, host)->Ok_0;
    let common = machine.conf.shared();
    let run = path_join(path_join(sys.vm_root_path, fx_id_text(id)), "run"@);
    let none = Seq::<Seq<char>>::empty();
    let binary = emulator(sys, machine.conf, host)->0;
    let name = name_reading(machine.name)->Ok_0;
    let qmp = special_device_reading(control_socket(sys.vm_root_path, id))->Ok_0;
    let base = with_common_args(
        machine_base(binary, machine.conf),
        sys,
        machine,
        id,
        common,
        name,
        qmp,
    );
    let network = if machine.networking is Some {
        seq!["-device"@, "virtio-net-pci"@ + ","@ + "netdev"@ + "="@ + "net0"@]
    } else {
        none
    };
    let agent = if common.enable_guest_agent {
        seq![
            "-device"@,
            "virtio-serial"@,
            "-device"@,
            "virtserialport"@ + ","@ + "chardev"@ + "="@ + "qga0"@ + ","@ + "name"@ + "="@
                + "org.qemu.guest_agent.0"@,
        ]
    } else {
        none
    };
    assert(base.device =~= network + agent);
    assert(base.drive =~= all_drives(sys, id, machine.storage, machine.storage.len() as int));
    assert(base.netdev =~= if machine.networking is Some {
        seq!["-netdev"@, "user,id="@ + "net0"@]
    } else {
        none
    });
    assert(base.chardev =~= if common.enable_guest_agent {
        seq![
            "-chardev"@,
            "socket,id="@ + "qga0"@ + ",path="@ + path_join(run, "ga.sock"@)
                + ",server=on,wait=off"@,
        ]
    } else {
        none
    });
    let head = seq![binary] + base.cpu + base.accel + base.smp + base.m;
    let front = seq![
        binary,
        "-cpu"@,
        machine.conf.model(),
        "-accel"@,
        common.accel_type.text(),
        "-smp"@,
        decimal(machine.conf.count() as nat),
        "-m"@,
        common.memory,
    ];
    assert(head =~= front);
    assert(head + base.device =~= front + network + agent);
    let before = head + base.device + base.name + base.drive;
    assert(base.qmp =~= seq!["-qmp"@] + qmp);
    let tail = before + (if base.snapshot == Some(true) {
        seq!["-snapshot"@]
    } else {
        none
    }) + base.netdev + base.chardev + option_words("-kernel"@, base.kernel) + option_words(
        "-initrd"@,
        base.initrd,
    );
    assert(tail + base.qmp =~= tail + seq!["-qmp"@] + qmp);
    assert(command.words == tail + base.qmp + option_words("-pidfile"@, base.pidfile));
}

/// What stands at the head of a command line.
proof fn lemma_command_line_head(
    sys: SystemModel,
    machine: MachineModel,
    id: FxIdModel,
    host: HostFacts,
)
    requires
        machine_result(sys, machine, id, host) is Ok,
    ensures
        ({
            let command = machine_result(sys, machine, id, host)->Ok_0;
            &&& command.x86 == machine.conf is Amd64
            &&& command.words[2] == machine.conf.model()
            &&& command.words[4] == machine.conf.shared().accel_type.text()
            &&& command.words[6] == decimal(machine.conf.count() as nat)
            &&& command.words[8] == machine.conf.shared().memory
        }),
{
    let binary = emulator(sys, machine.conf, host)->0;
    let base = machine_base(binary, machine.conf);
    let words = machine_result(sys, machine, id, host)->Ok_0.words;
    let head = seq![binary] + base.cpu + base.accel + base.smp + base.m;
    assert(head.len() == 9);
    assert(words.len() >= 9);
    assert(words.take(9) =~= head);
    assert(words.take(9)[2] == words[2] && words.take(9)[4] == words[4]);
    assert(words.take(9)[6] == words[6] && words.take(9)[8] == words[8]);
}

/// A command line tells its machine: two machines with one command line agree
/// in the processor, the number of processors, the memory and the accelerator.
pub proof fn law_command_line_tells_machine(
    sys: SystemModel,
    a: MachineModel,
    b: MachineModel,
    id: FxIdModel,
    host: HostFacts,
)
    requires
        machine_result(sys, a, id, host) is Ok,
        machine_result(sys, a, id, host) == machine_result(sys, b, id, host),
    ensures
        a.conf is Amd64 == b.conf is Amd64,
        a.conf.model() == b.conf.model(),
        a.conf.count() == b.conf.count(),
        a.conf.shared().memory == b.conf.shared().memory,
        a.conf.shared().accel_type == b.conf.shared().accel_type,
{
    lemma_command_line_head(sys, a, id, host);
    lemma_command_line_head(sys, b, id, host);
    crate::number::law_decimal_injective(a.conf.count() as nat, b.conf.count() as nat);
    crate::qemu::options::law_accelerator_names_distinct(
        a.conf.shared().accel_type,
        b.conf.shared().accel_type,
    );
}

/// Each piece of storage gives one drive, in order: for a disk that the machine
/// writes to, its file or device with its format, and for an ISO its copy as a
/// compact disc, each under the name of its storage, or of its place where that
/// has none.
pub proof fn law_drives_of_storage(sys: SystemModel, id: FxIdModel, storage: StorageModel, i: int)
    requires
        match storage {
            StorageModel::Qcow2(files) => 0 <= i < files.len(),
            StorageModel::HostBlock(devices) => 0 <= i < devices.len(),
            StorageModel::Iso(isos) => 0 <= i < isos.len(),
            StorageModel::CloudImage(images) => 0 <= i < images.len(),
        },
    ensures
        ({
            let words = storage_drives(sys, id, storage);
            let name = |id: Seq<char>| if id.len() == 0 {
                decimal(i as nat)
            } else {
                id
            };
            &&& words.len() == 2 * (match storage {
                StorageModel::Qcow2(files) => files.len(),
                StorageModel::HostBlock(devices) => devices.len(),
                StorageModel::Iso(isos) => isos.len(),
                StorageModel::CloudImage(images) => images.len(),
            })
            &&& words[2 * i] == "-drive"@
            &&& words[2 * i + 1] == (match storage {
                StorageModel::Qcow2(files) => "file="@ + disk_path(
                    sys,
                    id,
                    files[i].0,
                    files[i].1,
                ) + ",if=virtio,media=disk,format="@ + files[i].1.text() + ",id="@ + ("disk"@ + "-"@
                    + name(files[i].0.id@)),
                StorageModel::HostBlock(devices) => "file="@ + devices[i].path@
                    + ",if=virtio,media=disk,format="@ + "raw"@ + ",id="@ + ("host-block"@ + "-"@
                    + name(devices[i].id@)),
                StorageModel::Iso(isos) => "file="@ + iso_path(sys, id, isos[i])
                    + ",media=cdrom,id="@ + ("iso"@ + "-"@ + name(isos[i].id@)),
                StorageModel::CloudImage(images) => "file="@ + overlay_path(sys, id, images[i].0)
                    + ",if=virtio,media=disk,format="@ + "qcow2"@ + ",id="@ + ("cloud-image"@
                    + "-"@ + name(images[i].0.id@)),
            })
        }),
{
    match storage {
        StorageModel::Qcow2(files) => lemma_disk_drives(sys, id, files, files.len() as int, i),
        StorageModel::HostBlock(devices) => lemma_block_drives(devices, devices.len() as int, i),
        StorageModel::Iso(isos) => lemma_iso_drives(sys, id, isos, isos.len() as int, i),
        StorageModel::CloudImage(images) => lemma_image_drives(
            sys,
            id,
            images,
            images.len() as int,
            i,
        ),
    }
}

proof fn lemma_disk_drives(
    sys: SystemModel,
    id: FxIdModel,
    files: Seq<(StorageConfigurationDisk, QemuQcowFormat, QcowOptions)>,
    n: int,
    i: int,
)
    requires
        0 <= n,
    ensures
        disk_drives(sys, id, files, n).len() == 2 * n,
        0 <= i < n ==> disk_drives(sys, id, files, n)[2 * i] == disk_drive(
            disk_path(sys, id, files[i].0, files[i].1),
            files[i].1.text(),
            drive_name("disk"@, files[i].0.id@, i),
        )[0] && disk_drives(sys, id, files, n)[2 * i + 1] == disk_drive(
            disk_path(sys, id, files[i].0, files[i].1),
            files[i].1.text(),
            drive_name("disk"@, files[i].0.id@, i),
        )[1],
    decreases n,
{
    if n > 0 {
        lemma_disk_drives(sys, id, files, n - 1, i);
    }
}

proof fn lemma_block_drives(devices: Seq<StorageConfigurationDisk>, n: int, i: int)
    requires
        0 <= n,
    ensures
        block_drives(devices, n).len() == 2 * n,
        0 <= i < n ==> block_drives(devices, n)[2 * i] == "-drive"@ && block_drives(devices, n)[2 * i
            + 1] == disk_drive(
            devices[i].path@,
            "raw"@,
            drive_name("host-block"@, devices[i].id@, i),
        )[1],
    decreases n,
{
    if n > 0 {
        lemma_block_drives(devices, n - 1, i);
    }
}

proof fn lemma_iso_drives(
    sys: SystemModel,
    id: FxIdModel,
    isos: Seq<StorageConfigurationIso>,
    n: int,
    i: int,
)
    requires
        0 <= n,
    ensures
        iso_drives(sys, id, isos, n).len() == 2 * n,
        0 <= i < n ==> iso_drives(sys, id, isos, n)[2 * i] == "-drive"@ && iso_drives(
            sys,
            id,
            isos,
            n,
        )[2 * i + 1] == iso_drive(
            iso_path(sys, id, isos[i]),
            drive_name("iso"@, isos[i].id@, i),
        )[1],
    decreases n,
{
    if n > 0 {
        lemma_iso_drives(sys, id, isos, n - 1, i);
    }
}

proof fn lemma_image_drives(
    sys: SystemModel,
    id: FxIdModel,
    images: Seq<(StorageConfigurationCloudImage, QcowOptions)>,
    n: int,
    i: int,
)
    requires
        0 <= n,
    ensures
        image_drives(sys, id, images, n).len() == 2 * n,
        0 <= i < n ==> image_drives(sys, id, images, n)[2 * i] == "-drive"@ && image_drives(
            sys,
            id,
            images,
            n,
        )[2 * i + 1] == disk_drive(
            overlay_path(sys, id, images[i].0),
            "qcow2"@,
            drive_name("cloud-image"@, images[i].0.id@, i),
        )[1],
    decreases n,
{
    if n > 0 {
        lemma_image_drives(sys, id, images, n - 1, i);
    }
}

/// The drives of joined storage are those of the one followed by those of the
/// other, and the drives of one piece are its own.
pub proof fn law_drives_add_up(
    sys: SystemModel,
    id: FxIdModel,
    a: Seq<StorageModel>,
    b: Seq<StorageModel>,
    one: StorageModel,
)
    ensures
        all_drives(sys, id, a + b, (a + b).len() as int) == all_drives(sys, id, a, a.len() as int)
            + all_drives(sys, id, b, b.len() as int),
        all_drives(sys, id, seq![one], 1) == storage_drives(sys, id, one),
        all_drives(sys, id, seq![], 0) == Seq::<Seq<char>>::empty(),
{
    lemma_drives_of_front(sys, id, a, b, a.len() as int);
    lemma_drives_of_back(sys, id, a, b, b.len() as int);
    assert(all_drives(sys, id, seq![one], 0) == Seq::<Seq<char>>::empty());
    assert(all_drives(sys, id, seq![one], 1) =~= storage_drives(sys, id, one));
}

proof fn lemma_drives_of_front(
    sys: SystemModel,
    id: FxIdModel,
    a: Seq<StorageModel>,
    b: Seq<StorageModel>,
    n: int,
)
    requires
        0 <= n <= a.len(),
    ensures
        all_drives(sys, id, a + b, n) == all_drives(sys, id, a, n),
    decreases n,
{
    if n > 0 {
        lemma_drives_of_front(sys, id, a, b, n - 1);
    }
}

proof fn lemma_drives_of_back(
    sys: SystemModel,
    id: FxIdModel,
    a: Seq<StorageModel>,
    b: Seq<StorageModel>,
    n: int,
)
    requires
        0 <= n <= b.len(),
    ensures
        all_drives(sys, id, a + b, a.len() + n) == all_drives(sys, id, a + b, a.len() as int)
            + all_drives(sys, id, b, n),
    decreases n,
{
    let front = all_drives(sys, id, a + b, a.len() as int);
    if n > 0 {
        lemma_drives_of_back(sys, id, a, b, n - 1);
        assert((a + b)[a.len() + n - 1] == b[n - 1]);
        assert(all_drives(sys, id, a + b, a.len() + n) =~= front + all_drives(sys, id, b, n));
    } else {
        assert(front + all_drives(sys, id, b, 0) =~= front);
    }
}

/// The reason for which a configuration is refused is the first that holds: extra
/// options, a kernel to boot, cloud-init, a UEFI of an x86 machine, and an
/// accelerator that the host does not have or that is not known to work.
pub proof fn law_refusal_reasons(conf: ConfModel, host: HostFacts)
    ensures
        ({
            let common = conf.shared();
            let accel = common.accel_type;
            let uefi = conf is Amd64 && conf->boot_method is Uefi;
            let reason = configuration_refusal(conf, host);
            if common.extra_options.len() > 0 {
                reason == Some(
                    "QEMU extra_options is not implemented; use typed configuration fields instead"@,
                )
            } else if common.boot_kernel {
                reason == Some(
                    "QEMU boot_kernel is not implemented; set kernel/initrd directly or leave boot_kernel=false"@,
                )
            } else if common.bootstrap_method is CloudInit {
                reason == Some(
                    "QEMU bootstrap_method=CloudInit is not implemented as a command-line feature yet"@,
                )
            } else if uefi {
                reason == Some(
                    "QEMU boot_method=Uefi is not implemented; configure firmware support before selecting UEFI"@,
                )
            } else {
                &&& accel is Kvm && host.os != HostOs::Linux ==> reason == Some(
                    "KVM acceleration is only supported on Linux hosts"@,
                )
                &&& accel is Kvm && host.os == HostOs::Linux && !host.kvm_available ==> reason == Some(
                    "KVM acceleration requested but /dev/kvm is not available"@,
                )
                &&& accel is Hvf && host.os != HostOs::MacOs ==> reason == Some(
                    "HVF acceleration is only supported on macOS hosts"@,
                )
                &&& accel is Whpx && host.os != HostOs::Windows ==> reason == Some(
                    "WHPX acceleration is only supported on Windows hosts"@,
                )
                &&& !(accel is Tcg || accel is Kvm || accel is Hvf || accel is Whpx) ==> reason
                    == Some(
                    "accelerator "@ + accel.variant() + " is not validated by becky-fx-qemu yet"@,
                )
                &&& reason is None <==> accelerator_refusal(accel, host.os, host.kvm_available) is None
            }
        }),
{
}

/// A refusal is an error of the configuration with its reason, and without one
/// the check succeeds.
pub proof fn law_checked(r: Result<(), CreateError>, reason: Seq<char>)
    ensures
        checked(r, None) <==> r is Ok,
        checked(r, Some(reason)) <==> r is Err && r->Err_0@ == CreateErrorModel::Config(reason),
{
}

} // verus!
