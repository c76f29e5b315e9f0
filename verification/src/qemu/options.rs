//! Options of the QEMU command line, as `qemu-command-builder` writes them.
use std::path::PathBuf;
use std::str::FromStr;

use qemu_command_builder::args::accel::Accel;
use qemu_command_builder::args::chardev::CharDev;
use qemu_command_builder::args::chardev::CharSocket;
use qemu_command_builder::args::chardev::CharSocketUds;
use qemu_command_builder::args::cpu::CpuAarch64;
use qemu_command_builder::args::cpu::CpuX86;
use qemu_command_builder::args::device::Device;
use qemu_command_builder::args::drive::Drive;
use qemu_command_builder::args::drive::DriveInterface;
use qemu_command_builder::args::drive::DriveMedia;
use qemu_command_builder::args::name::Name;
use qemu_command_builder::args::netdev::NetDev;
use qemu_command_builder::args::netdev::User;
use qemu_command_builder::args::serial::SpecialDevice;
use qemu_command_builder::args::smp::SMP;
use qemu_command_builder::common::OnOff;
use qemu_command_builder::shell_path::ShellPath;
use qemu_command_builder::shell_string::ShellString;
use qemu_command_builder::to_command::ToCommand;
use qemu_command_builder::QemuCommand;
use vstd::prelude::*;

use crate::number::decimal;
use crate::number::decimal_text;
use crate::text::law_split_first;
use crate::text::lower_text;
use crate::text::same_text;
use crate::text::split_first;
use crate::text::texts;

verus! {

/// Accelerators of a virtual machine.
#[derive(Clone, Copy, Debug, PartialEq, Eq, Structural, Hash)]
pub enum AccelType {
    /// Kernel-based Virtual Machine acceleration.
    Kvm,
    /// Xen acceleration.
    Xen,
    /// Hypervisor.framework acceleration.
    Hvf,
    /// Amazon Nitro Enclaves acceleration.
    Nitro,
    /// NetBSD NVMM acceleration.
    Nvmm,
    /// Windows Hypervisor Platform acceleration.
    Whpx,
    /// Microsoft Hypervisor acceleration.
    Mshv,
    /// Tiny Code Generator emulation.
    Tcg,
}

impl AccelType {
    /// The accelerator as QEMU names it.
    pub open spec fn text(self) -> Seq<char> {
        match self {
            AccelType::Kvm => "kvm"@,
            AccelType::Xen => "xen"@,
            AccelType::Hvf => "hvf"@,
            AccelType::Nitro => "nitro"@,
            AccelType::Nvmm => "nvmm"@,
            AccelType::Whpx => "whpx"@,
            AccelType::Mshv => "mshv"@,
            AccelType::Tcg => "tcg"@,
        }
    }

    /// The name of the variant.
    pub open spec fn variant(self) -> Seq<char> {
        match self {
            AccelType::Kvm => "Kvm"@,
            AccelType::Xen => "Xen"@,
            AccelType::Hvf => "Hvf"@,
            AccelType::Nitro => "Nitro"@,
            AccelType::Nvmm => "Nvmm"@,
            AccelType::Whpx => "Whpx"@,
            AccelType::Mshv => "Mshv"@,
            AccelType::Tcg => "Tcg"@,
        }
    }

    /// The accelerator as QEMU names it.
    pub fn to_arg(&self) -> (r: &'static str)
        ensures
            r@ == self.text(),
    {
        match self {
            AccelType::Kvm => "kvm",
            AccelType::Xen => "xen",
            AccelType::Hvf => "hvf",
            AccelType::Nitro => "nitro",
            AccelType::Nvmm => "nvmm",
            AccelType::Whpx => "whpx",
            AccelType::Mshv => "mshv",
            AccelType::Tcg => "tcg",
        }
    }

    /// The name of the variant.
    pub fn variant_name(&self) -> (r: &'static str)
        ensures
            r@ == self.variant(),
    {
        match self {
            AccelType::Kvm => "Kvm",
            AccelType::Xen => "Xen",
            AccelType::Hvf => "Hvf",
            AccelType::Nitro => "Nitro",
            AccelType::Nvmm => "Nvmm",
            AccelType::Whpx => "Whpx",
            AccelType::Mshv => "Mshv",
            AccelType::Tcg => "Tcg",
        }
    }

    /// The accelerator of the given name.
    pub fn parse(s: &str) -> (r: Option<Self>)
        ensures
            r == accel_of(s@),
    {
        if same_text(s, "kvm") {
            Some(AccelType::Kvm)
        } else if same_text(s, "xen") {
            Some(AccelType::Xen)
        } else if same_text(s, "hvf") {
            Some(AccelType::Hvf)
        } else if same_text(s, "nitro") {
            Some(AccelType::Nitro)
        } else if same_text(s, "nvmm") {
            Some(AccelType::Nvmm)
        } else if same_text(s, "whpx") {
            Some(AccelType::Whpx)
        } else if same_text(s, "mshv") {
            Some(AccelType::Mshv)
        } else if same_text(s, "tcg") {
            Some(AccelType::Tcg)
        } else {
            None
        }
    }
}

/// The accelerator of the given name; no other text names one.
pub open spec fn accel_of(s: Seq<char>) -> Option<AccelType> {
    if s == AccelType::Kvm.text() {
        Some(AccelType::Kvm)
    } else if s == AccelType::Xen.text() {
        Some(AccelType::Xen)
    } else if s == AccelType::Hvf.text() {
        Some(AccelType::Hvf)
    } else if s == AccelType::Nitro.text() {
        Some(AccelType::Nitro)
    } else if s == AccelType::Nvmm.text() {
        Some(AccelType::Nvmm)
    } else if s == AccelType::Whpx.text() {
        Some(AccelType::Whpx)
    } else if s == AccelType::Mshv.text() {
        Some(AccelType::Mshv)
    } else if s == AccelType::Tcg.text() {
        Some(AccelType::Tcg)
    } else {
        None
    }
}

/// An accelerator is found by its name.
pub proof fn lemma_accel_of(accel: AccelType)
    ensures
        accel_of(accel.text()) == Some(accel),
{
    let found = accel_of(accel.text());
    assert(found is Some && found->0.text() == accel.text());
    law_accelerator_names_distinct(found->0, accel);
}

/// No two accelerators have one name.
pub proof fn law_accelerator_names_distinct(a: AccelType, b: AccelType)
    requires
        a.text() == b.text(),
    ensures
        a == b,
{
    reveal_strlit("kvm");
    reveal_strlit("xen");
    reveal_strlit("hvf");
    reveal_strlit("nitro");
    reveal_strlit("nvmm");
    reveal_strlit("whpx");
    reveal_strlit("mshv");
    reveal_strlit("tcg");
    let x = a.text();
    let y = b.text();
    assert(x[0] == y[0] && x[1] == y[1]);
    match a {
        AccelType::Kvm => assert(x[0] == 'k'),
        AccelType::Xen => assert(x[0] == 'x'),
        AccelType::Hvf => assert(x[0] == 'h'),
        AccelType::Nitro => assert(x[0] == 'n' && x[1] == 'i'),
        AccelType::Nvmm => assert(x[0] == 'n' && x[1] == 'v'),
        AccelType::Whpx => assert(x[0] == 'w'),
        AccelType::Mshv => assert(x[0] == 'm'),
        AccelType::Tcg => assert(x[0] == 't'),
    }
    match b {
        AccelType::Kvm => assert(y[0] == 'k'),
        AccelType::Xen => assert(y[0] == 'x'),
        AccelType::Hvf => assert(y[0] == 'h'),
        AccelType::Nitro => assert(y[0] == 'n' && y[1] == 'i'),
        AccelType::Nvmm => assert(y[0] == 'n' && y[1] == 'v'),
        AccelType::Whpx => assert(y[0] == 'w'),
        AccelType::Mshv => assert(y[0] == 'm'),
        AccelType::Tcg => assert(y[0] == 't'),
    }
}

/// The names of the accelerators on a command line.
pub proof fn law_accelerator_names()
    ensures
        AccelType::Kvm.text() == "kvm"@,
        AccelType::Xen.text() == "xen"@,
        AccelType::Hvf.text() == "hvf"@,
        AccelType::Nitro.text() == "nitro"@,
        AccelType::Nvmm.text() == "nvmm"@,
        AccelType::Whpx.text() == "whpx"@,
        AccelType::Mshv.text() == "mshv"@,
        AccelType::Tcg.text() == "tcg"@,
        forall|s: Seq<char>, a: AccelType| #[trigger]
            accel_of(s) == Some(a) <==> s == #[trigger] a.text(),
{
    assert forall|s: Seq<char>, a: AccelType| #[trigger]
        accel_of(s) == Some(a) <==> s == #[trigger] a.text() by {
        lemma_accel_of(a);
        if let Some(b) = accel_of(s) {
            assert(s == b.text());
        }
    }
}

/// An amount of memory.
#[derive(Clone, Copy, Debug, PartialEq, Eq, Structural)]
pub enum MemoryUnit {
    Bytes(u64),
    MegaBytes(u64),
    GigaBytes(u64),
}

impl MemoryUnit {
    /// The amount as QEMU takes it.
    pub open spec fn text(self) -> Seq<char> {
        match self {
            MemoryUnit::Bytes(n) => decimal(n as nat),
            MemoryUnit::MegaBytes(n) => decimal(n as nat) + seq!['M'],
            MemoryUnit::GigaBytes(n) => decimal(n as nat) + seq!['G'],
        }
    }
}

/// The memory of a virtual machine: what stands behind `-m`.
#[derive(Debug, PartialEq, Eq)]
pub struct Memory {
    arg: String,
}

impl View for Memory {
    type V = Seq<char>;

    closed spec fn view(&self) -> Seq<char> {
        self.arg@
    }
}

impl Clone for Memory {
    fn clone(&self) -> (r: Self)
        ensures
            r == *self,
    {
        Memory { arg: self.arg.clone() }
    }
}

/// What stands behind `-m` for an amount of memory that can grow to `maxmem`
/// by `slots` slots.
pub open spec fn memory_text(
    mem: MemoryUnit,
    slots: Option<u64>,
    maxmem: Option<MemoryUnit>,
) -> Seq<char> {
    mem.text() + (match slots {
        Some(n) => ",slots="@ + decimal(n as nat),
        None => seq![],
    }) + (match maxmem {
        Some(max) => ",maxmem="@ + max.text(),
        None => seq![],
    })
}

/// What `Memory::from_str` of `qemu-command-builder` makes of a text: what
/// stands behind `-m` for the memory it describes, or nothing if it describes
/// none.
pub uninterp spec fn memory_reading(s: Seq<char>) -> Option<Seq<char>>;

/// `Memory::from_str`, with what was read written again by `to_args`. What it
/// writes it reads as it is, and so it does with an amount of memory, alone or
/// with both slots and a largest amount.
#[verifier::external_body]
fn read_memory(s: &str) -> (r: Option<String>)
    ensures
        match r {
            Some(arg) => memory_reading(s@) == Some(arg@) && memory_reading(arg@) == Some(arg@),
            None => memory_reading(s@) is None,
        },
        forall|mem: MemoryUnit, slots: Option<u64>, maxmem: Option<MemoryUnit>|
            s@ == #[trigger] memory_text(mem, slots, maxmem) && slots is Some == maxmem is Some
                ==> r is Some && r->0@ == s@,
{
    let read = qemu_command_builder::args::memory::Memory::from_str(s);
    read.ok().map(|memory| memory.to_args().join(","))
}

/// The amount as QEMU takes it.
fn unit_text(unit: MemoryUnit) -> (r: String)
    ensures
        r@ == unit.text(),
{
    match unit {
        MemoryUnit::Bytes(n) => decimal_text(n),
        MemoryUnit::MegaBytes(n) => {
            let mut r = decimal_text(n);
            r.push('M');
            proof {
                assert(r@ =~= unit.text());
            }
            r
        },
        MemoryUnit::GigaBytes(n) => {
            let mut r = decimal_text(n);
            r.push('G');
            proof {
                assert(r@ =~= unit.text());
            }
            r
        },
    }
}

impl Memory {
    /// An amount of memory that can grow to `maxmem` by `slots` slots.
    pub fn new(mem: MemoryUnit, slots: Option<u64>, maxmem: Option<MemoryUnit>) -> (r: Self)
        ensures
            r@ == memory_text(mem, slots, maxmem),
    {
        let mut arg = unit_text(mem);
        if let Some(n) = slots {
            arg.append(",slots=");
            arg.append(decimal_text(n).as_str());
        }
        if let Some(max) = maxmem {
            arg.append(",maxmem=");
            arg.append(unit_text(max).as_str());
        }
        proof {
            assert(arg@ =~= memory_text(mem, slots, maxmem));
        }
        Memory { arg }
    }

    /// The memory that a text describes. Every memory made of an amount, alone
    /// or with both slots and a largest amount, is read from its own text.
    pub fn parse(s: &str) -> (r: Option<Self>)
        ensures
            match r {
                Some(memory) => memory_reading(s@) == Some(memory@),
                None => memory_reading(s@) is None,
            },
            forall|mem: MemoryUnit, slots: Option<u64>, maxmem: Option<MemoryUnit>|
                s@ == #[trigger] memory_text(mem, slots, maxmem) && slots is Some == maxmem is Some
                    ==> r is Some && r->0@ == s@,
    {
        match read_memory(s) {
            Some(arg) => Some(Memory { arg }),
            None => None,
        }
    }

    /// What stands behind `-m`.
    pub fn to_arg(&self) -> (r: &str)
        ensures
            r@ == self@,
    {
        self.arg.as_str()
    }
}

/// What stands behind `-cpu` for the x86 model of the given name, if
/// `CpuTypeX86_64::from_str` of `qemu-command-builder` knows it.
pub uninterp spec fn cpu_x86_reading(model: Seq<char>) -> Option<Seq<char>>;

/// `CpuTypeX86_64::from_str`, and what `CpuX86` writes behind `-cpu` for the
/// model. The model `max` is known and written as it is.
#[verifier::external_body]
fn read_cpu_x86(model: &str) -> (r: Option<String>)
    ensures
        match r {
            Some(arg) => cpu_x86_reading(model@) == Some(arg@),
            None => cpu_x86_reading(model@) is None,
        },
        model@ == "max"@ ==> r is Some && r->0@ == "max"@,
{
    let read = qemu_command_builder::args::cpu_type::CpuTypeX86_64::from_str(model);
    read.ok().map(|cpu| CpuX86::new(cpu).to_args().join(","))
}

/// What stands behind `-cpu` for the aarch64 model of the given name, if
/// `CpuTypeAarch64::from_str` of `qemu-command-builder` knows it.
pub uninterp spec fn cpu_aarch64_reading(model: Seq<char>) -> Option<Seq<char>>;

/// `CpuTypeAarch64::from_str`, and what `CpuAarch64` writes behind `-cpu` for
/// the model. The model `max` is known and written as it is.
#[verifier::external_body]
fn read_cpu_aarch64(model: &str) -> (r: Option<String>)
    ensures
        match r {
            Some(arg) => cpu_aarch64_reading(model@) == Some(arg@),
            None => cpu_aarch64_reading(model@) is None,
        },
        model@ == "max"@ ==> r is Some && r->0@ == "max"@,
{
    let read = qemu_command_builder::args::cpu_type::CpuTypeAarch64::from_str(model);
    read.ok().map(|cpu_type| CpuAarch64 { cpu_type }.to_args().join(","))
}

/// An x86 processor model: what stands behind `-cpu`.
#[derive(Debug, PartialEq, Eq)]
pub struct CpuTypeX86_64 {
    arg: String,
}

impl View for CpuTypeX86_64 {
    type V = Seq<char>;

    closed spec fn view(&self) -> Seq<char> {
        self.arg@
    }
}

impl Clone for CpuTypeX86_64 {
    fn clone(&self) -> (r: Self)
        ensures
            r == *self,
    {
        CpuTypeX86_64 { arg: self.arg.clone() }
    }
}

impl CpuTypeX86_64 {
    /// The model with every feature of the accelerator.
    pub fn max() -> (r: Self)
        ensures
            r@ == "max"@,
    {
        CpuTypeX86_64 { arg: "max".to_owned() }
    }

    /// The model of the given name.
    pub fn parse(model: &str) -> (r: Option<Self>)
        ensures
            match r {
                Some(cpu) => cpu_x86_reading(model@) == Some(cpu@),
                None => cpu_x86_reading(model@) is None,
            },
            model@ == "max"@ ==> r is Some && r->0@ == "max"@,
    {
        match read_cpu_x86(model) {
            Some(arg) => Some(CpuTypeX86_64 { arg }),
            None => None,
        }
    }

    /// What stands behind `-cpu`.
    pub fn to_arg(&self) -> (r: &str)
        ensures
            r@ == self@,
    {
        self.arg.as_str()
    }
}

/// An aarch64 processor model: what stands behind `-cpu`.
#[derive(Debug, PartialEq, Eq)]
pub struct CpuTypeAarch64 {
    arg: String,
}

impl View for CpuTypeAarch64 {
    type V = Seq<char>;

    closed spec fn view(&self) -> Seq<char> {
        self.arg@
    }
}

impl Clone for CpuTypeAarch64 {
    fn clone(&self) -> (r: Self)
        ensures
            r == *self,
    {
        CpuTypeAarch64 { arg: self.arg.clone() }
    }
}

impl CpuTypeAarch64 {
    /// The model with every feature of the accelerator.
    pub fn max() -> (r: Self)
        ensures
            r@ == "max"@,
    {
        CpuTypeAarch64 { arg: "max".to_owned() }
    }

    /// The model of the given name.
    pub fn parse(model: &str) -> (r: Option<Self>)
        ensures
            match r {
                Some(cpu) => cpu_aarch64_reading(model@) == Some(cpu@),
                None => cpu_aarch64_reading(model@) is None,
            },
            model@ == "max"@ ==> r is Some && r->0@ == "max"@,
    {
        match read_cpu_aarch64(model) {
            Some(arg) => Some(CpuTypeAarch64 { arg }),
            None => None,
        }
    }

    /// What stands behind `-cpu`.
    pub fn to_arg(&self) -> (r: &str)
        ensures
            r@ == self@,
    {
        self.arg.as_str()
    }
}

/// The words `SMP::new` writes for a number of processors.
#[verifier::external_body]
pub(crate) fn smp_words(cpus: u64) -> (r: Vec<String>)
    ensures
        texts(r@) == seq!["-smp"@, decimal(cpus as nat)],
{
    SMP::new(cpus).to_command()
}

/// The words `Accel::new` writes for an accelerator.
#[verifier::external_body]
pub(crate) fn accel_words(accel: AccelType) -> (r: Vec<String>)
    ensures
        texts(r@) == seq!["-accel"@, accel.text()],
{
    let outside = match accel {
        AccelType::Kvm => qemu_command_builder::common::AccelType::Kvm,
        AccelType::Xen => qemu_command_builder::common::AccelType::Xen,
        AccelType::Hvf => qemu_command_builder::common::AccelType::Hvf,
        AccelType::Nitro => qemu_command_builder::common::AccelType::Nitro,
        AccelType::Nvmm => qemu_command_builder::common::AccelType::Nvmm,
        AccelType::Whpx => qemu_command_builder::common::AccelType::Whpx,
        AccelType::Mshv => qemu_command_builder::common::AccelType::Mshv,
        AccelType::Tcg => qemu_command_builder::common::AccelType::Tcg,
    };
    Accel::new(outside).to_command()
}

/// The words `Device::new` writes for a device without properties.
#[verifier::external_body]
pub(crate) fn device_words(driver: &str) -> (r: Vec<String>)
    ensures
        texts(r@) == seq!["-device"@, driver@],
{
    Device::new(driver).to_command()
}

/// The words `Device` writes for a device with one property, given by
/// `add_prop`.
#[verifier::external_body]
pub(crate) fn device_with_prop(driver: &str, key: &str, value: &str) -> (r: Vec<String>)
    ensures
        texts(r@) == seq!["-device"@, driver@ + ","@ + key@ + "="@ + value@],
{
    let mut device = Device::new(driver);
    device.add_prop(key, value);
    device.to_command()
}

/// The words `Device` writes for a device with two properties, given by
/// `add_prop`; it writes them in the order of their keys.
#[verifier::external_body]
pub(crate) fn device_with_two_props(
    driver: &str,
    first: (&str, &str),
    second: (&str, &str),
) -> (r: Vec<String>)
    requires
        first.0@.len() > 0 && second.0@.len() > 0 && (first.0@[0] as u32) < second.0@[0] as u32,
    ensures
        texts(r@) == seq![
            "-device"@,
            driver@ + ","@ + first.0@ + "="@ + first.1@ + ","@ + second.0@ + "="@ + second.1@,
        ],
{
    let mut device = Device::new(driver);
    device.add_prop(first.0, first.1);
    device.add_prop(second.0, second.1);
    device.to_command()
}

/// The words `Drive` writes for a virtio disk.
#[verifier::external_body]
pub(crate) fn drive_for_disk(file: &str, format: &str, id: &str) -> (r: Vec<String>)
    ensures
        texts(r@) == disk_drive(file@, format@, id@),
{
    let drive = Drive {
        file: Some(ShellPath::new(file)),
        interface: Some(DriveInterface::Virtio),
        media: Some(DriveMedia::Disk),
        format: Some(ShellString::new(format)),
        id: Some(ShellString::new(id)),
        ..Default::default()
    };
    drive.to_command()
}

/// The words for a virtio disk.
pub open spec fn disk_drive(file: Seq<char>, format: Seq<char>, id: Seq<char>) -> Seq<Seq<char>> {
    seq![
        "-drive"@,
        "file="@ + file + ",if=virtio,media=disk,format="@ + format + ",id="@ + id,
    ]
}

/// The words `Drive` writes for an ISO image.
#[verifier::external_body]
pub(crate) fn drive_for_iso(file: &str, id: &str) -> (r: Vec<String>)
    ensures
        texts(r@) == iso_drive(file@, id@),
{
    let drive = Drive {
        file: Some(ShellPath::new(file)),
        media: Some(DriveMedia::Cdrom),
        id: Some(ShellString::new(id)),
        ..Default::default()
    };
    drive.to_command()
}

/// The words for an ISO image.
pub open spec fn iso_drive(file: Seq<char>, id: Seq<char>) -> Seq<Seq<char>> {
    seq!["-drive"@, "file="@ + file + ",media=cdrom,id="@ + id]
}

/// The words `NetDev::User` writes for user-mode networking.
#[verifier::external_body]
pub(crate) fn user_netdev_words(id: &str) -> (r: Vec<String>)
    ensures
        texts(r@) == seq!["-netdev"@, "user,id="@ + id@],
{
    NetDev::User(User::builder().id(id.to_string()).build()).to_command()
}

/// The words `CharDev` writes for a socket at `path` that waits for nobody.
#[verifier::external_body]
pub(crate) fn socket_chardev_words(id: &str, path: &str) -> (r: Vec<String>)
    ensures
        texts(r@) == seq![
            "-chardev"@,
            "socket,id="@ + id@ + ",path="@ + path@ + ",server=on,wait=off"@,
        ],
{
    let uds = CharSocketUds::builder().id(id).path(PathBuf::from(path));
    let socket = uds.server(OnOff::On).wait(OnOff::Off).build();
    CharDev::Socket(CharSocket::Uds(socket)).to_command()
}

/// What `Name::from_str` of `qemu-command-builder` makes of a text: what
/// stands behind `-name`, or why the text names nothing.
pub uninterp spec fn name_reading(s: Seq<char>) -> Result<Seq<char>, Seq<char>>;

/// `Name::from_str`, with the name that was read written by `to_args`. A text
/// without a comma is a name as it is.
#[verifier::external_body]
pub(crate) fn read_name(s: &str) -> (r: Result<String, String>)
    ensures
        match r {
            Ok(arg) => name_reading(s@) == Ok::<Seq<char>, Seq<char>>(arg@),
            Err(message) => name_reading(s@) == Err::<Seq<char>, Seq<char>>(message@),
        },
        !s@.contains(',') ==> r is Ok && r->Ok_0@ == s@,
{
    match Name::from_str(s) {
        Ok(name) => Ok(name.to_args().join(",")),
        Err(err) => Err(err.to_string()),
    }
}

/// What `SpecialDevice::from_str` of `qemu-command-builder` makes of a text:
/// the words behind an option such as `-qmp`, or why the text is no device.
pub uninterp spec fn special_device_reading(s: Seq<char>) -> Result<Seq<Seq<char>>, Seq<char>>;

/// The text for a socket that QEMU listens on without waiting for a client.
pub open spec fn listening_socket(path: Seq<char>) -> Seq<char> {
    "unix:"@ + path + ",server=on,wait=off"@
}

/// `SpecialDevice::from_str`, with the device that was read written by
/// `to_args`. A listening socket whose path holds no comma is read as it is.
#[verifier::external_body]
pub(crate) fn read_special_device(s: &str) -> (r: Result<Vec<String>, String>)
    ensures
        match r {
            Ok(words) => special_device_reading(s@) == Ok::<Seq<Seq<char>>, Seq<char>>(
                texts(words@),
            ),
            Err(message) => special_device_reading(s@) == Err::<Seq<Seq<char>>, Seq<char>>(
                message@,
            ),
        },
        forall|path: Seq<char>|
            s@ == #[trigger] listening_socket(path) && !path.contains(',') ==> r is Ok && texts(
                r->Ok_0@,
            ) == seq![s@],
{
    match SpecialDevice::from_str(s) {
        Ok(device) => Ok(device.to_args()),
        Err(message) => Err(message),
    }
}

/// What `QemuCommand::from_str` of `qemu-command-builder` makes of a command
/// line: whether it runs the x86 emulator, and its words as they are written
/// again, or why it is no QEMU command line.
pub uninterp spec fn command_reading(line: Seq<char>) -> Result<(bool, Seq<Seq<char>>), Seq<char>>;

/// Whether a command line runs the x86 emulator or the one for aarch64, by the
/// end of the text before its first space; `None` if it runs neither.
pub open spec fn emulator_of(line: Seq<char>) -> Option<bool> {
    let (program, rest) = split_first(line, ' ');
    if rest is None {
        None
    } else if "qemu-system-aarch64"@.is_suffix_of(program) {
        Some(false)
    } else if "qemu-system-x86_64"@.is_suffix_of(program) {
        Some(true)
    } else {
        None
    }
}

/// `QemuCommand::from_str`, with the command that was read written by
/// `to_command`. Only a line that runs an emulator is a command line, and what
/// is written begins with the program.
#[verifier::external_body]
pub(crate) fn read_command(line: &str) -> (r: Result<(bool, Vec<String>), String>)
    ensures
        match r {
            Ok((x86, words)) => command_reading(line@) == Ok::<(bool, Seq<Seq<char>>), Seq<char>>(
                (x86, texts(words@)),
            ),
            Err(message) => command_reading(line@) == Err::<(bool, Seq<Seq<char>>), Seq<char>>(
                message@,
            ),
        },
        r matches Ok((x86, words)) ==> emulator_of(line@) == Some(x86) && words@.len() > 0,
{
    match QemuCommand::from_str(line) {
        Ok(QemuCommand::X86_64(instance)) => Ok((true, instance.to_command())),
        Ok(QemuCommand::Aarch64(instance)) => Ok((false, instance.to_command())),
        Err(message) => Err(message),
    }
}

/// An amount of memory is written in decimal with its unit behind, the slots and
/// the largest amount each behind their name where they are given.
pub proof fn law_memory_texts(n: u64, mem: MemoryUnit, slots: u64, max: MemoryUnit)
    ensures
        MemoryUnit::Bytes(n).text() == decimal(n as nat),
        MemoryUnit::MegaBytes(n).text() == decimal(n as nat) + seq!['M'],
        MemoryUnit::GigaBytes(n).text() == decimal(n as nat) + seq!['G'],
        memory_text(mem, None, None) == mem.text(),
        memory_text(mem, Some(slots), None) == mem.text() + ",slots="@ + decimal(slots as nat),
        memory_text(mem, None, Some(max)) == mem.text() + ",maxmem="@ + max.text(),
        memory_text(mem, Some(slots), Some(max)) == mem.text() + ",slots="@ + decimal(slots as nat)
            + ",maxmem="@ + max.text(),
{
    let none = Seq::<char>::empty();
    assert(mem.text() + none + none =~= mem.text());
    let s = ",slots="@ + decimal(slots as nat);
    let m = ",maxmem="@ + max.text();
    assert(mem.text() + s + none =~= mem.text() + ",slots="@ + decimal(slots as nat));
    assert(mem.text() + none + m =~= mem.text() + ",maxmem="@ + max.text());
    assert(mem.text() + s + m =~= mem.text() + ",slots="@ + decimal(slots as nat) + ",maxmem="@
        + max.text());
}

/// The name of the variant of an accelerator is its name with a capital.
pub proof fn law_accelerator_variants(accel: AccelType)
    ensures
        lower_text(accel.variant()) == accel.text(),
        accel.variant()[0] != accel.text()[0],
{
    reveal_strlit("Kvm");
    reveal_strlit("kvm");
    reveal_strlit("Xen");
    reveal_strlit("xen");
    reveal_strlit("Hvf");
    reveal_strlit("hvf");
    reveal_strlit("Nitro");
    reveal_strlit("nitro");
    reveal_strlit("Nvmm");
    reveal_strlit("nvmm");
    reveal_strlit("Whpx");
    reveal_strlit("whpx");
    reveal_strlit("Mshv");
    reveal_strlit("mshv");
    reveal_strlit("Tcg");
    reveal_strlit("tcg");
    assert(lower_text(accel.variant()) =~= accel.text());
}

/// A command line with a space runs the emulator that its program ends in the
/// name of.
pub proof fn law_emulators(dir: Seq<char>, rest: Seq<char>)
    requires
        !dir.contains(' '),
    ensures
        emulator_of(dir + "qemu-system-aarch64"@ + seq![' '] + rest) == Some(false),
        emulator_of(dir + "qemu-system-x86_64"@ + seq![' '] + rest) == Some(true),
        emulator_of(dir) is None,
{
    reveal_strlit("qemu-system-aarch64");
    reveal_strlit("qemu-system-x86_64");
    let arm = "qemu-system-aarch64"@;
    let amd = "qemu-system-x86_64"@;
    assert forall|i: int| 0 <= i < (dir + arm).len() implies (dir + arm)[i] != ' ' by {
        if i < dir.len() {
            assert(dir.contains(dir[i]));
        }
    }
    assert forall|i: int| 0 <= i < (dir + amd).len() implies (dir + amd)[i] != ' ' by {
        if i < dir.len() {
            assert(dir.contains(dir[i]));
        }
    }
    law_split_first(dir + arm, ' ', rest);
    law_split_first(dir + amd, ' ', rest);
    law_split_first(dir, ' ', rest);
    assert(arm.is_suffix_of(dir + arm));
    assert(amd.is_suffix_of(dir + amd));
    assert((dir + amd).last() == '4' && (dir + amd)[(dir + amd).len() - 2] == '6');
    if arm.is_suffix_of(dir + amd) {
        let whole = dir + amd;
        assert(whole.subrange(whole.len() - arm.len(), whole.len() as int) == arm);
        assert(arm[arm.len() - 3] == whole[whole.len() - 3]);
        assert(arm[arm.len() - 3] == 'h');
        assert(whole[whole.len() - 3] == '_');
    }
}

/// A virtio disk is given by its file, its format and its name, an ISO image by
/// its file and its name, and a socket by its path, on which QEMU listens
/// without waiting.
pub proof fn law_drive_words(file: Seq<char>, format: Seq<char>, id: Seq<char>)
    ensures
        disk_drive(file, format, id) == seq![
            "-drive"@,
            "file="@ + file + ",if=virtio,media=disk,format="@ + format + ",id="@ + id,
        ],
        iso_drive(file, id) == seq!["-drive"@, "file="@ + file + ",media=cdrom,id="@ + id],
        listening_socket(file) == "unix:"@ + file + ",server=on,wait=off"@,
{
}

} // verus!
