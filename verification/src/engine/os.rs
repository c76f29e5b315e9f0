//! Operating-system image metadata.
use vstd::prelude::*;

use crate::text::same_text;

verus! {

/// CPU architecture used by OS images.
#[derive(Clone, Copy, Debug, PartialEq, Eq, Structural, Hash, PartialOrd, Ord)]
pub enum Arch {
    /// AMD64/x86_64 architecture.
    Amd64,
    /// AArch64/ARM64 architecture.
    Aarch64,
}

impl Arch {
    /// The name of the architecture.
    pub open spec fn text(self) -> Seq<char> {
        match self {
            Arch::Amd64 => "amd64"@,
            Arch::Aarch64 => "aarch64"@,
        }
    }

    /// The architecture with the given name.
    pub fn parse(s: &str) -> (r: Result<Self, ()>)
        ensures
            s@ == Arch::Amd64.text() ==> r == Ok::<Arch, ()>(Arch::Amd64),
            s@ == Arch::Aarch64.text() ==> r == Ok::<Arch, ()>(Arch::Aarch64),
            s@ != Arch::Amd64.text() && s@ != Arch::Aarch64.text() ==> r is Err,
            forall|arch: Arch| s@ == #[trigger] arch.text() ==> r == Ok::<Arch, ()>(arch),
    {
        proof {
            reveal_strlit("amd64");
            reveal_strlit("aarch64");
            assert("amd64"@.len() != "aarch64"@.len());
        }
        if same_text(s, "amd64") {
            Ok(Arch::Amd64)
        } else if same_text(s, "aarch64") {
            Ok(Arch::Aarch64)
        } else {
            Err(())
        }
    }

    /// The name of the architecture.
    pub fn to_string(&self) -> (r: String)
        ensures
            r@ == self.text(),
    {
        match self {
            Arch::Amd64 => "amd64".to_owned(),
            Arch::Aarch64 => "aarch64".to_owned(),
        }
    }
}

impl core::str::FromStr for Arch {
    type Err = ();

    fn from_str(s: &str) -> (r: Result<Self, Self::Err>)
        ensures
            s@ == Arch::Amd64.text() ==> r == Ok::<Arch, ()>(Arch::Amd64),
            s@ == Arch::Aarch64.text() ==> r == Ok::<Arch, ()>(Arch::Aarch64),
            s@ != Arch::Amd64.text() && s@ != Arch::Aarch64.text() ==> r is Err,
    {
        Arch::parse(s)
    }
}

/// Supported Debian image brands.
#[derive(Clone, Copy, Debug, PartialEq, Eq, Structural, Hash, PartialOrd, Ord)]
pub enum Debian {
    /// Debian 13 "Trixie".
    Trixie13,
}

/// Supported Alpine image brands.
#[derive(Clone, Copy, Debug, PartialEq, Eq, Structural, Hash, PartialOrd, Ord)]
pub enum Alpine {
    /// Alpine Linux 3.22.1.
    Version3_22_1,
}

/// Supported Red Hat image brands: there is none yet, so there is no value.
#[derive(Clone, Copy, Debug, PartialEq, Eq, Hash, PartialOrd, Ord)]
pub struct RedHat(core::convert::Infallible);

/// Supported OS image file formats.
#[derive(Clone, Copy, Debug, PartialEq, Eq, Structural, Hash, PartialOrd, Ord)]
pub enum OsImageFileType {
    /// ISO image.
    Iso,
    /// QCOW2 disk image.
    Qcow2,
    /// Raw disk image.
    Raw,
}

impl OsImageFileType {
    /// The name of the format.
    pub fn to_string(&self) -> (r: String)
        ensures
            r@ == (match self {
                OsImageFileType::Iso => "iso"@,
                OsImageFileType::Qcow2 => "qcow2"@,
                OsImageFileType::Raw => "raw"@,
            }),
    {
        match self {
            OsImageFileType::Iso => "iso".to_owned(),
            OsImageFileType::Qcow2 => "qcow2".to_owned(),
            OsImageFileType::Raw => "raw".to_owned(),
        }
    }
}

/// Linux distribution variants.
#[derive(Clone, Copy, Debug, PartialEq, Eq, Hash)]
pub enum LinuxDistro {
    /// Debian Linux.
    Debian { arch: Arch, brand: Debian },
    /// Alpine Linux.
    Alpine { arch: Arch, brand: Alpine },
    /// Red Hat Linux.
    RedHat { arch: Arch, brand: RedHat },
}

/// CLI-friendly Linux distribution selector.
#[derive(Clone, Copy, Debug, PartialEq, Eq, Structural, Hash, PartialOrd, Ord)]
pub enum SupportedLinuxDistroType {
    /// Debian Linux.
    Debian,
    /// Alpine Linux.
    Alpine,
    /// Red Hat Linux.
    RedHat,
}

impl SupportedLinuxDistroType {
    /// The name of the distribution.
    pub fn to_string(&self) -> (r: String)
        ensures
            r@ == (match self {
                SupportedLinuxDistroType::Debian => "debian"@,
                SupportedLinuxDistroType::Alpine => "alpine"@,
                SupportedLinuxDistroType::RedHat => "redhat"@,
            }),
    {
        match self {
            SupportedLinuxDistroType::Debian => "debian".to_owned(),
            SupportedLinuxDistroType::Alpine => "alpine".to_owned(),
            SupportedLinuxDistroType::RedHat => "redhat".to_owned(),
        }
    }
}

/// Operating systems supported by managed images.
#[derive(Clone, Copy, Debug, PartialEq, Eq, Hash)]
pub enum SupportedOs {
    /// Linux distributions.
    Linux(LinuxDistro),
}

/// CLI-friendly operating-system selector.
#[derive(Clone, Copy, Debug, PartialEq, Eq, Structural, Hash, PartialOrd, Ord)]
pub enum SupportedOsType {
    /// Linux operating systems.
    Linux,
}

impl SupportedOsType {
    /// The name of the operating system.
    pub fn to_string(&self) -> (r: String)
        ensures
            r@ == "linux"@,
    {
        "linux".to_owned()
    }
}

/// The names of the architectures.
pub proof fn law_architecture_names()
    ensures
        Arch::Amd64.text() == "amd64"@,
        Arch::Aarch64.text() == "aarch64"@,
{
}

} // verus!
