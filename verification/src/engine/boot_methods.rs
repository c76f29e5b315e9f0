//! Boot method configuration for virtualized effects.
use vstd::prelude::*;

verus! {

/// Paths used by firmware-backed boot methods.
#[derive(Debug, Default)]
pub struct BootMethodOptions {
    /// Firmware image path.
    pub firmware: String,
    /// Non-volatile firmware state path.
    pub nv: String,
}

impl Clone for BootMethodOptions {
    fn clone(&self) -> (r: Self)
        ensures
            r == *self,
    {
        BootMethodOptions { firmware: self.firmware.clone(), nv: self.nv.clone() }
    }
}

/// Supported machine firmware boot methods.
#[derive(Clone, Copy, Debug, PartialEq, Eq, Structural)]
pub enum BootMethod {
    /// BIOS or legacy boot.
    Bios,
    /// UEFI firmware boot.
    Uefi,
}

} // verus!
