//! Process exit codes.
use vstd::prelude::*;

verus! {

/// Structured process termination reasons.
#[derive(Clone, Copy, Debug, PartialEq, Eq, Structural)]
pub enum BeckyExitCode {
    /// Command-line arguments were invalid.
    InvalidArgs,
    /// Metadata initialization failed.
    MetadataInitFailure,
    /// A required remote service was unavailable.
    RemoteServiceUnavailable,
    /// The process ended because of a Unix signal.
    UnixSignalEnd,
    /// The process failed while waiting for OS image synchronization.
    SyncingImages,
}

impl BeckyExitCode {
    /// The exit code of the process.
    pub open spec fn code(self) -> u8 {
        match self {
            BeckyExitCode::InvalidArgs => 1,
            BeckyExitCode::MetadataInitFailure => 2,
            BeckyExitCode::RemoteServiceUnavailable => 3,
            BeckyExitCode::UnixSignalEnd => 4,
            BeckyExitCode::SyncingImages => 5,
        }
    }

    /// The exit code of the process.
    pub fn report(self) -> (r: u8)
        ensures
            r == self.code(),
    {
        match self {
            BeckyExitCode::InvalidArgs => 1,
            BeckyExitCode::MetadataInitFailure => 2,
            BeckyExitCode::RemoteServiceUnavailable => 3,
            BeckyExitCode::UnixSignalEnd => 4,
            BeckyExitCode::SyncingImages => 5,
        }
    }
}

/// No termination reason looks like success, and no two look the same.
pub proof fn law_exit_codes_distinct(a: BeckyExitCode, b: BeckyExitCode)
    ensures
        a.code() != 0,
        a.code() == b.code() <==> a == b,
{
}

/// The codes are counted from one, in the order in which the reasons can come up.
pub proof fn law_exit_codes()
    ensures
        BeckyExitCode::InvalidArgs.code() == 1,
        BeckyExitCode::MetadataInitFailure.code() == 2,
        BeckyExitCode::RemoteServiceUnavailable.code() == 3,
        BeckyExitCode::UnixSignalEnd.code() == 4,
        BeckyExitCode::SyncingImages.code() == 5,
{
}

} // verus!
