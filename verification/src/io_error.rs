//! Failures of the operating system, as the callers report them.
use vstd::prelude::*;

verus! {

/// The kinds of failure that decisions depend on.
#[derive(Clone, Copy, Debug, PartialEq, Eq, Structural)]
pub enum IoErrorKind {
    /// The file, directory or program does not exist.
    NotFound,
    /// An argument was not acceptable.
    InvalidInput,
    /// Any other failure.
    Other,
}

/// A failure reported by the operating system.
#[derive(Debug, PartialEq, Eq)]
pub struct IoError {
    /// What kind of failure it was.
    pub kind: IoErrorKind,
    /// The failure in words.
    pub message: String,
}

impl Clone for IoError {
    fn clone(&self) -> (r: Self)
        ensures
            r == *self,
    {
        IoError { kind: self.kind, message: self.message.clone() }
    }
}

impl IoError {
    /// Whether the failure was that something does not exist.
    pub fn is_not_found(&self) -> (r: bool)
        ensures
            r == (self.kind is NotFound),
    {
        self.kind == IoErrorKind::NotFound
    }

    /// Whether the failure was an unacceptable argument.
    pub fn is_invalid_input(&self) -> (r: bool)
        ensures
            r == (self.kind is InvalidInput),
    {
        self.kind == IoErrorKind::InvalidInput
    }
}

} // verus!
