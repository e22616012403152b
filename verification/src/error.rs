//! What can go wrong while serving a mount.

use vstd::prelude::*;

verus! {

#[verifier::external_type_specification]
#[verifier::external_body]
pub struct ExIoError(std::io::Error);

/// What an operation of a session gives: a value, or the reason why there is none.
pub type FuseResult<T> = Result<T, FuseError>;

/// Failures of a running session.
#[derive(Debug)]
#[non_exhaustive]
pub enum FuseError {
    /// A system call on the session descriptor failed.
    Io(std::io::Error),
    /// The first message was not a handshake, or the kernel speaks a protocol that is too old.
    ProtocolInit,
    /// A request ended before its body was complete.
    Truncated,
    /// The request names an operation that the protocol does not know.
    BadOpcode,
    /// A length in the request disagrees with the bytes that arrived.
    BadLength,
    /// Fewer bytes of a reply were written than it has.
    ShortWrite,
}

/// Failures of mounting and unmounting.
#[derive(Debug)]
#[non_exhaustive]
pub enum MountError {
    /// A system call failed while talking to the mount helper.
    Io(std::io::Error),
    /// The mount helper did not do what it was asked.
    Fusermount,
}

impl FuseError {
    /// The message that describes this error.
    pub fn message(&self) -> (text: &'static str)
        ensures
            text@ == self.spec_message(),
    {
        match self {
            FuseError::Io(_) => "I/O error",
            FuseError::ProtocolInit => "fuse handshake failed (ancient kernel?)",
            FuseError::Truncated => "fuse request truncated",
            FuseError::BadOpcode => "unknown fuse operation",
            FuseError::BadLength => "bad length in fuse request",
            FuseError::ShortWrite => "fuse reply was trimmed on write()",
        }
    }

    pub open spec fn spec_message(&self) -> Seq<char> {
        match self {
            FuseError::Io(_) => "I/O error"@,
            FuseError::ProtocolInit => "fuse handshake failed (ancient kernel?)"@,
            FuseError::Truncated => "fuse request truncated"@,
            FuseError::BadOpcode => "unknown fuse operation"@,
            FuseError::BadLength => "bad length in fuse request"@,
            FuseError::ShortWrite => "fuse reply was trimmed on write()"@,
        }
    }
}

impl MountError {
    /// The message that describes this error.
    pub fn message(&self) -> (text: &'static str)
        ensures
            text@ == self.spec_message(),
    {
        match self {
            MountError::Io(_) => "I/O error during mount",
            MountError::Fusermount => "fusermount failed",
        }
    }

    pub open spec fn spec_message(&self) -> Seq<char> {
        match self {
            MountError::Io(_) => "I/O error during mount"@,
            MountError::Fusermount => "fusermount failed"@,
        }
    }
}

} // verus!
