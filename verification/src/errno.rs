//! Error numbers that a failure reply can carry.
//!
//! The numbers are the system's. The first errors have one number on every Linux, and that
//! number has a name here; the later ones are numbered differently from machine to machine, and
//! of them only this is known: that they are positive.

use vstd::prelude::*;

verus! {

/// Operation not permitted.
pub const EPERM: i32 = 1;

/// No such file or directory.
pub const ENOENT: i32 = 2;

/// Interrupted call.
pub const EINTR: i32 = 4;

/// Input/output error.
pub const EIO: i32 = 5;

/// Permission denied.
pub const EACCES: i32 = 13;

/// Invalid argument.
pub const EINVAL: i32 = 22;

/// Result too large for the buffer that was offered.
pub const ERANGE: i32 = 34;

/// Whether `errno` is one of the errors that have one number on every Linux.
pub open spec fn universal(errno: i32) -> bool {
    errno == EPERM || errno == ENOENT || errno == EINTR || errno == EIO || errno == EACCES
        || errno == EINVAL || errno == ERANGE
}

/// An error that Linux numbers differently from machine to machine, by its name.
#[derive(Clone, Copy, Debug, PartialEq, Eq, Structural)]
pub enum Named {
    /// Function not implemented.
    Enosys,
    /// No message of the desired type.
    Enomsg,
    /// No data available.
    Enodata,
    /// Protocol not supported.
    Eprotonosupport,
    /// No buffer space available.
    Enobufs,
}

impl Named {
    /// Whether `errno` is a number that some Linux gives this error.
    pub open spec fn has_number(self, errno: i32) -> bool {
        match self {
            Named::Enosys => errno == 38 || errno == 89 || errno == 90,
            Named::Enomsg => errno == 42 || errno == 35 || errno == 75,
            Named::Enodata => errno == 61 || errno == 111,
            Named::Eprotonosupport => errno == 93 || errno == 120 || errno == 43,
            Named::Enobufs => errno == 105 || errno == 132 || errno == 55,
        }
    }
}

/// The numbers of these errors are positive, none is the number of an error that has one
/// number on every Linux, and no number belongs to two of them.
pub proof fn lemma_named(named: Named, errno: i32)
    requires
        named.has_number(errno),
    ensures
        errno > 0,
        !universal(errno),
        forall|other: Named| other != named ==> !other.has_number(errno),
{
}

/// `nix::errno::Errno::EPERM`, as a number: 1 on every Linux.
#[verifier::external_body]
pub(crate) fn eperm() -> (errno: i32)
    ensures
        errno == EPERM,
{
    nix::errno::Errno::EPERM as i32
}

/// `nix::errno::Errno::ENOENT`, as a number: 2 on every Linux.
#[verifier::external_body]
pub(crate) fn enoent() -> (errno: i32)
    ensures
        errno == ENOENT,
{
    nix::errno::Errno::ENOENT as i32
}

/// `nix::errno::Errno::EINTR`, as a number: 4 on every Linux.
#[verifier::external_body]
pub(crate) fn eintr() -> (errno: i32)
    ensures
        errno == EINTR,
{
    nix::errno::Errno::EINTR as i32
}

/// `nix::errno::Errno::EIO`, as a number: 5 on every Linux.
#[verifier::external_body]
pub(crate) fn eio() -> (errno: i32)
    ensures
        errno == EIO,
{
    nix::errno::Errno::EIO as i32
}

/// `nix::errno::Errno::EACCES`, as a number: 13 on every Linux.
#[verifier::external_body]
pub(crate) fn eacces() -> (errno: i32)
    ensures
        errno == EACCES,
{
    nix::errno::Errno::EACCES as i32
}

/// `nix::errno::Errno::EINVAL`, as a number: 22 on every Linux.
#[verifier::external_body]
pub(crate) fn einval() -> (errno: i32)
    ensures
        errno == EINVAL,
{
    nix::errno::Errno::EINVAL as i32
}

/// `nix::errno::Errno::ERANGE`, as a number: 34 on every Linux.
#[verifier::external_body]
pub(crate) fn erange() -> (errno: i32)
    ensures
        errno == ERANGE,
{
    nix::errno::Errno::ERANGE as i32
}

/// `nix::errno::Errno::ENOSYS`, as a number: 38, 89 or 90, as the Linux of the machine has it.
#[verifier::external_body]
pub(crate) fn enosys() -> (errno: i32)
    ensures
        Named::Enosys.has_number(errno),
{
    nix::errno::Errno::ENOSYS as i32
}

/// `nix::errno::Errno::ENOMSG`, as a number: 42, 35 or 75, as the Linux of the machine has it.
#[verifier::external_body]
pub(crate) fn enomsg() -> (errno: i32)
    ensures
        Named::Enomsg.has_number(errno),
{
    nix::errno::Errno::ENOMSG as i32
}

/// `nix::errno::Errno::ENODATA`, as a number: 61 or 111, as the Linux of the machine has it.
#[verifier::external_body]
pub(crate) fn enodata() -> (errno: i32)
    ensures
        Named::Enodata.has_number(errno),
{
    nix::errno::Errno::ENODATA as i32
}

/// `nix::errno::Errno::EPROTONOSUPPORT`, as a number: 93, 120 or 43, as the Linux of the
/// machine has it.
#[verifier::external_body]
pub(crate) fn eprotonosupport() -> (errno: i32)
    ensures
        Named::Eprotonosupport.has_number(errno),
{
    nix::errno::Errno::EPROTONOSUPPORT as i32
}

/// `nix::errno::Errno::ENOBUFS`, as a number: 105, 132 or 55, as the Linux of the machine has it.
#[verifier::external_body]
pub(crate) fn enobufs() -> (errno: i32)
    ensures
        Named::Enobufs.has_number(errno),
{
    nix::errno::Errno::ENOBUFS as i32
}

} // verus!
