//! Sets of flag bits that travel in requests and replies.

use vstd::prelude::*;

verus! {

pub const ASYNC_READ: u32 = 0x0000_0001;

pub const POSIX_LOCKS: u32 = 0x0000_0002;

pub const FILE_OPS: u32 = 0x0000_0004;

pub const ATOMIC_O_TRUNC: u32 = 0x0000_0008;

pub const EXPORT_SUPPORT: u32 = 0x0000_0010;

pub const BIG_WRITES: u32 = 0x0000_0020;

pub const DONT_MASK: u32 = 0x0000_0040;

pub const SPLICE_WRITE: u32 = 0x0000_0080;

pub const SPLICE_MOVE: u32 = 0x0000_0100;

pub const SPLICE_READ: u32 = 0x0000_0200;

pub const FLOCK_LOCKS: u32 = 0x0000_0400;

pub const HAS_IOCTL_DIR: u32 = 0x0000_0800;

pub const AUTO_INVAL_DATA: u32 = 0x0000_1000;

pub const DO_READDIRPLUS: u32 = 0x0000_2000;

pub const READDIRPLUS_AUTO: u32 = 0x0000_4000;

pub const ASYNC_DIO: u32 = 0x0000_8000;

pub const WRITEBACK_CACHE: u32 = 0x0001_0000;

pub const NO_OPEN_SUPPORT: u32 = 0x0002_0000;

pub const PARALLEL_DIROPS: u32 = 0x0004_0000;

pub const HANDLE_KILLPRIV: u32 = 0x0008_0000;

pub const POSIX_ACL: u32 = 0x0010_0000;

pub const ABORT_ERROR: u32 = 0x0020_0000;

pub const MAX_PAGES: u32 = 0x0040_0000;

pub const CACHE_SYMLINKS: u32 = 0x0080_0000;

pub const NO_OPENDIR_SUPPORT: u32 = 0x0100_0000;

pub const EXPLICIT_INVAL_DATA: u32 = 0x0200_0000;

/// Every capability bit that the protocol defines.
pub const INIT_ALL: u32 = 0x03ff_ffff;

/// The capabilities that this server offers to a kernel that has them.
pub const INIT_SUPPORTED: u32 = ASYNC_READ | FILE_OPS | ATOMIC_O_TRUNC | EXPORT_SUPPORT
    | BIG_WRITES | HAS_IOCTL_DIR | AUTO_INVAL_DATA | DO_READDIRPLUS | READDIRPLUS_AUTO
    | PARALLEL_DIROPS | ABORT_ERROR | MAX_PAGES | CACHE_SYMLINKS;

pub const DIRECT_IO: u32 = 0x01;

pub const KEEP_CACHE: u32 = 0x02;

pub const NONSEEKABLE: u32 = 0x04;

pub const CACHE_DIR: u32 = 0x08;

pub const STREAM: u32 = 0x10;

/// Every bit that the answer to an open can carry.
pub const OPEN_OUT_ALL: u32 = 0x1f;

pub const FDATASYNC: u32 = 0x01;

/// Every bit that an fsync request can carry.
pub const FSYNC_ALL: u32 = 0x01;

/// Capabilities that kernel and server tell each other of during the handshake.
#[derive(Clone, Copy, Debug, PartialEq, Eq, Structural)]
pub struct InitFlags {
    bits: u32,
}

impl View for InitFlags {
    type V = u32;

    closed spec fn view(&self) -> u32 {
        self.bits
    }
}

impl InitFlags {
    /// The flags among `bits` that the protocol defines.
    pub fn from_bits_truncate(bits: u32) -> (flags: InitFlags)
        ensures
            flags@ == bits & INIT_ALL,
    {
        InitFlags { bits: bits & INIT_ALL }
    }

    pub fn bits(&self) -> (bits: u32)
        ensures
            bits == self@,
    {
        self.bits
    }

    /// The flags that both sets hold.
    pub fn intersection(self, other: InitFlags) -> (flags: InitFlags)
        ensures
            flags@ == self@ & other@,
    {
        InitFlags { bits: self.bits & other.bits }
    }

    /// Whether every flag of `other` is among these.
    pub fn contains(&self, other: InitFlags) -> (yes: bool)
        ensures
            yes == (self@ & other@ == other@),
    {
        self.bits & other.bits == other.bits
    }
}

/// What the answer to an open tells the kernel of how to treat the file.
#[derive(Clone, Copy, Debug, PartialEq, Eq, Structural)]
pub struct OpenOutFlags {
    bits: u32,
}

impl View for OpenOutFlags {
    type V = u32;

    closed spec fn view(&self) -> u32 {
        self.bits
    }
}

impl OpenOutFlags {
    /// The set without a flag.
    pub closed spec fn spec_empty() -> OpenOutFlags {
        OpenOutFlags { bits: 0 }
    }

    /// The set without a flag has no bit.
    pub proof fn lemma_empty()
        ensures
            Self::spec_empty()@ == 0,
    {
    }

    pub fn empty() -> (flags: OpenOutFlags)
        ensures
            flags@ == 0,
            flags == Self::spec_empty(),
    {
        OpenOutFlags { bits: 0 }
    }

    /// The flags among `bits` that the protocol defines.
    pub fn from_bits_truncate(bits: u32) -> (flags: OpenOutFlags)
        ensures
            flags@ == bits & OPEN_OUT_ALL,
    {
        OpenOutFlags { bits: bits & OPEN_OUT_ALL }
    }

    pub fn bits(&self) -> (bits: u32)
        ensures
            bits == self@,
    {
        self.bits
    }

    /// These flags and those of `other`.
    pub fn union(self, other: OpenOutFlags) -> (flags: OpenOutFlags)
        ensures
            flags@ == self@ | other@,
    {
        OpenOutFlags { bits: self.bits | other.bits }
    }

    /// Whether every flag of `other` is among these.
    pub fn contains(&self, other: OpenOutFlags) -> (yes: bool)
        ensures
            yes == (self@ & other@ == other@),
    {
        self.bits & other.bits == other.bits
    }
}

/// How much an fsync request asks to be flushed.
#[derive(Clone, Copy, Debug, PartialEq, Eq, Structural)]
pub struct FsyncFlags {
    bits: u32,
}

impl View for FsyncFlags {
    type V = u32;

    closed spec fn view(&self) -> u32 {
        self.bits
    }
}

impl FsyncFlags {
    /// The flags among `bits` that the protocol defines.
    pub fn from_bits_truncate(bits: u32) -> (flags: FsyncFlags)
        ensures
            flags@ == bits & FSYNC_ALL,
    {
        FsyncFlags { bits: bits & FSYNC_ALL }
    }

    pub fn bits(&self) -> (bits: u32)
        ensures
            bits == self@,
    {
        self.bits
    }

    /// Whether only the file's data is to be flushed, not its metadata.
    pub fn data_only(&self) -> (yes: bool)
        ensures
            yes == (self@ & FDATASYNC == FDATASYNC),
    {
        self.bits & FDATASYNC == FDATASYNC
    }
}

} // verus!
