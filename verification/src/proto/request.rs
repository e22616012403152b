//! Records that the kernel writes.

use vstd::bytes::*;
use vstd::prelude::*;
use vstd::slice::*;

use super::{
    lemma_parse_pod_wire, lemma_wire_parse_pod, parse_pod, put_u32, put_u64, split_pod, InHeader, Pod,
    Structured,
};
use crate::error::FuseResult;

verus! {

/// A byte-range lock.
#[derive(Clone, Copy, Debug, PartialEq, Eq, Structural)]
pub struct FileLock {
    pub start: u64,
    pub end: u64,
    pub lock_type: u32,
    pub pid: u32,
}

impl View for FileLock {
    type V = FileLock;

    open spec fn view(&self) -> FileLock {
        *self
    }
}

impl Pod for FileLock {
    open spec fn wire_len() -> nat {
        24
    }

    open spec fn to_wire(self) -> Seq<u8> {
        spec_u64_to_le_bytes(self.start)
            + spec_u64_to_le_bytes(self.end)
            + spec_u32_to_le_bytes(self.lock_type)
            + spec_u32_to_le_bytes(self.pid)
    }

    open spec fn from_wire(bytes: Seq<u8>) -> Self {
        FileLock {
            start: spec_u64_from_le_bytes(bytes.subrange(0, 8)),
            end: spec_u64_from_le_bytes(bytes.subrange(8, 16)),
            lock_type: spec_u32_from_le_bytes(bytes.subrange(16, 20)),
            pid: spec_u32_from_le_bytes(bytes.subrange(20, 24)),
        }
    }

    fn size() -> (n: usize) {
        24
    }

    fn decode(bytes: &[u8]) -> (record: Self) {
        FileLock {
            start: u64_from_le_bytes(slice_subrange(bytes, 0, 8)),
            end: u64_from_le_bytes(slice_subrange(bytes, 8, 16)),
            lock_type: u32_from_le_bytes(slice_subrange(bytes, 16, 20)),
            pid: u32_from_le_bytes(slice_subrange(bytes, 20, 24)),
        }
    }

    fn encode(&self, out: &mut Vec<u8>) {
        put_u64(out, self.start);
        put_u64(out, self.end);
        put_u32(out, self.lock_type);
        put_u32(out, self.pid);
        assert(out@ =~= old(out)@ + self.to_wire());
    }

    proof fn lemma_wire(self) {
        lemma_auto_spec_u32_to_from_le_bytes();
        lemma_auto_spec_u64_to_from_le_bytes();
        let wire = self.to_wire();
        assert(wire.subrange(0, 8) =~= spec_u64_to_le_bytes(self.start));
        assert(wire.subrange(8, 16) =~= spec_u64_to_le_bytes(self.end));
        assert(wire.subrange(16, 20) =~= spec_u32_to_le_bytes(self.lock_type));
        assert(wire.subrange(20, 24) =~= spec_u32_to_le_bytes(self.pid));
    }

    proof fn lemma_wire_len() {
    }

    proof fn lemma_view(self) {
    }

    proof fn lemma_unwire(bytes: Seq<u8>) {
        lemma_auto_spec_u32_to_from_le_bytes();
        lemma_auto_spec_u64_to_from_le_bytes();
        assert(Self::from_wire(bytes).to_wire() =~= bytes);
    }
}

/// Body of a forget request.
#[derive(Clone, Copy, Debug, PartialEq, Eq, Structural)]
pub struct ForgetIn {
    pub nlookup: u64,
}

impl View for ForgetIn {
    type V = ForgetIn;

    open spec fn view(&self) -> ForgetIn {
        *self
    }
}

impl Pod for ForgetIn {
    open spec fn wire_len() -> nat {
        8
    }

    open spec fn to_wire(self) -> Seq<u8> {
        spec_u64_to_le_bytes(self.nlookup)
    }

    open spec fn from_wire(bytes: Seq<u8>) -> Self {
        ForgetIn {
            nlookup: spec_u64_from_le_bytes(bytes.subrange(0, 8)),
        }
    }

    fn size() -> (n: usize) {
        8
    }

    fn decode(bytes: &[u8]) -> (record: Self) {
        ForgetIn {
            nlookup: u64_from_le_bytes(slice_subrange(bytes, 0, 8)),
        }
    }

    fn encode(&self, out: &mut Vec<u8>) {
        put_u64(out, self.nlookup);
        assert(out@ =~= old(out)@ + self.to_wire());
    }

    proof fn lemma_wire(self) {
        lemma_auto_spec_u64_to_from_le_bytes();
        let wire = self.to_wire();
        assert(wire.subrange(0, 8) =~= spec_u64_to_le_bytes(self.nlookup));
    }

    proof fn lemma_wire_len() {
    }

    proof fn lemma_view(self) {
    }

    proof fn lemma_unwire(bytes: Seq<u8>) {
        lemma_auto_spec_u64_to_from_le_bytes();
        assert(Self::from_wire(bytes).to_wire() =~= bytes);
    }
}

/// Body of an attribute query.
#[derive(Clone, Copy, Debug, PartialEq, Eq, Structural)]
pub struct GetattrIn {
    pub flags: u32,
    pub dummy: u32,
    pub fh: u64,
}

impl View for GetattrIn {
    type V = GetattrIn;

    open spec fn view(&self) -> GetattrIn {
        *self
    }
}

impl Pod for GetattrIn {
    open spec fn wire_len() -> nat {
        16
    }

    open spec fn to_wire(self) -> Seq<u8> {
        spec_u32_to_le_bytes(self.flags)
            + spec_u32_to_le_bytes(self.dummy)
            + spec_u64_to_le_bytes(self.fh)
    }

    open spec fn from_wire(bytes: Seq<u8>) -> Self {
        GetattrIn {
            flags: spec_u32_from_le_bytes(bytes.subrange(0, 4)),
            dummy: spec_u32_from_le_bytes(bytes.subrange(4, 8)),
            fh: spec_u64_from_le_bytes(bytes.subrange(8, 16)),
        }
    }

    fn size() -> (n: usize) {
        16
    }

    fn decode(bytes: &[u8]) -> (record: Self) {
        GetattrIn {
            flags: u32_from_le_bytes(slice_subrange(bytes, 0, 4)),
            dummy: u32_from_le_bytes(slice_subrange(bytes, 4, 8)),
            fh: u64_from_le_bytes(slice_subrange(bytes, 8, 16)),
        }
    }

    fn encode(&self, out: &mut Vec<u8>) {
        put_u32(out, self.flags);
        put_u32(out, self.dummy);
        put_u64(out, self.fh);
        assert(out@ =~= old(out)@ + self.to_wire());
    }

    proof fn lemma_wire(self) {
        lemma_auto_spec_u32_to_from_le_bytes();
        lemma_auto_spec_u64_to_from_le_bytes();
        let wire = self.to_wire();
        assert(wire.subrange(0, 4) =~= spec_u32_to_le_bytes(self.flags));
        assert(wire.subrange(4, 8) =~= spec_u32_to_le_bytes(self.dummy));
        assert(wire.subrange(8, 16) =~= spec_u64_to_le_bytes(self.fh));
    }

    proof fn lemma_wire_len() {
    }

    proof fn lemma_view(self) {
    }

    proof fn lemma_unwire(bytes: Seq<u8>) {
        lemma_auto_spec_u32_to_from_le_bytes();
        lemma_auto_spec_u64_to_from_le_bytes();
        assert(Self::from_wire(bytes).to_wire() =~= bytes);
    }
}

/// Body of an attribute update.
#[derive(Clone, Copy, Debug, PartialEq, Eq, Structural)]
pub struct SetattrIn {
    pub valid: u32,
    pub padding: u32,
    pub fh: u64,
    pub size: u64,
    pub lock_owner: u64,
    pub atime: u64,
    pub mtime: u64,
    pub ctime: u64,
    pub atimensec: u32,
    pub mtimensec: u32,
    pub ctimensec: u32,
    pub mode: u32,
    pub unused: u32,
    pub uid: u32,
    pub gid: u32,
    pub unused2: u32,
}

impl View for SetattrIn {
    type V = SetattrIn;

    open spec fn view(&self) -> SetattrIn {
        *self
    }
}

impl Pod for SetattrIn {
    open spec fn wire_len() -> nat {
        88
    }

    open spec fn to_wire(self) -> Seq<u8> {
        spec_u32_to_le_bytes(self.valid)
            + spec_u32_to_le_bytes(self.padding)
            + spec_u64_to_le_bytes(self.fh)
            + spec_u64_to_le_bytes(self.size)
            + spec_u64_to_le_bytes(self.lock_owner)
            + spec_u64_to_le_bytes(self.atime)
            + spec_u64_to_le_bytes(self.mtime)
            + spec_u64_to_le_bytes(self.ctime)
            + spec_u32_to_le_bytes(self.atimensec)
            + spec_u32_to_le_bytes(self.mtimensec)
            + spec_u32_to_le_bytes(self.ctimensec)
            + spec_u32_to_le_bytes(self.mode)
            + spec_u32_to_le_bytes(self.unused)
            + spec_u32_to_le_bytes(self.uid)
            + spec_u32_to_le_bytes(self.gid)
            + spec_u32_to_le_bytes(self.unused2)
    }

    open spec fn from_wire(bytes: Seq<u8>) -> Self {
        SetattrIn {
            valid: spec_u32_from_le_bytes(bytes.subrange(0, 4)),
            padding: spec_u32_from_le_bytes(bytes.subrange(4, 8)),
            fh: spec_u64_from_le_bytes(bytes.subrange(8, 16)),
            size: spec_u64_from_le_bytes(bytes.subrange(16, 24)),
            lock_owner: spec_u64_from_le_bytes(bytes.subrange(24, 32)),
            atime: spec_u64_from_le_bytes(bytes.subrange(32, 40)),
            mtime: spec_u64_from_le_bytes(bytes.subrange(40, 48)),
            ctime: spec_u64_from_le_bytes(bytes.subrange(48, 56)),
            atimensec: spec_u32_from_le_bytes(bytes.subrange(56, 60)),
            mtimensec: spec_u32_from_le_bytes(bytes.subrange(60, 64)),
            ctimensec: spec_u32_from_le_bytes(bytes.subrange(64, 68)),
            mode: spec_u32_from_le_bytes(bytes.subrange(68, 72)),
            unused: spec_u32_from_le_bytes(bytes.subrange(72, 76)),
            uid: spec_u32_from_le_bytes(bytes.subrange(76, 80)),
            gid: spec_u32_from_le_bytes(bytes.subrange(80, 84)),
            unused2: spec_u32_from_le_bytes(bytes.subrange(84, 88)),
        }
    }

    fn size() -> (n: usize) {
        88
    }

    fn decode(bytes: &[u8]) -> (record: Self) {
        SetattrIn {
            valid: u32_from_le_bytes(slice_subrange(bytes, 0, 4)),
            padding: u32_from_le_bytes(slice_subrange(bytes, 4, 8)),
            fh: u64_from_le_bytes(slice_subrange(bytes, 8, 16)),
            size: u64_from_le_bytes(slice_subrange(bytes, 16, 24)),
            lock_owner: u64_from_le_bytes(slice_subrange(bytes, 24, 32)),
            atime: u64_from_le_bytes(slice_subrange(bytes, 32, 40)),
            mtime: u64_from_le_bytes(slice_subrange(bytes, 40, 48)),
            ctime: u64_from_le_bytes(slice_subrange(bytes, 48, 56)),
            atimensec: u32_from_le_bytes(slice_subrange(bytes, 56, 60)),
            mtimensec: u32_from_le_bytes(slice_subrange(bytes, 60, 64)),
            ctimensec: u32_from_le_bytes(slice_subrange(bytes, 64, 68)),
            mode: u32_from_le_bytes(slice_subrange(bytes, 68, 72)),
            unused: u32_from_le_bytes(slice_subrange(bytes, 72, 76)),
            uid: u32_from_le_bytes(slice_subrange(bytes, 76, 80)),
            gid: u32_from_le_bytes(slice_subrange(bytes, 80, 84)),
            unused2: u32_from_le_bytes(slice_subrange(bytes, 84, 88)),
        }
    }

    fn encode(&self, out: &mut Vec<u8>) {
        put_u32(out, self.valid);
        put_u32(out, self.padding);
        put_u64(out, self.fh);
        put_u64(out, self.size);
        put_u64(out, self.lock_owner);
        put_u64(out, self.atime);
        put_u64(out, self.mtime);
        put_u64(out, self.ctime);
        put_u32(out, self.atimensec);
        put_u32(out, self.mtimensec);
        put_u32(out, self.ctimensec);
        put_u32(out, self.mode);
        put_u32(out, self.unused);
        put_u32(out, self.uid);
        put_u32(out, self.gid);
        put_u32(out, self.unused2);
        assert(out@ =~= old(out)@ + self.to_wire());
    }

    proof fn lemma_wire(self) {
        lemma_auto_spec_u32_to_from_le_bytes();
        lemma_auto_spec_u64_to_from_le_bytes();
        let wire = self.to_wire();
        assert(wire.subrange(0, 4) =~= spec_u32_to_le_bytes(self.valid));
        assert(wire.subrange(4, 8) =~= spec_u32_to_le_bytes(self.padding));
        assert(wire.subrange(8, 16) =~= spec_u64_to_le_bytes(self.fh));
        assert(wire.subrange(16, 24) =~= spec_u64_to_le_bytes(self.size));
        assert(wire.subrange(24, 32) =~= spec_u64_to_le_bytes(self.lock_owner));
        assert(wire.subrange(32, 40) =~= spec_u64_to_le_bytes(self.atime));
        assert(wire.subrange(40, 48) =~= spec_u64_to_le_bytes(self.mtime));
        assert(wire.subrange(48, 56) =~= spec_u64_to_le_bytes(self.ctime));
        assert(wire.subrange(56, 60) =~= spec_u32_to_le_bytes(self.atimensec));
        assert(wire.subrange(60, 64) =~= spec_u32_to_le_bytes(self.mtimensec));
        assert(wire.subrange(64, 68) =~= spec_u32_to_le_bytes(self.ctimensec));
        assert(wire.subrange(68, 72) =~= spec_u32_to_le_bytes(self.mode));
        assert(wire.subrange(72, 76) =~= spec_u32_to_le_bytes(self.unused));
        assert(wire.subrange(76, 80) =~= spec_u32_to_le_bytes(self.uid));
        assert(wire.subrange(80, 84) =~= spec_u32_to_le_bytes(self.gid));
        assert(wire.subrange(84, 88) =~= spec_u32_to_le_bytes(self.unused2));
    }

    proof fn lemma_wire_len() {
    }

    proof fn lemma_view(self) {
    }

    proof fn lemma_unwire(bytes: Seq<u8>) {
        lemma_auto_spec_u32_to_from_le_bytes();
        lemma_auto_spec_u64_to_from_le_bytes();
        assert(Self::from_wire(bytes).to_wire() =~= bytes);
    }
}

/// Fixed part of a mknod request.
#[derive(Clone, Copy, Debug, PartialEq, Eq, Structural)]
pub struct MknodIn {
    pub mode: u32,
    pub device: u32,
    pub umask: u32,
    pub padding: u32,
}

impl View for MknodIn {
    type V = MknodIn;

    open spec fn view(&self) -> MknodIn {
        *self
    }
}

impl Pod for MknodIn {
    open spec fn wire_len() -> nat {
        16
    }

    open spec fn to_wire(self) -> Seq<u8> {
        spec_u32_to_le_bytes(self.mode)
            + spec_u32_to_le_bytes(self.device)
            + spec_u32_to_le_bytes(self.umask)
            + spec_u32_to_le_bytes(self.padding)
    }

    open spec fn from_wire(bytes: Seq<u8>) -> Self {
        MknodIn {
            mode: spec_u32_from_le_bytes(bytes.subrange(0, 4)),
            device: spec_u32_from_le_bytes(bytes.subrange(4, 8)),
            umask: spec_u32_from_le_bytes(bytes.subrange(8, 12)),
            padding: spec_u32_from_le_bytes(bytes.subrange(12, 16)),
        }
    }

    fn size() -> (n: usize) {
        16
    }

    fn decode(bytes: &[u8]) -> (record: Self) {
        MknodIn {
            mode: u32_from_le_bytes(slice_subrange(bytes, 0, 4)),
            device: u32_from_le_bytes(slice_subrange(bytes, 4, 8)),
            umask: u32_from_le_bytes(slice_subrange(bytes, 8, 12)),
            padding: u32_from_le_bytes(slice_subrange(bytes, 12, 16)),
        }
    }

    fn encode(&self, out: &mut Vec<u8>) {
        put_u32(out, self.mode);
        put_u32(out, self.device);
        put_u32(out, self.umask);
        put_u32(out, self.padding);
        assert(out@ =~= old(out)@ + self.to_wire());
    }

    proof fn lemma_wire(self) {
        lemma_auto_spec_u32_to_from_le_bytes();
        let wire = self.to_wire();
        assert(wire.subrange(0, 4) =~= spec_u32_to_le_bytes(self.mode));
        assert(wire.subrange(4, 8) =~= spec_u32_to_le_bytes(self.device));
        assert(wire.subrange(8, 12) =~= spec_u32_to_le_bytes(self.umask));
        assert(wire.subrange(12, 16) =~= spec_u32_to_le_bytes(self.padding));
    }

    proof fn lemma_wire_len() {
    }

    proof fn lemma_view(self) {
    }

    proof fn lemma_unwire(bytes: Seq<u8>) {
        lemma_auto_spec_u32_to_from_le_bytes();
        assert(Self::from_wire(bytes).to_wire() =~= bytes);
    }
}

/// Fixed part of a mkdir request.
#[derive(Clone, Copy, Debug, PartialEq, Eq, Structural)]
pub struct MkdirIn {
    pub mode: u32,
    pub umask: u32,
}

impl View for MkdirIn {
    type V = MkdirIn;

    open spec fn view(&self) -> MkdirIn {
        *self
    }
}

impl Pod for MkdirIn {
    open spec fn wire_len() -> nat {
        8
    }

    open spec fn to_wire(self) -> Seq<u8> {
        spec_u32_to_le_bytes(self.mode)
            + spec_u32_to_le_bytes(self.umask)
    }

    open spec fn from_wire(bytes: Seq<u8>) -> Self {
        MkdirIn {
            mode: spec_u32_from_le_bytes(bytes.subrange(0, 4)),
            umask: spec_u32_from_le_bytes(bytes.subrange(4, 8)),
        }
    }

    fn size() -> (n: usize) {
        8
    }

    fn decode(bytes: &[u8]) -> (record: Self) {
        MkdirIn {
            mode: u32_from_le_bytes(slice_subrange(bytes, 0, 4)),
            umask: u32_from_le_bytes(slice_subrange(bytes, 4, 8)),
        }
    }

    fn encode(&self, out: &mut Vec<u8>) {
        put_u32(out, self.mode);
        put_u32(out, self.umask);
        assert(out@ =~= old(out)@ + self.to_wire());
    }

    proof fn lemma_wire(self) {
        lemma_auto_spec_u32_to_from_le_bytes();
        let wire = self.to_wire();
        assert(wire.subrange(0, 4) =~= spec_u32_to_le_bytes(self.mode));
        assert(wire.subrange(4, 8) =~= spec_u32_to_le_bytes(self.umask));
    }

    proof fn lemma_wire_len() {
    }

    proof fn lemma_view(self) {
    }

    proof fn lemma_unwire(bytes: Seq<u8>) {
        lemma_auto_spec_u32_to_from_le_bytes();
        assert(Self::from_wire(bytes).to_wire() =~= bytes);
    }
}

/// Fixed part of a rename request.
#[derive(Clone, Copy, Debug, PartialEq, Eq, Structural)]
pub struct RenameIn {
    pub new_dir: u64,
}

impl View for RenameIn {
    type V = RenameIn;

    open spec fn view(&self) -> RenameIn {
        *self
    }
}

impl Pod for RenameIn {
    open spec fn wire_len() -> nat {
        8
    }

    open spec fn to_wire(self) -> Seq<u8> {
        spec_u64_to_le_bytes(self.new_dir)
    }

    open spec fn from_wire(bytes: Seq<u8>) -> Self {
        RenameIn {
            new_dir: spec_u64_from_le_bytes(bytes.subrange(0, 8)),
        }
    }

    fn size() -> (n: usize) {
        8
    }

    fn decode(bytes: &[u8]) -> (record: Self) {
        RenameIn {
            new_dir: u64_from_le_bytes(slice_subrange(bytes, 0, 8)),
        }
    }

    fn encode(&self, out: &mut Vec<u8>) {
        put_u64(out, self.new_dir);
        assert(out@ =~= old(out)@ + self.to_wire());
    }

    proof fn lemma_wire(self) {
        lemma_auto_spec_u64_to_from_le_bytes();
        let wire = self.to_wire();
        assert(wire.subrange(0, 8) =~= spec_u64_to_le_bytes(self.new_dir));
    }

    proof fn lemma_wire_len() {
    }

    proof fn lemma_view(self) {
    }

    proof fn lemma_unwire(bytes: Seq<u8>) {
        lemma_auto_spec_u64_to_from_le_bytes();
        assert(Self::from_wire(bytes).to_wire() =~= bytes);
    }
}

/// Fixed part of a link request.
#[derive(Clone, Copy, Debug, PartialEq, Eq, Structural)]
pub struct LinkIn {
    pub old_ino: u64,
}

impl View for LinkIn {
    type V = LinkIn;

    open spec fn view(&self) -> LinkIn {
        *self
    }
}

impl Pod for LinkIn {
    open spec fn wire_len() -> nat {
        8
    }

    open spec fn to_wire(self) -> Seq<u8> {
        spec_u64_to_le_bytes(self.old_ino)
    }

    open spec fn from_wire(bytes: Seq<u8>) -> Self {
        LinkIn {
            old_ino: spec_u64_from_le_bytes(bytes.subrange(0, 8)),
        }
    }

    fn size() -> (n: usize) {
        8
    }

    fn decode(bytes: &[u8]) -> (record: Self) {
        LinkIn {
            old_ino: u64_from_le_bytes(slice_subrange(bytes, 0, 8)),
        }
    }

    fn encode(&self, out: &mut Vec<u8>) {
        put_u64(out, self.old_ino);
        assert(out@ =~= old(out)@ + self.to_wire());
    }

    proof fn lemma_wire(self) {
        lemma_auto_spec_u64_to_from_le_bytes();
        let wire = self.to_wire();
        assert(wire.subrange(0, 8) =~= spec_u64_to_le_bytes(self.old_ino));
    }

    proof fn lemma_wire_len() {
    }

    proof fn lemma_view(self) {
    }

    proof fn lemma_unwire(bytes: Seq<u8>) {
        lemma_auto_spec_u64_to_from_le_bytes();
        assert(Self::from_wire(bytes).to_wire() =~= bytes);
    }
}

/// Body of an open request.
#[derive(Clone, Copy, Debug, PartialEq, Eq, Structural)]
pub struct OpenIn {
    pub flags: u32,
    pub unused: u32,
}

impl View for OpenIn {
    type V = OpenIn;

    open spec fn view(&self) -> OpenIn {
        *self
    }
}

impl Pod for OpenIn {
    open spec fn wire_len() -> nat {
        8
    }

    open spec fn to_wire(self) -> Seq<u8> {
        spec_u32_to_le_bytes(self.flags)
            + spec_u32_to_le_bytes(self.unused)
    }

    open spec fn from_wire(bytes: Seq<u8>) -> Self {
        OpenIn {
            flags: spec_u32_from_le_bytes(bytes.subrange(0, 4)),
            unused: spec_u32_from_le_bytes(bytes.subrange(4, 8)),
        }
    }

    fn size() -> (n: usize) {
        8
    }

    fn decode(bytes: &[u8]) -> (record: Self) {
        OpenIn {
            flags: u32_from_le_bytes(slice_subrange(bytes, 0, 4)),
            unused: u32_from_le_bytes(slice_subrange(bytes, 4, 8)),
        }
    }

    fn encode(&self, out: &mut Vec<u8>) {
        put_u32(out, self.flags);
        put_u32(out, self.unused);
        assert(out@ =~= old(out)@ + self.to_wire());
    }

    proof fn lemma_wire(self) {
        lemma_auto_spec_u32_to_from_le_bytes();
        let wire = self.to_wire();
        assert(wire.subrange(0, 4) =~= spec_u32_to_le_bytes(self.flags));
        assert(wire.subrange(4, 8) =~= spec_u32_to_le_bytes(self.unused));
    }

    proof fn lemma_wire_len() {
    }

    proof fn lemma_view(self) {
    }

    proof fn lemma_unwire(bytes: Seq<u8>) {
        lemma_auto_spec_u32_to_from_le_bytes();
        assert(Self::from_wire(bytes).to_wire() =~= bytes);
    }
}

/// Body of a read request.
#[derive(Clone, Copy, Debug, PartialEq, Eq, Structural)]
pub struct ReadIn {
    pub fh: u64,
    pub offset: u64,
    pub size: u32,
    pub read_flags: u32,
    pub lock_owner: u64,
    pub flags: u32,
    pub padding: u32,
}

impl View for ReadIn {
    type V = ReadIn;

    open spec fn view(&self) -> ReadIn {
        *self
    }
}

impl Pod for ReadIn {
    open spec fn wire_len() -> nat {
        40
    }

    open spec fn to_wire(self) -> Seq<u8> {
        spec_u64_to_le_bytes(self.fh)
            + spec_u64_to_le_bytes(self.offset)
            + spec_u32_to_le_bytes(self.size)
            + spec_u32_to_le_bytes(self.read_flags)
            + spec_u64_to_le_bytes(self.lock_owner)
            + spec_u32_to_le_bytes(self.flags)
            + spec_u32_to_le_bytes(self.padding)
    }

    open spec fn from_wire(bytes: Seq<u8>) -> Self {
        ReadIn {
            fh: spec_u64_from_le_bytes(bytes.subrange(0, 8)),
            offset: spec_u64_from_le_bytes(bytes.subrange(8, 16)),
            size: spec_u32_from_le_bytes(bytes.subrange(16, 20)),
            read_flags: spec_u32_from_le_bytes(bytes.subrange(20, 24)),
            lock_owner: spec_u64_from_le_bytes(bytes.subrange(24, 32)),
            flags: spec_u32_from_le_bytes(bytes.subrange(32, 36)),
            padding: spec_u32_from_le_bytes(bytes.subrange(36, 40)),
        }
    }

    fn size() -> (n: usize) {
        40
    }

    fn decode(bytes: &[u8]) -> (record: Self) {
        ReadIn {
            fh: u64_from_le_bytes(slice_subrange(bytes, 0, 8)),
            offset: u64_from_le_bytes(slice_subrange(bytes, 8, 16)),
            size: u32_from_le_bytes(slice_subrange(bytes, 16, 20)),
            read_flags: u32_from_le_bytes(slice_subrange(bytes, 20, 24)),
            lock_owner: u64_from_le_bytes(slice_subrange(bytes, 24, 32)),
            flags: u32_from_le_bytes(slice_subrange(bytes, 32, 36)),
            padding: u32_from_le_bytes(slice_subrange(bytes, 36, 40)),
        }
    }

    fn encode(&self, out: &mut Vec<u8>) {
        put_u64(out, self.fh);
        put_u64(out, self.offset);
        put_u32(out, self.size);
        put_u32(out, self.read_flags);
        put_u64(out, self.lock_owner);
        put_u32(out, self.flags);
        put_u32(out, self.padding);
        assert(out@ =~= old(out)@ + self.to_wire());
    }

    proof fn lemma_wire(self) {
        lemma_auto_spec_u32_to_from_le_bytes();
        lemma_auto_spec_u64_to_from_le_bytes();
        let wire = self.to_wire();
        assert(wire.subrange(0, 8) =~= spec_u64_to_le_bytes(self.fh));
        assert(wire.subrange(8, 16) =~= spec_u64_to_le_bytes(self.offset));
        assert(wire.subrange(16, 20) =~= spec_u32_to_le_bytes(self.size));
        assert(wire.subrange(20, 24) =~= spec_u32_to_le_bytes(self.read_flags));
        assert(wire.subrange(24, 32) =~= spec_u64_to_le_bytes(self.lock_owner));
        assert(wire.subrange(32, 36) =~= spec_u32_to_le_bytes(self.flags));
        assert(wire.subrange(36, 40) =~= spec_u32_to_le_bytes(self.padding));
    }

    proof fn lemma_wire_len() {
    }

    proof fn lemma_view(self) {
    }

    proof fn lemma_unwire(bytes: Seq<u8>) {
        lemma_auto_spec_u32_to_from_le_bytes();
        lemma_auto_spec_u64_to_from_le_bytes();
        assert(Self::from_wire(bytes).to_wire() =~= bytes);
    }
}

/// Fixed part of a write request.
#[derive(Clone, Copy, Debug, PartialEq, Eq, Structural)]
pub struct WriteIn {
    pub fh: u64,
    pub offset: u64,
    pub size: u32,
    pub write_flags: u32,
    pub lock_owner: u64,
    pub flags: u32,
    pub padding: u32,
}

impl View for WriteIn {
    type V = WriteIn;

    open spec fn view(&self) -> WriteIn {
        *self
    }
}

impl Pod for WriteIn {
    open spec fn wire_len() -> nat {
        40
    }

    open spec fn to_wire(self) -> Seq<u8> {
        spec_u64_to_le_bytes(self.fh)
            + spec_u64_to_le_bytes(self.offset)
            + spec_u32_to_le_bytes(self.size)
            + spec_u32_to_le_bytes(self.write_flags)
            + spec_u64_to_le_bytes(self.lock_owner)
            + spec_u32_to_le_bytes(self.flags)
            + spec_u32_to_le_bytes(self.padding)
    }

    open spec fn from_wire(bytes: Seq<u8>) -> Self {
        WriteIn {
            fh: spec_u64_from_le_bytes(bytes.subrange(0, 8)),
            offset: spec_u64_from_le_bytes(bytes.subrange(8, 16)),
            size: spec_u32_from_le_bytes(bytes.subrange(16, 20)),
            write_flags: spec_u32_from_le_bytes(bytes.subrange(20, 24)),
            lock_owner: spec_u64_from_le_bytes(bytes.subrange(24, 32)),
            flags: spec_u32_from_le_bytes(bytes.subrange(32, 36)),
            padding: spec_u32_from_le_bytes(bytes.subrange(36, 40)),
        }
    }

    fn size() -> (n: usize) {
        40
    }

    fn decode(bytes: &[u8]) -> (record: Self) {
        WriteIn {
            fh: u64_from_le_bytes(slice_subrange(bytes, 0, 8)),
            offset: u64_from_le_bytes(slice_subrange(bytes, 8, 16)),
            size: u32_from_le_bytes(slice_subrange(bytes, 16, 20)),
            write_flags: u32_from_le_bytes(slice_subrange(bytes, 20, 24)),
            lock_owner: u64_from_le_bytes(slice_subrange(bytes, 24, 32)),
            flags: u32_from_le_bytes(slice_subrange(bytes, 32, 36)),
            padding: u32_from_le_bytes(slice_subrange(bytes, 36, 40)),
        }
    }

    fn encode(&self, out: &mut Vec<u8>) {
        put_u64(out, self.fh);
        put_u64(out, self.offset);
        put_u32(out, self.size);
        put_u32(out, self.write_flags);
        put_u64(out, self.lock_owner);
        put_u32(out, self.flags);
        put_u32(out, self.padding);
        assert(out@ =~= old(out)@ + self.to_wire());
    }

    proof fn lemma_wire(self) {
        lemma_auto_spec_u32_to_from_le_bytes();
        lemma_auto_spec_u64_to_from_le_bytes();
        let wire = self.to_wire();
        assert(wire.subrange(0, 8) =~= spec_u64_to_le_bytes(self.fh));
        assert(wire.subrange(8, 16) =~= spec_u64_to_le_bytes(self.offset));
        assert(wire.subrange(16, 20) =~= spec_u32_to_le_bytes(self.size));
        assert(wire.subrange(20, 24) =~= spec_u32_to_le_bytes(self.write_flags));
        assert(wire.subrange(24, 32) =~= spec_u64_to_le_bytes(self.lock_owner));
        assert(wire.subrange(32, 36) =~= spec_u32_to_le_bytes(self.flags));
        assert(wire.subrange(36, 40) =~= spec_u32_to_le_bytes(self.padding));
    }

    proof fn lemma_wire_len() {
    }

    proof fn lemma_view(self) {
    }

    proof fn lemma_unwire(bytes: Seq<u8>) {
        lemma_auto_spec_u32_to_from_le_bytes();
        lemma_auto_spec_u64_to_from_le_bytes();
        assert(Self::from_wire(bytes).to_wire() =~= bytes);
    }
}

/// Body of a release request.
#[derive(Clone, Copy, Debug, PartialEq, Eq, Structural)]
pub struct ReleaseIn {
    pub fh: u64,
    pub flags: u32,
    pub release_flags: u32,
    pub lock_owner: u64,
}

impl View for ReleaseIn {
    type V = ReleaseIn;

    open spec fn view(&self) -> ReleaseIn {
        *self
    }
}

impl Pod for ReleaseIn {
    open spec fn wire_len() -> nat {
        24
    }

    open spec fn to_wire(self) -> Seq<u8> {
        spec_u64_to_le_bytes(self.fh)
            + spec_u32_to_le_bytes(self.flags)
            + spec_u32_to_le_bytes(self.release_flags)
            + spec_u64_to_le_bytes(self.lock_owner)
    }

    open spec fn from_wire(bytes: Seq<u8>) -> Self {
        ReleaseIn {
            fh: spec_u64_from_le_bytes(bytes.subrange(0, 8)),
            flags: spec_u32_from_le_bytes(bytes.subrange(8, 12)),
            release_flags: spec_u32_from_le_bytes(bytes.subrange(12, 16)),
            lock_owner: spec_u64_from_le_bytes(bytes.subrange(16, 24)),
        }
    }

    fn size() -> (n: usize) {
        24
    }

    fn decode(bytes: &[u8]) -> (record: Self) {
        ReleaseIn {
            fh: u64_from_le_bytes(slice_subrange(bytes, 0, 8)),
            flags: u32_from_le_bytes(slice_subrange(bytes, 8, 12)),
            release_flags: u32_from_le_bytes(slice_subrange(bytes, 12, 16)),
            lock_owner: u64_from_le_bytes(slice_subrange(bytes, 16, 24)),
        }
    }

    fn encode(&self, out: &mut Vec<u8>) {
        put_u64(out, self.fh);
        put_u32(out, self.flags);
        put_u32(out, self.release_flags);
        put_u64(out, self.lock_owner);
        assert(out@ =~= old(out)@ + self.to_wire());
    }

    proof fn lemma_wire(self) {
        lemma_auto_spec_u32_to_from_le_bytes();
        lemma_auto_spec_u64_to_from_le_bytes();
        let wire = self.to_wire();
        assert(wire.subrange(0, 8) =~= spec_u64_to_le_bytes(self.fh));
        assert(wire.subrange(8, 12) =~= spec_u32_to_le_bytes(self.flags));
        assert(wire.subrange(12, 16) =~= spec_u32_to_le_bytes(self.release_flags));
        assert(wire.subrange(16, 24) =~= spec_u64_to_le_bytes(self.lock_owner));
    }

    proof fn lemma_wire_len() {
    }

    proof fn lemma_view(self) {
    }

    proof fn lemma_unwire(bytes: Seq<u8>) {
        lemma_auto_spec_u32_to_from_le_bytes();
        lemma_auto_spec_u64_to_from_le_bytes();
        assert(Self::from_wire(bytes).to_wire() =~= bytes);
    }
}

/// Body of an fsync request.
#[derive(Clone, Copy, Debug, PartialEq, Eq, Structural)]
pub struct FsyncIn {
    pub fh: u64,
    pub fsync_flags: u32,
    pub padding: u32,
}

impl View for FsyncIn {
    type V = FsyncIn;

    open spec fn view(&self) -> FsyncIn {
        *self
    }
}

impl Pod for FsyncIn {
    open spec fn wire_len() -> nat {
        16
    }

    open spec fn to_wire(self) -> Seq<u8> {
        spec_u64_to_le_bytes(self.fh)
            + spec_u32_to_le_bytes(self.fsync_flags)
            + spec_u32_to_le_bytes(self.padding)
    }

    open spec fn from_wire(bytes: Seq<u8>) -> Self {
        FsyncIn {
            fh: spec_u64_from_le_bytes(bytes.subrange(0, 8)),
            fsync_flags: spec_u32_from_le_bytes(bytes.subrange(8, 12)),
            padding: spec_u32_from_le_bytes(bytes.subrange(12, 16)),
        }
    }

    fn size() -> (n: usize) {
        16
    }

    fn decode(bytes: &[u8]) -> (record: Self) {
        FsyncIn {
            fh: u64_from_le_bytes(slice_subrange(bytes, 0, 8)),
            fsync_flags: u32_from_le_bytes(slice_subrange(bytes, 8, 12)),
            padding: u32_from_le_bytes(slice_subrange(bytes, 12, 16)),
        }
    }

    fn encode(&self, out: &mut Vec<u8>) {
        put_u64(out, self.fh);
        put_u32(out, self.fsync_flags);
        put_u32(out, self.padding);
        assert(out@ =~= old(out)@ + self.to_wire());
    }

    proof fn lemma_wire(self) {
        lemma_auto_spec_u32_to_from_le_bytes();
        lemma_auto_spec_u64_to_from_le_bytes();
        let wire = self.to_wire();
        assert(wire.subrange(0, 8) =~= spec_u64_to_le_bytes(self.fh));
        assert(wire.subrange(8, 12) =~= spec_u32_to_le_bytes(self.fsync_flags));
        assert(wire.subrange(12, 16) =~= spec_u32_to_le_bytes(self.padding));
    }

    proof fn lemma_wire_len() {
    }

    proof fn lemma_view(self) {
    }

    proof fn lemma_unwire(bytes: Seq<u8>) {
        lemma_auto_spec_u32_to_from_le_bytes();
        lemma_auto_spec_u64_to_from_le_bytes();
        assert(Self::from_wire(bytes).to_wire() =~= bytes);
    }
}

/// Fixed part of a setxattr request.
#[derive(Clone, Copy, Debug, PartialEq, Eq, Structural)]
pub struct SetxattrIn {
    pub size: u32,
    pub flags: u32,
}

impl View for SetxattrIn {
    type V = SetxattrIn;

    open spec fn view(&self) -> SetxattrIn {
        *self
    }
}

impl Pod for SetxattrIn {
    open spec fn wire_len() -> nat {
        8
    }

    open spec fn to_wire(self) -> Seq<u8> {
        spec_u32_to_le_bytes(self.size)
            + spec_u32_to_le_bytes(self.flags)
    }

    open spec fn from_wire(bytes: Seq<u8>) -> Self {
        SetxattrIn {
            size: spec_u32_from_le_bytes(bytes.subrange(0, 4)),
            flags: spec_u32_from_le_bytes(bytes.subrange(4, 8)),
        }
    }

    fn size() -> (n: usize) {
        8
    }

    fn decode(bytes: &[u8]) -> (record: Self) {
        SetxattrIn {
            size: u32_from_le_bytes(slice_subrange(bytes, 0, 4)),
            flags: u32_from_le_bytes(slice_subrange(bytes, 4, 8)),
        }
    }

    fn encode(&self, out: &mut Vec<u8>) {
        put_u32(out, self.size);
        put_u32(out, self.flags);
        assert(out@ =~= old(out)@ + self.to_wire());
    }

    proof fn lemma_wire(self) {
        lemma_auto_spec_u32_to_from_le_bytes();
        let wire = self.to_wire();
        assert(wire.subrange(0, 4) =~= spec_u32_to_le_bytes(self.size));
        assert(wire.subrange(4, 8) =~= spec_u32_to_le_bytes(self.flags));
    }

    proof fn lemma_wire_len() {
    }

    proof fn lemma_view(self) {
    }

    proof fn lemma_unwire(bytes: Seq<u8>) {
        lemma_auto_spec_u32_to_from_le_bytes();
        assert(Self::from_wire(bytes).to_wire() =~= bytes);
    }
}

/// Fixed part of a getxattr request.
#[derive(Clone, Copy, Debug, PartialEq, Eq, Structural)]
pub struct GetxattrIn {
    pub size: u32,
    pub padding: u32,
}

impl View for GetxattrIn {
    type V = GetxattrIn;

    open spec fn view(&self) -> GetxattrIn {
        *self
    }
}

impl Pod for GetxattrIn {
    open spec fn wire_len() -> nat {
        8
    }

    open spec fn to_wire(self) -> Seq<u8> {
        spec_u32_to_le_bytes(self.size)
            + spec_u32_to_le_bytes(self.padding)
    }

    open spec fn from_wire(bytes: Seq<u8>) -> Self {
        GetxattrIn {
            size: spec_u32_from_le_bytes(bytes.subrange(0, 4)),
            padding: spec_u32_from_le_bytes(bytes.subrange(4, 8)),
        }
    }

    fn size() -> (n: usize) {
        8
    }

    fn decode(bytes: &[u8]) -> (record: Self) {
        GetxattrIn {
            size: u32_from_le_bytes(slice_subrange(bytes, 0, 4)),
            padding: u32_from_le_bytes(slice_subrange(bytes, 4, 8)),
        }
    }

    fn encode(&self, out: &mut Vec<u8>) {
        put_u32(out, self.size);
        put_u32(out, self.padding);
        assert(out@ =~= old(out)@ + self.to_wire());
    }

    proof fn lemma_wire(self) {
        lemma_auto_spec_u32_to_from_le_bytes();
        let wire = self.to_wire();
        assert(wire.subrange(0, 4) =~= spec_u32_to_le_bytes(self.size));
        assert(wire.subrange(4, 8) =~= spec_u32_to_le_bytes(self.padding));
    }

    proof fn lemma_wire_len() {
    }

    proof fn lemma_view(self) {
    }

    proof fn lemma_unwire(bytes: Seq<u8>) {
        lemma_auto_spec_u32_to_from_le_bytes();
        assert(Self::from_wire(bytes).to_wire() =~= bytes);
    }
}

/// Body of a listxattr request.
#[derive(Clone, Copy, Debug, PartialEq, Eq, Structural)]
pub struct ListxattrIn {
    pub getxattr_in: GetxattrIn,
}

impl View for ListxattrIn {
    type V = ListxattrIn;

    open spec fn view(&self) -> ListxattrIn {
        *self
    }
}

impl Pod for ListxattrIn {
    open spec fn wire_len() -> nat {
        8
    }

    open spec fn to_wire(self) -> Seq<u8> {
        self.getxattr_in.to_wire()
    }

    open spec fn from_wire(bytes: Seq<u8>) -> Self {
        ListxattrIn {
            getxattr_in: GetxattrIn::from_wire(bytes.subrange(0, 8)),
        }
    }

    fn size() -> (n: usize) {
        8
    }

    fn decode(bytes: &[u8]) -> (record: Self) {
        ListxattrIn {
            getxattr_in: GetxattrIn::decode(slice_subrange(bytes, 0, 8)),
        }
    }

    fn encode(&self, out: &mut Vec<u8>) {
        self.getxattr_in.encode(out);
        assert(out@ =~= old(out)@ + self.to_wire());
    }

    proof fn lemma_wire(self) {
        self.getxattr_in.lemma_wire();
        let wire = self.to_wire();
        assert(wire.subrange(0, 8) =~= self.getxattr_in.to_wire());
    }

    proof fn lemma_wire_len() {
    }

    proof fn lemma_view(self) {
    }

    proof fn lemma_unwire(bytes: Seq<u8>) {
        GetxattrIn::lemma_unwire(bytes.subrange(0, 8));
        assert(Self::from_wire(bytes).to_wire() =~= bytes);
    }
}

/// Body of a flush request.
#[derive(Clone, Copy, Debug, PartialEq, Eq, Structural)]
pub struct FlushIn {
    pub fh: u64,
    pub unused: u32,
    pub padding: u32,
    pub lock_owner: u64,
}

impl View for FlushIn {
    type V = FlushIn;

    open spec fn view(&self) -> FlushIn {
        *self
    }
}

impl Pod for FlushIn {
    open spec fn wire_len() -> nat {
        24
    }

    open spec fn to_wire(self) -> Seq<u8> {
        spec_u64_to_le_bytes(self.fh)
            + spec_u32_to_le_bytes(self.unused)
            + spec_u32_to_le_bytes(self.padding)
            + spec_u64_to_le_bytes(self.lock_owner)
    }

    open spec fn from_wire(bytes: Seq<u8>) -> Self {
        FlushIn {
            fh: spec_u64_from_le_bytes(bytes.subrange(0, 8)),
            unused: spec_u32_from_le_bytes(bytes.subrange(8, 12)),
            padding: spec_u32_from_le_bytes(bytes.subrange(12, 16)),
            lock_owner: spec_u64_from_le_bytes(bytes.subrange(16, 24)),
        }
    }

    fn size() -> (n: usize) {
        24
    }

    fn decode(bytes: &[u8]) -> (record: Self) {
        FlushIn {
            fh: u64_from_le_bytes(slice_subrange(bytes, 0, 8)),
            unused: u32_from_le_bytes(slice_subrange(bytes, 8, 12)),
            padding: u32_from_le_bytes(slice_subrange(bytes, 12, 16)),
            lock_owner: u64_from_le_bytes(slice_subrange(bytes, 16, 24)),
        }
    }

    fn encode(&self, out: &mut Vec<u8>) {
        put_u64(out, self.fh);
        put_u32(out, self.unused);
        put_u32(out, self.padding);
        put_u64(out, self.lock_owner);
        assert(out@ =~= old(out)@ + self.to_wire());
    }

    proof fn lemma_wire(self) {
        lemma_auto_spec_u32_to_from_le_bytes();
        lemma_auto_spec_u64_to_from_le_bytes();
        let wire = self.to_wire();
        assert(wire.subrange(0, 8) =~= spec_u64_to_le_bytes(self.fh));
        assert(wire.subrange(8, 12) =~= spec_u32_to_le_bytes(self.unused));
        assert(wire.subrange(12, 16) =~= spec_u32_to_le_bytes(self.padding));
        assert(wire.subrange(16, 24) =~= spec_u64_to_le_bytes(self.lock_owner));
    }

    proof fn lemma_wire_len() {
    }

    proof fn lemma_view(self) {
    }

    proof fn lemma_unwire(bytes: Seq<u8>) {
        lemma_auto_spec_u32_to_from_le_bytes();
        lemma_auto_spec_u64_to_from_le_bytes();
        assert(Self::from_wire(bytes).to_wire() =~= bytes);
    }
}

/// Body of the handshake request.
#[derive(Clone, Copy, Debug, PartialEq, Eq, Structural)]
pub struct InitIn {
    pub major: u32,
    pub minor: u32,
    pub max_readahead: u32,
    pub flags: u32,
}

impl View for InitIn {
    type V = InitIn;

    open spec fn view(&self) -> InitIn {
        *self
    }
}

impl Pod for InitIn {
    open spec fn wire_len() -> nat {
        16
    }

    open spec fn to_wire(self) -> Seq<u8> {
        spec_u32_to_le_bytes(self.major)
            + spec_u32_to_le_bytes(self.minor)
            + spec_u32_to_le_bytes(self.max_readahead)
            + spec_u32_to_le_bytes(self.flags)
    }

    open spec fn from_wire(bytes: Seq<u8>) -> Self {
        InitIn {
            major: spec_u32_from_le_bytes(bytes.subrange(0, 4)),
            minor: spec_u32_from_le_bytes(bytes.subrange(4, 8)),
            max_readahead: spec_u32_from_le_bytes(bytes.subrange(8, 12)),
            flags: spec_u32_from_le_bytes(bytes.subrange(12, 16)),
        }
    }

    fn size() -> (n: usize) {
        16
    }

    fn decode(bytes: &[u8]) -> (record: Self) {
        InitIn {
            major: u32_from_le_bytes(slice_subrange(bytes, 0, 4)),
            minor: u32_from_le_bytes(slice_subrange(bytes, 4, 8)),
            max_readahead: u32_from_le_bytes(slice_subrange(bytes, 8, 12)),
            flags: u32_from_le_bytes(slice_subrange(bytes, 12, 16)),
        }
    }

    fn encode(&self, out: &mut Vec<u8>) {
        put_u32(out, self.major);
        put_u32(out, self.minor);
        put_u32(out, self.max_readahead);
        put_u32(out, self.flags);
        assert(out@ =~= old(out)@ + self.to_wire());
    }

    proof fn lemma_wire(self) {
        lemma_auto_spec_u32_to_from_le_bytes();
        let wire = self.to_wire();
        assert(wire.subrange(0, 4) =~= spec_u32_to_le_bytes(self.major));
        assert(wire.subrange(4, 8) =~= spec_u32_to_le_bytes(self.minor));
        assert(wire.subrange(8, 12) =~= spec_u32_to_le_bytes(self.max_readahead));
        assert(wire.subrange(12, 16) =~= spec_u32_to_le_bytes(self.flags));
    }

    proof fn lemma_wire_len() {
    }

    proof fn lemma_view(self) {
    }

    proof fn lemma_unwire(bytes: Seq<u8>) {
        lemma_auto_spec_u32_to_from_le_bytes();
        assert(Self::from_wire(bytes).to_wire() =~= bytes);
    }
}

/// Body of an opendir request.
#[derive(Clone, Copy, Debug, PartialEq, Eq, Structural)]
pub struct OpendirIn {
    pub open_in: OpenIn,
}

impl View for OpendirIn {
    type V = OpendirIn;

    open spec fn view(&self) -> OpendirIn {
        *self
    }
}

impl Pod for OpendirIn {
    open spec fn wire_len() -> nat {
        8
    }

    open spec fn to_wire(self) -> Seq<u8> {
        self.open_in.to_wire()
    }

    open spec fn from_wire(bytes: Seq<u8>) -> Self {
        OpendirIn {
            open_in: OpenIn::from_wire(bytes.subrange(0, 8)),
        }
    }

    fn size() -> (n: usize) {
        8
    }

    fn decode(bytes: &[u8]) -> (record: Self) {
        OpendirIn {
            open_in: OpenIn::decode(slice_subrange(bytes, 0, 8)),
        }
    }

    fn encode(&self, out: &mut Vec<u8>) {
        self.open_in.encode(out);
        assert(out@ =~= old(out)@ + self.to_wire());
    }

    proof fn lemma_wire(self) {
        self.open_in.lemma_wire();
        let wire = self.to_wire();
        assert(wire.subrange(0, 8) =~= self.open_in.to_wire());
    }

    proof fn lemma_wire_len() {
    }

    proof fn lemma_view(self) {
    }

    proof fn lemma_unwire(bytes: Seq<u8>) {
        OpenIn::lemma_unwire(bytes.subrange(0, 8));
        assert(Self::from_wire(bytes).to_wire() =~= bytes);
    }
}

/// Body of a readdir request.
#[derive(Clone, Copy, Debug, PartialEq, Eq, Structural)]
pub struct ReaddirIn {
    pub read_in: ReadIn,
}

impl View for ReaddirIn {
    type V = ReaddirIn;

    open spec fn view(&self) -> ReaddirIn {
        *self
    }
}

impl Pod for ReaddirIn {
    open spec fn wire_len() -> nat {
        40
    }

    open spec fn to_wire(self) -> Seq<u8> {
        self.read_in.to_wire()
    }

    open spec fn from_wire(bytes: Seq<u8>) -> Self {
        ReaddirIn {
            read_in: ReadIn::from_wire(bytes.subrange(0, 40)),
        }
    }

    fn size() -> (n: usize) {
        40
    }

    fn decode(bytes: &[u8]) -> (record: Self) {
        ReaddirIn {
            read_in: ReadIn::decode(slice_subrange(bytes, 0, 40)),
        }
    }

    fn encode(&self, out: &mut Vec<u8>) {
        self.read_in.encode(out);
        assert(out@ =~= old(out)@ + self.to_wire());
    }

    proof fn lemma_wire(self) {
        self.read_in.lemma_wire();
        let wire = self.to_wire();
        assert(wire.subrange(0, 40) =~= self.read_in.to_wire());
    }

    proof fn lemma_wire_len() {
    }

    proof fn lemma_view(self) {
    }

    proof fn lemma_unwire(bytes: Seq<u8>) {
        ReadIn::lemma_unwire(bytes.subrange(0, 40));
        assert(Self::from_wire(bytes).to_wire() =~= bytes);
    }
}

/// Body of a releasedir request.
#[derive(Clone, Copy, Debug, PartialEq, Eq, Structural)]
pub struct ReleasedirIn {
    pub release_in: ReleaseIn,
}

impl View for ReleasedirIn {
    type V = ReleasedirIn;

    open spec fn view(&self) -> ReleasedirIn {
        *self
    }
}

impl Pod for ReleasedirIn {
    open spec fn wire_len() -> nat {
        24
    }

    open spec fn to_wire(self) -> Seq<u8> {
        self.release_in.to_wire()
    }

    open spec fn from_wire(bytes: Seq<u8>) -> Self {
        ReleasedirIn {
            release_in: ReleaseIn::from_wire(bytes.subrange(0, 24)),
        }
    }

    fn size() -> (n: usize) {
        24
    }

    fn decode(bytes: &[u8]) -> (record: Self) {
        ReleasedirIn {
            release_in: ReleaseIn::decode(slice_subrange(bytes, 0, 24)),
        }
    }

    fn encode(&self, out: &mut Vec<u8>) {
        self.release_in.encode(out);
        assert(out@ =~= old(out)@ + self.to_wire());
    }

    proof fn lemma_wire(self) {
        self.release_in.lemma_wire();
        let wire = self.to_wire();
        assert(wire.subrange(0, 24) =~= self.release_in.to_wire());
    }

    proof fn lemma_wire_len() {
    }

    proof fn lemma_view(self) {
    }

    proof fn lemma_unwire(bytes: Seq<u8>) {
        ReleaseIn::lemma_unwire(bytes.subrange(0, 24));
        assert(Self::from_wire(bytes).to_wire() =~= bytes);
    }
}

/// Body of an fsyncdir request.
#[derive(Clone, Copy, Debug, PartialEq, Eq, Structural)]
pub struct FsyncdirIn {
    pub fsync_in: FsyncIn,
}

impl View for FsyncdirIn {
    type V = FsyncdirIn;

    open spec fn view(&self) -> FsyncdirIn {
        *self
    }
}

impl Pod for FsyncdirIn {
    open spec fn wire_len() -> nat {
        16
    }

    open spec fn to_wire(self) -> Seq<u8> {
        self.fsync_in.to_wire()
    }

    open spec fn from_wire(bytes: Seq<u8>) -> Self {
        FsyncdirIn {
            fsync_in: FsyncIn::from_wire(bytes.subrange(0, 16)),
        }
    }

    fn size() -> (n: usize) {
        16
    }

    fn decode(bytes: &[u8]) -> (record: Self) {
        FsyncdirIn {
            fsync_in: FsyncIn::decode(slice_subrange(bytes, 0, 16)),
        }
    }

    fn encode(&self, out: &mut Vec<u8>) {
        self.fsync_in.encode(out);
        assert(out@ =~= old(out)@ + self.to_wire());
    }

    proof fn lemma_wire(self) {
        self.fsync_in.lemma_wire();
        let wire = self.to_wire();
        assert(wire.subrange(0, 16) =~= self.fsync_in.to_wire());
    }

    proof fn lemma_wire_len() {
    }

    proof fn lemma_view(self) {
    }

    proof fn lemma_unwire(bytes: Seq<u8>) {
        FsyncIn::lemma_unwire(bytes.subrange(0, 16));
        assert(Self::from_wire(bytes).to_wire() =~= bytes);
    }
}

/// Body shared by the three lock requests.
#[derive(Clone, Copy, Debug, PartialEq, Eq, Structural)]
pub struct LkIn {
    pub fh: u64,
    pub owner: u64,
    pub lock: FileLock,
    pub lock_flags: u32,
    pub padding: u32,
}

impl View for LkIn {
    type V = LkIn;

    open spec fn view(&self) -> LkIn {
        *self
    }
}

impl Pod for LkIn {
    open spec fn wire_len() -> nat {
        48
    }

    open spec fn to_wire(self) -> Seq<u8> {
        spec_u64_to_le_bytes(self.fh)
            + spec_u64_to_le_bytes(self.owner)
            + self.lock.to_wire()
            + spec_u32_to_le_bytes(self.lock_flags)
            + spec_u32_to_le_bytes(self.padding)
    }

    open spec fn from_wire(bytes: Seq<u8>) -> Self {
        LkIn {
            fh: spec_u64_from_le_bytes(bytes.subrange(0, 8)),
            owner: spec_u64_from_le_bytes(bytes.subrange(8, 16)),
            lock: FileLock::from_wire(bytes.subrange(16, 40)),
            lock_flags: spec_u32_from_le_bytes(bytes.subrange(40, 44)),
            padding: spec_u32_from_le_bytes(bytes.subrange(44, 48)),
        }
    }

    fn size() -> (n: usize) {
        48
    }

    fn decode(bytes: &[u8]) -> (record: Self) {
        LkIn {
            fh: u64_from_le_bytes(slice_subrange(bytes, 0, 8)),
            owner: u64_from_le_bytes(slice_subrange(bytes, 8, 16)),
            lock: FileLock::decode(slice_subrange(bytes, 16, 40)),
            lock_flags: u32_from_le_bytes(slice_subrange(bytes, 40, 44)),
            padding: u32_from_le_bytes(slice_subrange(bytes, 44, 48)),
        }
    }

    fn encode(&self, out: &mut Vec<u8>) {
        put_u64(out, self.fh);
        put_u64(out, self.owner);
        self.lock.encode(out);
        put_u32(out, self.lock_flags);
        put_u32(out, self.padding);
        assert(out@ =~= old(out)@ + self.to_wire());
    }

    proof fn lemma_wire(self) {
        lemma_auto_spec_u32_to_from_le_bytes();
        lemma_auto_spec_u64_to_from_le_bytes();
        self.lock.lemma_wire();
        let wire = self.to_wire();
        assert(wire.subrange(0, 8) =~= spec_u64_to_le_bytes(self.fh));
        assert(wire.subrange(8, 16) =~= spec_u64_to_le_bytes(self.owner));
        assert(wire.subrange(16, 40) =~= self.lock.to_wire());
        assert(wire.subrange(40, 44) =~= spec_u32_to_le_bytes(self.lock_flags));
        assert(wire.subrange(44, 48) =~= spec_u32_to_le_bytes(self.padding));
    }

    proof fn lemma_wire_len() {
    }

    proof fn lemma_view(self) {
    }

    proof fn lemma_unwire(bytes: Seq<u8>) {
        lemma_auto_spec_u32_to_from_le_bytes();
        lemma_auto_spec_u64_to_from_le_bytes();
        FileLock::lemma_unwire(bytes.subrange(16, 40));
        assert(Self::from_wire(bytes).to_wire() =~= bytes);
    }
}

/// Body of a getlk request.
#[derive(Clone, Copy, Debug, PartialEq, Eq, Structural)]
pub struct GetlkIn {
    pub lk_in: LkIn,
}

impl View for GetlkIn {
    type V = GetlkIn;

    open spec fn view(&self) -> GetlkIn {
        *self
    }
}

impl Pod for GetlkIn {
    open spec fn wire_len() -> nat {
        48
    }

    open spec fn to_wire(self) -> Seq<u8> {
        self.lk_in.to_wire()
    }

    open spec fn from_wire(bytes: Seq<u8>) -> Self {
        GetlkIn {
            lk_in: LkIn::from_wire(bytes.subrange(0, 48)),
        }
    }

    fn size() -> (n: usize) {
        48
    }

    fn decode(bytes: &[u8]) -> (record: Self) {
        GetlkIn {
            lk_in: LkIn::decode(slice_subrange(bytes, 0, 48)),
        }
    }

    fn encode(&self, out: &mut Vec<u8>) {
        self.lk_in.encode(out);
        assert(out@ =~= old(out)@ + self.to_wire());
    }

    proof fn lemma_wire(self) {
        self.lk_in.lemma_wire();
        let wire = self.to_wire();
        assert(wire.subrange(0, 48) =~= self.lk_in.to_wire());
    }

    proof fn lemma_wire_len() {
    }

    proof fn lemma_view(self) {
    }

    proof fn lemma_unwire(bytes: Seq<u8>) {
        LkIn::lemma_unwire(bytes.subrange(0, 48));
        assert(Self::from_wire(bytes).to_wire() =~= bytes);
    }
}

/// Body of a setlk request.
#[derive(Clone, Copy, Debug, PartialEq, Eq, Structural)]
pub struct SetlkIn {
    pub lk_in: LkIn,
}

impl View for SetlkIn {
    type V = SetlkIn;

    open spec fn view(&self) -> SetlkIn {
        *self
    }
}

impl Pod for SetlkIn {
    open spec fn wire_len() -> nat {
        48
    }

    open spec fn to_wire(self) -> Seq<u8> {
        self.lk_in.to_wire()
    }

    open spec fn from_wire(bytes: Seq<u8>) -> Self {
        SetlkIn {
            lk_in: LkIn::from_wire(bytes.subrange(0, 48)),
        }
    }

    fn size() -> (n: usize) {
        48
    }

    fn decode(bytes: &[u8]) -> (record: Self) {
        SetlkIn {
            lk_in: LkIn::decode(slice_subrange(bytes, 0, 48)),
        }
    }

    fn encode(&self, out: &mut Vec<u8>) {
        self.lk_in.encode(out);
        assert(out@ =~= old(out)@ + self.to_wire());
    }

    proof fn lemma_wire(self) {
        self.lk_in.lemma_wire();
        let wire = self.to_wire();
        assert(wire.subrange(0, 48) =~= self.lk_in.to_wire());
    }

    proof fn lemma_wire_len() {
    }

    proof fn lemma_view(self) {
    }

    proof fn lemma_unwire(bytes: Seq<u8>) {
        LkIn::lemma_unwire(bytes.subrange(0, 48));
        assert(Self::from_wire(bytes).to_wire() =~= bytes);
    }
}

/// Body of a setlkw request.
#[derive(Clone, Copy, Debug, PartialEq, Eq, Structural)]
pub struct SetlkwIn {
    pub lk_in: LkIn,
}

impl View for SetlkwIn {
    type V = SetlkwIn;

    open spec fn view(&self) -> SetlkwIn {
        *self
    }
}

impl Pod for SetlkwIn {
    open spec fn wire_len() -> nat {
        48
    }

    open spec fn to_wire(self) -> Seq<u8> {
        self.lk_in.to_wire()
    }

    open spec fn from_wire(bytes: Seq<u8>) -> Self {
        SetlkwIn {
            lk_in: LkIn::from_wire(bytes.subrange(0, 48)),
        }
    }

    fn size() -> (n: usize) {
        48
    }

    fn decode(bytes: &[u8]) -> (record: Self) {
        SetlkwIn {
            lk_in: LkIn::decode(slice_subrange(bytes, 0, 48)),
        }
    }

    fn encode(&self, out: &mut Vec<u8>) {
        self.lk_in.encode(out);
        assert(out@ =~= old(out)@ + self.to_wire());
    }

    proof fn lemma_wire(self) {
        self.lk_in.lemma_wire();
        let wire = self.to_wire();
        assert(wire.subrange(0, 48) =~= self.lk_in.to_wire());
    }

    proof fn lemma_wire_len() {
    }

    proof fn lemma_view(self) {
    }

    proof fn lemma_unwire(bytes: Seq<u8>) {
        LkIn::lemma_unwire(bytes.subrange(0, 48));
        assert(Self::from_wire(bytes).to_wire() =~= bytes);
    }
}

/// Body of an access request.
#[derive(Clone, Copy, Debug, PartialEq, Eq, Structural)]
pub struct AccessIn {
    pub mask: u32,
    pub padding: u32,
}

impl View for AccessIn {
    type V = AccessIn;

    open spec fn view(&self) -> AccessIn {
        *self
    }
}

impl Pod for AccessIn {
    open spec fn wire_len() -> nat {
        8
    }

    open spec fn to_wire(self) -> Seq<u8> {
        spec_u32_to_le_bytes(self.mask)
            + spec_u32_to_le_bytes(self.padding)
    }

    open spec fn from_wire(bytes: Seq<u8>) -> Self {
        AccessIn {
            mask: spec_u32_from_le_bytes(bytes.subrange(0, 4)),
            padding: spec_u32_from_le_bytes(bytes.subrange(4, 8)),
        }
    }

    fn size() -> (n: usize) {
        8
    }

    fn decode(bytes: &[u8]) -> (record: Self) {
        AccessIn {
            mask: u32_from_le_bytes(slice_subrange(bytes, 0, 4)),
            padding: u32_from_le_bytes(slice_subrange(bytes, 4, 8)),
        }
    }

    fn encode(&self, out: &mut Vec<u8>) {
        put_u32(out, self.mask);
        put_u32(out, self.padding);
        assert(out@ =~= old(out)@ + self.to_wire());
    }

    proof fn lemma_wire(self) {
        lemma_auto_spec_u32_to_from_le_bytes();
        let wire = self.to_wire();
        assert(wire.subrange(0, 4) =~= spec_u32_to_le_bytes(self.mask));
        assert(wire.subrange(4, 8) =~= spec_u32_to_le_bytes(self.padding));
    }

    proof fn lemma_wire_len() {
    }

    proof fn lemma_view(self) {
    }

    proof fn lemma_unwire(bytes: Seq<u8>) {
        lemma_auto_spec_u32_to_from_le_bytes();
        assert(Self::from_wire(bytes).to_wire() =~= bytes);
    }
}

/// Fixed part of a create request.
#[derive(Clone, Copy, Debug, PartialEq, Eq, Structural)]
pub struct CreateIn {
    pub flags: u32,
    pub mode: u32,
    pub umask: u32,
    pub padding: u32,
}

impl View for CreateIn {
    type V = CreateIn;

    open spec fn view(&self) -> CreateIn {
        *self
    }
}

impl Pod for CreateIn {
    open spec fn wire_len() -> nat {
        16
    }

    open spec fn to_wire(self) -> Seq<u8> {
        spec_u32_to_le_bytes(self.flags)
            + spec_u32_to_le_bytes(self.mode)
            + spec_u32_to_le_bytes(self.umask)
            + spec_u32_to_le_bytes(self.padding)
    }

    open spec fn from_wire(bytes: Seq<u8>) -> Self {
        CreateIn {
            flags: spec_u32_from_le_bytes(bytes.subrange(0, 4)),
            mode: spec_u32_from_le_bytes(bytes.subrange(4, 8)),
            umask: spec_u32_from_le_bytes(bytes.subrange(8, 12)),
            padding: spec_u32_from_le_bytes(bytes.subrange(12, 16)),
        }
    }

    fn size() -> (n: usize) {
        16
    }

    fn decode(bytes: &[u8]) -> (record: Self) {
        CreateIn {
            flags: u32_from_le_bytes(slice_subrange(bytes, 0, 4)),
            mode: u32_from_le_bytes(slice_subrange(bytes, 4, 8)),
            umask: u32_from_le_bytes(slice_subrange(bytes, 8, 12)),
            padding: u32_from_le_bytes(slice_subrange(bytes, 12, 16)),
        }
    }

    fn encode(&self, out: &mut Vec<u8>) {
        put_u32(out, self.flags);
        put_u32(out, self.mode);
        put_u32(out, self.umask);
        put_u32(out, self.padding);
        assert(out@ =~= old(out)@ + self.to_wire());
    }

    proof fn lemma_wire(self) {
        lemma_auto_spec_u32_to_from_le_bytes();
        let wire = self.to_wire();
        assert(wire.subrange(0, 4) =~= spec_u32_to_le_bytes(self.flags));
        assert(wire.subrange(4, 8) =~= spec_u32_to_le_bytes(self.mode));
        assert(wire.subrange(8, 12) =~= spec_u32_to_le_bytes(self.umask));
        assert(wire.subrange(12, 16) =~= spec_u32_to_le_bytes(self.padding));
    }

    proof fn lemma_wire_len() {
    }

    proof fn lemma_view(self) {
    }

    proof fn lemma_unwire(bytes: Seq<u8>) {
        lemma_auto_spec_u32_to_from_le_bytes();
        assert(Self::from_wire(bytes).to_wire() =~= bytes);
    }
}

/// Body of an interrupt request.
#[derive(Clone, Copy, Debug, PartialEq, Eq, Structural)]
pub struct InterruptIn {
    pub unique: u64,
}

impl View for InterruptIn {
    type V = InterruptIn;

    open spec fn view(&self) -> InterruptIn {
        *self
    }
}

impl Pod for InterruptIn {
    open spec fn wire_len() -> nat {
        8
    }

    open spec fn to_wire(self) -> Seq<u8> {
        spec_u64_to_le_bytes(self.unique)
    }

    open spec fn from_wire(bytes: Seq<u8>) -> Self {
        InterruptIn {
            unique: spec_u64_from_le_bytes(bytes.subrange(0, 8)),
        }
    }

    fn size() -> (n: usize) {
        8
    }

    fn decode(bytes: &[u8]) -> (record: Self) {
        InterruptIn {
            unique: u64_from_le_bytes(slice_subrange(bytes, 0, 8)),
        }
    }

    fn encode(&self, out: &mut Vec<u8>) {
        put_u64(out, self.unique);
        assert(out@ =~= old(out)@ + self.to_wire());
    }

    proof fn lemma_wire(self) {
        lemma_auto_spec_u64_to_from_le_bytes();
        let wire = self.to_wire();
        assert(wire.subrange(0, 8) =~= spec_u64_to_le_bytes(self.unique));
    }

    proof fn lemma_wire_len() {
    }

    proof fn lemma_view(self) {
    }

    proof fn lemma_unwire(bytes: Seq<u8>) {
        lemma_auto_spec_u64_to_from_le_bytes();
        assert(Self::from_wire(bytes).to_wire() =~= bytes);
    }
}

/// Body of a block-map request.
#[derive(Clone, Copy, Debug, PartialEq, Eq, Structural)]
pub struct BmapIn {
    pub block: u64,
    pub block_size: u32,
    pub padding: u32,
}

impl View for BmapIn {
    type V = BmapIn;

    open spec fn view(&self) -> BmapIn {
        *self
    }
}

impl Pod for BmapIn {
    open spec fn wire_len() -> nat {
        16
    }

    open spec fn to_wire(self) -> Seq<u8> {
        spec_u64_to_le_bytes(self.block)
            + spec_u32_to_le_bytes(self.block_size)
            + spec_u32_to_le_bytes(self.padding)
    }

    open spec fn from_wire(bytes: Seq<u8>) -> Self {
        BmapIn {
            block: spec_u64_from_le_bytes(bytes.subrange(0, 8)),
            block_size: spec_u32_from_le_bytes(bytes.subrange(8, 12)),
            padding: spec_u32_from_le_bytes(bytes.subrange(12, 16)),
        }
    }

    fn size() -> (n: usize) {
        16
    }

    fn decode(bytes: &[u8]) -> (record: Self) {
        BmapIn {
            block: u64_from_le_bytes(slice_subrange(bytes, 0, 8)),
            block_size: u32_from_le_bytes(slice_subrange(bytes, 8, 12)),
            padding: u32_from_le_bytes(slice_subrange(bytes, 12, 16)),
        }
    }

    fn encode(&self, out: &mut Vec<u8>) {
        put_u64(out, self.block);
        put_u32(out, self.block_size);
        put_u32(out, self.padding);
        assert(out@ =~= old(out)@ + self.to_wire());
    }

    proof fn lemma_wire(self) {
        lemma_auto_spec_u32_to_from_le_bytes();
        lemma_auto_spec_u64_to_from_le_bytes();
        let wire = self.to_wire();
        assert(wire.subrange(0, 8) =~= spec_u64_to_le_bytes(self.block));
        assert(wire.subrange(8, 12) =~= spec_u32_to_le_bytes(self.block_size));
        assert(wire.subrange(12, 16) =~= spec_u32_to_le_bytes(self.padding));
    }

    proof fn lemma_wire_len() {
    }

    proof fn lemma_view(self) {
    }

    proof fn lemma_unwire(bytes: Seq<u8>) {
        lemma_auto_spec_u32_to_from_le_bytes();
        lemma_auto_spec_u64_to_from_le_bytes();
        assert(Self::from_wire(bytes).to_wire() =~= bytes);
    }
}

/// Fixed part of an ioctl request.
#[derive(Clone, Copy, Debug, PartialEq, Eq, Structural)]
pub struct IoctlIn {
    pub fh: u64,
    pub flags: u32,
    pub cmd: u32,
    pub arg: u64,
    pub in_size: u32,
    pub out_size: u32,
}

impl View for IoctlIn {
    type V = IoctlIn;

    open spec fn view(&self) -> IoctlIn {
        *self
    }
}

impl Pod for IoctlIn {
    open spec fn wire_len() -> nat {
        32
    }

    open spec fn to_wire(self) -> Seq<u8> {
        spec_u64_to_le_bytes(self.fh)
            + spec_u32_to_le_bytes(self.flags)
            + spec_u32_to_le_bytes(self.cmd)
            + spec_u64_to_le_bytes(self.arg)
            + spec_u32_to_le_bytes(self.in_size)
            + spec_u32_to_le_bytes(self.out_size)
    }

    open spec fn from_wire(bytes: Seq<u8>) -> Self {
        IoctlIn {
            fh: spec_u64_from_le_bytes(bytes.subrange(0, 8)),
            flags: spec_u32_from_le_bytes(bytes.subrange(8, 12)),
            cmd: spec_u32_from_le_bytes(bytes.subrange(12, 16)),
            arg: spec_u64_from_le_bytes(bytes.subrange(16, 24)),
            in_size: spec_u32_from_le_bytes(bytes.subrange(24, 28)),
            out_size: spec_u32_from_le_bytes(bytes.subrange(28, 32)),
        }
    }

    fn size() -> (n: usize) {
        32
    }

    fn decode(bytes: &[u8]) -> (record: Self) {
        IoctlIn {
            fh: u64_from_le_bytes(slice_subrange(bytes, 0, 8)),
            flags: u32_from_le_bytes(slice_subrange(bytes, 8, 12)),
            cmd: u32_from_le_bytes(slice_subrange(bytes, 12, 16)),
            arg: u64_from_le_bytes(slice_subrange(bytes, 16, 24)),
            in_size: u32_from_le_bytes(slice_subrange(bytes, 24, 28)),
            out_size: u32_from_le_bytes(slice_subrange(bytes, 28, 32)),
        }
    }

    fn encode(&self, out: &mut Vec<u8>) {
        put_u64(out, self.fh);
        put_u32(out, self.flags);
        put_u32(out, self.cmd);
        put_u64(out, self.arg);
        put_u32(out, self.in_size);
        put_u32(out, self.out_size);
        assert(out@ =~= old(out)@ + self.to_wire());
    }

    proof fn lemma_wire(self) {
        lemma_auto_spec_u32_to_from_le_bytes();
        lemma_auto_spec_u64_to_from_le_bytes();
        let wire = self.to_wire();
        assert(wire.subrange(0, 8) =~= spec_u64_to_le_bytes(self.fh));
        assert(wire.subrange(8, 12) =~= spec_u32_to_le_bytes(self.flags));
        assert(wire.subrange(12, 16) =~= spec_u32_to_le_bytes(self.cmd));
        assert(wire.subrange(16, 24) =~= spec_u64_to_le_bytes(self.arg));
        assert(wire.subrange(24, 28) =~= spec_u32_to_le_bytes(self.in_size));
        assert(wire.subrange(28, 32) =~= spec_u32_to_le_bytes(self.out_size));
    }

    proof fn lemma_wire_len() {
    }

    proof fn lemma_view(self) {
    }

    proof fn lemma_unwire(bytes: Seq<u8>) {
        lemma_auto_spec_u32_to_from_le_bytes();
        lemma_auto_spec_u64_to_from_le_bytes();
        assert(Self::from_wire(bytes).to_wire() =~= bytes);
    }
}

/// Body of a poll request.
#[derive(Clone, Copy, Debug, PartialEq, Eq, Structural)]
pub struct PollIn {
    pub fh: u64,
    pub kh: u64,
    pub flags: u32,
    pub events: u32,
}

impl View for PollIn {
    type V = PollIn;

    open spec fn view(&self) -> PollIn {
        *self
    }
}

impl Pod for PollIn {
    open spec fn wire_len() -> nat {
        24
    }

    open spec fn to_wire(self) -> Seq<u8> {
        spec_u64_to_le_bytes(self.fh)
            + spec_u64_to_le_bytes(self.kh)
            + spec_u32_to_le_bytes(self.flags)
            + spec_u32_to_le_bytes(self.events)
    }

    open spec fn from_wire(bytes: Seq<u8>) -> Self {
        PollIn {
            fh: spec_u64_from_le_bytes(bytes.subrange(0, 8)),
            kh: spec_u64_from_le_bytes(bytes.subrange(8, 16)),
            flags: spec_u32_from_le_bytes(bytes.subrange(16, 20)),
            events: spec_u32_from_le_bytes(bytes.subrange(20, 24)),
        }
    }

    fn size() -> (n: usize) {
        24
    }

    fn decode(bytes: &[u8]) -> (record: Self) {
        PollIn {
            fh: u64_from_le_bytes(slice_subrange(bytes, 0, 8)),
            kh: u64_from_le_bytes(slice_subrange(bytes, 8, 16)),
            flags: u32_from_le_bytes(slice_subrange(bytes, 16, 20)),
            events: u32_from_le_bytes(slice_subrange(bytes, 20, 24)),
        }
    }

    fn encode(&self, out: &mut Vec<u8>) {
        put_u64(out, self.fh);
        put_u64(out, self.kh);
        put_u32(out, self.flags);
        put_u32(out, self.events);
        assert(out@ =~= old(out)@ + self.to_wire());
    }

    proof fn lemma_wire(self) {
        lemma_auto_spec_u32_to_from_le_bytes();
        lemma_auto_spec_u64_to_from_le_bytes();
        let wire = self.to_wire();
        assert(wire.subrange(0, 8) =~= spec_u64_to_le_bytes(self.fh));
        assert(wire.subrange(8, 16) =~= spec_u64_to_le_bytes(self.kh));
        assert(wire.subrange(16, 20) =~= spec_u32_to_le_bytes(self.flags));
        assert(wire.subrange(20, 24) =~= spec_u32_to_le_bytes(self.events));
    }

    proof fn lemma_wire_len() {
    }

    proof fn lemma_view(self) {
    }

    proof fn lemma_unwire(bytes: Seq<u8>) {
        lemma_auto_spec_u32_to_from_le_bytes();
        lemma_auto_spec_u64_to_from_le_bytes();
        assert(Self::from_wire(bytes).to_wire() =~= bytes);
    }
}

/// One element of a batched forget.
#[derive(Clone, Copy, Debug, PartialEq, Eq, Structural)]
pub struct ForgetOne {
    pub ino: u64,
    pub nlookup: u64,
}

impl View for ForgetOne {
    type V = ForgetOne;

    open spec fn view(&self) -> ForgetOne {
        *self
    }
}

impl Pod for ForgetOne {
    open spec fn wire_len() -> nat {
        16
    }

    open spec fn to_wire(self) -> Seq<u8> {
        spec_u64_to_le_bytes(self.ino)
            + spec_u64_to_le_bytes(self.nlookup)
    }

    open spec fn from_wire(bytes: Seq<u8>) -> Self {
        ForgetOne {
            ino: spec_u64_from_le_bytes(bytes.subrange(0, 8)),
            nlookup: spec_u64_from_le_bytes(bytes.subrange(8, 16)),
        }
    }

    fn size() -> (n: usize) {
        16
    }

    fn decode(bytes: &[u8]) -> (record: Self) {
        ForgetOne {
            ino: u64_from_le_bytes(slice_subrange(bytes, 0, 8)),
            nlookup: u64_from_le_bytes(slice_subrange(bytes, 8, 16)),
        }
    }

    fn encode(&self, out: &mut Vec<u8>) {
        put_u64(out, self.ino);
        put_u64(out, self.nlookup);
        assert(out@ =~= old(out)@ + self.to_wire());
    }

    proof fn lemma_wire(self) {
        lemma_auto_spec_u64_to_from_le_bytes();
        let wire = self.to_wire();
        assert(wire.subrange(0, 8) =~= spec_u64_to_le_bytes(self.ino));
        assert(wire.subrange(8, 16) =~= spec_u64_to_le_bytes(self.nlookup));
    }

    proof fn lemma_wire_len() {
    }

    proof fn lemma_view(self) {
    }

    proof fn lemma_unwire(bytes: Seq<u8>) {
        lemma_auto_spec_u64_to_from_le_bytes();
        assert(Self::from_wire(bytes).to_wire() =~= bytes);
    }
}

/// Fixed part of a batched forget.
#[derive(Clone, Copy, Debug, PartialEq, Eq, Structural)]
pub struct BatchForgetIn {
    pub count: u32,
    pub dummy: u32,
}

impl View for BatchForgetIn {
    type V = BatchForgetIn;

    open spec fn view(&self) -> BatchForgetIn {
        *self
    }
}

impl Pod for BatchForgetIn {
    open spec fn wire_len() -> nat {
        8
    }

    open spec fn to_wire(self) -> Seq<u8> {
        spec_u32_to_le_bytes(self.count)
            + spec_u32_to_le_bytes(self.dummy)
    }

    open spec fn from_wire(bytes: Seq<u8>) -> Self {
        BatchForgetIn {
            count: spec_u32_from_le_bytes(bytes.subrange(0, 4)),
            dummy: spec_u32_from_le_bytes(bytes.subrange(4, 8)),
        }
    }

    fn size() -> (n: usize) {
        8
    }

    fn decode(bytes: &[u8]) -> (record: Self) {
        BatchForgetIn {
            count: u32_from_le_bytes(slice_subrange(bytes, 0, 4)),
            dummy: u32_from_le_bytes(slice_subrange(bytes, 4, 8)),
        }
    }

    fn encode(&self, out: &mut Vec<u8>) {
        put_u32(out, self.count);
        put_u32(out, self.dummy);
        assert(out@ =~= old(out)@ + self.to_wire());
    }

    proof fn lemma_wire(self) {
        lemma_auto_spec_u32_to_from_le_bytes();
        let wire = self.to_wire();
        assert(wire.subrange(0, 4) =~= spec_u32_to_le_bytes(self.count));
        assert(wire.subrange(4, 8) =~= spec_u32_to_le_bytes(self.dummy));
    }

    proof fn lemma_wire_len() {
    }

    proof fn lemma_view(self) {
    }

    proof fn lemma_unwire(bytes: Seq<u8>) {
        lemma_auto_spec_u32_to_from_le_bytes();
        assert(Self::from_wire(bytes).to_wire() =~= bytes);
    }
}

/// Body of a fallocate request.
#[derive(Clone, Copy, Debug, PartialEq, Eq, Structural)]
pub struct FallocateIn {
    pub fh: u64,
    pub offset: u64,
    pub length: u64,
    pub mode: u32,
    pub padding: u32,
}

impl View for FallocateIn {
    type V = FallocateIn;

    open spec fn view(&self) -> FallocateIn {
        *self
    }
}

impl Pod for FallocateIn {
    open spec fn wire_len() -> nat {
        32
    }

    open spec fn to_wire(self) -> Seq<u8> {
        spec_u64_to_le_bytes(self.fh)
            + spec_u64_to_le_bytes(self.offset)
            + spec_u64_to_le_bytes(self.length)
            + spec_u32_to_le_bytes(self.mode)
            + spec_u32_to_le_bytes(self.padding)
    }

    open spec fn from_wire(bytes: Seq<u8>) -> Self {
        FallocateIn {
            fh: spec_u64_from_le_bytes(bytes.subrange(0, 8)),
            offset: spec_u64_from_le_bytes(bytes.subrange(8, 16)),
            length: spec_u64_from_le_bytes(bytes.subrange(16, 24)),
            mode: spec_u32_from_le_bytes(bytes.subrange(24, 28)),
            padding: spec_u32_from_le_bytes(bytes.subrange(28, 32)),
        }
    }

    fn size() -> (n: usize) {
        32
    }

    fn decode(bytes: &[u8]) -> (record: Self) {
        FallocateIn {
            fh: u64_from_le_bytes(slice_subrange(bytes, 0, 8)),
            offset: u64_from_le_bytes(slice_subrange(bytes, 8, 16)),
            length: u64_from_le_bytes(slice_subrange(bytes, 16, 24)),
            mode: u32_from_le_bytes(slice_subrange(bytes, 24, 28)),
            padding: u32_from_le_bytes(slice_subrange(bytes, 28, 32)),
        }
    }

    fn encode(&self, out: &mut Vec<u8>) {
        put_u64(out, self.fh);
        put_u64(out, self.offset);
        put_u64(out, self.length);
        put_u32(out, self.mode);
        put_u32(out, self.padding);
        assert(out@ =~= old(out)@ + self.to_wire());
    }

    proof fn lemma_wire(self) {
        lemma_auto_spec_u32_to_from_le_bytes();
        lemma_auto_spec_u64_to_from_le_bytes();
        let wire = self.to_wire();
        assert(wire.subrange(0, 8) =~= spec_u64_to_le_bytes(self.fh));
        assert(wire.subrange(8, 16) =~= spec_u64_to_le_bytes(self.offset));
        assert(wire.subrange(16, 24) =~= spec_u64_to_le_bytes(self.length));
        assert(wire.subrange(24, 28) =~= spec_u32_to_le_bytes(self.mode));
        assert(wire.subrange(28, 32) =~= spec_u32_to_le_bytes(self.padding));
    }

    proof fn lemma_wire_len() {
    }

    proof fn lemma_view(self) {
    }

    proof fn lemma_unwire(bytes: Seq<u8>) {
        lemma_auto_spec_u32_to_from_le_bytes();
        lemma_auto_spec_u64_to_from_le_bytes();
        assert(Self::from_wire(bytes).to_wire() =~= bytes);
    }
}

/// Body of a readdirplus request.
#[derive(Clone, Copy, Debug, PartialEq, Eq, Structural)]
pub struct ReaddirPlusIn {
    pub read_in: ReadIn,
}

impl View for ReaddirPlusIn {
    type V = ReaddirPlusIn;

    open spec fn view(&self) -> ReaddirPlusIn {
        *self
    }
}

impl Pod for ReaddirPlusIn {
    open spec fn wire_len() -> nat {
        40
    }

    open spec fn to_wire(self) -> Seq<u8> {
        self.read_in.to_wire()
    }

    open spec fn from_wire(bytes: Seq<u8>) -> Self {
        ReaddirPlusIn {
            read_in: ReadIn::from_wire(bytes.subrange(0, 40)),
        }
    }

    fn size() -> (n: usize) {
        40
    }

    fn decode(bytes: &[u8]) -> (record: Self) {
        ReaddirPlusIn {
            read_in: ReadIn::decode(slice_subrange(bytes, 0, 40)),
        }
    }

    fn encode(&self, out: &mut Vec<u8>) {
        self.read_in.encode(out);
        assert(out@ =~= old(out)@ + self.to_wire());
    }

    proof fn lemma_wire(self) {
        self.read_in.lemma_wire();
        let wire = self.to_wire();
        assert(wire.subrange(0, 40) =~= self.read_in.to_wire());
    }

    proof fn lemma_wire_len() {
    }

    proof fn lemma_view(self) {
    }

    proof fn lemma_unwire(bytes: Seq<u8>) {
        ReadIn::lemma_unwire(bytes.subrange(0, 40));
        assert(Self::from_wire(bytes).to_wire() =~= bytes);
    }
}

/// Fixed part of a rename2 request.
#[derive(Clone, Copy, Debug, PartialEq, Eq, Structural)]
pub struct Rename2In {
    pub new_dir: u64,
    pub flags: u32,
    pub padding: u32,
}

impl View for Rename2In {
    type V = Rename2In;

    open spec fn view(&self) -> Rename2In {
        *self
    }
}

impl Pod for Rename2In {
    open spec fn wire_len() -> nat {
        16
    }

    open spec fn to_wire(self) -> Seq<u8> {
        spec_u64_to_le_bytes(self.new_dir)
            + spec_u32_to_le_bytes(self.flags)
            + spec_u32_to_le_bytes(self.padding)
    }

    open spec fn from_wire(bytes: Seq<u8>) -> Self {
        Rename2In {
            new_dir: spec_u64_from_le_bytes(bytes.subrange(0, 8)),
            flags: spec_u32_from_le_bytes(bytes.subrange(8, 12)),
            padding: spec_u32_from_le_bytes(bytes.subrange(12, 16)),
        }
    }

    fn size() -> (n: usize) {
        16
    }

    fn decode(bytes: &[u8]) -> (record: Self) {
        Rename2In {
            new_dir: u64_from_le_bytes(slice_subrange(bytes, 0, 8)),
            flags: u32_from_le_bytes(slice_subrange(bytes, 8, 12)),
            padding: u32_from_le_bytes(slice_subrange(bytes, 12, 16)),
        }
    }

    fn encode(&self, out: &mut Vec<u8>) {
        put_u64(out, self.new_dir);
        put_u32(out, self.flags);
        put_u32(out, self.padding);
        assert(out@ =~= old(out)@ + self.to_wire());
    }

    proof fn lemma_wire(self) {
        lemma_auto_spec_u32_to_from_le_bytes();
        lemma_auto_spec_u64_to_from_le_bytes();
        let wire = self.to_wire();
        assert(wire.subrange(0, 8) =~= spec_u64_to_le_bytes(self.new_dir));
        assert(wire.subrange(8, 12) =~= spec_u32_to_le_bytes(self.flags));
        assert(wire.subrange(12, 16) =~= spec_u32_to_le_bytes(self.padding));
    }

    proof fn lemma_wire_len() {
    }

    proof fn lemma_view(self) {
    }

    proof fn lemma_unwire(bytes: Seq<u8>) {
        lemma_auto_spec_u32_to_from_le_bytes();
        lemma_auto_spec_u64_to_from_le_bytes();
        assert(Self::from_wire(bytes).to_wire() =~= bytes);
    }
}

/// Body of an lseek request.
#[derive(Clone, Copy, Debug, PartialEq, Eq, Structural)]
pub struct LseekIn {
    pub fh: u64,
    pub offset: u64,
    pub whence: u32,
    pub padding: u32,
}

impl View for LseekIn {
    type V = LseekIn;

    open spec fn view(&self) -> LseekIn {
        *self
    }
}

impl Pod for LseekIn {
    open spec fn wire_len() -> nat {
        24
    }

    open spec fn to_wire(self) -> Seq<u8> {
        spec_u64_to_le_bytes(self.fh)
            + spec_u64_to_le_bytes(self.offset)
            + spec_u32_to_le_bytes(self.whence)
            + spec_u32_to_le_bytes(self.padding)
    }

    open spec fn from_wire(bytes: Seq<u8>) -> Self {
        LseekIn {
            fh: spec_u64_from_le_bytes(bytes.subrange(0, 8)),
            offset: spec_u64_from_le_bytes(bytes.subrange(8, 16)),
            whence: spec_u32_from_le_bytes(bytes.subrange(16, 20)),
            padding: spec_u32_from_le_bytes(bytes.subrange(20, 24)),
        }
    }

    fn size() -> (n: usize) {
        24
    }

    fn decode(bytes: &[u8]) -> (record: Self) {
        LseekIn {
            fh: u64_from_le_bytes(slice_subrange(bytes, 0, 8)),
            offset: u64_from_le_bytes(slice_subrange(bytes, 8, 16)),
            whence: u32_from_le_bytes(slice_subrange(bytes, 16, 20)),
            padding: u32_from_le_bytes(slice_subrange(bytes, 20, 24)),
        }
    }

    fn encode(&self, out: &mut Vec<u8>) {
        put_u64(out, self.fh);
        put_u64(out, self.offset);
        put_u32(out, self.whence);
        put_u32(out, self.padding);
        assert(out@ =~= old(out)@ + self.to_wire());
    }

    proof fn lemma_wire(self) {
        lemma_auto_spec_u32_to_from_le_bytes();
        lemma_auto_spec_u64_to_from_le_bytes();
        let wire = self.to_wire();
        assert(wire.subrange(0, 8) =~= spec_u64_to_le_bytes(self.fh));
        assert(wire.subrange(8, 16) =~= spec_u64_to_le_bytes(self.offset));
        assert(wire.subrange(16, 20) =~= spec_u32_to_le_bytes(self.whence));
        assert(wire.subrange(20, 24) =~= spec_u32_to_le_bytes(self.padding));
    }

    proof fn lemma_wire_len() {
    }

    proof fn lemma_view(self) {
    }

    proof fn lemma_unwire(bytes: Seq<u8>) {
        lemma_auto_spec_u32_to_from_le_bytes();
        lemma_auto_spec_u64_to_from_le_bytes();
        assert(Self::from_wire(bytes).to_wire() =~= bytes);
    }
}

/// Body of a copy_file_range request.
#[derive(Clone, Copy, Debug, PartialEq, Eq, Structural)]
pub struct CopyFileRangeIn {
    pub fh_in: u64,
    pub off_in: u64,
    pub nodeid_out: u64,
    pub fh_out: u64,
    pub off_out: u64,
    pub len: u64,
    pub flags: u64,
}

impl View for CopyFileRangeIn {
    type V = CopyFileRangeIn;

    open spec fn view(&self) -> CopyFileRangeIn {
        *self
    }
}

impl Pod for CopyFileRangeIn {
    open spec fn wire_len() -> nat {
        56
    }

    open spec fn to_wire(self) -> Seq<u8> {
        spec_u64_to_le_bytes(self.fh_in)
            + spec_u64_to_le_bytes(self.off_in)
            + spec_u64_to_le_bytes(self.nodeid_out)
            + spec_u64_to_le_bytes(self.fh_out)
            + spec_u64_to_le_bytes(self.off_out)
            + spec_u64_to_le_bytes(self.len)
            + spec_u64_to_le_bytes(self.flags)
    }

    open spec fn from_wire(bytes: Seq<u8>) -> Self {
        CopyFileRangeIn {
            fh_in: spec_u64_from_le_bytes(bytes.subrange(0, 8)),
            off_in: spec_u64_from_le_bytes(bytes.subrange(8, 16)),
            nodeid_out: spec_u64_from_le_bytes(bytes.subrange(16, 24)),
            fh_out: spec_u64_from_le_bytes(bytes.subrange(24, 32)),
            off_out: spec_u64_from_le_bytes(bytes.subrange(32, 40)),
            len: spec_u64_from_le_bytes(bytes.subrange(40, 48)),
            flags: spec_u64_from_le_bytes(bytes.subrange(48, 56)),
        }
    }

    fn size() -> (n: usize) {
        56
    }

    fn decode(bytes: &[u8]) -> (record: Self) {
        CopyFileRangeIn {
            fh_in: u64_from_le_bytes(slice_subrange(bytes, 0, 8)),
            off_in: u64_from_le_bytes(slice_subrange(bytes, 8, 16)),
            nodeid_out: u64_from_le_bytes(slice_subrange(bytes, 16, 24)),
            fh_out: u64_from_le_bytes(slice_subrange(bytes, 24, 32)),
            off_out: u64_from_le_bytes(slice_subrange(bytes, 32, 40)),
            len: u64_from_le_bytes(slice_subrange(bytes, 40, 48)),
            flags: u64_from_le_bytes(slice_subrange(bytes, 48, 56)),
        }
    }

    fn encode(&self, out: &mut Vec<u8>) {
        put_u64(out, self.fh_in);
        put_u64(out, self.off_in);
        put_u64(out, self.nodeid_out);
        put_u64(out, self.fh_out);
        put_u64(out, self.off_out);
        put_u64(out, self.len);
        put_u64(out, self.flags);
        assert(out@ =~= old(out)@ + self.to_wire());
    }

    proof fn lemma_wire(self) {
        lemma_auto_spec_u64_to_from_le_bytes();
        let wire = self.to_wire();
        assert(wire.subrange(0, 8) =~= spec_u64_to_le_bytes(self.fh_in));
        assert(wire.subrange(8, 16) =~= spec_u64_to_le_bytes(self.off_in));
        assert(wire.subrange(16, 24) =~= spec_u64_to_le_bytes(self.nodeid_out));
        assert(wire.subrange(24, 32) =~= spec_u64_to_le_bytes(self.fh_out));
        assert(wire.subrange(32, 40) =~= spec_u64_to_le_bytes(self.off_out));
        assert(wire.subrange(40, 48) =~= spec_u64_to_le_bytes(self.len));
        assert(wire.subrange(48, 56) =~= spec_u64_to_le_bytes(self.flags));
    }

    proof fn lemma_wire_len() {
    }

    proof fn lemma_view(self) {
    }

    proof fn lemma_unwire(bytes: Seq<u8>) {
        lemma_auto_spec_u64_to_from_le_bytes();
        assert(Self::from_wire(bytes).to_wire() =~= bytes);
    }
}

} // verus!
