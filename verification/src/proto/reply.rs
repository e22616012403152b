//! Records that the server writes.

use vstd::bytes::*;
use vstd::prelude::*;
use vstd::slice::*;

use super::{put_u16, put_u32, put_u64, Pod};

verus! {

/// Inode attributes as the kernel stores them.
#[derive(Clone, Copy, Debug, PartialEq, Eq, Structural)]
pub struct Attrs {
    pub ino: u64,
    pub size: u64,
    pub blocks: u64,
    pub atime: u64,
    pub mtime: u64,
    pub ctime: u64,
    pub atimensec: u32,
    pub mtimensec: u32,
    pub ctimensec: u32,
    pub mode: u32,
    pub nlink: u32,
    pub uid: u32,
    pub gid: u32,
    pub rdev: u32,
    pub blksize: u32,
    pub padding: u32,
}

impl View for Attrs {
    type V = Attrs;

    open spec fn view(&self) -> Attrs {
        *self
    }
}

impl Pod for Attrs {
    open spec fn wire_len() -> nat {
        88
    }

    open spec fn to_wire(self) -> Seq<u8> {
        spec_u64_to_le_bytes(self.ino)
            + spec_u64_to_le_bytes(self.size)
            + spec_u64_to_le_bytes(self.blocks)
            + spec_u64_to_le_bytes(self.atime)
            + spec_u64_to_le_bytes(self.mtime)
            + spec_u64_to_le_bytes(self.ctime)
            + spec_u32_to_le_bytes(self.atimensec)
            + spec_u32_to_le_bytes(self.mtimensec)
            + spec_u32_to_le_bytes(self.ctimensec)
            + spec_u32_to_le_bytes(self.mode)
            + spec_u32_to_le_bytes(self.nlink)
            + spec_u32_to_le_bytes(self.uid)
            + spec_u32_to_le_bytes(self.gid)
            + spec_u32_to_le_bytes(self.rdev)
            + spec_u32_to_le_bytes(self.blksize)
            + spec_u32_to_le_bytes(self.padding)
    }

    open spec fn from_wire(bytes: Seq<u8>) -> Self {
        Attrs {
            ino: spec_u64_from_le_bytes(bytes.subrange(0, 8)),
            size: spec_u64_from_le_bytes(bytes.subrange(8, 16)),
            blocks: spec_u64_from_le_bytes(bytes.subrange(16, 24)),
            atime: spec_u64_from_le_bytes(bytes.subrange(24, 32)),
            mtime: spec_u64_from_le_bytes(bytes.subrange(32, 40)),
            ctime: spec_u64_from_le_bytes(bytes.subrange(40, 48)),
            atimensec: spec_u32_from_le_bytes(bytes.subrange(48, 52)),
            mtimensec: spec_u32_from_le_bytes(bytes.subrange(52, 56)),
            ctimensec: spec_u32_from_le_bytes(bytes.subrange(56, 60)),
            mode: spec_u32_from_le_bytes(bytes.subrange(60, 64)),
            nlink: spec_u32_from_le_bytes(bytes.subrange(64, 68)),
            uid: spec_u32_from_le_bytes(bytes.subrange(68, 72)),
            gid: spec_u32_from_le_bytes(bytes.subrange(72, 76)),
            rdev: spec_u32_from_le_bytes(bytes.subrange(76, 80)),
            blksize: spec_u32_from_le_bytes(bytes.subrange(80, 84)),
            padding: spec_u32_from_le_bytes(bytes.subrange(84, 88)),
        }
    }

    fn size() -> (n: usize) {
        88
    }

    fn decode(bytes: &[u8]) -> (record: Self) {
        Attrs {
            ino: u64_from_le_bytes(slice_subrange(bytes, 0, 8)),
            size: u64_from_le_bytes(slice_subrange(bytes, 8, 16)),
            blocks: u64_from_le_bytes(slice_subrange(bytes, 16, 24)),
            atime: u64_from_le_bytes(slice_subrange(bytes, 24, 32)),
            mtime: u64_from_le_bytes(slice_subrange(bytes, 32, 40)),
            ctime: u64_from_le_bytes(slice_subrange(bytes, 40, 48)),
            atimensec: u32_from_le_bytes(slice_subrange(bytes, 48, 52)),
            mtimensec: u32_from_le_bytes(slice_subrange(bytes, 52, 56)),
            ctimensec: u32_from_le_bytes(slice_subrange(bytes, 56, 60)),
            mode: u32_from_le_bytes(slice_subrange(bytes, 60, 64)),
            nlink: u32_from_le_bytes(slice_subrange(bytes, 64, 68)),
            uid: u32_from_le_bytes(slice_subrange(bytes, 68, 72)),
            gid: u32_from_le_bytes(slice_subrange(bytes, 72, 76)),
            rdev: u32_from_le_bytes(slice_subrange(bytes, 76, 80)),
            blksize: u32_from_le_bytes(slice_subrange(bytes, 80, 84)),
            padding: u32_from_le_bytes(slice_subrange(bytes, 84, 88)),
        }
    }

    fn encode(&self, out: &mut Vec<u8>) {
        put_u64(out, self.ino);
        put_u64(out, self.size);
        put_u64(out, self.blocks);
        put_u64(out, self.atime);
        put_u64(out, self.mtime);
        put_u64(out, self.ctime);
        put_u32(out, self.atimensec);
        put_u32(out, self.mtimensec);
        put_u32(out, self.ctimensec);
        put_u32(out, self.mode);
        put_u32(out, self.nlink);
        put_u32(out, self.uid);
        put_u32(out, self.gid);
        put_u32(out, self.rdev);
        put_u32(out, self.blksize);
        put_u32(out, self.padding);
        assert(out@ =~= old(out)@ + self.to_wire());
    }

    proof fn lemma_wire(self) {
        lemma_auto_spec_u32_to_from_le_bytes();
        lemma_auto_spec_u64_to_from_le_bytes();
        let wire = self.to_wire();
        assert(wire.subrange(0, 8) =~= spec_u64_to_le_bytes(self.ino));
        assert(wire.subrange(8, 16) =~= spec_u64_to_le_bytes(self.size));
        assert(wire.subrange(16, 24) =~= spec_u64_to_le_bytes(self.blocks));
        assert(wire.subrange(24, 32) =~= spec_u64_to_le_bytes(self.atime));
        assert(wire.subrange(32, 40) =~= spec_u64_to_le_bytes(self.mtime));
        assert(wire.subrange(40, 48) =~= spec_u64_to_le_bytes(self.ctime));
        assert(wire.subrange(48, 52) =~= spec_u32_to_le_bytes(self.atimensec));
        assert(wire.subrange(52, 56) =~= spec_u32_to_le_bytes(self.mtimensec));
        assert(wire.subrange(56, 60) =~= spec_u32_to_le_bytes(self.ctimensec));
        assert(wire.subrange(60, 64) =~= spec_u32_to_le_bytes(self.mode));
        assert(wire.subrange(64, 68) =~= spec_u32_to_le_bytes(self.nlink));
        assert(wire.subrange(68, 72) =~= spec_u32_to_le_bytes(self.uid));
        assert(wire.subrange(72, 76) =~= spec_u32_to_le_bytes(self.gid));
        assert(wire.subrange(76, 80) =~= spec_u32_to_le_bytes(self.rdev));
        assert(wire.subrange(80, 84) =~= spec_u32_to_le_bytes(self.blksize));
        assert(wire.subrange(84, 88) =~= spec_u32_to_le_bytes(self.padding));
    }

    proof fn lemma_wire_len() {
    }

    proof fn lemma_view(self) {
    }

    proof fn lemma_unwire(bytes: Seq<u8>) {
        lemma_auto_spec_u32_to_from_le_bytes();
        lemma_auto_spec_u64_to_from_le_bytes();
        assert(Self::from_wire(bytes).to_wire() =~= bytes);
    }
}

/// Answer to a lookup-like request: the inode, its attributes and both cache lifetimes.
#[derive(Clone, Copy, Debug, PartialEq, Eq, Structural)]
pub struct EntryOut {
    pub nodeid: u64,
    pub generation: u64,
    pub entry_valid: u64,
    pub attr_valid: u64,
    pub entry_valid_nsec: u32,
    pub attr_valid_nsec: u32,
    pub attr: Attrs,
}

impl View for EntryOut {
    type V = EntryOut;

    open spec fn view(&self) -> EntryOut {
        *self
    }
}

impl Pod for EntryOut {
    open spec fn wire_len() -> nat {
        128
    }

    open spec fn to_wire(self) -> Seq<u8> {
        spec_u64_to_le_bytes(self.nodeid)
            + spec_u64_to_le_bytes(self.generation)
            + spec_u64_to_le_bytes(self.entry_valid)
            + spec_u64_to_le_bytes(self.attr_valid)
            + spec_u32_to_le_bytes(self.entry_valid_nsec)
            + spec_u32_to_le_bytes(self.attr_valid_nsec)
            + self.attr.to_wire()
    }

    open spec fn from_wire(bytes: Seq<u8>) -> Self {
        EntryOut {
            nodeid: spec_u64_from_le_bytes(bytes.subrange(0, 8)),
            generation: spec_u64_from_le_bytes(bytes.subrange(8, 16)),
            entry_valid: spec_u64_from_le_bytes(bytes.subrange(16, 24)),
            attr_valid: spec_u64_from_le_bytes(bytes.subrange(24, 32)),
            entry_valid_nsec: spec_u32_from_le_bytes(bytes.subrange(32, 36)),
            attr_valid_nsec: spec_u32_from_le_bytes(bytes.subrange(36, 40)),
            attr: Attrs::from_wire(bytes.subrange(40, 128)),
        }
    }

    fn size() -> (n: usize) {
        128
    }

    fn decode(bytes: &[u8]) -> (record: Self) {
        EntryOut {
            nodeid: u64_from_le_bytes(slice_subrange(bytes, 0, 8)),
            generation: u64_from_le_bytes(slice_subrange(bytes, 8, 16)),
            entry_valid: u64_from_le_bytes(slice_subrange(bytes, 16, 24)),
            attr_valid: u64_from_le_bytes(slice_subrange(bytes, 24, 32)),
            entry_valid_nsec: u32_from_le_bytes(slice_subrange(bytes, 32, 36)),
            attr_valid_nsec: u32_from_le_bytes(slice_subrange(bytes, 36, 40)),
            attr: Attrs::decode(slice_subrange(bytes, 40, 128)),
        }
    }

    fn encode(&self, out: &mut Vec<u8>) {
        put_u64(out, self.nodeid);
        put_u64(out, self.generation);
        put_u64(out, self.entry_valid);
        put_u64(out, self.attr_valid);
        put_u32(out, self.entry_valid_nsec);
        put_u32(out, self.attr_valid_nsec);
        self.attr.encode(out);
        assert(out@ =~= old(out)@ + self.to_wire());
    }

    proof fn lemma_wire(self) {
        lemma_auto_spec_u32_to_from_le_bytes();
        lemma_auto_spec_u64_to_from_le_bytes();
        self.attr.lemma_wire();
        let wire = self.to_wire();
        assert(wire.subrange(0, 8) =~= spec_u64_to_le_bytes(self.nodeid));
        assert(wire.subrange(8, 16) =~= spec_u64_to_le_bytes(self.generation));
        assert(wire.subrange(16, 24) =~= spec_u64_to_le_bytes(self.entry_valid));
        assert(wire.subrange(24, 32) =~= spec_u64_to_le_bytes(self.attr_valid));
        assert(wire.subrange(32, 36) =~= spec_u32_to_le_bytes(self.entry_valid_nsec));
        assert(wire.subrange(36, 40) =~= spec_u32_to_le_bytes(self.attr_valid_nsec));
        assert(wire.subrange(40, 128) =~= self.attr.to_wire());
    }

    proof fn lemma_wire_len() {
    }

    proof fn lemma_view(self) {
    }

    proof fn lemma_unwire(bytes: Seq<u8>) {
        lemma_auto_spec_u32_to_from_le_bytes();
        lemma_auto_spec_u64_to_from_le_bytes();
        Attrs::lemma_unwire(bytes.subrange(40, 128));
        assert(Self::from_wire(bytes).to_wire() =~= bytes);
    }
}

/// Head of one directory record; the name follows it.
#[derive(Clone, Copy, Debug, PartialEq, Eq, Structural)]
pub struct Dirent {
    pub ino: u64,
    pub off: u64,
    pub namelen: u32,
    pub entry_type: u32,
}

impl View for Dirent {
    type V = Dirent;

    open spec fn view(&self) -> Dirent {
        *self
    }
}

impl Pod for Dirent {
    open spec fn wire_len() -> nat {
        24
    }

    open spec fn to_wire(self) -> Seq<u8> {
        spec_u64_to_le_bytes(self.ino)
            + spec_u64_to_le_bytes(self.off)
            + spec_u32_to_le_bytes(self.namelen)
            + spec_u32_to_le_bytes(self.entry_type)
    }

    open spec fn from_wire(bytes: Seq<u8>) -> Self {
        Dirent {
            ino: spec_u64_from_le_bytes(bytes.subrange(0, 8)),
            off: spec_u64_from_le_bytes(bytes.subrange(8, 16)),
            namelen: spec_u32_from_le_bytes(bytes.subrange(16, 20)),
            entry_type: spec_u32_from_le_bytes(bytes.subrange(20, 24)),
        }
    }

    fn size() -> (n: usize) {
        24
    }

    fn decode(bytes: &[u8]) -> (record: Self) {
        Dirent {
            ino: u64_from_le_bytes(slice_subrange(bytes, 0, 8)),
            off: u64_from_le_bytes(slice_subrange(bytes, 8, 16)),
            namelen: u32_from_le_bytes(slice_subrange(bytes, 16, 20)),
            entry_type: u32_from_le_bytes(slice_subrange(bytes, 20, 24)),
        }
    }

    fn encode(&self, out: &mut Vec<u8>) {
        put_u64(out, self.ino);
        put_u64(out, self.off);
        put_u32(out, self.namelen);
        put_u32(out, self.entry_type);
        assert(out@ =~= old(out)@ + self.to_wire());
    }

    proof fn lemma_wire(self) {
        lemma_auto_spec_u32_to_from_le_bytes();
        lemma_auto_spec_u64_to_from_le_bytes();
        let wire = self.to_wire();
        assert(wire.subrange(0, 8) =~= spec_u64_to_le_bytes(self.ino));
        assert(wire.subrange(8, 16) =~= spec_u64_to_le_bytes(self.off));
        assert(wire.subrange(16, 20) =~= spec_u32_to_le_bytes(self.namelen));
        assert(wire.subrange(20, 24) =~= spec_u32_to_le_bytes(self.entry_type));
    }

    proof fn lemma_wire_len() {
    }

    proof fn lemma_view(self) {
    }

    proof fn lemma_unwire(bytes: Seq<u8>) {
        lemma_auto_spec_u32_to_from_le_bytes();
        lemma_auto_spec_u64_to_from_le_bytes();
        assert(Self::from_wire(bytes).to_wire() =~= bytes);
    }
}

/// Head of one directory record that also carries the entry's attributes.
#[derive(Clone, Copy, Debug, PartialEq, Eq, Structural)]
pub struct DirentPlus {
    pub entry_out: EntryOut,
    pub dirent: Dirent,
}

impl View for DirentPlus {
    type V = DirentPlus;

    open spec fn view(&self) -> DirentPlus {
        *self
    }
}

impl Pod for DirentPlus {
    open spec fn wire_len() -> nat {
        152
    }

    open spec fn to_wire(self) -> Seq<u8> {
        self.entry_out.to_wire()
            + self.dirent.to_wire()
    }

    open spec fn from_wire(bytes: Seq<u8>) -> Self {
        DirentPlus {
            entry_out: EntryOut::from_wire(bytes.subrange(0, 128)),
            dirent: Dirent::from_wire(bytes.subrange(128, 152)),
        }
    }

    fn size() -> (n: usize) {
        152
    }

    fn decode(bytes: &[u8]) -> (record: Self) {
        DirentPlus {
            entry_out: EntryOut::decode(slice_subrange(bytes, 0, 128)),
            dirent: Dirent::decode(slice_subrange(bytes, 128, 152)),
        }
    }

    fn encode(&self, out: &mut Vec<u8>) {
        self.entry_out.encode(out);
        self.dirent.encode(out);
        assert(out@ =~= old(out)@ + self.to_wire());
    }

    proof fn lemma_wire(self) {
        self.entry_out.lemma_wire();
        self.dirent.lemma_wire();
        let wire = self.to_wire();
        assert(wire.subrange(0, 128) =~= self.entry_out.to_wire());
        assert(wire.subrange(128, 152) =~= self.dirent.to_wire());
    }

    proof fn lemma_wire_len() {
    }

    proof fn lemma_view(self) {
    }

    proof fn lemma_unwire(bytes: Seq<u8>) {
        EntryOut::lemma_unwire(bytes.subrange(0, 128));
        Dirent::lemma_unwire(bytes.subrange(128, 152));
        assert(Self::from_wire(bytes).to_wire() =~= bytes);
    }
}

/// Answer to an attribute query.
#[derive(Clone, Copy, Debug, PartialEq, Eq, Structural)]
pub struct AttrOut {
    pub attr_valid: u64,
    pub attr_valid_nsec: u32,
    pub dummy: u32,
    pub attr: Attrs,
}

impl View for AttrOut {
    type V = AttrOut;

    open spec fn view(&self) -> AttrOut {
        *self
    }
}

impl Pod for AttrOut {
    open spec fn wire_len() -> nat {
        104
    }

    open spec fn to_wire(self) -> Seq<u8> {
        spec_u64_to_le_bytes(self.attr_valid)
            + spec_u32_to_le_bytes(self.attr_valid_nsec)
            + spec_u32_to_le_bytes(self.dummy)
            + self.attr.to_wire()
    }

    open spec fn from_wire(bytes: Seq<u8>) -> Self {
        AttrOut {
            attr_valid: spec_u64_from_le_bytes(bytes.subrange(0, 8)),
            attr_valid_nsec: spec_u32_from_le_bytes(bytes.subrange(8, 12)),
            dummy: spec_u32_from_le_bytes(bytes.subrange(12, 16)),
            attr: Attrs::from_wire(bytes.subrange(16, 104)),
        }
    }

    fn size() -> (n: usize) {
        104
    }

    fn decode(bytes: &[u8]) -> (record: Self) {
        AttrOut {
            attr_valid: u64_from_le_bytes(slice_subrange(bytes, 0, 8)),
            attr_valid_nsec: u32_from_le_bytes(slice_subrange(bytes, 8, 12)),
            dummy: u32_from_le_bytes(slice_subrange(bytes, 12, 16)),
            attr: Attrs::decode(slice_subrange(bytes, 16, 104)),
        }
    }

    fn encode(&self, out: &mut Vec<u8>) {
        put_u64(out, self.attr_valid);
        put_u32(out, self.attr_valid_nsec);
        put_u32(out, self.dummy);
        self.attr.encode(out);
        assert(out@ =~= old(out)@ + self.to_wire());
    }

    proof fn lemma_wire(self) {
        lemma_auto_spec_u32_to_from_le_bytes();
        lemma_auto_spec_u64_to_from_le_bytes();
        self.attr.lemma_wire();
        let wire = self.to_wire();
        assert(wire.subrange(0, 8) =~= spec_u64_to_le_bytes(self.attr_valid));
        assert(wire.subrange(8, 12) =~= spec_u32_to_le_bytes(self.attr_valid_nsec));
        assert(wire.subrange(12, 16) =~= spec_u32_to_le_bytes(self.dummy));
        assert(wire.subrange(16, 104) =~= self.attr.to_wire());
    }

    proof fn lemma_wire_len() {
    }

    proof fn lemma_view(self) {
    }

    proof fn lemma_unwire(bytes: Seq<u8>) {
        lemma_auto_spec_u32_to_from_le_bytes();
        lemma_auto_spec_u64_to_from_le_bytes();
        Attrs::lemma_unwire(bytes.subrange(16, 104));
        assert(Self::from_wire(bytes).to_wire() =~= bytes);
    }
}

/// Answer to an open request.
#[derive(Clone, Copy, Debug, PartialEq, Eq, Structural)]
pub struct OpenOut {
    pub fh: u64,
    pub open_flags: u32,
    pub padding: u32,
}

impl View for OpenOut {
    type V = OpenOut;

    open spec fn view(&self) -> OpenOut {
        *self
    }
}

impl Pod for OpenOut {
    open spec fn wire_len() -> nat {
        16
    }

    open spec fn to_wire(self) -> Seq<u8> {
        spec_u64_to_le_bytes(self.fh)
            + spec_u32_to_le_bytes(self.open_flags)
            + spec_u32_to_le_bytes(self.padding)
    }

    open spec fn from_wire(bytes: Seq<u8>) -> Self {
        OpenOut {
            fh: spec_u64_from_le_bytes(bytes.subrange(0, 8)),
            open_flags: spec_u32_from_le_bytes(bytes.subrange(8, 12)),
            padding: spec_u32_from_le_bytes(bytes.subrange(12, 16)),
        }
    }

    fn size() -> (n: usize) {
        16
    }

    fn decode(bytes: &[u8]) -> (record: Self) {
        OpenOut {
            fh: u64_from_le_bytes(slice_subrange(bytes, 0, 8)),
            open_flags: u32_from_le_bytes(slice_subrange(bytes, 8, 12)),
            padding: u32_from_le_bytes(slice_subrange(bytes, 12, 16)),
        }
    }

    fn encode(&self, out: &mut Vec<u8>) {
        put_u64(out, self.fh);
        put_u32(out, self.open_flags);
        put_u32(out, self.padding);
        assert(out@ =~= old(out)@ + self.to_wire());
    }

    proof fn lemma_wire(self) {
        lemma_auto_spec_u32_to_from_le_bytes();
        lemma_auto_spec_u64_to_from_le_bytes();
        let wire = self.to_wire();
        assert(wire.subrange(0, 8) =~= spec_u64_to_le_bytes(self.fh));
        assert(wire.subrange(8, 12) =~= spec_u32_to_le_bytes(self.open_flags));
        assert(wire.subrange(12, 16) =~= spec_u32_to_le_bytes(self.padding));
    }

    proof fn lemma_wire_len() {
    }

    proof fn lemma_view(self) {
    }

    proof fn lemma_unwire(bytes: Seq<u8>) {
        lemma_auto_spec_u32_to_from_le_bytes();
        lemma_auto_spec_u64_to_from_le_bytes();
        assert(Self::from_wire(bytes).to_wire() =~= bytes);
    }
}

/// Answer to a write request.
#[derive(Clone, Copy, Debug, PartialEq, Eq, Structural)]
pub struct WriteOut {
    pub size: u32,
    pub padding: u32,
}

impl View for WriteOut {
    type V = WriteOut;

    open spec fn view(&self) -> WriteOut {
        *self
    }
}

impl Pod for WriteOut {
    open spec fn wire_len() -> nat {
        8
    }

    open spec fn to_wire(self) -> Seq<u8> {
        spec_u32_to_le_bytes(self.size)
            + spec_u32_to_le_bytes(self.padding)
    }

    open spec fn from_wire(bytes: Seq<u8>) -> Self {
        WriteOut {
            size: spec_u32_from_le_bytes(bytes.subrange(0, 4)),
            padding: spec_u32_from_le_bytes(bytes.subrange(4, 8)),
        }
    }

    fn size() -> (n: usize) {
        8
    }

    fn decode(bytes: &[u8]) -> (record: Self) {
        WriteOut {
            size: u32_from_le_bytes(slice_subrange(bytes, 0, 4)),
            padding: u32_from_le_bytes(slice_subrange(bytes, 4, 8)),
        }
    }

    fn encode(&self, out: &mut Vec<u8>) {
        put_u32(out, self.size);
        put_u32(out, self.padding);
        assert(out@ =~= old(out)@ + self.to_wire());
    }

    proof fn lemma_wire(self) {
        lemma_auto_spec_u32_to_from_le_bytes();
        let wire = self.to_wire();
        assert(wire.subrange(0, 4) =~= spec_u32_to_le_bytes(self.size));
        assert(wire.subrange(4, 8) =~= spec_u32_to_le_bytes(self.padding));
    }

    proof fn lemma_wire_len() {
    }

    proof fn lemma_view(self) {
    }

    proof fn lemma_unwire(bytes: Seq<u8>) {
        lemma_auto_spec_u32_to_from_le_bytes();
        assert(Self::from_wire(bytes).to_wire() =~= bytes);
    }
}

/// Filesystem statistics.
#[derive(Clone, Copy, Debug)]
pub struct StatfsOut {
    pub blocks: u64,
    pub bfree: u64,
    pub bavail: u64,
    pub files: u64,
    pub ffree: u64,
    pub bsize: u32,
    pub namelen: u32,
    pub frsize: u32,
    pub padding: u32,
    pub spare: [u32; 6],
}

impl View for StatfsOut {
    type V = StatfsOut;

    open spec fn view(&self) -> StatfsOut {
        *self
    }
}

impl Pod for StatfsOut {
    open spec fn wire_len() -> nat {
        80
    }

    open spec fn to_wire(self) -> Seq<u8> {
        spec_u64_to_le_bytes(self.blocks)
            + spec_u64_to_le_bytes(self.bfree)
            + spec_u64_to_le_bytes(self.bavail)
            + spec_u64_to_le_bytes(self.files)
            + spec_u64_to_le_bytes(self.ffree)
            + spec_u32_to_le_bytes(self.bsize)
            + spec_u32_to_le_bytes(self.namelen)
            + spec_u32_to_le_bytes(self.frsize)
            + spec_u32_to_le_bytes(self.padding)
            + spec_u32_to_le_bytes(self.spare[0])
            + spec_u32_to_le_bytes(self.spare[1])
            + spec_u32_to_le_bytes(self.spare[2])
            + spec_u32_to_le_bytes(self.spare[3])
            + spec_u32_to_le_bytes(self.spare[4])
            + spec_u32_to_le_bytes(self.spare[5])
    }

    open spec fn from_wire(bytes: Seq<u8>) -> Self {
        StatfsOut {
            blocks: spec_u64_from_le_bytes(bytes.subrange(0, 8)),
            bfree: spec_u64_from_le_bytes(bytes.subrange(8, 16)),
            bavail: spec_u64_from_le_bytes(bytes.subrange(16, 24)),
            files: spec_u64_from_le_bytes(bytes.subrange(24, 32)),
            ffree: spec_u64_from_le_bytes(bytes.subrange(32, 40)),
            bsize: spec_u32_from_le_bytes(bytes.subrange(40, 44)),
            namelen: spec_u32_from_le_bytes(bytes.subrange(44, 48)),
            frsize: spec_u32_from_le_bytes(bytes.subrange(48, 52)),
            padding: spec_u32_from_le_bytes(bytes.subrange(52, 56)),
            spare: [
                spec_u32_from_le_bytes(bytes.subrange(56, 60)),
                spec_u32_from_le_bytes(bytes.subrange(60, 64)),
                spec_u32_from_le_bytes(bytes.subrange(64, 68)),
                spec_u32_from_le_bytes(bytes.subrange(68, 72)),
                spec_u32_from_le_bytes(bytes.subrange(72, 76)),
                spec_u32_from_le_bytes(bytes.subrange(76, 80)),
            ],
        }
    }

    fn size() -> (n: usize) {
        80
    }

    fn decode(bytes: &[u8]) -> (record: Self) {
        StatfsOut {
            blocks: u64_from_le_bytes(slice_subrange(bytes, 0, 8)),
            bfree: u64_from_le_bytes(slice_subrange(bytes, 8, 16)),
            bavail: u64_from_le_bytes(slice_subrange(bytes, 16, 24)),
            files: u64_from_le_bytes(slice_subrange(bytes, 24, 32)),
            ffree: u64_from_le_bytes(slice_subrange(bytes, 32, 40)),
            bsize: u32_from_le_bytes(slice_subrange(bytes, 40, 44)),
            namelen: u32_from_le_bytes(slice_subrange(bytes, 44, 48)),
            frsize: u32_from_le_bytes(slice_subrange(bytes, 48, 52)),
            padding: u32_from_le_bytes(slice_subrange(bytes, 52, 56)),
            spare: [
                u32_from_le_bytes(slice_subrange(bytes, 56, 60)),
                u32_from_le_bytes(slice_subrange(bytes, 60, 64)),
                u32_from_le_bytes(slice_subrange(bytes, 64, 68)),
                u32_from_le_bytes(slice_subrange(bytes, 68, 72)),
                u32_from_le_bytes(slice_subrange(bytes, 72, 76)),
                u32_from_le_bytes(slice_subrange(bytes, 76, 80)),
            ],
        }
    }

    fn encode(&self, out: &mut Vec<u8>) {
        put_u64(out, self.blocks);
        put_u64(out, self.bfree);
        put_u64(out, self.bavail);
        put_u64(out, self.files);
        put_u64(out, self.ffree);
        put_u32(out, self.bsize);
        put_u32(out, self.namelen);
        put_u32(out, self.frsize);
        put_u32(out, self.padding);
        put_u32(out, self.spare[0]);
        put_u32(out, self.spare[1]);
        put_u32(out, self.spare[2]);
        put_u32(out, self.spare[3]);
        put_u32(out, self.spare[4]);
        put_u32(out, self.spare[5]);
        assert(out@ =~= old(out)@ + self.to_wire());
    }

    proof fn lemma_wire(self) {
        lemma_auto_spec_u32_to_from_le_bytes();
        lemma_auto_spec_u64_to_from_le_bytes();
        let wire = self.to_wire();
        assert(wire.subrange(0, 8) =~= spec_u64_to_le_bytes(self.blocks));
        assert(wire.subrange(8, 16) =~= spec_u64_to_le_bytes(self.bfree));
        assert(wire.subrange(16, 24) =~= spec_u64_to_le_bytes(self.bavail));
        assert(wire.subrange(24, 32) =~= spec_u64_to_le_bytes(self.files));
        assert(wire.subrange(32, 40) =~= spec_u64_to_le_bytes(self.ffree));
        assert(wire.subrange(40, 44) =~= spec_u32_to_le_bytes(self.bsize));
        assert(wire.subrange(44, 48) =~= spec_u32_to_le_bytes(self.namelen));
        assert(wire.subrange(48, 52) =~= spec_u32_to_le_bytes(self.frsize));
        assert(wire.subrange(52, 56) =~= spec_u32_to_le_bytes(self.padding));
        assert(wire.subrange(56, 60) =~= spec_u32_to_le_bytes(self.spare[0]));
        assert(wire.subrange(60, 64) =~= spec_u32_to_le_bytes(self.spare[1]));
        assert(wire.subrange(64, 68) =~= spec_u32_to_le_bytes(self.spare[2]));
        assert(wire.subrange(68, 72) =~= spec_u32_to_le_bytes(self.spare[3]));
        assert(wire.subrange(72, 76) =~= spec_u32_to_le_bytes(self.spare[4]));
        assert(wire.subrange(76, 80) =~= spec_u32_to_le_bytes(self.spare[5]));
        let back = Self::from_wire(wire);
        assert(back.spare =~= self.spare);
    }

    proof fn lemma_wire_len() {
    }

    proof fn lemma_view(self) {
    }

    proof fn lemma_unwire(bytes: Seq<u8>) {
        lemma_auto_spec_u32_to_from_le_bytes();
        lemma_auto_spec_u64_to_from_le_bytes();
        assert(Self::from_wire(bytes).to_wire() =~= bytes);
    }
}

/// Answer to an extended-attribute size inquiry.
#[derive(Clone, Copy, Debug, PartialEq, Eq, Structural)]
pub struct GetxattrOut {
    pub size: u32,
    pub padding: u32,
}

impl View for GetxattrOut {
    type V = GetxattrOut;

    open spec fn view(&self) -> GetxattrOut {
        *self
    }
}

impl Pod for GetxattrOut {
    open spec fn wire_len() -> nat {
        8
    }

    open spec fn to_wire(self) -> Seq<u8> {
        spec_u32_to_le_bytes(self.size)
            + spec_u32_to_le_bytes(self.padding)
    }

    open spec fn from_wire(bytes: Seq<u8>) -> Self {
        GetxattrOut {
            size: spec_u32_from_le_bytes(bytes.subrange(0, 4)),
            padding: spec_u32_from_le_bytes(bytes.subrange(4, 8)),
        }
    }

    fn size() -> (n: usize) {
        8
    }

    fn decode(bytes: &[u8]) -> (record: Self) {
        GetxattrOut {
            size: u32_from_le_bytes(slice_subrange(bytes, 0, 4)),
            padding: u32_from_le_bytes(slice_subrange(bytes, 4, 8)),
        }
    }

    fn encode(&self, out: &mut Vec<u8>) {
        put_u32(out, self.size);
        put_u32(out, self.padding);
        assert(out@ =~= old(out)@ + self.to_wire());
    }

    proof fn lemma_wire(self) {
        lemma_auto_spec_u32_to_from_le_bytes();
        let wire = self.to_wire();
        assert(wire.subrange(0, 4) =~= spec_u32_to_le_bytes(self.size));
        assert(wire.subrange(4, 8) =~= spec_u32_to_le_bytes(self.padding));
    }

    proof fn lemma_wire_len() {
    }

    proof fn lemma_view(self) {
    }

    proof fn lemma_unwire(bytes: Seq<u8>) {
        lemma_auto_spec_u32_to_from_le_bytes();
        assert(Self::from_wire(bytes).to_wire() =~= bytes);
    }
}

/// Answer to an extended-attribute list size inquiry.
#[derive(Clone, Copy, Debug, PartialEq, Eq, Structural)]
pub struct ListxattrOut {
    pub getxattr_out: GetxattrOut,
}

impl View for ListxattrOut {
    type V = ListxattrOut;

    open spec fn view(&self) -> ListxattrOut {
        *self
    }
}

impl Pod for ListxattrOut {
    open spec fn wire_len() -> nat {
        8
    }

    open spec fn to_wire(self) -> Seq<u8> {
        self.getxattr_out.to_wire()
    }

    open spec fn from_wire(bytes: Seq<u8>) -> Self {
        ListxattrOut {
            getxattr_out: GetxattrOut::from_wire(bytes.subrange(0, 8)),
        }
    }

    fn size() -> (n: usize) {
        8
    }

    fn decode(bytes: &[u8]) -> (record: Self) {
        ListxattrOut {
            getxattr_out: GetxattrOut::decode(slice_subrange(bytes, 0, 8)),
        }
    }

    fn encode(&self, out: &mut Vec<u8>) {
        self.getxattr_out.encode(out);
        assert(out@ =~= old(out)@ + self.to_wire());
    }

    proof fn lemma_wire(self) {
        self.getxattr_out.lemma_wire();
        let wire = self.to_wire();
        assert(wire.subrange(0, 8) =~= self.getxattr_out.to_wire());
    }

    proof fn lemma_wire_len() {
    }

    proof fn lemma_view(self) {
    }

    proof fn lemma_unwire(bytes: Seq<u8>) {
        GetxattrOut::lemma_unwire(bytes.subrange(0, 8));
        assert(Self::from_wire(bytes).to_wire() =~= bytes);
    }
}

/// Answer to the handshake request.
#[derive(Clone, Copy, Debug)]
pub struct InitOut {
    pub major: u32,
    pub minor: u32,
    pub max_readahead: u32,
    pub flags: u32,
    pub max_background: u16,
    pub congestion_threshold: u16,
    pub max_write: u32,
    pub time_gran: u32,
    pub max_pages: u16,
    pub padding: u16,
    pub unused: [u32; 8],
}

impl View for InitOut {
    type V = InitOut;

    open spec fn view(&self) -> InitOut {
        *self
    }
}

impl Pod for InitOut {
    open spec fn wire_len() -> nat {
        64
    }

    open spec fn to_wire(self) -> Seq<u8> {
        spec_u32_to_le_bytes(self.major)
            + spec_u32_to_le_bytes(self.minor)
            + spec_u32_to_le_bytes(self.max_readahead)
            + spec_u32_to_le_bytes(self.flags)
            + spec_u16_to_le_bytes(self.max_background)
            + spec_u16_to_le_bytes(self.congestion_threshold)
            + spec_u32_to_le_bytes(self.max_write)
            + spec_u32_to_le_bytes(self.time_gran)
            + spec_u16_to_le_bytes(self.max_pages)
            + spec_u16_to_le_bytes(self.padding)
            + spec_u32_to_le_bytes(self.unused[0])
            + spec_u32_to_le_bytes(self.unused[1])
            + spec_u32_to_le_bytes(self.unused[2])
            + spec_u32_to_le_bytes(self.unused[3])
            + spec_u32_to_le_bytes(self.unused[4])
            + spec_u32_to_le_bytes(self.unused[5])
            + spec_u32_to_le_bytes(self.unused[6])
            + spec_u32_to_le_bytes(self.unused[7])
    }

    open spec fn from_wire(bytes: Seq<u8>) -> Self {
        InitOut {
            major: spec_u32_from_le_bytes(bytes.subrange(0, 4)),
            minor: spec_u32_from_le_bytes(bytes.subrange(4, 8)),
            max_readahead: spec_u32_from_le_bytes(bytes.subrange(8, 12)),
            flags: spec_u32_from_le_bytes(bytes.subrange(12, 16)),
            max_background: spec_u16_from_le_bytes(bytes.subrange(16, 18)),
            congestion_threshold: spec_u16_from_le_bytes(bytes.subrange(18, 20)),
            max_write: spec_u32_from_le_bytes(bytes.subrange(20, 24)),
            time_gran: spec_u32_from_le_bytes(bytes.subrange(24, 28)),
            max_pages: spec_u16_from_le_bytes(bytes.subrange(28, 30)),
            padding: spec_u16_from_le_bytes(bytes.subrange(30, 32)),
            unused: [
                spec_u32_from_le_bytes(bytes.subrange(32, 36)),
                spec_u32_from_le_bytes(bytes.subrange(36, 40)),
                spec_u32_from_le_bytes(bytes.subrange(40, 44)),
                spec_u32_from_le_bytes(bytes.subrange(44, 48)),
                spec_u32_from_le_bytes(bytes.subrange(48, 52)),
                spec_u32_from_le_bytes(bytes.subrange(52, 56)),
                spec_u32_from_le_bytes(bytes.subrange(56, 60)),
                spec_u32_from_le_bytes(bytes.subrange(60, 64)),
            ],
        }
    }

    fn size() -> (n: usize) {
        64
    }

    fn decode(bytes: &[u8]) -> (record: Self) {
        InitOut {
            major: u32_from_le_bytes(slice_subrange(bytes, 0, 4)),
            minor: u32_from_le_bytes(slice_subrange(bytes, 4, 8)),
            max_readahead: u32_from_le_bytes(slice_subrange(bytes, 8, 12)),
            flags: u32_from_le_bytes(slice_subrange(bytes, 12, 16)),
            max_background: u16_from_le_bytes(slice_subrange(bytes, 16, 18)),
            congestion_threshold: u16_from_le_bytes(slice_subrange(bytes, 18, 20)),
            max_write: u32_from_le_bytes(slice_subrange(bytes, 20, 24)),
            time_gran: u32_from_le_bytes(slice_subrange(bytes, 24, 28)),
            max_pages: u16_from_le_bytes(slice_subrange(bytes, 28, 30)),
            padding: u16_from_le_bytes(slice_subrange(bytes, 30, 32)),
            unused: [
                u32_from_le_bytes(slice_subrange(bytes, 32, 36)),
                u32_from_le_bytes(slice_subrange(bytes, 36, 40)),
                u32_from_le_bytes(slice_subrange(bytes, 40, 44)),
                u32_from_le_bytes(slice_subrange(bytes, 44, 48)),
                u32_from_le_bytes(slice_subrange(bytes, 48, 52)),
                u32_from_le_bytes(slice_subrange(bytes, 52, 56)),
                u32_from_le_bytes(slice_subrange(bytes, 56, 60)),
                u32_from_le_bytes(slice_subrange(bytes, 60, 64)),
            ],
        }
    }

    fn encode(&self, out: &mut Vec<u8>) {
        put_u32(out, self.major);
        put_u32(out, self.minor);
        put_u32(out, self.max_readahead);
        put_u32(out, self.flags);
        put_u16(out, self.max_background);
        put_u16(out, self.congestion_threshold);
        put_u32(out, self.max_write);
        put_u32(out, self.time_gran);
        put_u16(out, self.max_pages);
        put_u16(out, self.padding);
        put_u32(out, self.unused[0]);
        put_u32(out, self.unused[1]);
        put_u32(out, self.unused[2]);
        put_u32(out, self.unused[3]);
        put_u32(out, self.unused[4]);
        put_u32(out, self.unused[5]);
        put_u32(out, self.unused[6]);
        put_u32(out, self.unused[7]);
        assert(out@ =~= old(out)@ + self.to_wire());
    }

    proof fn lemma_wire(self) {
        lemma_auto_spec_u16_to_from_le_bytes();
        lemma_auto_spec_u32_to_from_le_bytes();
        let wire = self.to_wire();
        assert(wire.subrange(0, 4) =~= spec_u32_to_le_bytes(self.major));
        assert(wire.subrange(4, 8) =~= spec_u32_to_le_bytes(self.minor));
        assert(wire.subrange(8, 12) =~= spec_u32_to_le_bytes(self.max_readahead));
        assert(wire.subrange(12, 16) =~= spec_u32_to_le_bytes(self.flags));
        assert(wire.subrange(16, 18) =~= spec_u16_to_le_bytes(self.max_background));
        assert(wire.subrange(18, 20) =~= spec_u16_to_le_bytes(self.congestion_threshold));
        assert(wire.subrange(20, 24) =~= spec_u32_to_le_bytes(self.max_write));
        assert(wire.subrange(24, 28) =~= spec_u32_to_le_bytes(self.time_gran));
        assert(wire.subrange(28, 30) =~= spec_u16_to_le_bytes(self.max_pages));
        assert(wire.subrange(30, 32) =~= spec_u16_to_le_bytes(self.padding));
        assert(wire.subrange(32, 36) =~= spec_u32_to_le_bytes(self.unused[0]));
        assert(wire.subrange(36, 40) =~= spec_u32_to_le_bytes(self.unused[1]));
        assert(wire.subrange(40, 44) =~= spec_u32_to_le_bytes(self.unused[2]));
        assert(wire.subrange(44, 48) =~= spec_u32_to_le_bytes(self.unused[3]));
        assert(wire.subrange(48, 52) =~= spec_u32_to_le_bytes(self.unused[4]));
        assert(wire.subrange(52, 56) =~= spec_u32_to_le_bytes(self.unused[5]));
        assert(wire.subrange(56, 60) =~= spec_u32_to_le_bytes(self.unused[6]));
        assert(wire.subrange(60, 64) =~= spec_u32_to_le_bytes(self.unused[7]));
        let back = Self::from_wire(wire);
        assert(back.unused =~= self.unused);
    }

    proof fn lemma_wire_len() {
    }

    proof fn lemma_view(self) {
    }

    proof fn lemma_unwire(bytes: Seq<u8>) {
        lemma_auto_spec_u16_to_from_le_bytes();
        lemma_auto_spec_u32_to_from_le_bytes();
        assert(Self::from_wire(bytes).to_wire() =~= bytes);
    }
}

/// Answer to a block-map request.
#[derive(Clone, Copy, Debug, PartialEq, Eq, Structural)]
pub struct BmapOut {
    pub block: u64,
}

impl View for BmapOut {
    type V = BmapOut;

    open spec fn view(&self) -> BmapOut {
        *self
    }
}

impl Pod for BmapOut {
    open spec fn wire_len() -> nat {
        8
    }

    open spec fn to_wire(self) -> Seq<u8> {
        spec_u64_to_le_bytes(self.block)
    }

    open spec fn from_wire(bytes: Seq<u8>) -> Self {
        BmapOut {
            block: spec_u64_from_le_bytes(bytes.subrange(0, 8)),
        }
    }

    fn size() -> (n: usize) {
        8
    }

    fn decode(bytes: &[u8]) -> (record: Self) {
        BmapOut {
            block: u64_from_le_bytes(slice_subrange(bytes, 0, 8)),
        }
    }

    fn encode(&self, out: &mut Vec<u8>) {
        put_u64(out, self.block);
        assert(out@ =~= old(out)@ + self.to_wire());
    }

    proof fn lemma_wire(self) {
        lemma_auto_spec_u64_to_from_le_bytes();
        let wire = self.to_wire();
        assert(wire.subrange(0, 8) =~= spec_u64_to_le_bytes(self.block));
    }

    proof fn lemma_wire_len() {
    }

    proof fn lemma_view(self) {
    }

    proof fn lemma_unwire(bytes: Seq<u8>) {
        lemma_auto_spec_u64_to_from_le_bytes();
        assert(Self::from_wire(bytes).to_wire() =~= bytes);
    }
}

} // verus!
