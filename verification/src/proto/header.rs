//! The two fixed headers.

use vstd::bytes::*;
use vstd::prelude::*;
use vstd::slice::*;

use super::{put_u32, put_u64, Pod};

verus! {

/// The fixed header that starts every request.
#[derive(Clone, Copy, Debug, PartialEq, Eq, Structural)]
pub struct InHeader {
    pub len: u32,
    pub opcode: u32,
    pub unique: u64,
    pub ino: u64,
    pub uid: u32,
    pub gid: u32,
    pub pid: u32,
    pub padding: u32,
}

impl View for InHeader {
    type V = InHeader;

    open spec fn view(&self) -> InHeader {
        *self
    }
}

impl Pod for InHeader {
    open spec fn wire_len() -> nat {
        40
    }

    open spec fn to_wire(self) -> Seq<u8> {
        spec_u32_to_le_bytes(self.len)
            + spec_u32_to_le_bytes(self.opcode)
            + spec_u64_to_le_bytes(self.unique)
            + spec_u64_to_le_bytes(self.ino)
            + spec_u32_to_le_bytes(self.uid)
            + spec_u32_to_le_bytes(self.gid)
            + spec_u32_to_le_bytes(self.pid)
            + spec_u32_to_le_bytes(self.padding)
    }

    open spec fn from_wire(bytes: Seq<u8>) -> Self {
        InHeader {
            len: spec_u32_from_le_bytes(bytes.subrange(0, 4)),
            opcode: spec_u32_from_le_bytes(bytes.subrange(4, 8)),
            unique: spec_u64_from_le_bytes(bytes.subrange(8, 16)),
            ino: spec_u64_from_le_bytes(bytes.subrange(16, 24)),
            uid: spec_u32_from_le_bytes(bytes.subrange(24, 28)),
            gid: spec_u32_from_le_bytes(bytes.subrange(28, 32)),
            pid: spec_u32_from_le_bytes(bytes.subrange(32, 36)),
            padding: spec_u32_from_le_bytes(bytes.subrange(36, 40)),
        }
    }

    fn size() -> (n: usize) {
        40
    }

    fn decode(bytes: &[u8]) -> (record: Self) {
        InHeader {
            len: u32_from_le_bytes(slice_subrange(bytes, 0, 4)),
            opcode: u32_from_le_bytes(slice_subrange(bytes, 4, 8)),
            unique: u64_from_le_bytes(slice_subrange(bytes, 8, 16)),
            ino: u64_from_le_bytes(slice_subrange(bytes, 16, 24)),
            uid: u32_from_le_bytes(slice_subrange(bytes, 24, 28)),
            gid: u32_from_le_bytes(slice_subrange(bytes, 28, 32)),
            pid: u32_from_le_bytes(slice_subrange(bytes, 32, 36)),
            padding: u32_from_le_bytes(slice_subrange(bytes, 36, 40)),
        }
    }

    fn encode(&self, out: &mut Vec<u8>) {
        put_u32(out, self.len);
        put_u32(out, self.opcode);
        put_u64(out, self.unique);
        put_u64(out, self.ino);
        put_u32(out, self.uid);
        put_u32(out, self.gid);
        put_u32(out, self.pid);
        put_u32(out, self.padding);
        assert(out@ =~= old(out)@ + self.to_wire());
    }

    proof fn lemma_wire(self) {
        lemma_auto_spec_u32_to_from_le_bytes();
        lemma_auto_spec_u64_to_from_le_bytes();
        let wire = self.to_wire();
        assert(wire.subrange(0, 4) =~= spec_u32_to_le_bytes(self.len));
        assert(wire.subrange(4, 8) =~= spec_u32_to_le_bytes(self.opcode));
        assert(wire.subrange(8, 16) =~= spec_u64_to_le_bytes(self.unique));
        assert(wire.subrange(16, 24) =~= spec_u64_to_le_bytes(self.ino));
        assert(wire.subrange(24, 28) =~= spec_u32_to_le_bytes(self.uid));
        assert(wire.subrange(28, 32) =~= spec_u32_to_le_bytes(self.gid));
        assert(wire.subrange(32, 36) =~= spec_u32_to_le_bytes(self.pid));
        assert(wire.subrange(36, 40) =~= spec_u32_to_le_bytes(self.padding));
    }

    proof fn lemma_wire_len() {
    }

    proof fn lemma_view(self) {
    }

    proof fn lemma_unwire(bytes: Seq<u8>) {
        lemma_auto_spec_u32_to_from_le_bytes();
        lemma_auto_spec_u64_to_from_le_bytes();
        assert(Self::from_wire(bytes).to_wire() =~= bytes);
    }
}

/// The fixed header that starts every reply.
#[derive(Clone, Copy, Debug, PartialEq, Eq, Structural)]
pub struct OutHeader {
    pub len: u32,
    pub error: i32,
    pub unique: u64,
}

impl View for OutHeader {
    type V = OutHeader;

    open spec fn view(&self) -> OutHeader {
        *self
    }
}

impl Pod for OutHeader {
    open spec fn wire_len() -> nat {
        16
    }

    open spec fn to_wire(self) -> Seq<u8> {
        spec_u32_to_le_bytes(self.len)
            + spec_u32_to_le_bytes(self.error as u32)
            + spec_u64_to_le_bytes(self.unique)
    }

    open spec fn from_wire(bytes: Seq<u8>) -> Self {
        OutHeader {
            len: spec_u32_from_le_bytes(bytes.subrange(0, 4)),
            error: spec_u32_from_le_bytes(bytes.subrange(4, 8)) as i32,
            unique: spec_u64_from_le_bytes(bytes.subrange(8, 16)),
        }
    }

    fn size() -> (n: usize) {
        16
    }

    fn decode(bytes: &[u8]) -> (record: Self) {
        OutHeader {
            len: u32_from_le_bytes(slice_subrange(bytes, 0, 4)),
            error: u32_from_le_bytes(slice_subrange(bytes, 4, 8)) as i32,
            unique: u64_from_le_bytes(slice_subrange(bytes, 8, 16)),
        }
    }

    fn encode(&self, out: &mut Vec<u8>) {
        put_u32(out, self.len);
        put_u32(out, self.error as u32);
        put_u64(out, self.unique);
        assert(out@ =~= old(out)@ + self.to_wire());
    }

    proof fn lemma_wire(self) {
        lemma_auto_spec_u32_to_from_le_bytes();
        lemma_auto_spec_u64_to_from_le_bytes();
        let wire = self.to_wire();
        assert(wire.subrange(0, 4) =~= spec_u32_to_le_bytes(self.len));
        assert(wire.subrange(4, 8) =~= spec_u32_to_le_bytes(self.error as u32));
        assert(wire.subrange(8, 16) =~= spec_u64_to_le_bytes(self.unique));
        let error = self.error;
        assert((error as u32) as i32 == error) by (bit_vector);
    }

    proof fn lemma_wire_len() {
    }

    proof fn lemma_view(self) {
    }

    proof fn lemma_unwire(bytes: Seq<u8>) {
        lemma_auto_spec_u32_to_from_le_bytes();
        lemma_auto_spec_u64_to_from_le_bytes();
        let raw = spec_u32_from_le_bytes(bytes.subrange(4, 8));
        assert((raw as i32) as u32 == raw) by (bit_vector);
        assert(Self::from_wire(bytes).to_wire() =~= bytes);
    }
}

} // verus!
