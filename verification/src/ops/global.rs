//! Operations on the mount as a whole.

use vstd::prelude::*;

use crate::io::FsInfo;
use crate::ops::traits::ReplyOk;
use crate::proto::flags::INIT_SUPPORTED;
use crate::proto::{
    self, InitFlags, InitOut, Pod, Structured, MAJOR_VERSION, TARGET_MINOR_VERSION,
};
use crate::session::reply_frame;
use crate::{Done, Operation, Reply, Sealed};

verus! {

/// Greets the kernel: the first request of a session.
pub struct Init;

/// Asks for statistics of the filesystem.
pub struct Statfs;

/// How many bytes of a request buffer the header and the fixed part of a write take.
pub const WRITE_OVERHEAD: usize = 80;

/// What the reply to the handshake remembers: the capabilities that the kernel offers, and
/// the size of the session's request buffers as a number of pages and the size of a page.
///
/// A buffer has room for the head of a write, and its size and page count can be told to the
/// kernel in the fields that the protocol has for them.
pub struct InitState {
    kernel_flags: InitFlags,
    buffer_pages: usize,
    page_size: usize,
}

/// Whether buffers of `buffer_pages` pages of `page_size` bytes can be offered to the kernel.
pub open spec fn buffers_fit(buffer_pages: usize, page_size: usize) -> bool {
    &&& buffer_pages <= u16::MAX
    &&& WRITE_OVERHEAD <= buffer_pages * page_size <= u32::MAX
}

/// The operation is answered with statistics of the filesystem.
pub trait ReplyFsInfo<'o>: Operation<'o> {
    fn info(reply: Reply<'o, Self>, info: &FsInfo) -> (done: Done)
        ensures
            done@ == Some(reply_frame(reply.unique(), 0, info.record().to_wire())),
    ;
}

impl InitState {
    #[verifier::type_invariant]
    spec fn fits(self) -> bool {
        buffers_fit(self.buffer_pages, self.page_size)
    }

    pub closed spec fn kernel_flags(&self) -> InitFlags {
        self.kernel_flags
    }

    pub closed spec fn buffer_pages(&self) -> usize {
        self.buffer_pages
    }

    pub closed spec fn page_size(&self) -> usize {
        self.page_size
    }

    pub(crate) fn new(kernel_flags: InitFlags, buffer_pages: usize, page_size: usize) -> (state:
        Self)
        requires
            buffers_fit(buffer_pages, page_size),
        ensures
            state.kernel_flags() == kernel_flags,
            state.buffer_pages() == buffer_pages,
            state.page_size() == page_size,
    {
        InitState { kernel_flags, buffer_pages, page_size }
    }
}

/// The answer to the handshake: this server's version, the capabilities that both sides
/// have, and the largest write that a request buffer can take.
pub open spec fn init_out(state: InitState) -> InitOut {
    InitOut {
        major: MAJOR_VERSION,
        minor: TARGET_MINOR_VERSION,
        max_readahead: 0,
        flags: state.kernel_flags()@ & INIT_SUPPORTED,
        max_background: 0,
        congestion_threshold: 0,
        max_write: (state.buffer_pages() * state.page_size() - WRITE_OVERHEAD) as u32,
        time_gran: 1,
        max_pages: state.buffer_pages() as u16,
        padding: 0,
        unused: [0u32, 0u32, 0u32, 0u32, 0u32, 0u32, 0u32, 0u32],
    }
}

impl Sealed for Init {

}

impl Sealed for Statfs {

}

impl<'o> Operation<'o> for Init {
    type RequestBody = proto::InitIn;

    type ReplyState = InitState;

    proof fn lemma_grammar() {
        assert(<proto::InitIn as Structured<'o>>::positioned(true));
    }
}

impl<'o> Operation<'o> for Statfs {
    type RequestBody = ();

    type ReplyState = ();

    proof fn lemma_grammar() {
        assert(<() as Structured<'o>>::positioned(true));
    }
}

impl<'o> ReplyOk<'o> for Init {
    open spec fn ok_reply(reply: Reply<'o, Self>) -> Option<Seq<u8>> {
        Some(reply_frame(reply.unique(), 0, init_out(reply.state()).to_wire()))
    }

    fn ok(reply: Reply<'o, Self>) -> (done: Done) {
        let state = reply.state_ref();
        proof {
            use_type_invariant(state);
        }
        let supported = InitFlags::from_bits_truncate(INIT_SUPPORTED);
        let flags = state.kernel_flags.intersection(supported);
        let buffer_size = state.buffer_pages * state.page_size;
        let max_write = buffer_size - WRITE_OVERHEAD;
        let unused: [u32; 8] = [0, 0, 0, 0, 0, 0, 0, 0];
        let record = InitOut {
            major: MAJOR_VERSION,
            minor: TARGET_MINOR_VERSION,
            max_readahead: 0,
            flags: flags.bits(),
            max_background: 0,
            congestion_threshold: 0,
            max_write: max_write as u32,
            time_gran: 1,
            max_pages: state.buffer_pages as u16,
            padding: 0,
            unused,
        };
        proof {
            let kernel = state.kernel_flags@;
            assert(kernel & (INIT_SUPPORTED & crate::proto::flags::INIT_ALL) == kernel
                & INIT_SUPPORTED) by (bit_vector);
            assert(record.unused =~= init_out(*state).unused);
            assert(record == init_out(*state));
        }
        reply.single(&record)
    }
}

impl<'o> ReplyFsInfo<'o> for Statfs {
    fn info(reply: Reply<'o, Self>, info: &FsInfo) -> (done: Done) {
        let record = info.into_record();
        reply.single(&record)
    }
}

impl<'o, O: Operation<'o>> Reply<'o, O> {
    pub fn info(self, info: &FsInfo) -> (done: Done)
        where O: ReplyFsInfo<'o>
        ensures
            done@ == Some(reply_frame(self.unique(), 0, info.record().to_wire())),
    {
        O::info(self, info)
    }
}

} // verus!
