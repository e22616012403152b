//! Reading, writing and flushing.

use vstd::prelude::*;

use crate::ops::traits::{
    ReplyGather, ReplyOk, RequestData, RequestFlags, RequestHandle, RequestOffset, RequestSize,
};
use crate::ops::FromRequest;
use crate::proto::flags::FSYNC_ALL;
use crate::proto::{self, FsyncFlags, Pod, Structured, WriteOut};
use crate::session::reply_frame;
use crate::util::{concat, segment_views, OutputChain};
use crate::{Done, Operation, Reply, Request, Sealed};

verus! {

/// Asks what a symbolic link points to.
pub struct Readlink;

/// Reads from an open file.
pub struct Read;

/// Writes to an open file.
pub struct Write;

/// Has the data of an open file written through.
pub struct Fsync;

/// Is sent whenever a descriptor of an open file is closed.
pub struct Flush;

/// Has the contents of an open directory written through.
pub struct Fsyncdir;

/// What the reply to a write remembers: how many bytes the kernel said it sent.
pub struct WriteState {
    pub size: u32,
}

/// The operation is answered by saying that all of it was done.
pub trait ReplyAll<'o>: Operation<'o> {
    /// The payload that says so.
    spec fn all_payload(reply: Reply<'o, Self>) -> Seq<u8>;

    fn all(reply: Reply<'o, Self>) -> (done: Done)
        ensures
            done@ == Some(reply_frame(reply.unique(), 0, Self::all_payload(reply))),
    ;
}

impl Sealed for Readlink {

}

impl Sealed for Read {

}

impl Sealed for Write {

}

impl Sealed for Fsync {

}

impl Sealed for Flush {

}

impl Sealed for Fsyncdir {

}

impl<'o> Operation<'o> for Readlink {
    type RequestBody = ();

    type ReplyState = ();

    proof fn lemma_grammar() {
        assert(<() as Structured<'o>>::positioned(true));
    }
}

impl<'o> Operation<'o> for Read {
    type RequestBody = proto::ReadIn;

    type ReplyState = ();

    proof fn lemma_grammar() {
        assert(<proto::ReadIn as Structured<'o>>::positioned(true));
    }
}

impl<'o> Operation<'o> for Write {
    type RequestBody = (proto::WriteIn, &'o [u8]);

    type ReplyState = WriteState;

    proof fn lemma_grammar() {
        assert(<(proto::WriteIn, &'o [u8]) as Structured<'o>>::positioned(true));
    }
}

impl<'o> Operation<'o> for Fsync {
    type RequestBody = proto::FsyncIn;

    type ReplyState = ();

    proof fn lemma_grammar() {
        assert(<proto::FsyncIn as Structured<'o>>::positioned(true));
    }
}

impl<'o> Operation<'o> for Flush {
    type RequestBody = proto::FlushIn;

    type ReplyState = ();

    proof fn lemma_grammar() {
        assert(<proto::FlushIn as Structured<'o>>::positioned(true));
    }
}

impl<'o> Operation<'o> for Fsyncdir {
    type RequestBody = proto::FsyncdirIn;

    type ReplyState = ();

    proof fn lemma_grammar() {
        assert(<proto::FsyncdirIn as Structured<'o>>::positioned(true));
    }
}

impl<'o> ReplyGather<'o> for Readlink {
    fn gather(reply: Reply<'o, Self>, fragments: &[&[u8]]) -> (done: Done) {
        reply.chain(OutputChain::tail(fragments))
    }
}

impl<'o> Reply<'o, Readlink> {
    /// The link points to `target`.
    pub fn target(self, target: &[u8]) -> (done: Done)
        requires
            target@.len() <= crate::session::MAX_PAYLOAD,
        ensures
            done@ == Some(reply_frame(self.unique(), 0, target@)),
    {
        Readlink::slice(self, target)
    }

    /// The link points to the path whose pieces are `target`.
    pub fn gather_target(self, target: &[&[u8]]) -> (done: Done)
        requires
            concat(segment_views(target@)).len() <= crate::session::MAX_PAYLOAD,
        ensures
            done@ == Some(reply_frame(self.unique(), 0, concat(segment_views(target@)))),
    {
        Readlink::gather(self, target)
    }
}

impl<'o> RequestHandle<'o> for Read {
    open spec fn handle_of(request: &Request<'o, Self>) -> u64 {
        request.body().fh
    }

    fn handle(request: &Request<'o, Self>) -> (handle: u64) {
        request.body_ref().fh
    }
}

impl<'o> RequestOffset<'o> for Read {
    open spec fn offset_of(request: &Request<'o, Self>) -> u64 {
        request.body().offset
    }

    fn offset(request: &Request<'o, Self>) -> (offset: u64) {
        request.body_ref().offset
    }
}

impl<'o> RequestSize<'o> for Read {
    open spec fn size_of(request: &Request<'o, Self>) -> u32 {
        request.body().size
    }

    fn size(request: &Request<'o, Self>) -> (size: u32) {
        request.body_ref().size
    }
}

impl<'o> ReplyGather<'o> for Read {
    fn gather(reply: Reply<'o, Self>, fragments: &[&[u8]]) -> (done: Done) {
        reply.chain(OutputChain::tail(fragments))
    }
}

impl<'o> RequestHandle<'o> for Write {
    open spec fn handle_of(request: &Request<'o, Self>) -> u64 {
        request.body().0.fh
    }

    fn handle(request: &Request<'o, Self>) -> (handle: u64) {
        request.body_ref().0.fh
    }
}

impl<'o> RequestOffset<'o> for Write {
    open spec fn offset_of(request: &Request<'o, Self>) -> u64 {
        request.body().0.offset
    }

    fn offset(request: &Request<'o, Self>) -> (offset: u64) {
        request.body_ref().0.offset
    }
}

impl<'o> RequestData<'o> for Write {
    open spec fn data_of(request: &Request<'o, Self>) -> Seq<u8> {
        request.body().1@
    }

    fn data<'a>(request: &'a Request<'o, Self>) -> (data: &'a [u8]) {
        request.body_ref().1
    }
}

impl<'o> ReplyAll<'o> for Write {
    open spec fn all_payload(reply: Reply<'o, Self>) -> Seq<u8> {
        (WriteOut { size: reply.state().size, padding: 0 }).to_wire()
    }

    fn all(reply: Reply<'o, Self>) -> (done: Done) {
        let size = reply.state_ref().size;
        reply.single(&WriteOut { size, padding: 0 })
    }
}

impl<'o> RequestHandle<'o> for Fsync {
    open spec fn handle_of(request: &Request<'o, Self>) -> u64 {
        request.body().fh
    }

    fn handle(request: &Request<'o, Self>) -> (handle: u64) {
        request.body_ref().fh
    }
}

impl<'o> RequestFlags<'o> for Fsync {
    type Flags = FsyncFlags;

    open spec fn flags_fit(request: &Request<'o, Self>, flags: FsyncFlags) -> bool {
        flags@ == request.body().fsync_flags & FSYNC_ALL
    }

    fn flags(request: &Request<'o, Self>) -> (flags: FsyncFlags) {
        FsyncFlags::from_bits_truncate(request.body_ref().fsync_flags)
    }
}

impl<'o> ReplyOk<'o> for Fsync {
    fn ok(reply: Reply<'o, Self>) -> (done: Done) {
        reply.empty()
    }
}

impl<'o> RequestHandle<'o> for Flush {
    open spec fn handle_of(request: &Request<'o, Self>) -> u64 {
        request.body().fh
    }

    fn handle(request: &Request<'o, Self>) -> (handle: u64) {
        request.body_ref().fh
    }
}

impl<'o> ReplyOk<'o> for Flush {
    fn ok(reply: Reply<'o, Self>) -> (done: Done) {
        reply.empty()
    }
}

impl<'o> RequestHandle<'o> for Fsyncdir {
    open spec fn handle_of(request: &Request<'o, Self>) -> u64 {
        request.body().fsync_in.fh
    }

    fn handle(request: &Request<'o, Self>) -> (handle: u64) {
        request.body_ref().fsync_in.fh
    }
}

impl<'o> RequestFlags<'o> for Fsyncdir {
    type Flags = FsyncFlags;

    open spec fn flags_fit(request: &Request<'o, Self>, flags: FsyncFlags) -> bool {
        flags@ == request.body().fsync_in.fsync_flags & FSYNC_ALL
    }

    fn flags(request: &Request<'o, Self>) -> (flags: FsyncFlags) {
        FsyncFlags::from_bits_truncate(request.body_ref().fsync_in.fsync_flags)
    }
}

impl<'o> ReplyOk<'o> for Fsyncdir {
    fn ok(reply: Reply<'o, Self>) -> (done: Done) {
        reply.empty()
    }
}

/// The reply to a write acknowledges the size that the request states, whether or not that
/// many bytes came with it.
impl<'o> FromRequest<'o, Write> for WriteState {
    open spec fn spec_from_request(request: &Request<'o, Write>) -> Self {
        WriteState { size: request.body().0.size }
    }

    fn from_request(request: &Request<'o, Write>) -> (state: Self) {
        WriteState { size: request.body_ref().0.size }
    }
}

impl<'o> Request<'o, Write> {
    /// Whether as many bytes came with the request as it says.
    pub fn size_matches(&self) -> (yes: bool)
        ensures
            yes == (self.body().0.size == self.body().1@.len()),
    {
        self.body_ref().0.size as usize == self.body_ref().1.len()
    }
}

impl<'o, O: Operation<'o>> Reply<'o, O> {
    pub fn all(self) -> (done: Done)
        where O: ReplyAll<'o>
        ensures
            done@ == Some(reply_frame(self.unique(), 0, O::all_payload(self))),
    {
        O::all(self)
    }
}

} // verus!
