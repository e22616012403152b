//! Opening, closing and checking access.

use vstd::prelude::*;

use crate::errno;
use crate::io::{
    AccessFlags, Attrs, EntryType, Known, Mode, OpenFlags, Stat, ACCESS_ALL, ACCESS_MODE,
};
use crate::ops::traits::{
    known_entry, ReplyKnown, ReplyOk, RequestFlags, RequestHandle, RequestMode, RequestName,
};
use crate::ops::{make_entry, FromRequest};
use crate::proto::flags::{DIRECT_IO, NONSEEKABLE, STREAM};
use crate::proto::{self, bytes_of, CStr, EntryOut, OpenOut, OpenOutFlags, Pod, Structured};
use crate::session::{failure_frame, reply_frame};
use crate::util::{concat, segment_views, OutputChain};
use crate::{Done, Ino, Operation, Reply, Request, Sealed, Ttl};

verus! {

/// Opens a file.
pub struct Open;

/// Closes an open file.
pub struct Release;

/// Opens a directory.
pub struct Opendir;

/// Closes an open directory.
pub struct Releasedir;

/// Checks whether the caller may access an inode.
pub struct Access;

/// Makes a file and opens it.
pub struct Create;

/// The flag bits that an answer carries for a reply in state `flags`: those of the state.
pub open spec fn spec_open_flags_bits(flags: OpenOutFlags) -> u32 {
    flags@
}

/// The record that answers an open with `handle` from a reply in state `flags`.
pub open spec fn open_out(handle: u64, flags: OpenOutFlags) -> OpenOut {
    OpenOut { fh: handle, open_flags: spec_open_flags_bits(flags), padding: 0 }
}

pub(crate) fn open_flags_bits(flags: OpenOutFlags) -> (bits: u32)
    ensures
        bits == spec_open_flags_bits(flags),
{
    flags.bits()
}

/// Two segments join to the first and then the second.
pub proof fn lemma_concat_two(first: Seq<u8>, second: Seq<u8>)
    ensures
        concat(seq![first, second]) == first + second,
{
    let both = seq![first, second];
    assert(both.drop_last() =~= seq![first]);
    crate::ops::lemma_concat_one(first);
}

/// The operation opens something, and its answer says how the kernel is to treat it.
pub trait ReplyOpen<'o>: Operation<'o, ReplyState = OpenOutFlags> {
    /// Answers with `handle`, by which later requests will name what was opened.
    fn ok_with_handle(reply: Reply<'o, Self>, handle: u64) -> (done: Done)
        ensures
            done@ == Some(
                reply_frame(reply.unique(), 0, open_out(handle, reply.state()).to_wire()),
            ),
    {
        let open_flags = open_flags_bits(*reply.state_ref());
        reply.single(&OpenOut { fh: handle, open_flags, padding: 0 })
    }

    /// Answers with `record` for the inode that was made, and with `handle`.
    fn known_with_handle_as(reply: Reply<'o, Self>, record: &EntryOut, handle: u64) -> (done:
        Done)
        ensures
            done@ == Some(
                reply_frame(
                    reply.unique(),
                    0,
                    record.to_wire() + open_out(handle, reply.state()).to_wire(),
                ),
            ),
    {
        let open = OpenOut {
            fh: handle,
            open_flags: open_flags_bits(*reply.state_ref()),
            padding: 0,
        };
        let entry_bytes = bytes_of(record);
        let open_bytes = bytes_of(&open);
        let segments = [entry_bytes.as_slice(), open_bytes.as_slice()];
        proof {
            lemma_concat_two(entry_bytes@, open_bytes@);
            assert(segment_views(segments@) =~= seq![entry_bytes@, open_bytes@]);
        }
        reply.chain(OutputChain::tail(segments.as_slice()))
    }

    /// Answers with what `known` reports of its inode and with `handle`, and then lets
    /// `known` know that the kernel holds one more reference to it.
    fn known_with_handle<K: Known>(
        reply: Reply<'o, Self>,
        known: K,
        ttl: Ttl,
        handle: u64,
    ) -> (done: Done)
        ensures
            exists|ino: Ino, inode_type: EntryType, attrs: Attrs, attrs_ttl: Ttl|
                done@ == Some(
                    reply_frame(
                        reply.unique(),
                        0,
                        (#[trigger] known_entry(ino, inode_type, attrs, attrs_ttl, ttl)).to_wire()
                            + open_out(handle, reply.state()).to_wire(),
                    ),
                ),
    {
        let (attrs, attrs_ttl) = known.inode().attrs();
        let ino = known.inode().ino();
        let inode_type = known.inode().inode_type();
        let record = make_entry((ino, ttl), (attrs.stamp(ino, inode_type), attrs_ttl));
        assert(record == known_entry(ino, inode_type, attrs, attrs_ttl, ttl));
        let done = Self::known_with_handle_as(reply, &record, handle);
        known.unveil();
        done
    }

    /// Has the kernel pass every read and write on, past its cache.
    fn force_direct_io(reply: &mut Reply<'o, Self>)
        ensures
            final(reply).unique() == old(reply).unique(),
            final(reply).state()@ == old(reply).state()@ | DIRECT_IO,
    {
        let flags = reply.state_ref().union(OpenOutFlags::from_bits_truncate(DIRECT_IO));
        assert(DIRECT_IO & crate::proto::flags::OPEN_OUT_ALL == DIRECT_IO) by (bit_vector);
        let unique = reply.id();
        *reply = Reply::new(unique, flags);
    }

    /// Tells the kernel that the file cannot be sought in.
    fn non_seekable(reply: &mut Reply<'o, Self>)
        ensures
            final(reply).unique() == old(reply).unique(),
            final(reply).state()@ == old(reply).state()@ | NONSEEKABLE,
    {
        let flags = reply.state_ref().union(OpenOutFlags::from_bits_truncate(NONSEEKABLE));
        assert(NONSEEKABLE & crate::proto::flags::OPEN_OUT_ALL == NONSEEKABLE) by (bit_vector);
        let unique = reply.id();
        *reply = Reply::new(unique, flags);
    }

    /// Tells the kernel that the file is a stream, without positions.
    fn is_stream(reply: &mut Reply<'o, Self>)
        ensures
            final(reply).unique() == old(reply).unique(),
            final(reply).state()@ == old(reply).state()@ | STREAM,
    {
        let flags = reply.state_ref().union(OpenOutFlags::from_bits_truncate(STREAM));
        assert(STREAM & crate::proto::flags::OPEN_OUT_ALL == STREAM) by (bit_vector);
        let unique = reply.id();
        *reply = Reply::new(unique, flags);
    }
}

/// The operation can be refused for want of permission.
pub trait ReplyPermissionDenied<'o>: Operation<'o> {
    fn permission_denied(reply: Reply<'o, Self>) -> (done: Done)
        ensures
            done@ == Some(failure_frame(reply.unique(), errno::EACCES)),
    {
        reply.fail(errno::eacces())
    }
}

impl Sealed for Open {

}

impl Sealed for Release {

}

impl Sealed for Opendir {

}

impl Sealed for Releasedir {

}

impl Sealed for Access {

}

impl Sealed for Create {

}

impl<'o> Operation<'o> for Open {
    type RequestBody = proto::OpenIn;

    type ReplyState = OpenOutFlags;

    proof fn lemma_grammar() {
        assert(<proto::OpenIn as Structured<'o>>::positioned(true));
    }
}

impl<'o> Operation<'o> for Release {
    type RequestBody = proto::ReleaseIn;

    type ReplyState = ();

    proof fn lemma_grammar() {
        assert(<proto::ReleaseIn as Structured<'o>>::positioned(true));
    }
}

impl<'o> Operation<'o> for Opendir {
    type RequestBody = proto::OpendirIn;

    type ReplyState = OpenOutFlags;

    proof fn lemma_grammar() {
        assert(<proto::OpendirIn as Structured<'o>>::positioned(true));
    }
}

impl<'o> Operation<'o> for Releasedir {
    type RequestBody = proto::ReleasedirIn;

    type ReplyState = ();

    proof fn lemma_grammar() {
        assert(<proto::ReleasedirIn as Structured<'o>>::positioned(true));
    }
}

impl<'o> Operation<'o> for Access {
    type RequestBody = proto::AccessIn;

    type ReplyState = ();

    proof fn lemma_grammar() {
        assert(<proto::AccessIn as Structured<'o>>::positioned(true));
    }
}

impl<'o> Operation<'o> for Create {
    type RequestBody = (proto::CreateIn, CStr<'o>);

    type ReplyState = OpenOutFlags;

    proof fn lemma_grammar() {
        assert(<(proto::CreateIn, CStr<'o>) as Structured<'o>>::positioned(true));
    }
}

impl<'o> RequestFlags<'o> for Open {
    type Flags = OpenFlags;

    open spec fn flags_fit(request: &Request<'o, Self>, flags: OpenFlags) -> bool {
        &&& flags@ & (request.body().flags as i32) == flags@
        &&& flags@ & ACCESS_MODE == (request.body().flags as i32) & ACCESS_MODE
    }

    fn flags(request: &Request<'o, Self>) -> (flags: OpenFlags) {
        OpenFlags::from_bits_truncate(request.body_ref().flags as i32)
    }
}

/// An open that is answered without a handle gets the handle 0.
impl<'o> ReplyOk<'o> for Open {
    open spec fn ok_reply(reply: Reply<'o, Self>) -> Option<Seq<u8>> {
        Some(reply_frame(reply.unique(), 0, open_out(0, reply.state()).to_wire()))
    }

    fn ok(reply: Reply<'o, Self>) -> (done: Done) {
        Self::ok_with_handle(reply, 0)
    }
}

impl<'o> ReplyOpen<'o> for Open {

}

impl<'o> ReplyPermissionDenied<'o> for Open {

}

impl<'o> RequestHandle<'o> for Release {
    open spec fn handle_of(request: &Request<'o, Self>) -> u64 {
        request.body().fh
    }

    fn handle(request: &Request<'o, Self>) -> (handle: u64) {
        request.body_ref().fh
    }
}

impl<'o> ReplyOk<'o> for Release {
    fn ok(reply: Reply<'o, Self>) -> (done: Done) {
        reply.empty()
    }
}

/// An opendir that is answered without a handle gets the handle 0.
impl<'o> ReplyOk<'o> for Opendir {
    open spec fn ok_reply(reply: Reply<'o, Self>) -> Option<Seq<u8>> {
        Some(reply_frame(reply.unique(), 0, open_out(0, reply.state()).to_wire()))
    }

    fn ok(reply: Reply<'o, Self>) -> (done: Done) {
        Self::ok_with_handle(reply, 0)
    }
}

impl<'o> ReplyPermissionDenied<'o> for Opendir {

}

impl<'o> ReplyOpen<'o> for Opendir {

}

impl<'o> RequestHandle<'o> for Releasedir {
    open spec fn handle_of(request: &Request<'o, Self>) -> u64 {
        request.body().release_in.fh
    }

    fn handle(request: &Request<'o, Self>) -> (handle: u64) {
        request.body_ref().release_in.fh
    }
}

impl<'o> ReplyOk<'o> for Releasedir {
    fn ok(reply: Reply<'o, Self>) -> (done: Done) {
        reply.empty()
    }
}

impl<'o> RequestFlags<'o> for Access {
    type Flags = AccessFlags;

    open spec fn flags_fit(request: &Request<'o, Self>, flags: AccessFlags) -> bool {
        flags@ == (request.body().mask as i32) & ACCESS_ALL
    }

    fn flags(request: &Request<'o, Self>) -> (flags: AccessFlags) {
        AccessFlags::from_bits_truncate(request.body_ref().mask as i32)
    }
}

impl<'o> Request<'o, Access> {
    /// The kinds of access that the request asks about.
    pub fn mask(&self) -> (mask: AccessFlags)
        ensures
            mask@ == (self.body().mask as i32) & ACCESS_ALL,
    {
        Access::flags(self)
    }
}

impl<'o> ReplyOk<'o> for Access {
    fn ok(reply: Reply<'o, Self>) -> (done: Done) {
        reply.empty()
    }
}

impl<'o> ReplyPermissionDenied<'o> for Access {

}

/// A reply that opens starts without a flag.
impl<'o, O: ReplyOpen<'o>> FromRequest<'o, O> for OpenOutFlags {
    open spec fn spec_from_request(request: &Request<'o, O>) -> Self {
        OpenOutFlags::spec_empty()
    }

    fn from_request(request: &Request<'o, O>) -> (state: Self) {
        OpenOutFlags::empty()
    }
}

impl<'o> RequestName<'o> for Create {
    open spec fn name_of(request: &Request<'o, Self>) -> Seq<u8> {
        request.body().1@
    }

    fn name<'a>(request: &'a Request<'o, Self>) -> (name: &'a [u8]) {
        request.body_ref().1.to_bytes()
    }
}

impl<'o> RequestMode<'o> for Create {
    open spec fn mode_of(request: &Request<'o, Self>) -> u32 {
        request.body().0.mode
    }

    open spec fn umask_of(request: &Request<'o, Self>) -> u32 {
        request.body().0.umask
    }

    fn mode(request: &Request<'o, Self>) -> (mode: Mode) {
        Mode::from_bits_truncate(request.body_ref().0.mode)
    }

    fn umask(request: &Request<'o, Self>) -> (umask: Mode) {
        Mode::from_bits_truncate(request.body_ref().0.umask)
    }
}

impl<'o> RequestFlags<'o> for Create {
    type Flags = OpenFlags;

    open spec fn flags_fit(request: &Request<'o, Self>, flags: OpenFlags) -> bool {
        &&& flags@ & (request.body().0.flags as i32) == flags@
        &&& flags@ & ACCESS_MODE == (request.body().0.flags as i32) & ACCESS_MODE
    }

    fn flags(request: &Request<'o, Self>) -> (flags: OpenFlags) {
        OpenFlags::from_bits_truncate(request.body_ref().0.flags as i32)
    }
}

/// A create that makes its inode known without a handle gets the handle 0.
impl<'o> ReplyKnown<'o> for Create {
    open spec fn known_payload(reply: Reply<'o, Self>, record: EntryOut) -> Seq<u8> {
        record.to_wire() + open_out(0, reply.state()).to_wire()
    }

    fn known_as(reply: Reply<'o, Self>, record: &EntryOut) -> (done: Done) {
        Self::known_with_handle_as(reply, record, 0)
    }
}

impl<'o> ReplyOpen<'o> for Create {

}

impl<'o> ReplyPermissionDenied<'o> for Create {

}

impl<'o, O: Operation<'o>> Reply<'o, O> {
    pub fn permission_denied(self) -> (done: Done)
        where O: ReplyPermissionDenied<'o>
        ensures
            done@ == Some(failure_frame(self.unique(), errno::EACCES)),
    {
        O::permission_denied(self)
    }
}

impl<'o, O: ReplyOpen<'o>> Reply<'o, O> {
    pub fn ok_with_handle(self, handle: u64) -> (done: Done)
        ensures
            done@ == Some(reply_frame(self.unique(), 0, open_out(handle, self.state()).to_wire())),
    {
        O::ok_with_handle(self, handle)
    }

    pub fn known_with_handle_as(self, record: &EntryOut, handle: u64) -> (done: Done)
        ensures
            done@ == Some(
                reply_frame(
                    self.unique(),
                    0,
                    record.to_wire() + open_out(handle, self.state()).to_wire(),
                ),
            ),
    {
        O::known_with_handle_as(self, record, handle)
    }

    pub fn known_with_handle<K: Known>(self, known: K, ttl: Ttl, handle: u64) -> (done: Done)
        ensures
            exists|ino: Ino, inode_type: EntryType, attrs: Attrs, attrs_ttl: Ttl|
                done@ == Some(
                    reply_frame(
                        self.unique(),
                        0,
                        (#[trigger] known_entry(ino, inode_type, attrs, attrs_ttl, ttl)).to_wire()
                            + open_out(handle, self.state()).to_wire(),
                    ),
                ),
    {
        O::known_with_handle(self, known, ttl, handle)
    }

    pub fn force_direct_io(&mut self)
        ensures
            final(self).unique() == old(self).unique(),
            final(self).state()@ == old(self).state()@ | DIRECT_IO,
    {
        O::force_direct_io(self)
    }

    pub fn non_seekable(&mut self)
        ensures
            final(self).unique() == old(self).unique(),
            final(self).state()@ == old(self).state()@ | NONSEEKABLE,
    {
        O::non_seekable(self)
    }

    pub fn is_stream(&mut self)
        ensures
            final(self).unique() == old(self).unique(),
            final(self).state()@ == old(self).state()@ | STREAM,
    {
        O::is_stream(self)
    }
}

} // verus!
