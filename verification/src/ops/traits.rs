//! What an operation can be asked and how it can be answered, one trait for each ability.

use vstd::prelude::*;

use crate::errno;
use crate::io::{Attrs, Entry, EntryType, FsInfo, Interruptible, Known, Mode, Stat};
use crate::ops::{entry_out, make_entry};
use crate::proto::{self, EntryOut, OpenOut, OpenOutFlags, Pod};
use crate::session::{failure_frame, reply_frame, MAX_PAYLOAD};
use crate::util::{concat, segment_views};
use crate::{Done, Ino, Operation, Reply, Request, Ttl};

pub use super::dir::{ReplyEntries, ReplyFound};
pub use super::entry::{RequestLink, RequestTarget};
pub use super::global::ReplyFsInfo;
pub use super::inode::{ReplyBlock, ReplyStat, RequestBlock, RequestForget};
pub use super::open::{ReplyOpen, ReplyPermissionDenied};
pub use super::rw::ReplyAll;
pub use super::xattr::ReplyXattrRead;

verus! {

/// The request names an entry of a directory.
pub trait RequestName<'o>: Operation<'o> {
    spec fn name_of(request: &Request<'o, Self>) -> Seq<u8>;

    fn name<'a>(request: &'a Request<'o, Self>) -> (name: &'a [u8])
        ensures
            name@ == Self::name_of(request),
    ;
}

/// The request says how many bytes it wants or offers.
pub trait RequestSize<'o>: Operation<'o> {
    spec fn size_of(request: &Request<'o, Self>) -> u32;

    fn size(request: &Request<'o, Self>) -> (size: u32)
        ensures
            size == Self::size_of(request),
    ;
}

/// The request says where in the file or directory it starts.
pub trait RequestOffset<'o>: Operation<'o> {
    spec fn offset_of(request: &Request<'o, Self>) -> u64;

    fn offset(request: &Request<'o, Self>) -> (offset: u64)
        ensures
            offset == Self::offset_of(request),
    ;
}

/// The request names an open file or directory.
pub trait RequestHandle<'o>: Operation<'o> {
    spec fn handle_of(request: &Request<'o, Self>) -> u64;

    fn handle(request: &Request<'o, Self>) -> (handle: u64)
        ensures
            handle == Self::handle_of(request),
    ;
}

/// The request brings bytes along.
pub trait RequestData<'o>: Operation<'o> {
    spec fn data_of(request: &Request<'o, Self>) -> Seq<u8>;

    fn data<'a>(request: &'a Request<'o, Self>) -> (data: &'a [u8])
        ensures
            data@ == Self::data_of(request),
    ;
}

/// The request carries flags.
pub trait RequestFlags<'o>: Operation<'o> {
    type Flags: Copy;

    /// Whether `flags` are the flags of `request`.
    spec fn flags_fit(request: &Request<'o, Self>, flags: Self::Flags) -> bool;

    fn flags(request: &Request<'o, Self>) -> (flags: Self::Flags)
        ensures
            Self::flags_fit(request, flags),
    ;
}

/// The request creates a file and says with which permissions.
pub trait RequestMode<'o>: Operation<'o> {
    spec fn mode_of(request: &Request<'o, Self>) -> u32;

    spec fn umask_of(request: &Request<'o, Self>) -> u32;

    fn mode(request: &Request<'o, Self>) -> (mode: Mode)
        ensures
            mode@ == Self::mode_of(request) & crate::io::MODE_ALL,
    ;

    fn umask(request: &Request<'o, Self>) -> (umask: Mode)
        ensures
            umask@ == Self::umask_of(request) & crate::io::MODE_ALL,
    ;
}

/// The operation can succeed without more to say.
pub trait ReplyOk<'o>: Operation<'o> {
    /// What the session is to write for an `ok`.
    open spec fn ok_reply(reply: Reply<'o, Self>) -> Option<Seq<u8>> {
        Some(reply_frame(reply.unique(), 0, Seq::empty()))
    }

    fn ok(reply: Reply<'o, Self>) -> (done: Done)
        ensures
            done@ == Self::ok_reply(reply),
    ;
}

/// The record that tells the kernel of an inode of number `ino` and kind `inode_type` that
/// reports `attrs`, to be kept for `attrs_ttl`, under an entry to be kept for `ttl`.
pub open spec fn known_entry(
    ino: Ino,
    inode_type: EntryType,
    attrs: Attrs,
    attrs_ttl: Ttl,
    ttl: Ttl,
) -> EntryOut {
    entry_out(ino, ttl, attrs.stamped(ino, inode_type), attrs_ttl)
}

/// The operation is answered by making an inode known.
pub trait ReplyKnown<'o>: Operation<'o> {
    /// The payload that tells of `record`.
    open spec fn known_payload(reply: Reply<'o, Self>, record: EntryOut) -> Seq<u8> {
        record.to_wire()
    }

    /// Answers with `record`.
    fn known_as(reply: Reply<'o, Self>, record: &EntryOut) -> (done: Done)
        ensures
            done@ == Some(reply_frame(reply.unique(), 0, Self::known_payload(reply, *record))),
    ;

    /// Answers with what `entry` reports of its inode, and then lets `entry` know that the
    /// kernel holds one more reference to it.
    fn known<K: Known>(reply: Reply<'o, Self>, entry: K, ttl: Ttl) -> (done: Done)
        ensures
            exists|ino: Ino, inode_type: EntryType, attrs: Attrs, attrs_ttl: Ttl|
                done@ == Some(
                    reply_frame(
                        reply.unique(),
                        0,
                        Self::known_payload(
                            reply,
                            #[trigger] known_entry(ino, inode_type, attrs, attrs_ttl, ttl),
                        ),
                    ),
                ),
    {
        let (attrs, attrs_ttl) = entry.inode().attrs();
        let ino = entry.inode().ino();
        let inode_type = entry.inode().inode_type();
        let record = make_entry((ino, ttl), (attrs.stamp(ino, inode_type), attrs_ttl));
        assert(record == known_entry(ino, inode_type, attrs, attrs_ttl, ttl));
        let done = Self::known_as(reply, &record);
        entry.unveil();
        done
    }
}

/// The operation can fail because what it names does not exist.
pub trait ReplyNotFound<'o>: Operation<'o> {
    /// Whether `errno` is a number that says so for this operation.
    spec fn not_found_with(errno: i32) -> bool;

    fn not_found(reply: Reply<'o, Self>) -> (done: Done)
        ensures
            exists|errno: i32|
                errno > 0 && #[trigger] Self::not_found_with(errno) && done@ == Some(
                    failure_frame(reply.unique(), errno),
                ),
    ;
}

/// The operation can be answered piece by piece into a buffer.
pub trait ReplyBuffered<'o>: Operation<'o> {
    type Buffered: Operation<'o>;

    /// The state of the buffered reply that starts from `reply` with `buffer`.
    spec fn buffered_state(reply: Reply<'o, Self>, buffer: Vec<u8>) -> <Self::Buffered as Operation<
        'o,
    >>::ReplyState;

    fn buffered(reply: Reply<'o, Self>, buffer: Vec<u8>) -> (buffered: Reply<'o, Self::Buffered>)
        requires
            buffer@.len() == 0,
        ensures
            buffered.unique() == reply.unique(),
            buffered.state() == Self::buffered_state(reply, buffer),
    ;
}

/// The operation is answered with bytes.
pub trait ReplyGather<'o>: Operation<'o> {
    /// Whether a reply in this state can answer with `len` bytes: whether it can frame what it
    /// then sends.
    open spec fn gather_fits(reply: Reply<'o, Self>, len: nat) -> bool {
        len <= MAX_PAYLOAD
    }

    /// What the session is to write when the bytes to answer with are `payload`.
    open spec fn gather_reply(reply: Reply<'o, Self>, payload: Seq<u8>) -> Seq<u8> {
        reply_frame(reply.unique(), 0, payload)
    }

    /// Answers with a string of the system, which here is its bytes.
    fn blob(reply: Reply<'o, Self>, blob: &[u8]) -> (done: Done)
        requires
            Self::gather_fits(reply, blob@.len()),
        ensures
            done@ == Some(Self::gather_reply(reply, blob@)),
    {
        Self::slice(reply, blob)
    }

    /// Answers with the bytes of one slice.
    fn slice(reply: Reply<'o, Self>, slice: &[u8]) -> (done: Done)
        requires
            Self::gather_fits(reply, slice@.len()),
        ensures
            done@ == Some(Self::gather_reply(reply, slice@)),
    {
        let fragments = [slice];
        proof {
            crate::ops::lemma_concat_one(slice@);
            assert(segment_views(fragments@) =~= seq![slice@]);
        }
        Self::gather(reply, fragments.as_slice())
    }

    /// Answers with the bytes of several slices, one after another.
    fn gather(reply: Reply<'o, Self>, fragments: &[&[u8]]) -> (done: Done)
        requires
            Self::gather_fits(reply, concat(segment_views(fragments@)).len()),
        ensures
            done@ == Some(Self::gather_reply(reply, concat(segment_views(fragments@)))),
    ;
}

impl<'o, O: Operation<'o>> Request<'o, O> {
    pub fn name(&self) -> (name: &[u8])
        where O: RequestName<'o>
        ensures
            name@ == O::name_of(self),
    {
        O::name(self)
    }

    pub fn size(&self) -> (size: u32)
        where O: RequestSize<'o>
        ensures
            size == O::size_of(self),
    {
        O::size(self)
    }

    pub fn offset(&self) -> (offset: u64)
        where O: RequestOffset<'o>
        ensures
            offset == O::offset_of(self),
    {
        O::offset(self)
    }

    pub fn handle(&self) -> (handle: u64)
        where O: RequestHandle<'o>
        ensures
            handle == O::handle_of(self),
    {
        O::handle(self)
    }

    pub fn data(&self) -> (data: &[u8])
        where O: RequestData<'o>
        ensures
            data@ == O::data_of(self),
    {
        O::data(self)
    }

    pub fn flags(&self) -> (flags: O::Flags)
        where O: RequestFlags<'o>
        ensures
            O::flags_fit(self, flags),
    {
        O::flags(self)
    }

    pub fn mode(&self) -> (mode: Mode)
        where O: RequestMode<'o>
        ensures
            mode@ == O::mode_of(self) & crate::io::MODE_ALL,
    {
        O::mode(self)
    }

    pub fn umask(&self) -> (umask: Mode)
        where O: RequestMode<'o>
        ensures
            umask@ == O::umask_of(self) & crate::io::MODE_ALL,
    {
        O::umask(self)
    }
}

impl<'o, O: Operation<'o>> Reply<'o, O> {
    pub fn ok(self) -> (done: Done)
        where O: ReplyOk<'o>
        ensures
            done@ == O::ok_reply(self),
    {
        O::ok(self)
    }

    pub fn known<K: Known>(self, entry: K, ttl: Ttl) -> (done: Done)
        where O: ReplyKnown<'o>
        ensures
            exists|ino: Ino, inode_type: EntryType, attrs: Attrs, attrs_ttl: Ttl|
                done@ == Some(
                    reply_frame(
                        self.unique(),
                        0,
                        O::known_payload(
                            self,
                            #[trigger] known_entry(ino, inode_type, attrs, attrs_ttl, ttl),
                        ),
                    ),
                ),
    {
        O::known(self, entry, ttl)
    }

    pub fn known_as(self, record: &EntryOut) -> (done: Done)
        where O: ReplyKnown<'o>
        ensures
            done@ == Some(reply_frame(self.unique(), 0, O::known_payload(self, *record))),
    {
        O::known_as(self, record)
    }

    pub fn not_found(self) -> (done: Done)
        where O: ReplyNotFound<'o>
        ensures
            exists|errno: i32|
                errno > 0 && #[trigger] O::not_found_with(errno) && done@ == Some(
                    failure_frame(self.unique(), errno),
                ),
    {
        O::not_found(self)
    }

    pub fn buffered(self, buffer: Vec<u8>) -> (buffered: Reply<'o, O::Buffered>)
        where O: ReplyBuffered<'o>
        requires
            buffer@.len() == 0,
        ensures
            buffered.unique() == self.unique(),
            buffered.state() == O::buffered_state(self, buffer),
    {
        O::buffered(self, buffer)
    }

    pub fn blob(self, blob: &[u8]) -> (done: Done)
        where O: ReplyGather<'o>
        requires
            O::gather_fits(self, blob@.len()),
        ensures
            done@ == Some(O::gather_reply(self, blob@)),
    {
        O::blob(self, blob)
    }

    pub fn slice(self, slice: &[u8]) -> (done: Done)
        where O: ReplyGather<'o>
        requires
            O::gather_fits(self, slice@.len()),
        ensures
            done@ == Some(O::gather_reply(self, slice@)),
    {
        O::slice(self, slice)
    }

    pub fn gather(self, fragments: &[&[u8]]) -> (done: Done)
        where O: ReplyGather<'o>
        requires
            O::gather_fits(self, concat(segment_views(fragments@)).len()),
        ensures
            done@ == Some(O::gather_reply(self, concat(segment_views(fragments@)))),
    {
        O::gather(self, fragments)
    }
}

} // verus!
