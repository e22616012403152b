//! The operations, one marker type each, and what every reply can do.

use vstd::prelude::*;

use crate::proto::{self, EntryOut, Pod};
use crate::session;
use crate::util::{concat, segment_views, OutputChain};
use crate::{Done, Ino, Operation, Reply, Request, Sealed, Ttl};

pub use self::dir::{BufferedReaddir, Lookup, Readdir, ReaddirState};
pub use self::entry::{Link, Mkdir, Rmdir, Symlink, Unlink};
pub use self::global::{Init, InitState, Statfs};
pub use self::inode::{Bmap, Forget, ForgetList, Getattr};
pub use self::open::{Access, Create, Open, Opendir, Release, Releasedir};
pub use self::rw::{Flush, Fsync, Fsyncdir, Read, Readlink, Write, WriteState};
pub use self::xattr::{Getxattr, Listxattr, Removexattr, Setxattr, XattrReadState};

pub mod dir;
pub mod entry;
pub mod global;
pub mod inode;
pub mod open;
pub mod rw;
pub mod traits;
pub mod xattr;

verus! {

/// What a reply carries along, made from the request that it answers.
pub trait FromRequest<'o, O: Operation<'o>>: Sized {
    /// The state that belongs to `request`.
    spec fn spec_from_request(request: &Request<'o, O>) -> Self;

    fn from_request(request: &Request<'o, O>) -> (state: Self)
        ensures
            state == Self::spec_from_request(request),
    ;
}

/// Any operation: a request read no further than its header.
pub struct Any;

impl Sealed for Any {

}

impl<'o> Operation<'o> for Any {
    type RequestBody = ();

    type ReplyState = ();

    proof fn lemma_grammar() {
    }
}

impl<'o, O: Operation<'o>> FromRequest<'o, O> for () {
    open spec fn spec_from_request(request: &Request<'o, O>) -> Self {
        ()
    }

    fn from_request(request: &Request<'o, O>) -> (state: Self) {
    }
}

impl<'o, O: Operation<'o>> Reply<'o, O> {
    /// Answers with `chain` as the payload.
    pub(crate) fn chain(self, chain: OutputChain<'_>) -> (done: Done)
        requires
            chain.bytes().len() <= session::MAX_PAYLOAD,
        ensures
            done@ == Some(session::reply_frame(self.unique(), 0, chain.bytes())),
    {
        let frame = session::Session::ok(self.id(), &chain);
        self.finish(frame)
    }

    /// Answers without a payload.
    pub(crate) fn empty(self) -> (done: Done)
        ensures
            done@ == Some(session::reply_frame(self.unique(), 0, Seq::empty())),
    {
        let chain = OutputChain::empty();
        assert(chain.bytes() =~= Seq::<u8>::empty());
        self.chain(chain)
    }

    /// Answers with one record as the payload.
    pub(crate) fn single<P: Pod>(self, single: &P) -> (done: Done)
        requires
            P::wire_len() <= session::MAX_PAYLOAD,
        ensures
            done@ == Some(session::reply_frame(self.unique(), 0, single.to_wire())),
    {
        let bytes = crate::proto::bytes_of(single);
        self.inner(bytes.as_slice())
    }

    /// Answers with one slice as the payload.
    pub(crate) fn inner(self, bytes: &[u8]) -> (done: Done)
        requires
            bytes@.len() <= session::MAX_PAYLOAD,
        ensures
            done@ == Some(session::reply_frame(self.unique(), 0, bytes@)),
    {
        let segments = [bytes];
        let chain = OutputChain::tail(segments.as_slice());
        proof {
            lemma_concat_one(bytes@);
            assert(segment_views(segments@) =~= seq![bytes@]);
        }
        self.chain(chain)
    }
}

/// One segment joins to itself.
pub proof fn lemma_concat_one(segment: Seq<u8>)
    ensures
        concat(seq![segment]) == segment,
{
    let segments = seq![segment];
    assert(segments.drop_last() =~= Seq::<Seq<u8>>::empty());
    assert(concat(segments.drop_last()) =~= Seq::<u8>::empty());
    assert(Seq::<u8>::empty() + segment =~= segment);
}

/// The record that tells the kernel of an inode: its number, its attributes, and for how
/// long each may be kept.
pub open spec fn entry_out(
    ino: Ino,
    entry_ttl: Ttl,
    attrs: proto::Attrs,
    attr_ttl: Ttl,
) -> EntryOut {
    EntryOut {
        nodeid: ino.0,
        generation: 0,
        entry_valid: entry_ttl.spec_seconds(),
        attr_valid: attr_ttl.spec_seconds(),
        entry_valid_nsec: entry_ttl.spec_nanoseconds(),
        attr_valid_nsec: attr_ttl.spec_nanoseconds(),
        attr: attrs,
    }
}

pub(crate) fn make_entry(entry: (Ino, Ttl), attrs: (proto::Attrs, Ttl)) -> (record: EntryOut)
    ensures
        record == entry_out(entry.0, entry.1, attrs.0, attrs.1),
{
    let (ino, entry_ttl) = entry;
    let (attrs, attr_ttl) = attrs;
    EntryOut {
        nodeid: ino.0,
        generation: 0,
        entry_valid: entry_ttl.seconds(),
        attr_valid: attr_ttl.seconds(),
        entry_valid_nsec: entry_ttl.nanoseconds(),
        attr_valid_nsec: attr_ttl.nanoseconds(),
        attr: attrs,
    }
}

} // verus!
