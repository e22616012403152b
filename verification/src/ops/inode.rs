//! Operations on an inode that the kernel already knows.

use vstd::prelude::*;

use crate::io::{Attrs, EntryType, Stat};
use crate::ops::traits::{ReplyOk, RequestHandle};
use crate::proto::{self, AttrOut, BmapOut, ForgetOne, OpcodeSelect, Pod, Structured, BATCH_FORGET};
use crate::session::reply_frame;
use crate::{Done, Ino, Operation, Reply, Request, Sealed, Ttl};

verus! {

/// Lets go of references to inodes, of one inode or of a batch of them.
pub struct Forget;

/// Asks for the attributes of an inode.
pub struct Getattr;

/// Asks where a block of a file lies on the device.
pub struct Bmap;

/// The request lets go of references that the kernel held.
pub trait RequestForget<'o>: Operation<'o> {
    /// The inodes that the request lets go of, each with the number of references.
    spec fn forgotten(request: &Request<'o, Self>) -> Seq<(Ino, u64)>;

    fn forget_list<'a>(request: &'a Request<'o, Self>) -> (list: ForgetList<'a>)
        ensures
            list.remaining() == Self::forgotten(request),
    ;
}

/// The request asks where a block of a file lies on the device.
pub trait RequestBlock<'o>: Operation<'o> {
    spec fn block_of(request: &Request<'o, Self>) -> u64;

    spec fn block_size_of(request: &Request<'o, Self>) -> u32;

    fn block(request: &Request<'o, Self>) -> (block: u64)
        ensures
            block == Self::block_of(request),
    ;

    fn block_size(request: &Request<'o, Self>) -> (block_size: u32)
        ensures
            block_size == Self::block_size_of(request),
    ;
}

/// The record that answers an attribute query with `attrs`, to be kept for `ttl`.
pub open spec fn attr_out(attrs: proto::Attrs, ttl: Ttl) -> AttrOut {
    AttrOut {
        attr_valid: ttl.spec_seconds(),
        attr_valid_nsec: ttl.spec_nanoseconds(),
        dummy: 0,
        attr: attrs,
    }
}

/// The operation is answered with the attributes of an inode.
pub trait ReplyStat<'o>: Operation<'o> {
    /// Answers with `attrs`, to be kept for `ttl`.
    fn stat_as(reply: Reply<'o, Self>, attrs: &proto::Attrs, ttl: Ttl) -> (done: Done)
        ensures
            done@ == Some(reply_frame(reply.unique(), 0, attr_out(*attrs, ttl).to_wire())),
    ;

    /// Answers with what `inode` reports of itself.
    fn stat<S: Stat>(reply: Reply<'o, Self>, inode: &S) -> (done: Done)
        ensures
            exists|ino: Ino, inode_type: EntryType, attrs: Attrs, ttl: Ttl|
                done@ == Some(
                    reply_frame(
                        reply.unique(),
                        0,
                        #[trigger] attr_out(attrs.stamped(ino, inode_type), ttl).to_wire(),
                    ),
                ),
    {
        let (attrs, ttl) = inode.attrs();
        let record = attrs.finish(inode);
        proof {
            let (ino, inode_type) = choose|ino: Ino, inode_type: EntryType|
                record == #[trigger] attrs.stamped(ino, inode_type);
            assert(attr_out(record, ttl) == attr_out(attrs.stamped(ino, inode_type), ttl));
        }
        Self::stat_as(reply, &record, ttl)
    }
}

/// The operation is answered with the number of a block.
pub trait ReplyBlock<'o>: Operation<'o> {
    fn block(reply: Reply<'o, Self>, block: u64) -> (done: Done)
        ensures
            done@ == Some(reply_frame(reply.unique(), 0, (BmapOut { block }).to_wire())),
    ;
}

/// What a forget lets go of, to be taken one by one: the one inode of a plain forget, or the
/// records of a batch from `next` on.
pub enum ForgetList<'a> {
    Single(Option<(Ino, u64)>),
    Batch { records: &'a Vec<ForgetOne>, next: usize },
}

/// An inode and a count, as a record of a batch gives them.
pub open spec fn forget_pair(one: ForgetOne) -> (Ino, u64) {
    (Ino(one.ino), one.nlookup)
}

impl<'a> ForgetList<'a> {
    /// What is still to be taken.
    pub open spec fn remaining(&self) -> Seq<(Ino, u64)> {
        match self {
            ForgetList::Single(Some(pair)) => seq![*pair],
            ForgetList::Single(None) => Seq::empty(),
            ForgetList::Batch { records, next } => if *next <= records@.len() {
                records@.subrange(*next as int, records@.len() as int).map_values(
                    |one: ForgetOne| forget_pair(one),
                )
            } else {
                Seq::empty()
            },
        }
    }

    /// Takes the next inode and its count, or `None` when all are taken.
    pub fn next(&mut self) -> (pair: Option<(Ino, u64)>)
        ensures
            match pair {
                Some(pair) => old(self).remaining() == seq![pair] + final(self).remaining(),
                None => old(self).remaining().len() == 0 && final(self).remaining().len() == 0,
            },
    {
        match *self {
            ForgetList::Single(single) => {
                *self = ForgetList::Single(None);
                proof {
                    if let Some(pair) = single {
                        assert(seq![pair] + Seq::<(Ino, u64)>::empty() =~= seq![pair]);
                    }
                }
                single
            },
            ForgetList::Batch { records, next } => {
                if next < records.len() {
                    let one = records[next];
                    *self = ForgetList::Batch { records, next: next + 1 };
                    proof {
                        let before = records@.subrange(next as int, records@.len() as int);
                        let after = records@.subrange(next + 1, records@.len() as int);
                        assert(before.map_values(|one: ForgetOne| forget_pair(one)) =~= seq![
                            forget_pair(one),
                        ] + after.map_values(|one: ForgetOne| forget_pair(one)));
                    }
                    Some((Ino(one.ino), one.nlookup))
                } else {
                    None
                }
            },
        }
    }
}

impl Sealed for Forget {

}

impl Sealed for Getattr {

}

impl Sealed for Bmap {

}

impl<'o> Operation<'o> for Forget {
    type RequestBody = OpcodeSelect<
        proto::ForgetBatch,
        proto::ForgetIn,
        BATCH_FORGET,
    >;

    type ReplyState = ();

    proof fn lemma_grammar() {
        assert(<OpcodeSelect<
            proto::ForgetBatch,
            proto::ForgetIn,
            BATCH_FORGET,
        > as Structured<'o>>::positioned(true));
    }
}

impl<'o> Operation<'o> for Getattr {
    type RequestBody = proto::GetattrIn;

    type ReplyState = ();

    proof fn lemma_grammar() {
        assert(<proto::GetattrIn as Structured<'o>>::positioned(true));
    }
}

impl<'o> Operation<'o> for Bmap {
    type RequestBody = proto::BmapIn;

    type ReplyState = ();

    proof fn lemma_grammar() {
        assert(<proto::BmapIn as Structured<'o>>::positioned(true));
    }
}

impl<'o> RequestForget<'o> for Forget {
    open spec fn forgotten(request: &Request<'o, Self>) -> Seq<(Ino, u64)> {
        match request.body() {
            OpcodeSelect::Match(batch) => batch.records@.map_values(
                |one: ForgetOne| forget_pair(one),
            ),
            OpcodeSelect::Alt(single) => seq![(Ino(request.header().ino), single.nlookup)],
        }
    }

    fn forget_list<'a>(request: &'a Request<'o, Self>) -> (list: ForgetList<'a>) {
        match request.body_ref() {
            OpcodeSelect::Match(batch) => {
                assert(batch.records@.subrange(0, batch.records@.len() as int)
                    =~= batch.records@);
                ForgetList::Batch { records: &batch.records, next: 0 }
            },
            OpcodeSelect::Alt(single) => ForgetList::Single(Some((request.ino(), single.nlookup))),
        }
    }
}

/// A forget is never answered.
impl<'o> ReplyOk<'o> for Forget {
    open spec fn ok_reply(reply: Reply<'o, Self>) -> Option<Seq<u8>> {
        None
    }

    fn ok(reply: Reply<'o, Self>) -> (done: Done) {
        Done::new(None)
    }
}

impl<'o> RequestHandle<'o> for Getattr {
    open spec fn handle_of(request: &Request<'o, Self>) -> u64 {
        request.body().fh
    }

    fn handle(request: &Request<'o, Self>) -> (handle: u64) {
        request.body_ref().fh
    }
}

impl<'o> ReplyStat<'o> for Getattr {
    fn stat_as(reply: Reply<'o, Self>, attrs: &proto::Attrs, ttl: Ttl) -> (done: Done) {
        reply.single(
            &AttrOut {
                attr_valid: ttl.seconds(),
                attr_valid_nsec: ttl.nanoseconds(),
                dummy: 0,
                attr: *attrs,
            },
        )
    }
}

impl<'o> RequestBlock<'o> for Bmap {
    open spec fn block_of(request: &Request<'o, Self>) -> u64 {
        request.body().block
    }

    open spec fn block_size_of(request: &Request<'o, Self>) -> u32 {
        request.body().block_size
    }

    fn block(request: &Request<'o, Self>) -> (block: u64) {
        request.body_ref().block
    }

    fn block_size(request: &Request<'o, Self>) -> (block_size: u32) {
        request.body_ref().block_size
    }
}

impl<'o> ReplyBlock<'o> for Bmap {
    fn block(reply: Reply<'o, Self>, block: u64) -> (done: Done) {
        reply.single(&BmapOut { block })
    }
}

impl<'o, O: Operation<'o>> Request<'o, O> {
    pub fn forget_list(&self) -> (list: ForgetList<'_>)
        where O: RequestForget<'o>
        ensures
            list.remaining() == O::forgotten(self),
    {
        O::forget_list(self)
    }

    pub fn block(&self) -> (block: u64)
        where O: RequestBlock<'o>
        ensures
            block == O::block_of(self),
    {
        O::block(self)
    }

    pub fn block_size(&self) -> (block_size: u32)
        where O: RequestBlock<'o>
        ensures
            block_size == O::block_size_of(self),
    {
        O::block_size(self)
    }
}

impl<'o, O: Operation<'o>> Reply<'o, O> {
    pub fn stat<S: Stat>(self, inode: &S) -> (done: Done)
        where O: ReplyStat<'o>
        ensures
            exists|ino: Ino, inode_type: EntryType, attrs: Attrs, ttl: Ttl|
                done@ == Some(
                    reply_frame(
                        self.unique(),
                        0,
                        #[trigger] attr_out(attrs.stamped(ino, inode_type), ttl).to_wire(),
                    ),
                ),
    {
        O::stat(self, inode)
    }

    pub fn stat_as(self, attrs: &proto::Attrs, ttl: Ttl) -> (done: Done)
        where O: ReplyStat<'o>
        ensures
            done@ == Some(reply_frame(self.unique(), 0, attr_out(*attrs, ttl).to_wire())),
    {
        O::stat_as(self, attrs, ttl)
    }

    pub fn block(self, block: u64) -> (done: Done)
        where O: ReplyBlock<'o>
        ensures
            done@ == Some(reply_frame(self.unique(), 0, (BmapOut { block }).to_wire())),
    {
        O::block(self, block)
    }
}

} // verus!
