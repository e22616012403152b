//! Looking names up and listing directories.

use vstd::prelude::*;
use vstd::slice::slice_subrange;

use crate::errno::{self, Named};
use crate::io::{zero_attrs, zeroed_attrs, Attrs, Entry, EntryType, Interruptible, Known, Stat};
use crate::ops::traits::{
    known_entry, ReplyBuffered, ReplyKnown, ReplyNotFound, RequestHandle, RequestName,
    RequestOffset, RequestSize,
};
use crate::ops::{entry_out, make_entry, FromRequest};
use crate::proto::{
    self, bytes_of, CStr, Dirent, DirentPlus, EntryOut, OpcodeSelect, Pod, Structured,
    DIRENT_ALIGNMENT_BITS, READDIR_PLUS,
};
use crate::session::{failure_frame, refuses, reply_frame, MAX_PAYLOAD};
use crate::util::{segment_views, OutputChain};
use crate::{Done, Ino, Operation, Reply, Request, Sealed, Ttl};

verus! {

/// Looks a name up in a directory.
pub struct Lookup;

/// Lists a directory, with or without the attributes of its entries.
pub struct Readdir;

/// A directory listing that is being gathered into a buffer, record by record.
pub struct BufferedReaddir;

/// What the reply to a directory listing remembers: how many bytes the kernel wants at most,
/// whether each record is to carry the entry's attributes, and the buffer.
pub struct ReaddirState<B> {
    pub max_read: usize,
    pub is_plus: bool,
    pub buffer: B,
}

/// The operation can say for how long a name is known not to exist.
pub trait ReplyFound<'o>: ReplyKnown<'o> {
    /// Answers that the name does not exist, and that the kernel may remember so for `ttl`.
    fn not_found_for(reply: Reply<'o, Self>, ttl: Ttl) -> (done: Done)
        ensures
            done@ == Some(
                reply_frame(
                    reply.unique(),
                    0,
                    entry_out(Ino(0), ttl, zeroed_attrs(), Ttl::spec_null()).to_wire(),
                ),
            ),
    ;
}

/// How many bytes the head of a directory record takes.
pub open spec fn entry_header_len(is_plus: bool) -> nat {
    if is_plus {
        DirentPlus::wire_len()
    } else {
        Dirent::wire_len()
    }
}

/// How many bytes bring a record of `entry_len` bytes up to a multiple of 8.
pub open spec fn pad_bytes(entry_len: nat) -> nat {
    ((8 - entry_len % 8) % 8) as nat
}

/// How many bytes the record of an entry takes whose name has `name_len` bytes.
pub open spec fn record_len(is_plus: bool, name_len: nat) -> nat {
    entry_header_len(is_plus) + name_len + pad_bytes(entry_header_len(is_plus) + name_len)
}

/// `count` bytes of zero.
pub open spec fn zeros(count: nat) -> Seq<u8> {
    Seq::new(count, |i: int| 0u8)
}

/// The record of one entry: the head, the name, and zeros up to a multiple of 8 bytes.
pub open spec fn dirent_record(
    is_plus: bool,
    offset: u64,
    name: Seq<u8>,
    ino: Ino,
    inode_type: EntryType,
    attrs: Attrs,
    attrs_ttl: Ttl,
    ttl: Ttl,
) -> Seq<u8> {
    let dirent = Dirent {
        ino: ino.0,
        off: offset,
        namelen: name.len() as u32,
        entry_type: inode_type.spec_dirent_type(),
    };
    let head = if is_plus {
        (DirentPlus {
            entry_out: known_entry(ino, inode_type, attrs, attrs_ttl, ttl),
            dirent,
        }).to_wire()
    } else {
        dirent.to_wire()
    };
    head + name + zeros(pad_bytes(entry_header_len(is_plus) + name.len()))
}

/// Every record is a multiple of 8 bytes long.
pub proof fn lemma_record_aligned(
    is_plus: bool,
    offset: u64,
    name: Seq<u8>,
    ino: Ino,
    inode_type: EntryType,
    attrs: Attrs,
    attrs_ttl: Ttl,
    ttl: Ttl,
)
    ensures
        dirent_record(is_plus, offset, name, ino, inode_type, attrs, attrs_ttl, ttl).len()
            == record_len(is_plus, name.len()),
        record_len(is_plus, name.len()) % 8 == 0,
{
    let dirent = Dirent {
        ino: ino.0,
        off: offset,
        namelen: name.len() as u32,
        entry_type: inode_type.spec_dirent_type(),
    };
    dirent.lemma_wire();
    (DirentPlus {
        entry_out: known_entry(ino, inode_type, attrs, attrs_ttl, ttl),
        dirent,
    }).lemma_wire();
}

/// The smaller of two numbers.
pub open spec fn least(a: int, b: int) -> int {
    if a <= b {
        a
    } else {
        b
    }
}

/// How many bytes a listing in this state can still take: what the buffer has room for, but
/// not more than is left of what the kernel wants, nor of what a reply can carry.
pub open spec fn room(state: ReaddirState<Vec<u8>>) -> int {
    least(
        isize::MAX - state.buffer@.len(),
        least(state.max_read - state.buffer@.len(), MAX_PAYLOAD - state.buffer@.len()),
    )
}

/// Whether a listing is in order: it holds no more than the kernel wants, nor than a reply
/// can carry.
pub open spec fn listing_ready(state: ReaddirState<Vec<u8>>) -> bool {
    state.buffer@.len() <= state.max_read && state.buffer@.len() <= MAX_PAYLOAD
}

/// What a listing does with one more entry.
///
/// An entry whose record has no room ends the listing: with a refusal (the system's
/// `ENOBUFS`) if nothing was listed before it, else with what was listed. An entry whose
/// record has room is listed; if after it not even the smallest record would have room, the
/// listing ends with it.
pub open spec fn entry_outcome<'o>(
    reply: Reply<'o, BufferedReaddir>,
    offset: u64,
    name: Seq<u8>,
    ino: Ino,
    inode_type: EntryType,
    attrs: Attrs,
    attrs_ttl: Ttl,
    ttl: Ttl,
    outcome: Interruptible<'o, BufferedReaddir, ()>,
) -> bool {
    let state = reply.state();
    let length = record_len(state.is_plus, name.len());
    let listed = state.buffer@ + dirent_record(
        state.is_plus,
        offset,
        name,
        ino,
        inode_type,
        attrs,
        attrs_ttl,
        ttl,
    );
    if room(state) < length {
        outcome matches Interruptible::Interrupted(done) && if state.buffer@.len() == 0 {
            refuses(reply.unique(), Named::Enobufs, done@)
        } else {
            done@ == Some(reply_frame(reply.unique(), 0, state.buffer@))
        }
    } else if room(state) - length >= entry_header_len(state.is_plus) + 8 {
        outcome matches Interruptible::Completed(next, _) && next.unique() == reply.unique()
            && next.state().buffer@ == listed && next.state().max_read == state.max_read
            && next.state().is_plus == state.is_plus && listing_ready(next.state())
    } else {
        outcome matches Interruptible::Interrupted(done) && done@ == Some(
            reply_frame(reply.unique(), 0, listed),
        )
    }
}

/// Whether listing an entry of this name in this state tells the kernel of its inode, so that
/// the kernel then holds one more reference to it.
pub open spec fn unveils(state: ReaddirState<Vec<u8>>, name: Seq<u8>) -> bool {
    &&& state.is_plus
    &&& room(state) >= record_len(state.is_plus, name.len())
    &&& name != seq![46u8]
    &&& name != seq![46u8, 46u8]
}

/// The operation is answered with a list of entries.
pub trait ReplyEntries<'o>: Operation<'o> {
    /// Whether the listing is in order.
    spec fn ready(reply: Reply<'o, Self>) -> bool;

    /// What `outcome` has to be for the entry of these values.
    spec fn listed(
        reply: Reply<'o, Self>,
        offset: u64,
        name: Seq<u8>,
        ino: Ino,
        inode_type: EntryType,
        attrs: Attrs,
        attrs_ttl: Ttl,
        ttl: Ttl,
        outcome: Interruptible<'o, Self, ()>,
    ) -> bool;

    /// What has been listed so far.
    spec fn listing(reply: Reply<'o, Self>) -> Seq<u8>;

    /// Lists one more entry, with what `entry` reports of its inode.
    fn entry<K: Known>(reply: Reply<'o, Self>, entry: Entry<'_, K>) -> (outcome: Interruptible<
        'o,
        Self,
        (),
    >)
        requires
            Self::ready(reply),
        ensures
            exists|ino: Ino, inode_type: EntryType, attrs: Attrs, attrs_ttl: Ttl|
                #[trigger] Self::listed(
                    reply,
                    entry.offset,
                    entry.name@,
                    ino,
                    inode_type,
                    attrs,
                    attrs_ttl,
                    entry.ttl,
                    outcome,
                ),
    ;

    /// Ends the listing with what has been listed.
    fn end(reply: Reply<'o, Self>) -> (done: Done)
        requires
            Self::ready(reply),
        ensures
            done@ == Some(reply_frame(reply.unique(), 0, Self::listing(reply))),
    ;
}

/// `<Vec<u8> as bytes::BufMut>::remaining_mut`: how many bytes the vector can still grow by,
/// which is what separates its length from the largest that a vector can have.
#[verifier::external_body]
fn remaining_mut(buffer: &Vec<u8>) -> (room: usize)
    ensures
        room == isize::MAX - buffer@.len(),
{
    bytes::BufMut::remaining_mut(buffer)
}

/// `<Vec<u8> as bytes::BufMut>::put_slice`: appends the bytes of `src` to the vector. It is
/// asked for no more than `remaining_mut` allows.
#[verifier::external_body]
fn put_slice(buffer: &mut Vec<u8>, src: &[u8])
    requires
        old(buffer)@.len() + src@.len() <= isize::MAX,
    ensures
        final(buffer)@ == old(buffer)@ + src@,
{
    bytes::BufMut::put_slice(buffer, src)
}

impl Sealed for Lookup {

}

impl Sealed for Readdir {

}

impl Sealed for BufferedReaddir {

}

impl<'o> Operation<'o> for Lookup {
    type RequestBody = CStr<'o>;

    type ReplyState = ();

    proof fn lemma_grammar() {
        assert(<CStr<'o> as Structured<'o>>::positioned(true));
    }
}

impl<'o> Operation<'o> for Readdir {
    type RequestBody = OpcodeSelect<proto::ReaddirPlusIn, proto::ReaddirIn, READDIR_PLUS>;

    type ReplyState = ReaddirState<()>;

    proof fn lemma_grammar() {
        assert(<OpcodeSelect<proto::ReaddirPlusIn, proto::ReaddirIn, READDIR_PLUS> as Structured<
            'o,
        >>::positioned(true));
    }
}

impl<'o> Operation<'o> for BufferedReaddir {
    type RequestBody = ();

    type ReplyState = ReaddirState<Vec<u8>>;

    proof fn lemma_grammar() {
        assert(<() as Structured<'o>>::positioned(true));
    }
}

impl<'o> RequestName<'o> for Lookup {
    open spec fn name_of(request: &Request<'o, Self>) -> Seq<u8> {
        request.body()@
    }

    fn name<'a>(request: &'a Request<'o, Self>) -> (name: &'a [u8]) {
        request.body_ref().to_bytes()
    }
}

impl<'o> ReplyNotFound<'o> for Lookup {
    open spec fn not_found_with(errno: i32) -> bool {
        errno == errno::ENOENT
    }

    fn not_found(reply: Reply<'o, Self>) -> (done: Done)
        ensures
            done@ == Some(failure_frame(reply.unique(), errno::ENOENT)),
    {
        let done = reply.fail(errno::enoent());
        assert(Self::not_found_with(errno::ENOENT));
        done
    }
}

impl<'o> ReplyKnown<'o> for Lookup {
    fn known_as(reply: Reply<'o, Self>, record: &EntryOut) -> (done: Done) {
        reply.single(record)
    }
}

impl<'o> ReplyFound<'o> for Lookup {
    fn not_found_for(reply: Reply<'o, Self>, ttl: Ttl) -> (done: Done) {
        let record = make_entry((Ino::null(), ttl), (zero_attrs(), Ttl::null()));
        reply.single(&record)
    }
}

impl<'o> Reply<'o, Lookup> {
    /// Answers that the name was found, with what `entry` reports of its inode.
    pub fn found<K: Known>(self, entry: K, ttl: Ttl) -> (done: Done)
        ensures
            exists|ino: Ino, inode_type: EntryType, attrs: Attrs, attrs_ttl: Ttl|
                done@ == Some(
                    reply_frame(
                        self.unique(),
                        0,
                        (#[trigger] known_entry(ino, inode_type, attrs, attrs_ttl, ttl)).to_wire(),
                    ),
                ),
    {
        Lookup::known(self, entry, ttl)
    }

    /// Answers that the name does not exist, without a time for which the kernel may
    /// remember so.
    pub fn not_found_uncached(self) -> (done: Done)
        ensures
            done@ == Some(failure_frame(self.unique(), errno::ENOENT)),
    {
        self.fail(errno::enoent())
    }
}

/// The part of a listing request that both of its forms share.
pub open spec fn spec_readdir_read_in<'o>(request: &Request<'o, Readdir>) -> proto::ReadIn {
    match request.body() {
        OpcodeSelect::Match(readdir_plus) => readdir_plus.read_in,
        OpcodeSelect::Alt(readdir) => readdir.read_in,
    }
}

pub(crate) fn readdir_read_in<'a>(request: &'a Request<'_, Readdir>) -> (read_in: &'a proto::ReadIn)
    ensures
        *read_in == spec_readdir_read_in(request),
{
    match request.body_ref() {
        OpcodeSelect::Match(readdir_plus) => &readdir_plus.read_in,
        OpcodeSelect::Alt(readdir) => &readdir.read_in,
    }
}

impl<'o> RequestHandle<'o> for Readdir {
    open spec fn handle_of(request: &Request<'o, Self>) -> u64 {
        spec_readdir_read_in(request).fh
    }

    fn handle(request: &Request<'o, Self>) -> (handle: u64) {
        readdir_read_in(request).fh
    }
}

impl<'o> RequestOffset<'o> for Readdir {
    open spec fn offset_of(request: &Request<'o, Self>) -> u64 {
        spec_readdir_read_in(request).offset
    }

    fn offset(request: &Request<'o, Self>) -> (offset: u64) {
        readdir_read_in(request).offset
    }
}

impl<'o> RequestSize<'o> for Readdir {
    open spec fn size_of(request: &Request<'o, Self>) -> u32 {
        spec_readdir_read_in(request).size
    }

    fn size(request: &Request<'o, Self>) -> (size: u32) {
        readdir_read_in(request).size
    }
}

/// The listing starts empty.
impl<'o> ReplyBuffered<'o> for Readdir {
    type Buffered = BufferedReaddir;

    open spec fn buffered_state(reply: Reply<'o, Self>, buffer: Vec<u8>) -> ReaddirState<Vec<u8>> {
        ReaddirState { max_read: reply.state().max_read, is_plus: reply.state().is_plus, buffer }
    }

    fn buffered(reply: Reply<'o, Self>, buffer: Vec<u8>) -> (buffered: Reply<'o, BufferedReaddir>) {
        let (unique, state) = reply.into_parts();
        let ReaddirState { max_read, is_plus, buffer: () } = state;
        Reply::new(unique, ReaddirState { max_read, is_plus, buffer })
    }
}

/// How many bytes a listing can still take that holds `buffer` and may hold `max_read`.
fn room_of(buffer: &Vec<u8>, max_read: usize) -> (bytes: usize)
    requires
        buffer@.len() <= max_read,
        buffer@.len() <= MAX_PAYLOAD,
    ensures
        bytes == least(
            isize::MAX - buffer@.len(),
            least(max_read - buffer@.len(), MAX_PAYLOAD - buffer@.len()),
        ),
{
    let wanted = max_read - buffer.len();
    let carried = MAX_PAYLOAD - buffer.len();
    let limit = if wanted <= carried {
        wanted
    } else {
        carried
    };
    let free = remaining_mut(buffer);
    if free <= limit {
        free
    } else {
        limit
    }
}

pub(crate) fn dirent_pad_bytes(entry_len: usize) -> (padding: usize)
    ensures
        padding == pad_bytes(entry_len as nat),
        padding < 8,
{
    let align: usize = 1 << DIRENT_ALIGNMENT_BITS;
    assert(align == 8) by (bit_vector)
        requires
            align == 1usize << 3usize,
    ;
    let over = entry_len % align;
    if over == 0 {
        0
    } else {
        align - over
    }
}

impl<'o> Reply<'o, BufferedReaddir> {
    /// Lists one more entry, of an inode that reports these values.
    pub fn entry_as(
        self,
        offset: u64,
        name: &[u8],
        ino: Ino,
        inode_type: EntryType,
        attrs: Attrs,
        attrs_ttl: Ttl,
        ttl: Ttl,
    ) -> (outcome: Interruptible<'o, BufferedReaddir, ()>)
        requires
            listing_ready(self.state()),
        ensures
            entry_outcome(self, offset, name@, ino, inode_type, attrs, attrs_ttl, ttl, outcome),
    {
        if !self.has_room(name) {
            return Interruptible::Interrupted(self.full());
        }
        let (unique, state) = self.into_parts();
        let ReaddirState { max_read, is_plus, mut buffer } = state;
        let entry_header_len = if is_plus {
            DirentPlus::size()
        } else {
            Dirent::size()
        };
        let padding_len = dirent_pad_bytes(entry_header_len + name.len());
        let record_len = entry_header_len + name.len() + padding_len;
        let room = room_of(&buffer, max_read);
        let dirent = Dirent {
            ino: ino.as_raw(),
            off: offset,
            namelen: name.len() as u32,
            entry_type: inode_type.dirent_type(),
        };
        let head = if is_plus {
            let entry_out = make_entry((ino, ttl), (attrs.stamp(ino, inode_type), attrs_ttl));
            bytes_of(&DirentPlus { entry_out, dirent })
        } else {
            bytes_of(&dirent)
        };
        let padding: [u8; 7] = [0, 0, 0, 0, 0, 0, 0];
        let ghost listed = buffer@ + dirent_record(
            is_plus,
            offset,
            name@,
            ino,
            inode_type,
            attrs,
            attrs_ttl,
            ttl,
        );
        put_slice(&mut buffer, head.as_slice());
        put_slice(&mut buffer, name);
        let zeroes = slice_subrange(padding.as_slice(), 0, padding_len);
        put_slice(&mut buffer, zeroes);
        proof {
            assert(zeroes@ =~= zeros(padding_len as nat));
            assert(buffer@ =~= listed);
        }
        let next = Reply::new(unique, ReaddirState { max_read, is_plus, buffer });
        if room - record_len >= entry_header_len + 8 {
            Interruptible::Completed(next, ())
        } else {
            Interruptible::Interrupted(BufferedReaddir::end(next))
        }
    }

    /// Whether the listing is in order.
    pub fn is_ready(&self) -> (yes: bool)
        ensures
            yes == listing_ready(self.state()),
    {
        let state = self.state_ref();
        state.buffer.len() <= state.max_read && state.buffer.len() <= MAX_PAYLOAD
    }

    /// How many bytes have been listed so far.
    pub fn listed(&self) -> (bytes: usize)
        ensures
            bytes == self.state().buffer@.len(),
    {
        self.state_ref().buffer.len()
    }

    /// Whether the record of an entry of this name has room in the listing.
    pub fn has_room(&self, name: &[u8]) -> (yes: bool)
        requires
            listing_ready(self.state()),
        ensures
            yes == (room(self.state()) >= record_len(self.state().is_plus, name@.len())),
    {
        let state = self.state_ref();
        let entry_header_len = if state.is_plus {
            DirentPlus::size()
        } else {
            Dirent::size()
        };
        let room = room_of(&state.buffer, state.max_read);
        if name.len() > room {
            return false;
        }
        let padding_len = dirent_pad_bytes(entry_header_len + name.len());
        room >= entry_header_len + name.len() + padding_len
    }

    /// Ends a listing that has no room for the next entry: with what was listed, or with a
    /// refusal, which carries the system's `ENOBUFS`, if that is nothing.
    pub fn full(self) -> (done: Done)
        requires
            listing_ready(self.state()),
        ensures
            if self.state().buffer@.len() == 0 {
                refuses(self.unique(), Named::Enobufs, done@)
            } else {
                done@ == Some(reply_frame(self.unique(), 0, self.state().buffer@))
            },
    {
        if self.state_ref().buffer.len() == 0 {
            let errno = errno::enobufs();
            proof {
                errno::lemma_named(Named::Enobufs, errno);
            }
            self.fail(errno)
        } else {
            BufferedReaddir::end(self)
        }
    }

    /// Whether listing an entry of this name now tells the kernel of its inode.
    pub fn unveils(&self, name: &[u8]) -> (yes: bool)
        requires
            listing_ready(self.state()),
        ensures
            yes == unveils(self.state(), name@),
    {
        let fits = self.has_room(name);
        let dot = name.len() == 1 && name[0] == 46;
        let dot_dot = name.len() == 2 && name[0] == 46 && name[1] == 46;
        proof {
            if dot {
                assert(name@ =~= seq![46u8]);
            } else {
                assert(name@ != seq![46u8]) by {
                    if name@ == seq![46u8] {
                        assert(seq![46u8].len() == 1);
                        assert(seq![46u8][0] == 46u8);
                    }
                }
            }
            if dot_dot {
                assert(name@ =~= seq![46u8, 46u8]);
            } else {
                assert(name@ != seq![46u8, 46u8]) by {
                    if name@ == seq![46u8, 46u8] {
                        assert(seq![46u8, 46u8].len() == 2);
                        assert(seq![46u8, 46u8][0] == 46u8);
                        assert(seq![46u8, 46u8][1] == 46u8);
                    }
                }
            }
        }
        self.state_ref().is_plus && fits && !dot && !dot_dot
    }
}

impl<'o> ReplyEntries<'o> for BufferedReaddir {
    open spec fn ready(reply: Reply<'o, Self>) -> bool {
        listing_ready(reply.state())
    }

    open spec fn listed(
        reply: Reply<'o, Self>,
        offset: u64,
        name: Seq<u8>,
        ino: Ino,
        inode_type: EntryType,
        attrs: Attrs,
        attrs_ttl: Ttl,
        ttl: Ttl,
        outcome: Interruptible<'o, Self, ()>,
    ) -> bool {
        entry_outcome(reply, offset, name, ino, inode_type, attrs, attrs_ttl, ttl, outcome)
    }

    open spec fn listing(reply: Reply<'o, Self>) -> Seq<u8> {
        reply.state().buffer@
    }

    fn entry<K: Known>(reply: Reply<'o, Self>, entry: Entry<'_, K>) -> (outcome: Interruptible<
        'o,
        Self,
        (),
    >) {
        if !reply.has_room(entry.name) {
            let outcome = Interruptible::Interrupted(reply.full());
            assert(Self::listed(
                reply,
                entry.offset,
                entry.name@,
                Ino(0),
                EntryType::File,
                arbitrary(),
                entry.ttl,
                entry.ttl,
                outcome,
            ));
            return outcome;
        }
        let unveil = reply.unveils(entry.name);
        let inode = entry.inode.inode();
        let inode_type = inode.inode_type();
        let ino = inode.ino();
        let (attrs, attrs_ttl) = if reply.state_ref().is_plus {
            inode.attrs()
        } else {
            (Attrs::default(), Ttl::null())
        };
        let outcome = reply.entry_as(
            entry.offset,
            entry.name,
            ino,
            inode_type,
            attrs,
            attrs_ttl,
            entry.ttl,
        );
        assert(Self::listed(
            reply,
            entry.offset,
            entry.name@,
            ino,
            inode_type,
            attrs,
            attrs_ttl,
            entry.ttl,
            outcome,
        ));
        if unveil {
            entry.inode.unveil();
        }
        outcome
    }

    fn end(reply: Reply<'o, Self>) -> (done: Done) {
        let (unique, state) = reply.into_parts();
        let segments = [state.buffer.as_slice()];
        proof {
            crate::ops::lemma_concat_one(state.buffer@);
            assert(segment_views(segments@) =~= seq![state.buffer@]);
        }
        let chain = OutputChain::tail(segments.as_slice());
        let frame = crate::session::Session::ok(unique, &chain);
        Done::new(Some(frame))
    }
}

impl<'o> FromRequest<'o, Readdir> for ReaddirState<()> {
    open spec fn spec_from_request(request: &Request<'o, Readdir>) -> Self {
        ReaddirState {
            max_read: spec_readdir_read_in(request).size as usize,
            is_plus: request.body() is Match,
            buffer: (),
        }
    }

    fn from_request(request: &Request<'o, Readdir>) -> (state: Self) {
        ReaddirState {
            max_read: readdir_read_in(request).size as usize,
            is_plus: match request.body_ref() {
                OpcodeSelect::Match(_) => true,
                OpcodeSelect::Alt(_) => false,
            },
            buffer: (),
        }
    }
}

impl<'o, O: Operation<'o>> Reply<'o, O> {
    pub fn not_found_for(self, ttl: Ttl) -> (done: Done)
        where O: ReplyFound<'o>
        ensures
            done@ == Some(
                reply_frame(
                    self.unique(),
                    0,
                    entry_out(Ino(0), ttl, zeroed_attrs(), Ttl::spec_null()).to_wire(),
                ),
            ),
    {
        O::not_found_for(self, ttl)
    }

    pub fn entry<K: Known>(self, entry: Entry<'_, K>) -> (outcome: Interruptible<'o, O, ()>)
        where O: ReplyEntries<'o>
        requires
            O::ready(self),
        ensures
            exists|ino: Ino, inode_type: EntryType, attrs: Attrs, attrs_ttl: Ttl|
                #[trigger] O::listed(
                    self,
                    entry.offset,
                    entry.name@,
                    ino,
                    inode_type,
                    attrs,
                    attrs_ttl,
                    entry.ttl,
                    outcome,
                ),
    {
        O::entry(self, entry)
    }

    pub fn end(self) -> (done: Done)
        where O: ReplyEntries<'o>
        requires
            O::ready(self),
        ensures
            done@ == Some(reply_frame(self.unique(), 0, O::listing(self))),
    {
        O::end(self)
    }
}

} // verus!
