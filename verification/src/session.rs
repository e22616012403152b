//! What a mounted session decides: how a reply is framed, how the handshake goes, where a
//! request is sent, and who holds which buffer.

use std::marker::PhantomData;

use vstd::bytes::{spec_u32_to_le_bytes, u32_to_le_bytes};
use vstd::prelude::*;
use vstd::slice::slice_subrange;

use crate::errno::{self, Named};
use crate::error::{FuseError, FuseResult};
use crate::ops::global::buffers_fit;
use crate::ops::{self, FromRequest, InitState};
use crate::proto::flags::INIT_ALL;
use crate::proto::{
    parse_header, InHeader, InitFlags, InitIn, InterruptIn, Opcode, OutHeader, Pod, Structured,
    MAJOR_VERSION, MIN_READ_SIZE, REQUIRED_MINOR_VERSION,
};
use crate::util::OutputChain;
use crate::{Done, Operation, Reply, Request};

verus! {

/// A request and the reply to it.
pub type Op<'o, O = ops::Any> = (Request<'o, O>, Reply<'o, O>);

/// How many request buffers a session shares among the requests that outlive their turn.
pub const SHARED_BUFFERS: usize = 32;

/// How many interrupts may wait for a slow listener before the oldest is lost.
pub const INTERRUPT_BROADCAST_CAPACITY: usize = 32;

/// Where the body of a request starts.
pub const HEADER_END: usize = 40;

/// The longest payload that a reply can frame: its header counts it, and itself, in 32 bits.
pub const MAX_PAYLOAD: usize = 0xffff_ffef;

/// A reply on the wire: the header, whose `len` counts itself and the payload, then the
/// payload.
pub open spec fn reply_frame(unique: u64, error: i32, payload: Seq<u8>) -> Seq<u8> {
    OutHeader { len: (16 + payload.len()) as u32, error, unique }.to_wire() + payload
}

/// The reply that fails request `unique` with the error number `errno`: a header alone, which
/// carries the negated number.
pub open spec fn failure_frame(unique: u64, errno: i32) -> Seq<u8> {
    reply_frame(unique, (-errno) as i32, Seq::empty())
}

/// Whether `bytes` fail request `unique`, with whichever error number.
pub open spec fn refusal(unique: u64, bytes: Seq<u8>) -> bool {
    exists|errno: i32| errno > 0 && bytes == #[trigger] failure_frame(unique, errno)
}

/// Whether what a request was dealt with is a reply that fails request `unique` with the
/// error `named`, under the number that the machine has for it.
pub open spec fn refuses(unique: u64, named: Named, done: Option<Seq<u8>>) -> bool {
    exists|errno: i32| #[trigger]
        named.has_number(errno) && done == Some(failure_frame(unique, errno))
}

/// A reply that fails a request with a named error fails it.
pub proof fn lemma_refuses(unique: u64, named: Named, done: Option<Seq<u8>>)
    requires
        refuses(unique, named, done),
    ensures
        done matches Some(bytes) && refusal(unique, bytes),
{
    let errno = choose|errno: i32| #[trigger]
        named.has_number(errno) && done == Some(failure_frame(unique, errno));
    crate::errno::lemma_named(named, errno);
}

/// A frame is as long as its header says.
pub proof fn lemma_frame_len(unique: u64, error: i32, payload: Seq<u8>)
    requires
        payload.len() <= MAX_PAYLOAD,
    ensures
        reply_frame(unique, error, payload).len() == 16 + payload.len(),
        OutHeader::from_wire(reply_frame(unique, error, payload).subrange(0, 16)) == (OutHeader {
            len: (16 + payload.len()) as u32,
            error,
            unique,
        }),
        reply_frame(unique, error, payload).subrange(16, 16 + payload.len() as int) == payload,
{
    let header = OutHeader { len: (16 + payload.len()) as u32, error, unique };
    header.lemma_wire();
    let frame = reply_frame(unique, error, payload);
    assert(frame.subrange(0, 16) =~= header.to_wire());
    assert(frame.subrange(16, 16 + payload.len() as int) =~= payload);
}

/// Whether `bytes` are a reply on the wire: a header that counts them all, and a payload.
pub open spec fn is_frame(bytes: Seq<u8>) -> bool {
    exists|unique: u64, error: i32, payload: Seq<u8>|
        payload.len() <= MAX_PAYLOAD && bytes == #[trigger] reply_frame(unique, error, payload)
}

/// The header of a reply says how many bytes the reply has.
pub proof fn lemma_is_frame(bytes: Seq<u8>)
    requires
        is_frame(bytes),
    ensures
        bytes.len() >= 16,
        OutHeader::from_wire(bytes.subrange(0, 16)).len == bytes.len(),
{
    let (unique, error, payload) = choose|unique: u64, error: i32, payload: Seq<u8>|
        payload.len() <= MAX_PAYLOAD && bytes == #[trigger] reply_frame(unique, error, payload);
    lemma_frame_len(unique, error, payload);
}

/// A refusal is a frame of a header alone, which carries the negated error number.
pub proof fn lemma_failure_frame(unique: u64, errno: i32)
    requires
        errno > 0,
    ensures
        failure_frame(unique, errno).len() == 16,
        OutHeader::from_wire(failure_frame(unique, errno)) == (OutHeader {
            len: 16,
            error: (-errno) as i32,
            unique,
        }),
        OutHeader::from_wire(failure_frame(unique, errno)).error == -errno,
        is_frame(failure_frame(unique, errno)),
        refusal(unique, failure_frame(unique, errno)),
{
    lemma_frame_len(unique, (-errno) as i32, Seq::empty());
    let frame = failure_frame(unique, errno);
    assert(frame.subrange(0, 16) =~= frame);
}

/// Whatever fails a request is a frame of a header alone, for that request, and its error is
/// negative.
pub proof fn lemma_refusal(unique: u64, bytes: Seq<u8>)
    requires
        refusal(unique, bytes),
    ensures
        bytes.len() == 16,
        OutHeader::from_wire(bytes).len == 16,
        OutHeader::from_wire(bytes).unique == unique,
        OutHeader::from_wire(bytes).error < 0,
{
    let errno = choose|errno: i32| errno > 0 && bytes == #[trigger] failure_frame(unique, errno);
    lemma_failure_frame(unique, errno);
}

impl Session {
    /// Frames `output` as the reply to request `unique`.
    pub fn send(unique: u64, error: i32, output: &OutputChain<'_>) -> (frame: Vec<u8>)
        requires
            output.bytes().len() <= MAX_PAYLOAD,
        ensures
            frame@ == reply_frame(unique, error, output.bytes()),
            frame@.len() == 16 + output.bytes().len(),
            is_frame(frame@),
    {
        let payload = output.to_vec();
        let header = OutHeader { len: (16 + payload.len()) as u32, error, unique };
        let mut frame: Vec<u8> = Vec::new();
        header.encode(&mut frame);
        frame.extend_from_slice(payload.as_slice());
        proof {
            lemma_frame_len(unique, error, output.bytes());
            assert(frame@ =~= reply_frame(unique, error, output.bytes()));
        }
        frame
    }

    /// Frames `output` as the answer to request `unique`.
    pub fn ok(unique: u64, output: &OutputChain<'_>) -> (frame: Vec<u8>)
        requires
            output.bytes().len() <= MAX_PAYLOAD,
        ensures
            frame@ == reply_frame(unique, 0, output.bytes()),
            is_frame(frame@),
    {
        Self::send(unique, 0, output)
    }

    /// Frames the refusal of request `unique` with `errno`. An `errno` that is not positive goes
    /// out as the system's `ENOMSG`.
    pub fn fail(unique: u64, errno: i32) -> (frame: Vec<u8>)
        ensures
            errno > 0 ==> frame@ == failure_frame(unique, errno),
            errno <= 0 ==> refuses(unique, Named::Enomsg, Some(frame@)),
            refusal(unique, frame@),
            is_frame(frame@),
    {
        let sent = if errno <= 0 {
            errno::enomsg()
        } else {
            errno
        };
        let output = OutputChain::empty();
        assert(output.bytes() =~= Seq::<u8>::empty());
        proof {
            if errno <= 0 {
                crate::errno::lemma_named(Named::Enomsg, sent);
            }
        }
        let frame = Self::send(unique, -sent, &output);
        assert(frame@ == failure_frame(unique, sent));
        frame
    }

    /// Judges a write of a frame of `length` bytes of which the descriptor took `count`.
    pub fn written(count: usize, length: usize) -> (result: FuseResult<()>)
        ensures
            count == length ==> result is Ok,
            count != length ==> result == Err::<(), _>(FuseError::ShortWrite),
    {
        if count == length {
            Ok(())
        } else {
            Err(FuseError::ShortWrite)
        }
    }
}

/// A byte region of fixed size into which requests are read.
pub struct Buffer(Vec<u8>);

impl View for Buffer {
    type V = Seq<u8>;

    closed spec fn view(&self) -> Seq<u8> {
        self.0@
    }
}

impl Buffer {
    /// A buffer of `pages` pages of `page_size` bytes, all zero.
    pub(crate) fn new(pages: usize, page_size: usize) -> (buffer: Self)
        requires
            pages * page_size <= usize::MAX,
        ensures
            buffer@ == Seq::new((pages * page_size) as nat, |i: int| 0u8),
    {
        let bytes = vec![0u8; pages * page_size];
        assert(bytes@ =~= Seq::new((pages * page_size) as nat, |i: int| 0u8));
        Buffer(bytes)
    }

    pub fn len(&self) -> (len: usize)
        ensures
            len == self@.len(),
    {
        self.0.len()
    }

    pub fn as_slice(&self) -> (bytes: &[u8])
        ensures
            bytes@ == self@,
    {
        self.0.as_slice()
    }

    /// The region, to be written to. Its size stays as it is.
    pub fn as_mut_slice(&mut self) -> (bytes: &mut [u8])
        ensures
            bytes@ == old(self)@,
            final(bytes)@ == final(self)@,
    {
        self.0.as_mut_slice()
    }

    /// Copies `bytes` to the front of the buffer, if they fit.
    pub(crate) fn store(&mut self, bytes: &[u8]) -> (stored: bool)
        ensures
            final(self)@.len() == old(self)@.len(),
            stored == (bytes@.len() <= old(self)@.len()),
            stored ==> final(self)@.subrange(0, bytes@.len() as int) == bytes@,
            !stored ==> final(self)@ == old(self)@,
    {
        if bytes.len() > self.0.len() {
            return false;
        }
        let mut i: usize = 0;
        while i < bytes.len()
            invariant
                i <= bytes.len() <= self.0.len(),
                self.0@.len() == old(self)@.len(),
                self.0@.subrange(0, i as int) == bytes@.subrange(0, i as int),
            decreases bytes.len() - i,
        {
            let ghost before = self.0@;
            self.0[i] = bytes[i];
            proof {
                assert(self.0@.subrange(0, i + 1) =~= before.subrange(0, i as int).push(
                    bytes@[i as int],
                ));
                assert(bytes@.subrange(0, i + 1) =~= bytes@.subrange(0, i as int).push(
                    bytes@[i as int],
                ));
            }
            i += 1;
        }
        assert(bytes@.subrange(0, bytes@.len() as int) =~= bytes@);
        true
    }
}

/// A mount whose handshake is still to come.
pub struct Start {
    mountpoint: Vec<u8>,
}

/// A mounted filesystem: its pool of request buffers, how many of them may be lent, how many
/// are on loan, the shape of a buffer, and where it is mounted until it is unmounted.
///
/// A buffer is a whole number of pages and no smaller than the smallest read that the kernel
/// accepts.
pub struct Session {
    buffers: Vec<Buffer>,
    permits: usize,
    on_loan: usize,
    buffer_pages: usize,
    page_size: usize,
    mountpoint: Option<Vec<u8>>,
}

/// The receiving end of a session, with the buffer that requests are read into.
pub struct Endpoint {
    local_buffer: Buffer,
}

/// What the head of a request and its bytes say, before the body is read as any operation.
pub struct IncomingCommon<'o> {
    bytes: &'o [u8],
    header: InHeader,
}

/// A request that has arrived, known by its operation but not read further.
pub struct Incoming<'o, O: Operation<'o>> {
    common: IncomingCommon<'o>,
    _phantom: PhantomData<O>,
}

/// A request that has been moved to a buffer of the pool, so that it can be answered after
/// the next one has arrived.
pub struct Owned<O> {
    buffer: Buffer,
    length: usize,
    header: InHeader,
    _phantom: PhantomData<O>,
}

/// A request that has arrived, by its operation.
pub enum Dispatch<'o> {
    Lookup(Incoming<'o, ops::Lookup>),
    Forget(Incoming<'o, ops::Forget>),
    Getattr(Incoming<'o, ops::Getattr>),
    Readlink(Incoming<'o, ops::Readlink>),
    Symlink(Incoming<'o, ops::Symlink>),
    Mkdir(Incoming<'o, ops::Mkdir>),
    Unlink(Incoming<'o, ops::Unlink>),
    Rmdir(Incoming<'o, ops::Rmdir>),
    Link(Incoming<'o, ops::Link>),
    Open(Incoming<'o, ops::Open>),
    Read(Incoming<'o, ops::Read>),
    Write(Incoming<'o, ops::Write>),
    Statfs(Incoming<'o, ops::Statfs>),
    Release(Incoming<'o, ops::Release>),
    Fsync(Incoming<'o, ops::Fsync>),
    Setxattr(Incoming<'o, ops::Setxattr>),
    Getxattr(Incoming<'o, ops::Getxattr>),
    Listxattr(Incoming<'o, ops::Listxattr>),
    Removexattr(Incoming<'o, ops::Removexattr>),
    Flush(Incoming<'o, ops::Flush>),
    Opendir(Incoming<'o, ops::Opendir>),
    Readdir(Incoming<'o, ops::Readdir>),
    Releasedir(Incoming<'o, ops::Releasedir>),
    Fsyncdir(Incoming<'o, ops::Fsyncdir>),
    Access(Incoming<'o, ops::Access>),
    Create(Incoming<'o, ops::Create>),
    Bmap(Incoming<'o, ops::Bmap>),
}

/// What the first message of the kernel leads to.
pub enum Handshake<'o> {
    /// The kernel speaks a protocol that this server serves: the filesystem is to answer.
    Accept(Request<'o, ops::Init>, Reply<'o, ops::Init>),
    /// The kernel offers a later major version: it is told this server's, and will ask again.
    Restart(Done),
    /// The kernel speaks a protocol that is too old: it is told so, and the session fails.
    Refuse(Done),
}

/// What one message of the kernel leads to.
pub enum Received<'o> {
    /// A request for the filesystem to answer.
    Dispatch(Dispatch<'o>),
    /// A request that the session has answered itself.
    Answered(Done),
    /// The kernel wants the request of this number interrupted. No reply is expected.
    Interrupt(u64),
    /// The kernel is done with the mount.
    Destroy,
}

/// The operation under which a request with this opcode is handed to the filesystem, if it
/// is handed to it at all: every operation whose body the protocol module reads, with the
/// batched forget as a forget and the listing with attributes as a listing.
pub open spec fn dispatched_as(opcode: Opcode) -> Option<Opcode> {
    match opcode {
        Opcode::Lookup => Some(Opcode::Lookup),
        Opcode::Forget => Some(Opcode::Forget),
        Opcode::Getattr => Some(Opcode::Getattr),
        Opcode::Readlink => Some(Opcode::Readlink),
        Opcode::Symlink => Some(Opcode::Symlink),
        Opcode::Mkdir => Some(Opcode::Mkdir),
        Opcode::Unlink => Some(Opcode::Unlink),
        Opcode::Rmdir => Some(Opcode::Rmdir),
        Opcode::Link => Some(Opcode::Link),
        Opcode::Open => Some(Opcode::Open),
        Opcode::Read => Some(Opcode::Read),
        Opcode::Write => Some(Opcode::Write),
        Opcode::Statfs => Some(Opcode::Statfs),
        Opcode::Release => Some(Opcode::Release),
        Opcode::Fsync => Some(Opcode::Fsync),
        Opcode::Setxattr => Some(Opcode::Setxattr),
        Opcode::Getxattr => Some(Opcode::Getxattr),
        Opcode::Listxattr => Some(Opcode::Listxattr),
        Opcode::Removexattr => Some(Opcode::Removexattr),
        Opcode::Flush => Some(Opcode::Flush),
        Opcode::Opendir => Some(Opcode::Opendir),
        Opcode::Readdir => Some(Opcode::Readdir),
        Opcode::Releasedir => Some(Opcode::Releasedir),
        Opcode::Fsyncdir => Some(Opcode::Fsyncdir),
        Opcode::Access => Some(Opcode::Access),
        Opcode::Create => Some(Opcode::Create),
        Opcode::Bmap => Some(Opcode::Bmap),
        Opcode::BatchForget => Some(Opcode::Forget),
        Opcode::ReaddirPlus => Some(Opcode::Readdir),
        _ => None,
    }
}

impl<'o> IncomingCommon<'o> {
    /// The head and the bytes agree: the bytes are a whole request with this header.
    #[verifier::type_invariant]
    spec fn whole(self) -> bool {
        &&& HEADER_END <= self.bytes@.len()
        &&& self.header.len == self.bytes@.len()
        &&& self.header == InHeader::from_wire(self.bytes@.subrange(0, HEADER_END as int))
    }

    pub closed spec fn bytes(&self) -> Seq<u8> {
        self.bytes@
    }

    pub closed spec fn header(&self) -> InHeader {
        self.header
    }

    fn new(bytes: &'o [u8], header: InHeader) -> (common: Self)
        requires
            HEADER_END <= bytes@.len(),
            header.len == bytes@.len(),
            header == InHeader::from_wire(bytes@.subrange(0, HEADER_END as int)),
        ensures
            common.bytes() == bytes@,
            common.header() == header,
    {
        IncomingCommon { bytes, header }
    }

    /// The request, read no further than its header.
    pub(crate) fn into_generic_op(self) -> (op: Op<'o>)
        ensures
            op.0.header() == self.header(),
            op.1.unique() == self.header().unique,
    {
        let request = Request::new(self.header, ());
        let reply = Reply::new(self.header.unique, ());
        (request, reply)
    }
}

impl<'o, O: Operation<'o>> Incoming<'o, O> {
    pub closed spec fn bytes(&self) -> Seq<u8> {
        self.common.bytes()
    }

    pub closed spec fn header(&self) -> InHeader {
        self.common.header()
    }

    fn new(common: IncomingCommon<'o>) -> (incoming: Self)
        ensures
            incoming.bytes() == common.bytes(),
            incoming.header() == common.header(),
    {
        Incoming { common, _phantom: PhantomData }
    }

    fn into_common(self) -> (common: IncomingCommon<'o>)
        ensures
            common.bytes() == self.bytes(),
            common.header() == self.header(),
    {
        self.common
    }
}

/// What reading the body of a request as operation `O` gives: the request and the reply to
/// it, or the `EIO` with which a body that does not parse is answered.
pub open spec fn op_outcome<'o, O: Operation<'o>>(
    bytes: Seq<u8>,
    header: InHeader,
    outcome: Result<Op<'o, O>, Done>,
) -> bool where O::ReplyState: FromRequest<'o, O> {
    let body = bytes.subrange(HEADER_END as int, bytes.len() as int);
    match crate::proto::parse_toplevel::<O::RequestBody>(body, header) {
        Ok(value) => outcome matches Ok((request, reply)) && request.header() == header
            && request.body()@ == value && reply.unique() == header.unique && reply.state()
            == O::ReplyState::spec_from_request(&request),
        Err(_) => outcome matches Err(done) && done@ == Some(
            failure_frame(header.unique, errno::EIO),
        ),
    }
}

/// A request whose bytes stand for a header and a body of operation `O` is read as that
/// header and that body, and its reply answers the request of the header's number.
pub proof fn lemma_request_roundtrip<'o, O: Operation<'o>>(
    header: InHeader,
    opcode: Opcode,
    body: <O::RequestBody as View>::V,
    outcome: Result<Op<'o, O>, Done>,
) where O::ReplyState: FromRequest<'o, O>
    requires
        opcode.spec_raw() == header.opcode,
        header.len == HEADER_END + O::RequestBody::wire(body).len(),
        O::RequestBody::well_formed(body, header),
        op_outcome::<O>(header.to_wire() + O::RequestBody::wire(body), header, outcome),
    ensures
        parse_header(header.to_wire() + O::RequestBody::wire(body)) == Ok::<_, FuseError>(
            (header, opcode),
        ),
        outcome matches Ok((request, reply)) && request.header() == header && request.body()@
            == body && reply.unique() == header.unique,
{
    O::lemma_grammar();
    crate::proto::lemma_header_roundtrip(header, opcode, O::RequestBody::wire(body));
    crate::proto::lemma_toplevel_roundtrip::<O::RequestBody>(body, header);
}

/// A request that is read holds its whole body: the body's bytes are all the bytes after the
/// header. And a request whose body is refused is answered with `EIO`.
pub proof fn lemma_request_consumes<'o, O: Operation<'o>>(
    bytes: Seq<u8>,
    header: InHeader,
    outcome: Result<Op<'o, O>, Done>,
) where O::ReplyState: FromRequest<'o, O>
    requires
        HEADER_END <= bytes.len(),
        op_outcome::<O>(bytes, header, outcome),
    ensures
        match outcome {
            Ok((request, reply)) => O::RequestBody::wire(request.body()@) == bytes.subrange(
                HEADER_END as int,
                bytes.len() as int,
            ) && O::RequestBody::wire(request.body()@).len() == bytes.len() - HEADER_END,
            Err(done) => done@ == Some(failure_frame(header.unique, errno::EIO)),
        },
{
    O::lemma_grammar();
    crate::proto::lemma_toplevel_consumes::<O::RequestBody>(
        bytes.subrange(HEADER_END as int, bytes.len() as int),
        header,
    );
}

pub(crate) fn try_op<'o, O: Operation<'o>>(bytes: &'o [u8], header: InHeader) -> (outcome: Result<
    Op<'o, O>,
    Done,
>) where O::ReplyState: FromRequest<'o, O>
    requires
        HEADER_END <= bytes@.len(),
        header.len == bytes@.len(),
    ensures
        op_outcome::<O>(bytes@, header, outcome),
{
    proof {
        O::lemma_grammar();
    }
    let body = slice_subrange(bytes, HEADER_END, bytes.len());
    match O::RequestBody::toplevel_from(body, &header) {
        Ok(body) => {
            let request = Request::new(header, body);
            let state = O::ReplyState::from_request(&request);
            let reply = Reply::new(header.unique, state);
            Ok((request, reply))
        },
        Err(_) => {
            let reply: Reply<'o, ops::Any> = Reply::new(header.unique, ());
            Err(reply.io_error())
        },
    }
}

impl<'o, O: Operation<'o>> Incoming<'o, O> where O::ReplyState: FromRequest<'o, O> {
    /// Reads the body of the request.
    pub fn op(self) -> (outcome: Result<Op<'o, O>, Done>)
        ensures
            op_outcome::<O>(self.bytes(), self.header(), outcome),
    {
        proof {
            use_type_invariant(&self.common);
        }
        try_op(self.common.bytes, self.common.header)
    }
}

impl<'o> Dispatch<'o> {
    /// The operation that the request asks for.
    pub open spec fn spec_kind(&self) -> Opcode {
        match self {
            Dispatch::Lookup(_) => Opcode::Lookup,
            Dispatch::Forget(_) => Opcode::Forget,
            Dispatch::Getattr(_) => Opcode::Getattr,
            Dispatch::Readlink(_) => Opcode::Readlink,
            Dispatch::Symlink(_) => Opcode::Symlink,
            Dispatch::Mkdir(_) => Opcode::Mkdir,
            Dispatch::Unlink(_) => Opcode::Unlink,
            Dispatch::Rmdir(_) => Opcode::Rmdir,
            Dispatch::Link(_) => Opcode::Link,
            Dispatch::Open(_) => Opcode::Open,
            Dispatch::Read(_) => Opcode::Read,
            Dispatch::Write(_) => Opcode::Write,
            Dispatch::Statfs(_) => Opcode::Statfs,
            Dispatch::Release(_) => Opcode::Release,
            Dispatch::Fsync(_) => Opcode::Fsync,
            Dispatch::Setxattr(_) => Opcode::Setxattr,
            Dispatch::Getxattr(_) => Opcode::Getxattr,
            Dispatch::Listxattr(_) => Opcode::Listxattr,
            Dispatch::Removexattr(_) => Opcode::Removexattr,
            Dispatch::Flush(_) => Opcode::Flush,
            Dispatch::Opendir(_) => Opcode::Opendir,
            Dispatch::Readdir(_) => Opcode::Readdir,
            Dispatch::Releasedir(_) => Opcode::Releasedir,
            Dispatch::Fsyncdir(_) => Opcode::Fsyncdir,
            Dispatch::Access(_) => Opcode::Access,
            Dispatch::Create(_) => Opcode::Create,
            Dispatch::Bmap(_) => Opcode::Bmap,
        }
    }

    /// The operation that the request asks for.
    pub fn kind(&self) -> (kind: Opcode)
        ensures
            kind == self.spec_kind(),
    {
        match self {
            Dispatch::Lookup(_) => Opcode::Lookup,
            Dispatch::Forget(_) => Opcode::Forget,
            Dispatch::Getattr(_) => Opcode::Getattr,
            Dispatch::Readlink(_) => Opcode::Readlink,
            Dispatch::Symlink(_) => Opcode::Symlink,
            Dispatch::Mkdir(_) => Opcode::Mkdir,
            Dispatch::Unlink(_) => Opcode::Unlink,
            Dispatch::Rmdir(_) => Opcode::Rmdir,
            Dispatch::Link(_) => Opcode::Link,
            Dispatch::Open(_) => Opcode::Open,
            Dispatch::Read(_) => Opcode::Read,
            Dispatch::Write(_) => Opcode::Write,
            Dispatch::Statfs(_) => Opcode::Statfs,
            Dispatch::Release(_) => Opcode::Release,
            Dispatch::Fsync(_) => Opcode::Fsync,
            Dispatch::Setxattr(_) => Opcode::Setxattr,
            Dispatch::Getxattr(_) => Opcode::Getxattr,
            Dispatch::Listxattr(_) => Opcode::Listxattr,
            Dispatch::Removexattr(_) => Opcode::Removexattr,
            Dispatch::Flush(_) => Opcode::Flush,
            Dispatch::Opendir(_) => Opcode::Opendir,
            Dispatch::Readdir(_) => Opcode::Readdir,
            Dispatch::Releasedir(_) => Opcode::Releasedir,
            Dispatch::Fsyncdir(_) => Opcode::Fsyncdir,
            Dispatch::Access(_) => Opcode::Access,
            Dispatch::Create(_) => Opcode::Create,
            Dispatch::Bmap(_) => Opcode::Bmap,
        }
    }

    /// The header of the request.
    pub open spec fn header(&self) -> InHeader {
        match self {
            Dispatch::Lookup(incoming) => incoming.header(),
            Dispatch::Forget(incoming) => incoming.header(),
            Dispatch::Getattr(incoming) => incoming.header(),
            Dispatch::Readlink(incoming) => incoming.header(),
            Dispatch::Symlink(incoming) => incoming.header(),
            Dispatch::Mkdir(incoming) => incoming.header(),
            Dispatch::Unlink(incoming) => incoming.header(),
            Dispatch::Rmdir(incoming) => incoming.header(),
            Dispatch::Link(incoming) => incoming.header(),
            Dispatch::Open(incoming) => incoming.header(),
            Dispatch::Read(incoming) => incoming.header(),
            Dispatch::Write(incoming) => incoming.header(),
            Dispatch::Statfs(incoming) => incoming.header(),
            Dispatch::Release(incoming) => incoming.header(),
            Dispatch::Fsync(incoming) => incoming.header(),
            Dispatch::Setxattr(incoming) => incoming.header(),
            Dispatch::Getxattr(incoming) => incoming.header(),
            Dispatch::Listxattr(incoming) => incoming.header(),
            Dispatch::Removexattr(incoming) => incoming.header(),
            Dispatch::Flush(incoming) => incoming.header(),
            Dispatch::Opendir(incoming) => incoming.header(),
            Dispatch::Readdir(incoming) => incoming.header(),
            Dispatch::Releasedir(incoming) => incoming.header(),
            Dispatch::Fsyncdir(incoming) => incoming.header(),
            Dispatch::Access(incoming) => incoming.header(),
            Dispatch::Create(incoming) => incoming.header(),
            Dispatch::Bmap(incoming) => incoming.header(),
        }
    }

    /// The bytes of the request.
    pub open spec fn bytes(&self) -> Seq<u8> {
        match self {
            Dispatch::Lookup(incoming) => incoming.bytes(),
            Dispatch::Forget(incoming) => incoming.bytes(),
            Dispatch::Getattr(incoming) => incoming.bytes(),
            Dispatch::Readlink(incoming) => incoming.bytes(),
            Dispatch::Symlink(incoming) => incoming.bytes(),
            Dispatch::Mkdir(incoming) => incoming.bytes(),
            Dispatch::Unlink(incoming) => incoming.bytes(),
            Dispatch::Rmdir(incoming) => incoming.bytes(),
            Dispatch::Link(incoming) => incoming.bytes(),
            Dispatch::Open(incoming) => incoming.bytes(),
            Dispatch::Read(incoming) => incoming.bytes(),
            Dispatch::Write(incoming) => incoming.bytes(),
            Dispatch::Statfs(incoming) => incoming.bytes(),
            Dispatch::Release(incoming) => incoming.bytes(),
            Dispatch::Fsync(incoming) => incoming.bytes(),
            Dispatch::Setxattr(incoming) => incoming.bytes(),
            Dispatch::Getxattr(incoming) => incoming.bytes(),
            Dispatch::Listxattr(incoming) => incoming.bytes(),
            Dispatch::Removexattr(incoming) => incoming.bytes(),
            Dispatch::Flush(incoming) => incoming.bytes(),
            Dispatch::Opendir(incoming) => incoming.bytes(),
            Dispatch::Readdir(incoming) => incoming.bytes(),
            Dispatch::Releasedir(incoming) => incoming.bytes(),
            Dispatch::Fsyncdir(incoming) => incoming.bytes(),
            Dispatch::Access(incoming) => incoming.bytes(),
            Dispatch::Create(incoming) => incoming.bytes(),
            Dispatch::Bmap(incoming) => incoming.bytes(),
        }
    }

    /// The request, read no further than its header, whatever its operation.
    pub fn op(self) -> (op: Op<'o>)
        ensures
            op.0.header() == self.header(),
            op.1.unique() == self.header().unique,
    {
        let common = match self {
            Dispatch::Lookup(incoming) => incoming.into_common(),
            Dispatch::Forget(incoming) => incoming.into_common(),
            Dispatch::Getattr(incoming) => incoming.into_common(),
            Dispatch::Readlink(incoming) => incoming.into_common(),
            Dispatch::Symlink(incoming) => incoming.into_common(),
            Dispatch::Mkdir(incoming) => incoming.into_common(),
            Dispatch::Unlink(incoming) => incoming.into_common(),
            Dispatch::Rmdir(incoming) => incoming.into_common(),
            Dispatch::Link(incoming) => incoming.into_common(),
            Dispatch::Open(incoming) => incoming.into_common(),
            Dispatch::Read(incoming) => incoming.into_common(),
            Dispatch::Write(incoming) => incoming.into_common(),
            Dispatch::Statfs(incoming) => incoming.into_common(),
            Dispatch::Release(incoming) => incoming.into_common(),
            Dispatch::Fsync(incoming) => incoming.into_common(),
            Dispatch::Setxattr(incoming) => incoming.into_common(),
            Dispatch::Getxattr(incoming) => incoming.into_common(),
            Dispatch::Listxattr(incoming) => incoming.into_common(),
            Dispatch::Removexattr(incoming) => incoming.into_common(),
            Dispatch::Flush(incoming) => incoming.into_common(),
            Dispatch::Opendir(incoming) => incoming.into_common(),
            Dispatch::Readdir(incoming) => incoming.into_common(),
            Dispatch::Releasedir(incoming) => incoming.into_common(),
            Dispatch::Fsyncdir(incoming) => incoming.into_common(),
            Dispatch::Access(incoming) => incoming.into_common(),
            Dispatch::Create(incoming) => incoming.into_common(),
            Dispatch::Bmap(incoming) => incoming.into_common(),
        };
        common.into_generic_op()
    }
}

/// What a message of the kernel leads to.
///
/// A message shorter than a header cannot be answered and fails as `Truncated`. A header
/// whose length is not that of the message is answered with `EIO`, and one with an unknown
/// opcode with a refusal (the system's `ENOSYS`). `Destroy` ends the session and an
/// interrupt names the request that it is for; neither is answered. A request for an
/// operation that this server hands to the filesystem is dispatched, and any other is
/// refused in the same way.
pub open spec fn received<'o>(bytes: Seq<u8>, outcome: FuseResult<Received<'o>>) -> bool {
    let header = InHeader::from_wire(bytes.subrange(0, HEADER_END as int));
    match parse_header(bytes) {
        Err(FuseError::BadLength) => outcome matches Ok(Received::Answered(done)) && done@
            == Some(failure_frame(header.unique, errno::EIO)),
        Err(FuseError::BadOpcode) => outcome matches Ok(Received::Answered(done)) && refuses(
            header.unique,
            Named::Enosys,
            done@,
        ),
        Err(_) => outcome matches Err(FuseError::Truncated),
        Ok((header, Opcode::Destroy)) => outcome matches Ok(Received::Destroy),
        Ok((header, Opcode::Interrupt)) => {
            let body = bytes.subrange(HEADER_END as int, bytes.len() as int);
            if body.len() == InterruptIn::wire_len() {
                outcome matches Ok(Received::Interrupt(unique)) && unique
                    == InterruptIn::from_wire(body).unique
            } else {
                outcome matches Ok(Received::Answered(done)) && done@ == Some(
                    failure_frame(header.unique, errno::EIO),
                )
            }
        },
        Ok((header, opcode)) => match dispatched_as(opcode) {
            Some(kind) => outcome matches Ok(Received::Dispatch(dispatch)) && dispatch.spec_kind()
                == kind && dispatch.header() == header && dispatch.bytes() == bytes,
            None => outcome matches Ok(Received::Answered(done)) && refuses(
                header.unique,
                Named::Enosys,
                done@,
            ),
        },
    }
}

/// Decides what the message `bytes` leads to.
pub fn receive<'o>(bytes: &'o [u8]) -> (outcome: FuseResult<Received<'o>>)
    ensures
        received(bytes@, outcome),
{
    let (header, opcode) = match InHeader::from_bytes(bytes) {
        Ok(parsed) => parsed,
        Err(error) => {
            if bytes.len() < HEADER_END {
                return Err(FuseError::Truncated);
            }
            let header = InHeader::decode(slice_subrange(bytes, 0, HEADER_END));
            let errno = match error {
                FuseError::BadLength => errno::eio(),
                _ => errno::enosys(),
            };
            return Ok(Received::Answered(Done::new(Some(Session::fail(header.unique, errno)))));
        },
    };
    let common = IncomingCommon::new(bytes, header);
    let received = match opcode {
        Opcode::Destroy => Received::Destroy,
        Opcode::Interrupt => {
            let body = slice_subrange(bytes, HEADER_END, bytes.len());
            if body.len() == InterruptIn::size() {
                Received::Interrupt(InterruptIn::decode(body).unique)
            } else {
                Received::Answered(Done::new(Some(Session::fail(header.unique, errno::eio()))))
            }
        },
            Opcode::Lookup => Received::Dispatch(Dispatch::Lookup(Incoming::new(common))),
            Opcode::Forget => Received::Dispatch(Dispatch::Forget(Incoming::new(common))),
            Opcode::Getattr => Received::Dispatch(Dispatch::Getattr(Incoming::new(common))),
            Opcode::Readlink => Received::Dispatch(Dispatch::Readlink(Incoming::new(common))),
            Opcode::Symlink => Received::Dispatch(Dispatch::Symlink(Incoming::new(common))),
            Opcode::Mkdir => Received::Dispatch(Dispatch::Mkdir(Incoming::new(common))),
            Opcode::Unlink => Received::Dispatch(Dispatch::Unlink(Incoming::new(common))),
            Opcode::Rmdir => Received::Dispatch(Dispatch::Rmdir(Incoming::new(common))),
            Opcode::Link => Received::Dispatch(Dispatch::Link(Incoming::new(common))),
            Opcode::Open => Received::Dispatch(Dispatch::Open(Incoming::new(common))),
            Opcode::Read => Received::Dispatch(Dispatch::Read(Incoming::new(common))),
            Opcode::Write => Received::Dispatch(Dispatch::Write(Incoming::new(common))),
            Opcode::Statfs => Received::Dispatch(Dispatch::Statfs(Incoming::new(common))),
            Opcode::Release => Received::Dispatch(Dispatch::Release(Incoming::new(common))),
            Opcode::Fsync => Received::Dispatch(Dispatch::Fsync(Incoming::new(common))),
            Opcode::Setxattr => Received::Dispatch(Dispatch::Setxattr(Incoming::new(common))),
            Opcode::Getxattr => Received::Dispatch(Dispatch::Getxattr(Incoming::new(common))),
            Opcode::Listxattr => Received::Dispatch(Dispatch::Listxattr(Incoming::new(common))),
            Opcode::Removexattr => Received::Dispatch(Dispatch::Removexattr(Incoming::new(common))),
            Opcode::Flush => Received::Dispatch(Dispatch::Flush(Incoming::new(common))),
            Opcode::Opendir => Received::Dispatch(Dispatch::Opendir(Incoming::new(common))),
            Opcode::Readdir => Received::Dispatch(Dispatch::Readdir(Incoming::new(common))),
            Opcode::Releasedir => Received::Dispatch(Dispatch::Releasedir(Incoming::new(common))),
            Opcode::Fsyncdir => Received::Dispatch(Dispatch::Fsyncdir(Incoming::new(common))),
            Opcode::Access => Received::Dispatch(Dispatch::Access(Incoming::new(common))),
            Opcode::Create => Received::Dispatch(Dispatch::Create(Incoming::new(common))),
            Opcode::Bmap => Received::Dispatch(Dispatch::Bmap(Incoming::new(common))),
            Opcode::BatchForget => Received::Dispatch(Dispatch::Forget(Incoming::new(common))),
            Opcode::ReaddirPlus => Received::Dispatch(Dispatch::Readdir(Incoming::new(common))),
        _ => {
            let (_request, reply) = common.into_generic_op();
            Received::Answered(reply.not_implemented())
        },
    };
    Ok(received)
}

impl<'o> Received<'o> {
    /// Whether the session ends with this message.
    pub fn is_break(&self) -> (yes: bool)
        ensures
            yes == (*self is Destroy),
    {
        match self {
            Received::Destroy => true,
            _ => false,
        }
    }
}

/// How many pages of `page_size` bytes a request buffer takes: as few as make it no smaller
/// than the smallest read that the kernel accepts.
pub open spec fn spec_buffer_pages(page_size: usize) -> int {
    (MIN_READ_SIZE + page_size - 1) / (page_size as int)
}

/// The largest page size that a session takes: a buffer is at least a page, and the kernel is
/// told the size of a buffer in 32 bits.
pub const MAX_PAGE_SIZE: usize = 0xffff_ffff;

proof fn lemma_buffer_pages(page_size: usize)
    requires
        0 < page_size <= MAX_PAGE_SIZE,
    ensures
        0 < spec_buffer_pages(page_size) <= MIN_READ_SIZE,
        MIN_READ_SIZE <= spec_buffer_pages(page_size) * page_size < MIN_READ_SIZE + page_size,
        page_size >= MIN_READ_SIZE ==> spec_buffer_pages(page_size) == 1,
        spec_buffer_pages(page_size) * page_size <= u32::MAX,
{
    let total = MIN_READ_SIZE + page_size - 1;
    let size = page_size as int;
    vstd::arithmetic::div_mod::lemma_fundamental_div_mod(total, size);
    vstd::arithmetic::div_mod::lemma_mod_bound(total, size);
    let pages = total / size;
    assert(total == size * pages + total % size);
    assert(size * pages == pages * size) by (nonlinear_arith);
    assert(pages > 0) by (nonlinear_arith)
        requires
            pages * size > 0,
            size > 0,
    ;
    assert(pages <= MIN_READ_SIZE) by (nonlinear_arith)
        requires
            pages * size < MIN_READ_SIZE + size,
            size >= 1,
            pages > 0,
    ;
    if page_size >= MIN_READ_SIZE {
        assert(pages < 2) by (nonlinear_arith)
            requires
                pages * size < MIN_READ_SIZE + size,
                size >= MIN_READ_SIZE,
        ;
        assert(pages * size == size) by (nonlinear_arith)
            requires
                pages == 1,
        ;
    }
}

impl Start {
    pub closed spec fn mountpoint(&self) -> Seq<u8> {
        self.mountpoint@
    }

    /// A mount at `mountpoint` that has been made and not yet been greeted.
    pub fn new(mountpoint: Vec<u8>) -> (start: Self)
        ensures
            start.mountpoint() == mountpoint@,
    {
        Start { mountpoint }
    }

    /// Sets the session up for a machine whose pages have `page_size` bytes: with all of its
    /// buffers in the pool, each of them a whole number of pages and no smaller than the
    /// smallest read that the kernel accepts, and mounted where this mount was made.
    pub fn start(self, page_size: usize) -> (session: Session)
        requires
            0 < page_size <= MAX_PAGE_SIZE,
        ensures
            session.wf(),
            session.page_size() == page_size,
            session.buffer_pages() == spec_buffer_pages(page_size),
            session.buffer_pages() * page_size >= MIN_READ_SIZE,
            session.available() == SHARED_BUFFERS,
            session.spec_permits() == SHARED_BUFFERS,
            session.on_loan() == 0,
            session.mountpoint() == Some(self.mountpoint()),
    {
        proof {
            lemma_buffer_pages(page_size);
        }
        let buffer_pages = if page_size >= MIN_READ_SIZE {
            1
        } else {
            (MIN_READ_SIZE + page_size - 1) / page_size
        };
        let mut buffers: Vec<Buffer> = Vec::new();
        while buffers.len() < SHARED_BUFFERS
            invariant
                buffers@.len() <= SHARED_BUFFERS,
                buffer_pages * page_size <= u32::MAX,
                forall|i: int|
                    0 <= i < buffers@.len() ==> (#[trigger] buffers@[i])@.len() == buffer_pages
                        * page_size,
            decreases SHARED_BUFFERS - buffers@.len(),
        {
            buffers.push(Buffer::new(buffer_pages, page_size));
        }
        Session {
            buffers,
            permits: SHARED_BUFFERS,
            on_loan: 0,
            buffer_pages,
            page_size,
            mountpoint: Some(self.mountpoint),
        }
    }

    /// Gives the mount up before any session was started on it: what is returned is where
    /// to unmount.
    pub fn unmount_sync(self) -> (mountpoint: Vec<u8>)
        ensures
            mountpoint@ == self.mountpoint(),
    {
        self.mountpoint
    }
}

/// What the first message of the kernel leads to in a session of this buffer shape.
///
/// A message that is no whole request fails as its header does, one that is no handshake as
/// `ProtocolInit`, and a handshake whose body is too short or too long as `Truncated` or
/// `BadLength`. A kernel of a later major version is answered with this server's major
/// version and nothing else. A kernel of an earlier major version, or of this one and too
/// early a minor version, is refused (with the system's `EPROTONOSUPPORT`). Any other is
/// accepted.
pub open spec fn handshake_outcome<'o>(
    buffer_pages: usize,
    page_size: usize,
    bytes: Seq<u8>,
    outcome: FuseResult<Handshake<'o>>,
) -> bool {
    let body = bytes.subrange(HEADER_END as int, bytes.len() as int);
    let init = InitIn::from_wire(body);
    match parse_header(bytes) {
        Err(error) => outcome matches Err(reported) && reported == error,
        Ok((header, opcode)) => if opcode != Opcode::Init {
            outcome matches Err(FuseError::ProtocolInit)
        } else if body.len() < InitIn::wire_len() {
            outcome matches Err(FuseError::Truncated)
        } else if body.len() > InitIn::wire_len() {
            outcome matches Err(FuseError::BadLength)
        } else if init.major > MAJOR_VERSION {
            outcome matches Ok(Handshake::Restart(done)) && done@ == Some(
                reply_frame(header.unique, 0, spec_u32_to_le_bytes(MAJOR_VERSION)),
            )
        } else if init.major < MAJOR_VERSION || init.minor < REQUIRED_MINOR_VERSION {
            outcome matches Ok(Handshake::Refuse(done)) && refuses(
                header.unique,
                Named::Eprotonosupport,
                done@,
            )
        } else {
            outcome matches Ok(Handshake::Accept(request, reply)) && request.header() == header
                && request.body() == init && reply.unique() == header.unique
                && reply.state().kernel_flags()@ == init.flags & INIT_ALL
                && reply.state().buffer_pages() == buffer_pages && reply.state().page_size()
                == page_size
        },
    }
}

/// Whether `bytes` are a handshake request, and nothing but one.
pub open spec fn is_init(bytes: Seq<u8>) -> bool {
    &&& parse_header(bytes) matches Ok((header, opcode)) && opcode == Opcode::Init
    &&& bytes.len() == HEADER_END + InitIn::wire_len()
}

/// What a handshake request says of the kernel's protocol.
pub open spec fn init_of(bytes: Seq<u8>) -> InitIn {
    InitIn::from_wire(bytes.subrange(HEADER_END as int, bytes.len() as int))
}

/// The number of the request that `bytes` start.
pub open spec fn unique_of(bytes: Seq<u8>) -> u64 {
    InHeader::from_wire(bytes.subrange(0, HEADER_END as int)).unique
}

/// Whether `outcome` tells the kernel that sent `bytes` this server's major version, and
/// nothing else.
pub open spec fn restarted<'o>(bytes: Seq<u8>, outcome: FuseResult<Handshake<'o>>) -> bool {
    outcome matches Ok(Handshake::Restart(done)) && done@ == Some(
        reply_frame(unique_of(bytes), 0, spec_u32_to_le_bytes(MAJOR_VERSION)),
    )
}

/// A kernel that offers later major versions is told this server's major version each time,
/// and nothing else. Once it asks with this server's major version and a minor version that
/// is late enough, it is accepted with that request, whatever it asked before, and it is
/// never refused on the way.
pub proof fn lemma_handshake_upgrade<'o>(
    buffer_pages: usize,
    page_size: usize,
    earlier: Seq<(Seq<u8>, FuseResult<Handshake<'o>>)>,
    last: Seq<u8>,
    outcome: FuseResult<Handshake<'o>>,
)
    requires
        forall|i: int|
            0 <= i < earlier.len() ==> is_init((#[trigger] earlier[i]).0) && init_of(
                earlier[i].0,
            ).major > MAJOR_VERSION && handshake_outcome(
                buffer_pages,
                page_size,
                earlier[i].0,
                earlier[i].1,
            ),
        is_init(last),
        init_of(last).major == MAJOR_VERSION,
        init_of(last).minor >= REQUIRED_MINOR_VERSION,
        handshake_outcome(buffer_pages, page_size, last, outcome),
    ensures
        forall|i: int|
            0 <= i < earlier.len() ==> restarted((#[trigger] earlier[i]).0, earlier[i].1),
        outcome matches Ok(Handshake::Accept(request, reply)) && request.header().unique
            == unique_of(last) && request.body() == init_of(last) && reply.unique() == unique_of(
            last,
        ) && reply.state().kernel_flags()@ == init_of(last).flags & INIT_ALL,
{
}

impl Session {
    /// Whether the session is in order: the pool and the count of what may be lent agree,
    /// every buffer is either in the pool or on loan, and every buffer of the pool has the
    /// session's shape.
    pub closed spec fn wf(&self) -> bool {
        &&& self.permits == self.buffers@.len()
        &&& self.buffers@.len() + self.on_loan == SHARED_BUFFERS
        &&& buffers_fit(self.buffer_pages, self.page_size)
        &&& MIN_READ_SIZE <= self.buffer_pages * self.page_size
        &&& forall|i: int|
            0 <= i < self.buffers@.len() ==> (#[trigger] self.buffers@[i])@.len()
                == self.buffer_pages * self.page_size
    }

    /// How many buffers lie in the pool.
    pub closed spec fn available(&self) -> nat {
        self.buffers@.len()
    }

    /// How many buffers may be lent.
    pub closed spec fn spec_permits(&self) -> nat {
        self.permits as nat
    }

    /// How many buffers are on loan.
    pub closed spec fn on_loan(&self) -> nat {
        self.on_loan as nat
    }

    pub closed spec fn buffer_pages(&self) -> usize {
        self.buffer_pages
    }

    pub closed spec fn page_size(&self) -> usize {
        self.page_size
    }

    /// Where the session is mounted, until it is unmounted.
    pub closed spec fn mountpoint(&self) -> Option<Seq<u8>> {
        match self.mountpoint {
            Some(path) => Some(path@),
            None => None,
        }
    }

    /// In a session that is in order, as many buffers may be lent as lie in the pool; and
    /// while none is on loan, these are all the buffers that the session shares.
    pub proof fn lemma_pool(&self)
        requires
            self.wf(),
        ensures
            self.spec_permits() == self.available(),
            self.available() + self.on_loan() == SHARED_BUFFERS,
            self.on_loan() == 0 ==> self.spec_permits() == SHARED_BUFFERS && self.available()
                == SHARED_BUFFERS,
    {
    }

    /// How many buffers may be lent: as many as lie in the pool, which are all of them but
    /// those on loan.
    pub fn permits(&self) -> (permits: usize)
        requires
            self.wf(),
        ensures
            permits == self.spec_permits(),
            permits == self.available(),
            permits + self.on_loan() == SHARED_BUFFERS,
    {
        self.permits
    }

    /// How many bytes a request buffer of this session has.
    pub fn buffer_size(&self) -> (size: usize)
        requires
            self.wf(),
        ensures
            size == self.buffer_pages() * self.page_size(),
            size >= MIN_READ_SIZE,
    {
        self.buffer_pages * self.page_size
    }

    /// A receiving end, with a buffer of its own.
    pub fn endpoint(&self) -> (endpoint: Endpoint)
        requires
            self.wf(),
        ensures
            endpoint.capacity() == self.buffer_pages() * self.page_size(),
            endpoint.buffer() == Seq::new(endpoint.capacity(), |i: int| 0u8),
    {
        Endpoint { local_buffer: Buffer::new(self.buffer_pages, self.page_size) }
    }

    /// Takes the mountpoint, so that the mount is unmounted at most once: what is returned is
    /// where to unmount, and afterwards the session has no mountpoint.
    pub fn unmount_sync(&mut self) -> (mountpoint: Option<Vec<u8>>)
        requires
            old(self).wf(),
        ensures
            final(self).wf(),
            old(self).mountpoint() == match mountpoint {
                Some(path) => Some(path@),
                None => None,
            },
            final(self).mountpoint() is None,
            final(self).available() == old(self).available(),
            final(self).on_loan() == old(self).on_loan(),
            final(self).buffer_pages() == old(self).buffer_pages(),
            final(self).page_size() == old(self).page_size(),
    {
        self.mountpoint.take()
    }

    /// Decides what the first message of the kernel leads to.
    pub fn handshake<'o>(&self, bytes: &'o [u8]) -> (outcome: FuseResult<Handshake<'o>>)
        requires
            self.wf(),
        ensures
            handshake_outcome(self.buffer_pages(), self.page_size(), bytes@, outcome),
    {
        let (header, opcode) = InHeader::from_bytes(bytes)?;
        match opcode {
            Opcode::Init => {},
            _ => {
                return Err(FuseError::ProtocolInit);
            },
        }
        let body = slice_subrange(bytes, HEADER_END, bytes.len());
        let body = match InitIn::toplevel_from(body, &header) {
            Ok(body) => body,
            Err(error) => {
                return Err(error);
            },
        };
        proof {
            let raw = bytes@.subrange(HEADER_END as int, bytes@.len() as int);
            assert(raw.subrange(0, 16) =~= raw);
        }
        if body.major > MAJOR_VERSION {
            let major = u32_to_le_bytes(MAJOR_VERSION);
            let reply: Reply<'o, ops::Any> = Reply::new(header.unique, ());
            return Ok(Handshake::Restart(reply.inner(major.as_slice())));
        }
        if body.major < MAJOR_VERSION || body.minor < REQUIRED_MINOR_VERSION {
            let reply: Reply<'o, ops::Any> = Reply::new(header.unique, ());
            return Ok(Handshake::Refuse(reply.fail(errno::eprotonosupport())));
        }
        let request = Request::new(header, body);
        let state = InitState::new(
            InitFlags::from_bits_truncate(body.flags),
            self.buffer_pages,
            self.page_size,
        );
        let reply = Reply::new(header.unique, state);
        Ok(Handshake::Accept(request, reply))
    }

    /// Takes a buffer out of the pool, if one may be lent.
    fn acquire(&mut self) -> (buffer: Option<Buffer>)
        requires
            old(self).wf(),
        ensures
            final(self).wf(),
            final(self).mountpoint() == old(self).mountpoint(),
            final(self).buffer_pages() == old(self).buffer_pages(),
            final(self).page_size() == old(self).page_size(),
            match buffer {
                Some(buffer) => {
                    &&& old(self).available() > 0
                    &&& final(self).available() + 1 == old(self).available()
                    &&& final(self).on_loan() == old(self).on_loan() + 1
                    &&& buffer@.len() == old(self).buffer_pages() * old(self).page_size()
                },
                None => {
                    &&& old(self).available() == 0
                    &&& final(self).available() == 0
                    &&& final(self).on_loan() == old(self).on_loan()
                },
            },
    {
        if self.permits == 0 {
            return None;
        }
        let buffer = self.buffers.pop();
        self.permits = self.permits - 1;
        self.on_loan = self.on_loan + 1;
        buffer
    }

    /// Puts a buffer that was on loan back into the pool. Where nothing is on loan, or the
    /// buffer is not of this session's shape, it is not taken.
    fn release(&mut self, buffer: Buffer)
        requires
            old(self).wf(),
        ensures
            final(self).wf(),
            final(self).mountpoint() == old(self).mountpoint(),
            final(self).buffer_pages() == old(self).buffer_pages(),
            final(self).page_size() == old(self).page_size(),
            final(self).available() + final(self).on_loan() == old(self).available()
                + old(self).on_loan(),
            old(self).on_loan() > 0 && buffer@.len() == old(self).buffer_pages()
                * old(self).page_size() ==> final(self).available() == old(self).available() + 1,
    {
        if self.on_loan > 0 && buffer.len() == self.buffer_pages * self.page_size {
            let ghost before = self.buffers@;
            self.buffers.push(buffer);
            self.permits = self.permits + 1;
            self.on_loan = self.on_loan - 1;
            assert forall|i: int| 0 <= i < self.buffers@.len() implies (
            #[trigger] self.buffers@[i])@.len() == self.buffer_pages * self.page_size by {
                if i < before.len() {
                    assert(self.buffers@[i] == before[i]);
                }
            }
        }
    }

    /// Takes back the buffer of a request that has been dealt with.
    pub fn reclaim<O>(&mut self, owned: Owned<O>)
        requires
            old(self).wf(),
        ensures
            final(self).wf(),
            final(self).mountpoint() == old(self).mountpoint(),
            final(self).buffer_pages() == old(self).buffer_pages(),
            final(self).page_size() == old(self).page_size(),
            final(self).available() + final(self).on_loan() == old(self).available()
                + old(self).on_loan(),
            old(self).on_loan() > 0 && owned.capacity() == old(self).buffer_pages()
                * old(self).page_size() ==> final(self).available() == old(self).available() + 1,
    {
        self.release(owned.buffer);
    }

    /// Forgets where the session is mounted, because the kernel has given the mount up:
    /// there is nothing left to unmount.
    pub fn abort(&mut self)
        requires
            old(self).wf(),
        ensures
            final(self).wf(),
            final(self).mountpoint() is None,
            final(self).available() == old(self).available(),
            final(self).on_loan() == old(self).on_loan(),
    {
        self.mountpoint = None;
    }
}

impl Endpoint {
    /// How many bytes the buffer of this end has.
    pub closed spec fn capacity(&self) -> nat {
        self.local_buffer@.len()
    }

    pub closed spec fn buffer(&self) -> Seq<u8> {
        self.local_buffer@
    }

    /// The buffer, for the next message to be read into.
    pub fn buffer_mut(&mut self) -> (bytes: &mut [u8])
        ensures
            bytes@ == old(self).buffer(),
            final(bytes)@ == final(self).buffer(),
    {
        self.local_buffer.as_mut_slice()
    }

    /// Decides what the message leads to that takes the first `length` bytes of the buffer.
    pub fn receive<'o>(&'o self, length: usize) -> (outcome: FuseResult<Received<'o>>)
        requires
            length <= self.capacity(),
        ensures
            received(self.buffer().subrange(0, length as int), outcome),
    {
        receive(slice_subrange(self.local_buffer.as_slice(), 0, length))
    }
}

impl<'o, O: Operation<'o>> Incoming<'o, O> {
    /// Moves the request to a buffer of the pool, so that it can be answered later. No reply
    /// is due for now. The request is moved whenever a buffer lies in the pool and the
    /// request fits into a buffer; where not, the request stays as it is.
    pub fn owned(self, session: &mut Session) -> (outcome: Result<(Done, Owned<O>), Self>)
        requires
            old(session).wf(),
        ensures
            outcome is Ok <==> old(session).available() > 0 && self.bytes().len() <= old(session)
                .buffer_pages() * old(session).page_size(),
            final(session).wf(),
            final(session).mountpoint() == old(session).mountpoint(),
            final(session).buffer_pages() == old(session).buffer_pages(),
            final(session).page_size() == old(session).page_size(),
            match outcome {
                Ok((done, owned)) => {
                    &&& done@ is None
                    &&& owned.header() == self.header()
                    &&& owned.bytes() == self.bytes()
                    &&& owned.capacity() == old(session).buffer_pages() * old(session).page_size()
                    &&& old(session).available() > 0
                    &&& final(session).available() + 1 == old(session).available()
                    &&& final(session).on_loan() == old(session).on_loan() + 1
                },
                Err(incoming) => {
                    &&& incoming == self
                    &&& final(session).available() == old(session).available()
                    &&& final(session).on_loan() == old(session).on_loan()
                },
            },
    {
        proof {
            use_type_invariant(&self.common);
        }
        match session.acquire() {
            None => Err(self),
            Some(mut buffer) => {
                if buffer.store(self.common.bytes) {
                    let owned = Owned {
                        buffer,
                        length: self.common.bytes.len(),
                        header: self.common.header,
                        _phantom: PhantomData,
                    };
                    Ok((Done::new(None), owned))
                } else {
                    session.release(buffer);
                    Err(self)
                }
            },
        }
    }
}

impl<O> Owned<O> {
    /// The buffer holds a whole request with this header.
    #[verifier::type_invariant]
    spec fn whole(self) -> bool {
        &&& HEADER_END <= self.length <= self.buffer@.len()
        &&& self.header.len == self.length
    }

    pub closed spec fn header(&self) -> InHeader {
        self.header
    }

    /// The bytes of the request.
    pub closed spec fn bytes(&self) -> Seq<u8> {
        self.buffer@.subrange(0, self.length as int)
    }

    /// How many bytes the buffer has that holds the request.
    pub closed spec fn capacity(&self) -> nat {
        self.buffer@.len()
    }
}

impl<O> Owned<O> {
    /// Reads the body of the request.
    pub fn op<'o>(&'o self) -> (outcome: Result<Op<'o, O>, Done>) where
        O: Operation<'o>,
        O::ReplyState: FromRequest<'o, O>,

        ensures
            op_outcome::<O>(self.bytes(), self.header(), outcome),
    {
        proof {
            use_type_invariant(self);
        }
        try_op(slice_subrange(self.buffer.as_slice(), 0, self.length), self.header)
    }
}

} // verus!
