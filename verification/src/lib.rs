//! Server side of the FUSE wire protocol: typed requests, one-shot typed replies, and the
//! decisions of a mounted session.

use vstd::prelude::*;

use crate::proto::{InHeader, OutHeader, Pod, Structured};

pub mod errno;
pub mod error;
pub mod io;
pub mod mount;
pub mod ops;
pub mod proto;
pub mod session;
pub mod util;

verus! {

/// Keeps the set of operations closed.
pub trait Sealed {

}

/// One kind of request: what its body holds, and what its reply carries along until it is
/// sent.
pub trait Operation<'o>: Sealed + Sized {
    type RequestBody: Structured<'o>;

    type ReplyState;

    /// The body's grammar can stand as a whole body.
    proof fn lemma_grammar()
        ensures
            Self::RequestBody::positioned(true),
    ;
}

/// A request that was read completely.
pub struct Request<'o, O: Operation<'o>> {
    header: InHeader,
    body: O::RequestBody,
}

/// The right to answer one request, once.
#[must_use]
pub struct Reply<'o, O: Operation<'o>> {
    unique: u64,
    state: O::ReplyState,
}

/// Inode number.
#[derive(Clone, Copy, Debug, PartialEq, Eq, PartialOrd, Ord, Hash, Structural)]
pub struct Ino(pub u64);

/// Proof that a request has been dealt with. It holds the reply that the session is to write,
/// or nothing where the protocol expects no reply.
#[must_use]
pub struct Done {
    frame: Option<Vec<u8>>,
}

/// For how long the kernel may keep an answer.
#[derive(Clone, Copy, Debug, PartialEq, Eq, Structural)]
pub struct Ttl {
    seconds: u64,
    nanoseconds: u32,
}

/// A point in time, counted from the epoch.
#[derive(Clone, Copy, Debug, PartialEq, Eq, Structural)]
pub struct Timestamp {
    seconds: i64,
    nanoseconds: u32,
}

impl<'o, O: Operation<'o>> Request<'o, O> {
    pub closed spec fn header(&self) -> InHeader {
        self.header
    }

    pub closed spec fn body(&self) -> O::RequestBody {
        self.body
    }

    pub(crate) fn new(header: InHeader, body: O::RequestBody) -> (request: Self)
        ensures
            request.header() == header,
            request.body() == body,
    {
        Request { header, body }
    }

    pub(crate) fn header_ref(&self) -> (header: &InHeader)
        ensures
            *header == self.header(),
    {
        &self.header
    }

    pub(crate) fn body_ref(&self) -> (body: &O::RequestBody)
        ensures
            *body == self.body(),
    {
        &self.body
    }
}

impl<'o, O: Operation<'o>> Reply<'o, O> {
    /// The number of the request that this reply answers.
    pub closed spec fn unique(&self) -> u64 {
        self.unique
    }

    pub closed spec fn state(&self) -> O::ReplyState {
        self.state
    }

    pub(crate) fn new(unique: u64, state: O::ReplyState) -> (reply: Self)
        ensures
            reply.unique() == unique,
            reply.state() == state,
    {
        Reply { unique, state }
    }

    pub(crate) fn state_ref(&self) -> (state: &O::ReplyState)
        ensures
            *state == self.state(),
    {
        &self.state
    }

    pub(crate) fn into_parts(self) -> (parts: (u64, O::ReplyState))
        ensures
            parts.0 == self.unique(),
            parts.1 == self.state(),
    {
        (self.unique, self.state)
    }

    pub(crate) fn id(&self) -> (unique: u64)
        ensures
            unique == self.unique(),
    {
        self.unique
    }
}

impl View for Done {
    type V = Option<Seq<u8>>;

    closed spec fn view(&self) -> Option<Seq<u8>> {
        match self.frame {
            Some(frame) => Some(frame@),
            None => None,
        }
    }
}

impl Done {
    /// What is held is a whole reply.
    #[verifier::type_invariant]
    spec fn framed(self) -> bool {
        match self.frame {
            Some(bytes) => session::is_frame(bytes@),
            None => true,
        }
    }

    pub(crate) fn new(frame: Option<Vec<u8>>) -> (done: Self)
        requires
            match frame {
                Some(bytes) => session::is_frame(bytes@),
                None => true,
            },
        ensures
            done@ == match frame {
                Some(bytes) => Some(bytes@),
                None => None,
            },
    {
        Done { frame }
    }

    /// Hands over the reply that is to be written, if there is one. It starts with a header
    /// whose `len` is the number of its bytes.
    pub fn consume(self) -> (frame: Option<Vec<u8>>)
        ensures
            self@ == match frame {
                Some(bytes) => Some(bytes@),
                None => None,
            },
            match frame {
                Some(bytes) => session::is_frame(bytes@) && bytes@.len() >= 16
                    && OutHeader::from_wire(bytes@.subrange(0, 16)).len == bytes@.len(),
                None => true,
            },
    {
        proof {
            use_type_invariant(&self);
            if self.frame is Some {
                session::lemma_is_frame(self.frame->0@);
            }
        }
        self.frame
    }
}

impl Ino {
    /// The inode number that names no inode.
    pub fn null() -> (ino: Ino)
        ensures
            ino == Ino(0),
    {
        Ino(0)
    }

    /// The number under which the kernel knows the root of the mount.
    pub fn root() -> (ino: Ino)
        ensures
            ino == Ino(proto::ROOT_ID),
    {
        Ino(proto::ROOT_ID)
    }

    /// The raw inode number.
    pub fn as_raw(self) -> (raw: u64)
        ensures
            raw == self.0,
    {
        self.0
    }
}

impl Ttl {
    pub closed spec fn spec_seconds(&self) -> u64 {
        self.seconds
    }

    pub closed spec fn spec_nanoseconds(&self) -> u32 {
        self.nanoseconds
    }

    /// No time at all.
    pub closed spec fn spec_null() -> Ttl {
        Ttl { seconds: 0, nanoseconds: 0 }
    }

    /// No time at all: the answer is not to be kept.
    pub fn null() -> (ttl: Ttl)
        ensures
            ttl == Ttl::spec_null(),
            ttl.spec_seconds() == 0,
            ttl.spec_nanoseconds() == 0,
    {
        Ttl { seconds: 0, nanoseconds: 0 }
    }

    /// The longest time that can be written down.
    pub fn max() -> (ttl: Ttl)
        ensures
            ttl.spec_seconds() == u64::MAX,
            ttl.spec_nanoseconds() == u32::MAX,
    {
        Ttl { seconds: u64::MAX, nanoseconds: u32::MAX }
    }

    pub fn new(seconds: u64, nanoseconds: u32) -> (ttl: Ttl)
        requires
            nanoseconds < 1_000_000_000,
        ensures
            ttl.spec_seconds() == seconds,
            ttl.spec_nanoseconds() == nanoseconds,
    {
        Ttl { seconds, nanoseconds }
    }

    pub fn seconds(&self) -> (seconds: u64)
        ensures
            seconds == self.spec_seconds(),
    {
        self.seconds
    }

    pub fn nanoseconds(&self) -> (nanoseconds: u32)
        ensures
            nanoseconds == self.spec_nanoseconds(),
    {
        self.nanoseconds
    }
}

impl Timestamp {
    pub closed spec fn spec_seconds(&self) -> i64 {
        self.seconds
    }

    pub closed spec fn spec_nanoseconds(&self) -> u32 {
        self.nanoseconds
    }

    pub fn new(seconds: i64, nanoseconds: u32) -> (time: Timestamp)
        ensures
            time.spec_seconds() == seconds,
            time.spec_nanoseconds() == nanoseconds,
    {
        Timestamp { seconds, nanoseconds }
    }

    /// The time that lies `seconds` and `nanoseconds` after the epoch or, if `before`, the
    /// time whose seconds lie that many before it.
    pub fn from_epoch(before: bool, seconds: u64, nanoseconds: u32) -> (time: Timestamp)
        requires
            seconds <= i64::MAX,
        ensures
            time.spec_seconds() == if before {
                -(seconds as int)
            } else {
                seconds as int
            },
            time.spec_nanoseconds() == nanoseconds,
    {
        let seconds = if before {
            -(seconds as i64)
        } else {
            seconds as i64
        };
        Timestamp { seconds, nanoseconds }
    }

    pub fn seconds(&self) -> (seconds: i64)
        ensures
            seconds == self.spec_seconds(),
    {
        self.seconds
    }

    pub fn nanoseconds(&self) -> (nanoseconds: u32)
        ensures
            nanoseconds == self.spec_nanoseconds(),
    {
        self.nanoseconds
    }
}

} // verus!
