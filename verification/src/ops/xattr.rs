//! Extended attributes.

use vstd::prelude::*;

use crate::errno::{self, Named};
use crate::ops::traits::{
    ReplyGather, ReplyNotFound, ReplyOk, RequestData, RequestName, RequestSize,
};
use crate::ops::FromRequest;
use crate::proto::{self, CStr, GetxattrOut, ListxattrOut, Pod, Structured};
use crate::session::{failure_frame, reply_frame};
use crate::util::{concat, segment_views, total_len, OutputChain};
use crate::{Done, Operation, Reply, Request, Sealed};

verus! {

/// Sets an extended attribute.
pub struct Setxattr;

/// Reads an extended attribute.
pub struct Getxattr;

/// Lists the names of the extended attributes.
pub struct Listxattr;

/// Removes an extended attribute.
pub struct Removexattr;

/// What the reply to a read of extended attributes remembers: the size of the buffer that
/// the request offers. A size of 0 asks how large a buffer is needed.
pub struct XattrReadState {
    pub size: u32,
}

/// The operation reads extended attributes into a buffer of the caller's.
pub trait ReplyXattrRead<'o>: Operation<'o> {
    /// The size of the buffer that the request offers.
    spec fn offered(reply: Reply<'o, Self>) -> u32;

    /// The payload that tells the caller to come back with a buffer of `size` bytes.
    spec fn size_payload(size: u32) -> Seq<u8>;

    /// Answers an inquiry with the size that is needed.
    fn requires_size(reply: Reply<'o, Self>, size: u32) -> (done: Done)
        requires
            Self::offered(reply) == 0,
        ensures
            done@ == Some(reply_frame(reply.unique(), 0, Self::size_payload(size))),
    ;

    /// Refuses because the buffer that the request offers is too small.
    fn buffer_too_small(reply: Reply<'o, Self>) -> (done: Done)
        ensures
            done@ == Some(failure_frame(reply.unique(), errno::ERANGE)),
    ;
}

impl Sealed for Setxattr {

}

impl Sealed for Getxattr {

}

impl Sealed for Listxattr {

}

impl Sealed for Removexattr {

}

impl<'o> Operation<'o> for Setxattr {
    type RequestBody = (proto::SetxattrIn, CStr<'o>, &'o [u8]);

    type ReplyState = ();

    proof fn lemma_grammar() {
        assert(<(proto::SetxattrIn, CStr<'o>, &'o [u8]) as Structured<'o>>::positioned(true));
    }
}

impl<'o> Operation<'o> for Getxattr {
    type RequestBody = (proto::GetxattrIn, CStr<'o>);

    type ReplyState = XattrReadState;

    proof fn lemma_grammar() {
        assert(<(proto::GetxattrIn, CStr<'o>) as Structured<'o>>::positioned(true));
    }
}

impl<'o> Operation<'o> for Listxattr {
    type RequestBody = proto::ListxattrIn;

    type ReplyState = XattrReadState;

    proof fn lemma_grammar() {
        assert(<proto::ListxattrIn as Structured<'o>>::positioned(true));
    }
}

impl<'o> Operation<'o> for Removexattr {
    type RequestBody = CStr<'o>;

    type ReplyState = ();

    proof fn lemma_grammar() {
        assert(<CStr<'o> as Structured<'o>>::positioned(true));
    }
}

impl<'o> RequestName<'o> for Setxattr {
    open spec fn name_of(request: &Request<'o, Self>) -> Seq<u8> {
        request.body().1@
    }

    fn name<'a>(request: &'a Request<'o, Self>) -> (name: &'a [u8]) {
        request.body_ref().1.to_bytes()
    }
}

impl<'o> RequestData<'o> for Setxattr {
    open spec fn data_of(request: &Request<'o, Self>) -> Seq<u8> {
        request.body().2@
    }

    fn data<'a>(request: &'a Request<'o, Self>) -> (data: &'a [u8]) {
        request.body_ref().2
    }
}

impl<'o> ReplyOk<'o> for Setxattr {
    fn ok(reply: Reply<'o, Self>) -> (done: Done) {
        reply.empty()
    }
}

impl<'o> ReplyNotFound<'o> for Setxattr {
    /// The number that the machine has for `ENODATA`.
    open spec fn not_found_with(errno: i32) -> bool {
        Named::Enodata.has_number(errno)
    }

    fn not_found(reply: Reply<'o, Self>) -> (done: Done) {
        let errno = errno::enodata();
        proof {
            errno::lemma_named(Named::Enodata, errno);
        }
        let done = reply.fail(errno);
        assert(Self::not_found_with(errno));
        done
    }
}

impl<'o> RequestSize<'o> for Getxattr {
    open spec fn size_of(request: &Request<'o, Self>) -> u32 {
        request.body().0.size
    }

    fn size(request: &Request<'o, Self>) -> (size: u32) {
        request.body_ref().0.size
    }
}

impl<'o> RequestName<'o> for Getxattr {
    open spec fn name_of(request: &Request<'o, Self>) -> Seq<u8> {
        request.body().1@
    }

    fn name<'a>(request: &'a Request<'o, Self>) -> (name: &'a [u8]) {
        request.body_ref().1.to_bytes()
    }
}

impl<'o> ReplyNotFound<'o> for Getxattr {
    /// The number that the machine has for `ENODATA`.
    open spec fn not_found_with(errno: i32) -> bool {
        Named::Enodata.has_number(errno)
    }

    fn not_found(reply: Reply<'o, Self>) -> (done: Done) {
        let errno = errno::enodata();
        proof {
            errno::lemma_named(Named::Enodata, errno);
        }
        let done = reply.fail(errno);
        assert(Self::not_found_with(errno));
        done
    }
}

/// A value is handed over only if the request offers room for it: a request that offers none
/// learns the value's size, and one that offers too little is refused.
impl<'o> ReplyGather<'o> for Getxattr {
    /// The size of any value that 32 bits can count is reported, and any such value is
    /// refused that is larger than the room offered. A value that is handed over has to fit
    /// into a reply.
    open spec fn gather_fits(reply: Reply<'o, Self>, len: nat) -> bool {
        &&& len <= u32::MAX
        &&& 0 < reply.state().size && len <= reply.state().size ==> len
            <= crate::session::MAX_PAYLOAD
    }

    open spec fn gather_reply(reply: Reply<'o, Self>, payload: Seq<u8>) -> Seq<u8> {
        if reply.state().size == 0 {
            reply_frame(
                reply.unique(),
                0,
                (GetxattrOut { size: payload.len() as u32, padding: 0 }).to_wire(),
            )
        } else if reply.state().size < payload.len() {
            failure_frame(reply.unique(), errno::ERANGE)
        } else {
            reply_frame(reply.unique(), 0, payload)
        }
    }

    fn gather(reply: Reply<'o, Self>, fragments: &[&[u8]]) -> (done: Done) {
        let size = total_len(fragments) as u32;
        if reply.state_ref().size == 0 {
            return Self::requires_size(reply, size);
        } else if reply.state_ref().size < size {
            return Self::buffer_too_small(reply);
        }
        reply.chain(OutputChain::tail(fragments))
    }
}

impl<'o> ReplyXattrRead<'o> for Getxattr {
    open spec fn offered(reply: Reply<'o, Self>) -> u32 {
        reply.state().size
    }

    open spec fn size_payload(size: u32) -> Seq<u8> {
        (GetxattrOut { size, padding: 0 }).to_wire()
    }

    fn requires_size(reply: Reply<'o, Self>, size: u32) -> (done: Done) {
        let record = GetxattrOut { size, padding: 0 };
        assert(Self::size_payload(size) == record.to_wire());
        reply.single(&record)
    }

    fn buffer_too_small(reply: Reply<'o, Self>) -> (done: Done) {
        reply.fail(errno::erange())
    }
}

impl<'o> RequestSize<'o> for Listxattr {
    open spec fn size_of(request: &Request<'o, Self>) -> u32 {
        request.body().getxattr_in.size
    }

    fn size(request: &Request<'o, Self>) -> (size: u32) {
        request.body_ref().getxattr_in.size
    }
}

impl<'o> ReplyXattrRead<'o> for Listxattr {
    open spec fn offered(reply: Reply<'o, Self>) -> u32 {
        reply.state().size
    }

    open spec fn size_payload(size: u32) -> Seq<u8> {
        (ListxattrOut { getxattr_out: GetxattrOut { size, padding: 0 } }).to_wire()
    }

    fn requires_size(reply: Reply<'o, Self>, size: u32) -> (done: Done) {
        reply.single(&ListxattrOut { getxattr_out: GetxattrOut { size, padding: 0 } })
    }

    fn buffer_too_small(reply: Reply<'o, Self>) -> (done: Done) {
        reply.fail(errno::erange())
    }
}

impl<'o> RequestName<'o> for Removexattr {
    open spec fn name_of(request: &Request<'o, Self>) -> Seq<u8> {
        request.body()@
    }

    fn name<'a>(request: &'a Request<'o, Self>) -> (name: &'a [u8]) {
        request.body_ref().to_bytes()
    }
}

impl<'o> ReplyOk<'o> for Removexattr {
    fn ok(reply: Reply<'o, Self>) -> (done: Done) {
        reply.empty()
    }
}

impl<'o> ReplyNotFound<'o> for Removexattr {
    /// The number that the machine has for `ENODATA`.
    open spec fn not_found_with(errno: i32) -> bool {
        Named::Enodata.has_number(errno)
    }

    fn not_found(reply: Reply<'o, Self>) -> (done: Done) {
        let errno = errno::enodata();
        proof {
            errno::lemma_named(Named::Enodata, errno);
        }
        let done = reply.fail(errno);
        assert(Self::not_found_with(errno));
        done
    }
}

impl<'o> Request<'o, Setxattr> {
    /// The value that the attribute is to get.
    pub fn value(&self) -> (value: &[u8])
        ensures
            value@ == self.body().2@,
    {
        Setxattr::data(self)
    }
}

impl<'o> Reply<'o, Getxattr> {
    /// Answers an inquiry with the size of the value.
    pub fn value_size(self, size: u32) -> (done: Done)
        requires
            self.state().size == 0,
        ensures
            done@ == Some(
                reply_frame(self.unique(), 0, (GetxattrOut { size, padding: 0 }).to_wire()),
            ),
    {
        Getxattr::requires_size(self, size)
    }
}

impl<'o> Reply<'o, Listxattr> {
    /// Answers an inquiry with the size of the list.
    pub fn value_size(self, size: u32) -> (done: Done)
        requires
            self.state().size == 0,
        ensures
            done@ == Some(
                reply_frame(
                    self.unique(),
                    0,
                    (ListxattrOut { getxattr_out: GetxattrOut { size, padding: 0 } }).to_wire(),
                ),
            ),
    {
        Listxattr::requires_size(self, size)
    }
}

impl<'o> FromRequest<'o, Getxattr> for XattrReadState {
    open spec fn spec_from_request(request: &Request<'o, Getxattr>) -> Self {
        XattrReadState { size: request.body().0.size }
    }

    fn from_request(request: &Request<'o, Getxattr>) -> (state: Self) {
        XattrReadState { size: request.body_ref().0.size }
    }
}

impl<'o> FromRequest<'o, Listxattr> for XattrReadState {
    open spec fn spec_from_request(request: &Request<'o, Listxattr>) -> Self {
        XattrReadState { size: request.body().getxattr_in.size }
    }

    fn from_request(request: &Request<'o, Listxattr>) -> (state: Self) {
        XattrReadState { size: request.body_ref().getxattr_in.size }
    }
}

impl<'o, O: Operation<'o>> Reply<'o, O> {
    pub fn requires_size(self, size: u32) -> (done: Done)
        where O: ReplyXattrRead<'o>
        requires
            O::offered(self) == 0,
        ensures
            done@ == Some(reply_frame(self.unique(), 0, O::size_payload(size))),
    {
        O::requires_size(self, size)
    }

    pub fn buffer_too_small(self) -> (done: Done)
        where O: ReplyXattrRead<'o>
        ensures
            done@ == Some(failure_frame(self.unique(), errno::ERANGE)),
    {
        O::buffer_too_small(self)
    }
}

} // verus!
