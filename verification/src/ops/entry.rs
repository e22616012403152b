//! Operations that make, link or remove an entry of a directory.

use vstd::prelude::*;

use crate::io::{Mode, MODE_ALL};
use crate::ops::traits::{ReplyKnown, ReplyOk, RequestMode, RequestName};
use crate::proto::{self, CStr, EntryOut, Structured};
use crate::{Done, Ino, Operation, Reply, Request, Sealed};

verus! {

/// Makes a directory.
pub struct Mkdir;

/// Removes a name that is not a directory.
pub struct Unlink;

/// Removes an empty directory.
pub struct Rmdir;

/// Makes a symbolic link.
pub struct Symlink;

/// Gives an inode one more name.
pub struct Link;

/// The request says what a new symbolic link points to.
pub trait RequestTarget<'o>: Operation<'o> {
    spec fn target_of(request: &Request<'o, Self>) -> Seq<u8>;

    fn target<'a>(request: &'a Request<'o, Self>) -> (target: &'a [u8])
        ensures
            target@ == Self::target_of(request),
    ;
}

/// The request names the inode that a new link is to lead to.
pub trait RequestLink<'o>: Operation<'o> {
    spec fn source_of(request: &Request<'o, Self>) -> Ino;

    fn source_ino(request: &Request<'o, Self>) -> (ino: Ino)
        ensures
            ino == Self::source_of(request),
    ;
}

impl Sealed for Mkdir {

}

impl Sealed for Unlink {

}

impl Sealed for Rmdir {

}

impl Sealed for Symlink {

}

impl Sealed for Link {

}

impl<'o> Operation<'o> for Mkdir {
    type RequestBody = (proto::MkdirIn, CStr<'o>);

    type ReplyState = ();

    proof fn lemma_grammar() {
        assert(<(proto::MkdirIn, CStr<'o>) as Structured<'o>>::positioned(true));
    }
}

impl<'o> Operation<'o> for Unlink {
    type RequestBody = CStr<'o>;

    type ReplyState = ();

    proof fn lemma_grammar() {
        assert(<CStr<'o> as Structured<'o>>::positioned(true));
    }
}

impl<'o> Operation<'o> for Rmdir {
    type RequestBody = CStr<'o>;

    type ReplyState = ();

    proof fn lemma_grammar() {
        assert(<CStr<'o> as Structured<'o>>::positioned(true));
    }
}

impl<'o> Operation<'o> for Symlink {
    type RequestBody = (CStr<'o>, CStr<'o>);

    type ReplyState = ();

    proof fn lemma_grammar() {
        assert(<(CStr<'o>, CStr<'o>) as Structured<'o>>::positioned(true));
    }
}

impl<'o> Operation<'o> for Link {
    type RequestBody = (proto::LinkIn, CStr<'o>);

    type ReplyState = ();

    proof fn lemma_grammar() {
        assert(<(proto::LinkIn, CStr<'o>) as Structured<'o>>::positioned(true));
    }
}

impl<'o> RequestName<'o> for Mkdir {
    open spec fn name_of(request: &Request<'o, Self>) -> Seq<u8> {
        request.body().1@
    }

    fn name<'a>(request: &'a Request<'o, Self>) -> (name: &'a [u8]) {
        request.body_ref().1.to_bytes()
    }
}

impl<'o> RequestMode<'o> for Mkdir {
    open spec fn mode_of(request: &Request<'o, Self>) -> u32 {
        request.body().0.mode
    }

    open spec fn umask_of(request: &Request<'o, Self>) -> u32 {
        request.body().0.umask
    }

    fn mode(request: &Request<'o, Self>) -> (mode: Mode) {
        Mode::from_bits_truncate(request.body_ref().0.mode)
    }

    fn umask(request: &Request<'o, Self>) -> (umask: Mode) {
        Mode::from_bits_truncate(request.body_ref().0.umask)
    }
}

impl<'o> ReplyKnown<'o> for Mkdir {
    fn known_as(reply: Reply<'o, Self>, record: &EntryOut) -> (done: Done) {
        reply.single(record)
    }
}

impl<'o> RequestName<'o> for Unlink {
    open spec fn name_of(request: &Request<'o, Self>) -> Seq<u8> {
        request.body()@
    }

    fn name<'a>(request: &'a Request<'o, Self>) -> (name: &'a [u8]) {
        request.body_ref().to_bytes()
    }
}

impl<'o> ReplyOk<'o> for Unlink {
    fn ok(reply: Reply<'o, Self>) -> (done: Done) {
        reply.empty()
    }
}

impl<'o> RequestName<'o> for Rmdir {
    open spec fn name_of(request: &Request<'o, Self>) -> Seq<u8> {
        request.body()@
    }

    fn name<'a>(request: &'a Request<'o, Self>) -> (name: &'a [u8]) {
        request.body_ref().to_bytes()
    }
}

impl<'o> ReplyOk<'o> for Rmdir {
    fn ok(reply: Reply<'o, Self>) -> (done: Done) {
        reply.empty()
    }
}

impl<'o> RequestName<'o> for Symlink {
    open spec fn name_of(request: &Request<'o, Self>) -> Seq<u8> {
        request.body().0@
    }

    fn name<'a>(request: &'a Request<'o, Self>) -> (name: &'a [u8]) {
        request.body_ref().0.to_bytes()
    }
}

impl<'o> RequestTarget<'o> for Symlink {
    open spec fn target_of(request: &Request<'o, Self>) -> Seq<u8> {
        request.body().1@
    }

    fn target<'a>(request: &'a Request<'o, Self>) -> (target: &'a [u8]) {
        request.body_ref().1.to_bytes()
    }
}

impl<'o> ReplyKnown<'o> for Symlink {
    fn known_as(reply: Reply<'o, Self>, record: &EntryOut) -> (done: Done) {
        reply.single(record)
    }
}

impl<'o> RequestName<'o> for Link {
    open spec fn name_of(request: &Request<'o, Self>) -> Seq<u8> {
        request.body().1@
    }

    fn name<'a>(request: &'a Request<'o, Self>) -> (name: &'a [u8]) {
        request.body_ref().1.to_bytes()
    }
}

impl<'o> RequestLink<'o> for Link {
    open spec fn source_of(request: &Request<'o, Self>) -> Ino {
        Ino(request.body().0.old_ino)
    }

    fn source_ino(request: &Request<'o, Self>) -> (ino: Ino) {
        Ino(request.body_ref().0.old_ino)
    }
}

impl<'o> ReplyKnown<'o> for Link {
    fn known_as(reply: Reply<'o, Self>, record: &EntryOut) -> (done: Done) {
        reply.single(record)
    }
}

impl<'o, O: Operation<'o>> Request<'o, O> {
    pub fn target(&self) -> (target: &[u8])
        where O: RequestTarget<'o>
        ensures
            target@ == O::target_of(self),
    {
        O::target(self)
    }

    pub fn source_ino(&self) -> (ino: Ino)
        where O: RequestLink<'o>
        ensures
            ino == O::source_of(self),
    {
        O::source_ino(self)
    }
}

} // verus!
