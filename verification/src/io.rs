//! What requests and replies have in common, and the values that a filesystem hands to a
//! reply.

use vstd::prelude::*;

use crate::errno::{self, Named};
use crate::proto;
use crate::session;
use crate::{Done, Ino, Operation, Reply, Request, Timestamp, Ttl};

pub use crate::proto::FsyncFlags;

verus! {

/// File-type bits of a mode.
pub const S_IFIFO: u32 = 0x1000;

pub const S_IFCHR: u32 = 0x2000;

pub const S_IFDIR: u32 = 0x4000;

pub const S_IFBLK: u32 = 0x6000;

pub const S_IFREG: u32 = 0x8000;

pub const S_IFLNK: u32 = 0xa000;

pub const S_IFSOCK: u32 = 0xc000;

/// Every permission bit of a mode.
pub const MODE_ALL: u32 = 0xfff;

/// Every bit of an access mask.
pub const ACCESS_ALL: i32 = 7;

/// The bits of the open flags that say whether a file is opened to be read, written or both.
pub const ACCESS_MODE: i32 = 3;

/// What kind of file an inode is.
#[derive(Clone, Copy, Debug, PartialEq, Eq, Hash, Structural)]
pub enum EntryType {
    Fifo,
    CharacterDevice,
    Directory,
    BlockDevice,
    File,
    Symlink,
    Socket,
}

/// Permission bits of a file.
#[derive(Clone, Copy, Debug, PartialEq, Eq, Structural)]
pub struct Mode {
    bits: u32,
}

/// Flags of an open call.
#[derive(Clone, Copy, Debug, PartialEq, Eq, Structural)]
pub struct OpenFlags {
    bits: i32,
}

/// The kinds of access that an access check asks about.
#[derive(Clone, Copy, Debug, PartialEq, Eq, Structural)]
pub struct AccessFlags {
    bits: i32,
}

/// Either the reply is still to be given, or an interrupt has taken it.
pub enum Interruptible<'o, O: Operation<'o>, T> {
    Completed(Reply<'o, O>, T),
    Interrupted(Done),
}

/// What a filesystem tells of one of its inodes.
pub trait Stat {
    fn ino(&self) -> Ino;

    fn inode_type(&self) -> EntryType;

    fn attrs(&self) -> (Attrs, Ttl);
}

/// An inode on the point of being made known to the kernel.
pub trait Known {
    type Inode: Stat;

    fn inode(&self) -> &Self::Inode;

    /// Called once the kernel has been told of the inode: it now holds one more reference.
    fn unveil(self);
}

/// A reply that was given as a failure, and the error that caused it.
pub struct Failed<E>(pub Done, pub E);

/// An error that knows how to refuse a request.
pub trait Finish<'o, O: Operation<'o>> {
    /// Whether `errno` is a number with which this error refuses a request.
    spec fn refuses_with(&self, errno: i32) -> bool;

    fn finish(&self, reply: Reply<'o, O>) -> (done: Done)
        ensures
            exists|errno: i32|
                errno > 0 && #[trigger] self.refuses_with(errno) && done@ == Some(
                    session::failure_frame(reply.unique(), errno),
                ),
    ;
}

/// The attributes of an inode, as a filesystem states them.
#[derive(Clone, Copy, Debug)]
pub struct Attrs(proto::Attrs);

/// One entry of a directory listing.
pub struct Entry<'a, K> {
    pub offset: u64,
    pub name: &'a [u8],
    pub inode: K,
    pub ttl: Ttl,
}

/// Statistics of a filesystem.
#[derive(Clone, Copy, Debug)]
pub struct FsInfo(proto::StatfsOut);

/// `nix::sys::stat::Mode::from_bits_truncate`, then `bits`: of `bits`, those that are
/// permission bits.
#[verifier::external_body]
fn mode_bits_truncate(bits: u32) -> (kept: u32)
    ensures
        kept == bits & MODE_ALL,
{
    nix::sys::stat::Mode::from_bits_truncate(bits).bits()
}

/// `nix::unistd::AccessFlags::from_bits_truncate`, then `bits`: of `bits`, those that name a
/// kind of access.
#[verifier::external_body]
fn access_bits_truncate(bits: i32) -> (kept: i32)
    ensures
        kept == bits & ACCESS_ALL,
{
    nix::unistd::AccessFlags::from_bits_truncate(bits).bits()
}

/// `nix::fcntl::OFlag::from_bits_truncate`, then `bits`: of `bits`, those that are open flags
/// on this machine. Which these are differs between machines: none is added, and the access
/// mode, which is a flag on every machine, is kept.
#[verifier::external_body]
fn open_bits_truncate(bits: i32) -> (kept: i32)
    ensures
        kept & bits == kept,
        kept & ACCESS_MODE == bits & ACCESS_MODE,
{
    nix::fcntl::OFlag::from_bits_truncate(bits).bits()
}

/// `nix::errno::Errno::from_i32`, then the cast back to a number: `raw` where this machine
/// has an error of that number, else 0. The errors that have one number on every Linux are
/// known on every machine.
#[verifier::external_body]
fn known_errno(raw: i32) -> (errno: i32)
    ensures
        errno == raw || errno == 0,
        errno::universal(raw) ==> errno == raw,
{
    nix::errno::Errno::from_i32(raw) as i32
}

/// `std::io::Error::raw_os_error`: the number that the system gave for the error, if it came
/// from the system.
#[verifier::external_body]
fn raw_os_error(error: &std::io::Error) -> Option<i32> {
    error.raw_os_error()
}

/// `nix::sys::stat::SFlag::S_IFIFO`, then `bits`: the file-type bits of a FIFO.
#[verifier::external_body]
fn s_ififo() -> (bits: u32)
    ensures
        bits == S_IFIFO,
{
    nix::sys::stat::SFlag::S_IFIFO.bits()
}

/// `nix::sys::stat::SFlag::S_IFCHR`, then `bits`: the file-type bits of a character device.
#[verifier::external_body]
fn s_ifchr() -> (bits: u32)
    ensures
        bits == S_IFCHR,
{
    nix::sys::stat::SFlag::S_IFCHR.bits()
}

/// `nix::sys::stat::SFlag::S_IFDIR`, then `bits`: the file-type bits of a directory.
#[verifier::external_body]
fn s_ifdir() -> (bits: u32)
    ensures
        bits == S_IFDIR,
{
    nix::sys::stat::SFlag::S_IFDIR.bits()
}

/// `nix::sys::stat::SFlag::S_IFBLK`, then `bits`: the file-type bits of a block device.
#[verifier::external_body]
fn s_ifblk() -> (bits: u32)
    ensures
        bits == S_IFBLK,
{
    nix::sys::stat::SFlag::S_IFBLK.bits()
}

/// `nix::sys::stat::SFlag::S_IFREG`, then `bits`: the file-type bits of a regular file.
#[verifier::external_body]
fn s_ifreg() -> (bits: u32)
    ensures
        bits == S_IFREG,
{
    nix::sys::stat::SFlag::S_IFREG.bits()
}

/// `nix::sys::stat::SFlag::S_IFLNK`, then `bits`: the file-type bits of a symbolic link.
#[verifier::external_body]
fn s_iflnk() -> (bits: u32)
    ensures
        bits == S_IFLNK,
{
    nix::sys::stat::SFlag::S_IFLNK.bits()
}

/// `nix::sys::stat::SFlag::S_IFSOCK`, then `bits`: the file-type bits of a socket.
#[verifier::external_body]
fn s_ifsock() -> (bits: u32)
    ensures
        bits == S_IFSOCK,
{
    nix::sys::stat::SFlag::S_IFSOCK.bits()
}

impl EntryType {
    /// The file-type bits that a mode carries for this kind.
    pub open spec fn spec_mode_bits(self) -> u32 {
        match self {
            EntryType::Fifo => S_IFIFO,
            EntryType::CharacterDevice => S_IFCHR,
            EntryType::Directory => S_IFDIR,
            EntryType::BlockDevice => S_IFBLK,
            EntryType::File => S_IFREG,
            EntryType::Symlink => S_IFLNK,
            EntryType::Socket => S_IFSOCK,
        }
    }

    /// The file-type bits that a mode carries for this kind.
    pub fn mode_bits(self) -> (bits: u32)
        ensures
            bits == self.spec_mode_bits(),
    {
        match self {
            EntryType::Fifo => s_ififo(),
            EntryType::CharacterDevice => s_ifchr(),
            EntryType::Directory => s_ifdir(),
            EntryType::BlockDevice => s_ifblk(),
            EntryType::File => s_ifreg(),
            EntryType::Symlink => s_iflnk(),
            EntryType::Socket => s_ifsock(),
        }
    }

    /// The number that a directory record carries for this kind.
    pub open spec fn spec_dirent_type(self) -> u32 {
        match self {
            EntryType::Fifo => 1,
            EntryType::CharacterDevice => 2,
            EntryType::Directory => 4,
            EntryType::BlockDevice => 6,
            EntryType::File => 8,
            EntryType::Symlink => 10,
            EntryType::Socket => 12,
        }
    }

    /// The number that a directory record carries for this kind: the file-type bits, moved
    /// down to the low end.
    pub fn dirent_type(self) -> (number: u32)
        ensures
            number == self.spec_dirent_type(),
            number == self.spec_mode_bits() >> 12,
    {
        let bits = self.mode_bits();
        assert(0x1000u32 >> 12 == 1 && 0x2000u32 >> 12 == 2 && 0x4000u32 >> 12 == 4 && 0x6000u32
            >> 12 == 6 && 0x8000u32 >> 12 == 8 && 0xa000u32 >> 12 == 10 && 0xc000u32 >> 12 == 12)
            by (bit_vector);
        bits >> 12
    }
}

impl View for Mode {
    type V = u32;

    closed spec fn view(&self) -> u32 {
        self.bits
    }
}

impl Mode {
    /// The permission bits among `bits`.
    pub fn from_bits_truncate(bits: u32) -> (mode: Mode)
        ensures
            mode@ == bits & MODE_ALL,
    {
        Mode { bits: mode_bits_truncate(bits) }
    }

    pub fn bits(&self) -> (bits: u32)
        ensures
            bits == self@,
    {
        self.bits
    }
}

impl View for OpenFlags {
    type V = i32;

    closed spec fn view(&self) -> i32 {
        self.bits
    }
}

impl OpenFlags {
    /// The open flags among `bits`. Every flag of the result is one of `bits`, and the
    /// access mode of `bits` is among them.
    pub fn from_bits_truncate(bits: i32) -> (flags: OpenFlags)
        ensures
            flags@ & bits == flags@,
            flags@ & ACCESS_MODE == bits & ACCESS_MODE,
    {
        OpenFlags { bits: open_bits_truncate(bits) }
    }

    pub fn bits(&self) -> (bits: i32)
        ensures
            bits == self@,
    {
        self.bits
    }
}

impl View for AccessFlags {
    type V = i32;

    closed spec fn view(&self) -> i32 {
        self.bits
    }
}

impl AccessFlags {
    /// The kinds of access among `bits`.
    pub fn from_bits_truncate(bits: i32) -> (flags: AccessFlags)
        ensures
            flags@ == bits & ACCESS_ALL,
    {
        AccessFlags { bits: access_bits_truncate(bits) }
    }

    pub fn bits(&self) -> (bits: i32)
        ensures
            bits == self@,
    {
        self.bits
    }
}

/// Whether `errno` is what this machine makes of an I/O error whose number from the system
/// is `raw`: `raw` itself if the machine knows it, which it does where it is one of the
/// errors that have one number on every Linux, else 0; and `EIO` for an error without a
/// number.
pub open spec fn io_errno(raw: Option<i32>, errno: i32) -> bool {
    match raw {
        Some(raw) => (errno == raw || errno == 0) && (errno::universal(raw) ==> errno == raw),
        None => errno == errno::EIO,
    }
}

/// An error number refuses with itself, and one that is not positive with the system's
/// `ENOMSG`.
impl<'o, O: Operation<'o>> Finish<'o, O> for i32 {
    open spec fn refuses_with(&self, errno: i32) -> bool {
        if *self > 0 {
            errno == *self
        } else {
            Named::Enomsg.has_number(errno)
        }
    }

    fn finish(&self, reply: Reply<'o, O>) -> (done: Done)
        ensures
            *self > 0 ==> done@ == Some(session::failure_frame(reply.unique(), *self)),
            *self <= 0 ==> session::refuses(reply.unique(), Named::Enomsg, done@),
    {
        let done = reply.fail(*self);
        proof {
            if *self > 0 {
                assert(<i32 as Finish<'o, O>>::refuses_with(self, *self));
            } else {
                let sent = choose|sent: i32| #[trigger]
                    Named::Enomsg.has_number(sent) && done@ == Some(
                        session::failure_frame(reply.unique(), sent),
                    );
                errno::lemma_named(Named::Enomsg, sent);
                assert(<i32 as Finish<'o, O>>::refuses_with(self, sent));
            }
        }
        done
    }
}

/// The error number with which an I/O error is refused whose number from the system is
/// `raw`: what this machine knows `raw` as, or `EIO` for an error without a number.
pub fn errno_of(raw: Option<i32>) -> (errno: i32)
    ensures
        io_errno(raw, errno),
{
    match raw {
        Some(raw) => known_errno(raw),
        None => errno::eio(),
    }
}

/// An I/O error refuses with the number that the system gave for it. One without a number
/// refuses with `EIO`, and one whose number this machine does not know with `ENOMSG`.
impl<'o, O: Operation<'o>> Finish<'o, O> for std::io::Error {
    /// Any error number: which one the system gave for the error is the system's to say.
    open spec fn refuses_with(&self, errno: i32) -> bool {
        errno > 0
    }

    fn finish(&self, reply: Reply<'o, O>) -> (done: Done) {
        let raw = raw_os_error(self);
        let errno = errno_of(raw);
        let done = reply.fail(errno);
        proof {
            if errno > 0 {
                assert(<std::io::Error as Finish<'o, O>>::refuses_with(self, errno));
            } else {
                let sent = choose|sent: i32| #[trigger]
                    Named::Enomsg.has_number(sent) && done@ == Some(
                        session::failure_frame(reply.unique(), sent),
                    );
                errno::lemma_named(Named::Enomsg, sent);
                assert(<std::io::Error as Finish<'o, O>>::refuses_with(self, sent));
            }
        }
        done
    }
}

impl<'o, O: Operation<'o>> Request<'o, O> {
    /// The inode that the request is about.
    pub fn ino(&self) -> (ino: Ino)
        ensures
            ino == Ino(self.header().ino),
    {
        Ino(self.header_ref().ino)
    }

    pub fn generation(&self) -> (generation: u64)
        ensures
            generation == 0,
    {
        0
    }

    /// The user on whose behalf the kernel asks.
    pub fn uid(&self) -> (uid: u32)
        ensures
            uid == self.header().uid,
    {
        self.header_ref().uid
    }

    /// The group on whose behalf the kernel asks.
    pub fn gid(&self) -> (gid: u32)
        ensures
            gid == self.header().gid,
    {
        self.header_ref().gid
    }

    /// The process on whose behalf the kernel asks.
    pub fn pid(&self) -> (pid: i32)
        ensures
            pid == self.header().pid as i32,
    {
        self.header_ref().pid as i32
    }

    /// The number by which the kernel tells this request from the others in flight.
    pub fn unique(&self) -> (unique: u64)
        ensures
            unique == self.header().unique,
    {
        self.header_ref().unique
    }
}

impl<'o, O: Operation<'o>> Reply<'o, O> {
    /// Hears of an interrupt for request `unique`. If that is the request of this reply, it is
    /// answered with `EINTR`; if not, the reply stays to be given.
    pub fn interrupt(self, unique: u64) -> (outcome: Interruptible<'o, O, ()>)
        ensures
            match outcome {
                Interruptible::Interrupted(done) => unique == self.unique() && done@ == Some(
                    session::failure_frame(self.unique(), errno::EINTR),
                ),
                Interruptible::Completed(reply, _) => unique != self.unique() && reply == self,
            },
    {
        if unique == self.id() {
            Interruptible::Interrupted(self.interrupted())
        } else {
            Interruptible::Completed(self, ())
        }
    }

    /// Goes on with the value of a success, or refuses the request with the error number of
    /// a failure.
    pub fn fallible<T>(self, result: Result<T, i32>) -> (outcome: Result<(Self, T), Done>)
        ensures
            match (result, outcome) {
                (Ok(value), Ok((reply, kept))) => reply == self && kept == value,
                (Err(errno), Err(done)) => (errno > 0 ==> done@ == Some(
                    session::failure_frame(self.unique(), errno),
                )) && (errno <= 0 ==> session::refuses(self.unique(), Named::Enomsg, done@)),
                _ => false,
            },
    {
        match result {
            Ok(value) => Ok((self, value)),
            Err(errno) => Err(self.fail(errno)),
        }
    }

    /// Goes on with the value of a success, or lets the error of a failure refuse the
    /// request.
    pub fn and_then<T, E: Finish<'o, O>>(self, result: Result<T, E>) -> (outcome: Result<
        (Self, T),
        Failed<E>,
    >)
        ensures
            match (result, outcome) {
                (Ok(value), Ok((reply, kept))) => reply == self && kept == value,
                (Err(error), Err(failed)) => failed.1 == error && exists|errno: i32|
                    errno > 0 && #[trigger] error.refuses_with(errno) && failed.0@ == Some(
                        session::failure_frame(self.unique(), errno),
                    ),
                _ => false,
            },
    {
        match result {
            Ok(value) => Ok((self, value)),
            Err(error) => {
                let done = error.finish(self);
                Err(Failed(done, error))
            },
        }
    }

    /// Refuses the request with `errno`. An `errno` that is not positive goes out as the
    /// system's `ENOMSG`.
    pub fn fail(self, errno: i32) -> (done: Done)
        ensures
            errno > 0 ==> done@ == Some(session::failure_frame(self.unique(), errno)),
            errno <= 0 ==> session::refuses(self.unique(), Named::Enomsg, done@),
    {
        let frame = session::Session::fail(self.id(), errno);
        self.finish(frame)
    }

    /// Refuses the request with the system's `ENOSYS`.
    pub fn not_implemented(self) -> (done: Done)
        ensures
            session::refuses(self.unique(), Named::Enosys, done@),
    {
        let errno = errno::enosys();
        proof {
            errno::lemma_named(Named::Enosys, errno);
        }
        self.fail(errno)
    }

    pub fn not_permitted(self) -> (done: Done)
        ensures
            done@ == Some(session::failure_frame(self.unique(), errno::EPERM)),
    {
        self.fail(errno::eperm())
    }

    pub fn io_error(self) -> (done: Done)
        ensures
            done@ == Some(session::failure_frame(self.unique(), errno::EIO)),
    {
        self.fail(errno::eio())
    }

    pub fn invalid_argument(self) -> (done: Done)
        ensures
            done@ == Some(session::failure_frame(self.unique(), errno::EINVAL)),
    {
        self.fail(errno::einval())
    }

    pub fn interrupted(self) -> (done: Done)
        ensures
            done@ == Some(session::failure_frame(self.unique(), errno::EINTR)),
    {
        self.fail(errno::eintr())
    }

    /// Spends the reply on `frame`.
    pub(crate) fn finish(self, frame: Vec<u8>) -> (done: Done)
        requires
            session::is_frame(frame@),
        ensures
            done@ == Some(frame@),
    {
        Done::new(Some(frame))
    }
}

impl<E> Failed<E> {
    /// The token of the failed reply.
    pub fn into_done(self) -> (done: Done)
        ensures
            done == self.0,
    {
        self.0
    }
}

impl Attrs {
    /// The record that these attributes fill in.
    pub closed spec fn record(&self) -> proto::Attrs {
        self.0
    }

    #[must_use]
    pub fn size(self, size: u64) -> (attrs: Self)
        ensures
            attrs.record() == (proto::Attrs { size, ..self.record() }),
    {
        Attrs(proto::Attrs { size, ..self.0 })
    }

    #[must_use]
    pub fn owner(self, uid: u32, gid: u32) -> (attrs: Self)
        ensures
            attrs.record() == (proto::Attrs { uid, gid, ..self.record() }),
    {
        Attrs(proto::Attrs { uid, gid, ..self.0 })
    }

    #[must_use]
    pub fn mode(self, mode: Mode) -> (attrs: Self)
        ensures
            attrs.record() == (proto::Attrs { mode: mode@, ..self.record() }),
    {
        Attrs(proto::Attrs { mode: mode.bits(), ..self.0 })
    }

    #[must_use]
    pub fn blocks(self, blocks: u64) -> (attrs: Self)
        ensures
            attrs.record() == (proto::Attrs { blocks, ..self.record() }),
    {
        Attrs(proto::Attrs { blocks, ..self.0 })
    }

    #[must_use]
    pub fn block_size(self, block_size: u32) -> (attrs: Self)
        ensures
            attrs.record() == (proto::Attrs { blksize: block_size, ..self.record() }),
    {
        Attrs(proto::Attrs { blksize: block_size, ..self.0 })
    }

    #[must_use]
    pub fn device(self, device: u32) -> (attrs: Self)
        ensures
            attrs.record() == (proto::Attrs { rdev: device, ..self.record() }),
    {
        Attrs(proto::Attrs { rdev: device, ..self.0 })
    }

    /// Sets the three times. Seconds before the epoch are written as the kernel reads them:
    /// as the same 64 bits.
    #[must_use]
    pub fn times(self, access: Timestamp, modify: Timestamp, change: Timestamp) -> (attrs: Self)
        ensures
            attrs.record() == (proto::Attrs {
                atime: access.spec_seconds() as u64,
                mtime: modify.spec_seconds() as u64,
                ctime: change.spec_seconds() as u64,
                atimensec: access.spec_nanoseconds(),
                mtimensec: modify.spec_nanoseconds(),
                ctimensec: change.spec_nanoseconds(),
                ..self.record()
            }),
    {
        Attrs(
            proto::Attrs {
                atime: access.seconds() as u64,
                mtime: modify.seconds() as u64,
                ctime: change.seconds() as u64,
                atimensec: access.nanoseconds(),
                mtimensec: modify.nanoseconds(),
                ctimensec: change.nanoseconds(),
                ..self.0
            },
        )
    }

    #[must_use]
    pub fn links(self, links: u32) -> (attrs: Self)
        ensures
            attrs.record() == (proto::Attrs { nlink: links, ..self.record() }),
    {
        Attrs(proto::Attrs { nlink: links, ..self.0 })
    }

    /// The record for an inode of number `ino` and kind `inode_type`: these attributes, with
    /// the inode number, and the kind's bits added to the mode.
    pub open spec fn stamped(&self, ino: Ino, inode_type: EntryType) -> proto::Attrs {
        proto::Attrs {
            ino: ino.0,
            mode: self.record().mode | inode_type.spec_mode_bits(),
            ..self.record()
        }
    }

    /// Completes the attributes for an inode of number `ino` and kind `inode_type`.
    pub fn stamp(self, ino: Ino, inode_type: EntryType) -> (record: proto::Attrs)
        ensures
            record == self.stamped(ino, inode_type),
    {
        proto::Attrs { ino: ino.0, mode: self.0.mode | inode_type.mode_bits(), ..self.0 }
    }

    /// Completes the attributes for `inode`, with the number and kind that it reports.
    pub(crate) fn finish<S: Stat>(self, inode: &S) -> (record: proto::Attrs)
        ensures
            exists|ino: Ino, inode_type: EntryType| record == #[trigger] self.stamped(
                ino,
                inode_type,
            ),
    {
        let ino = inode.ino();
        let inode_type = inode.inode_type();
        self.stamp(ino, inode_type)
    }
}

/// The record whose every field is zero.
pub open spec fn zeroed_attrs() -> proto::Attrs {
    proto::Attrs {
        ino: 0,
        size: 0,
        blocks: 0,
        atime: 0,
        mtime: 0,
        ctime: 0,
        atimensec: 0,
        mtimensec: 0,
        ctimensec: 0,
        mode: 0,
        nlink: 0,
        uid: 0,
        gid: 0,
        rdev: 0,
        blksize: 0,
        padding: 0,
    }
}

pub(crate) fn zero_attrs() -> (record: proto::Attrs)
    ensures
        record == zeroed_attrs(),
{
    proto::Attrs {
        ino: 0,
        size: 0,
        blocks: 0,
        atime: 0,
        mtime: 0,
        ctime: 0,
        atimensec: 0,
        mtimensec: 0,
        ctimensec: 0,
        mode: 0,
        nlink: 0,
        uid: 0,
        gid: 0,
        rdev: 0,
        blksize: 0,
        padding: 0,
    }
}

impl Default for Attrs {
    /// Nothing is set but the link count, which is one.
    fn default() -> (attrs: Self)
        ensures
            attrs.record() == (proto::Attrs { nlink: 1, ..zeroed_attrs() }),
    {
        Attrs(zero_attrs()).links(1)
    }
}

impl FsInfo {
    /// The record that these statistics fill in.
    pub closed spec fn record(&self) -> proto::StatfsOut {
        self.0
    }

    #[must_use]
    pub fn blocks(self, size: u32, total: u64, free: u64, available: u64) -> (info: Self)
        ensures
            info.record() == (proto::StatfsOut {
                bsize: size,
                blocks: total,
                bfree: free,
                bavail: available,
                ..self.record()
            }),
    {
        FsInfo(
            proto::StatfsOut {
                bsize: size,
                blocks: total,
                bfree: free,
                bavail: available,
                ..self.0
            },
        )
    }

    #[must_use]
    pub fn inodes(self, total: u64, free: u64) -> (info: Self)
        ensures
            info.record() == (proto::StatfsOut { files: total, ffree: free, ..self.record() }),
    {
        FsInfo(proto::StatfsOut { files: total, ffree: free, ..self.0 })
    }

    #[must_use]
    pub fn max_filename(self, max: u32) -> (info: Self)
        ensures
            info.record() == (proto::StatfsOut { namelen: max, ..self.record() }),
    {
        FsInfo(proto::StatfsOut { namelen: max, ..self.0 })
    }

    /// The record of these statistics.
    pub fn into_record(self) -> (record: proto::StatfsOut)
        ensures
            record == self.record(),
    {
        self.0
    }
}

/// The statistics whose every field is zero.
pub open spec fn zeroed_statfs(record: proto::StatfsOut) -> bool {
    &&& record.blocks == 0
    &&& record.bfree == 0
    &&& record.bavail == 0
    &&& record.files == 0
    &&& record.ffree == 0
    &&& record.bsize == 0
    &&& record.namelen == 0
    &&& record.frsize == 0
    &&& record.padding == 0
    &&& record.spare@ == seq![0u32, 0u32, 0u32, 0u32, 0u32, 0u32]
}

impl Default for FsInfo {
    fn default() -> (info: Self)
        ensures
            zeroed_statfs(info.record()),
    {
        let spare: [u32; 6] = [0, 0, 0, 0, 0, 0];
        assert(spare@ =~= seq![0u32, 0u32, 0u32, 0u32, 0u32, 0u32]);
        FsInfo(
            proto::StatfsOut {
                blocks: 0,
                bfree: 0,
                bavail: 0,
                files: 0,
                ffree: 0,
                bsize: 0,
                namelen: 0,
                frsize: 0,
                padding: 0,
                spare,
            },
        )
    }
}

} // verus!
