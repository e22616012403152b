use std::cell::Cell;
use std::rc::Rc;

use blown_fuse::errno;
use nix::errno::Errno;
use blown_fuse::io::{
    AccessFlags, Attrs, EntryType, Failed, FsInfo, Interruptible, Known, Mode, OpenFlags, Stat,
};
use blown_fuse::ops::traits::known_entry;
use blown_fuse::proto::{
    bytes_of, AccessIn, AttrOut, BmapIn, CreateIn, EntryOut, FlushIn, ForgetIn, ForgetOne,
    FsyncIn, FsyncdirIn, GetattrIn, GetxattrIn, InHeader, LinkIn, ListxattrIn, MkdirIn, OpenIn,
    OpenOut, OpendirIn, OutHeader, Pod, ReadIn, ReleaseIn, ReleasedirIn, SetxattrIn, StatfsOut,
    WriteIn,
};
use blown_fuse::session::{receive, Dispatch, Received};
use blown_fuse::{Done, Ino, Timestamp, Ttl};

fn message(opcode: u32, unique: u64, ino: u64, body: &[u8]) -> Vec<u8> {
    let header = InHeader {
        len: (40 + body.len()) as u32,
        opcode,
        unique,
        ino,
        uid: 1000,
        gid: 100,
        pid: 4242,
        padding: 0,
    };
    let mut bytes = bytes_of(&header);
    bytes.extend_from_slice(body);
    bytes
}

fn dispatch(bytes: &[u8]) -> Dispatch<'_> {
    match receive(bytes) {
        Ok(Received::Dispatch(dispatch)) => dispatch,
        _ => panic!("the request is not dispatched"),
    }
}

fn frame(done: Done) -> (OutHeader, Vec<u8>) {
    let bytes = done.consume().expect("a reply");
    let header = OutHeader::decode(&bytes[..16]);
    assert_eq!(header.len as usize, bytes.len());
    (header, bytes[16..].to_vec())
}

fn assert_fails(done: Done, unique: u64, errno: i32) {
    let (header, payload) = frame(done);
    assert_eq!(header.len, 16);
    assert_eq!(header.error, -errno);
    assert_eq!(header.unique, unique);
    assert!(payload.is_empty());
}

fn assert_empty(done: Done, unique: u64) {
    let (header, payload) = frame(done);
    assert_eq!(header.len, 16);
    assert_eq!(header.error, 0);
    assert_eq!(header.unique, unique);
    assert!(payload.is_empty());
}

struct File {
    ino: u64,
    kind: EntryType,
    attrs: Attrs,
}

impl Stat for File {
    fn ino(&self) -> Ino {
        Ino(self.ino)
    }

    fn inode_type(&self) -> EntryType {
        self.kind
    }

    fn attrs(&self) -> (Attrs, Ttl) {
        (self.attrs, Ttl::new(5, 6))
    }
}

struct Entry {
    file: File,
    unveiled: Rc<Cell<u32>>,
}

impl Known for Entry {
    type Inode = File;

    fn inode(&self) -> &File {
        &self.file
    }

    fn unveil(self) {
        self.unveiled.set(self.unveiled.get() + 1);
    }
}

fn hello(unveiled: &Rc<Cell<u32>>) -> Entry {
    Entry {
        file: File {
            ino: 42,
            kind: EntryType::File,
            attrs: Attrs::default().size(11).mode(Mode::from_bits_truncate(0o644)),
        },
        unveiled: Rc::clone(unveiled),
    }
}

#[test]
fn lookup_is_answered_with_an_entry_and_unveils_once() {
    let bytes = message(1, 77, 1, b"hello\0");
    let Dispatch::Lookup(incoming) = dispatch(&bytes) else { panic!("not a lookup") };
    let (request, reply) = incoming.op().ok().unwrap();
    assert_eq!(request.name(), b"hello");
    assert_eq!(request.ino(), Ino(1));
    assert_eq!(request.generation(), 0);
    assert_eq!(request.uid(), 1000);
    assert_eq!(request.gid(), 100);
    assert_eq!(request.pid(), 4242);
    assert_eq!(request.unique(), 77);
    let unveiled = Rc::new(Cell::new(0));
    let (header, payload) = frame(reply.known(hello(&unveiled), Ttl::max()));
    assert_eq!(unveiled.get(), 1);
    assert_eq!(header.len, 16 + 128);
    assert_eq!(header.error, 0);
    assert_eq!(header.unique, 77);
    let entry = EntryOut::decode(&payload);
    assert_eq!(entry.nodeid, 42);
    assert_eq!(entry.generation, 0);
    assert_eq!(entry.entry_valid, u64::MAX);
    assert_eq!(entry.entry_valid_nsec, u32::MAX);
    assert_eq!(entry.attr_valid, 5);
    assert_eq!(entry.attr_valid_nsec, 6);
    assert_eq!(entry.attr.ino, 42);
    assert_eq!(entry.attr.mode, 0o100644);
    assert_eq!(entry.attr.size, 11);
    assert_eq!(entry.attr.nlink, 1);
}

#[test]
fn getattr_follows_a_lookup() {
    let bytes = message(3, 78, 42, &bytes_of(&GetattrIn { flags: 0, dummy: 0, fh: 9 }));
    let Dispatch::Getattr(incoming) = dispatch(&bytes) else { panic!("not a getattr") };
    let (request, reply) = incoming.op().ok().unwrap();
    assert_eq!(request.ino(), Ino(42));
    assert_eq!(request.handle(), 9);
    let unveiled = Rc::new(Cell::new(0));
    let entry = hello(&unveiled);
    let (header, payload) = frame(reply.stat(&entry.file));
    assert_eq!(unveiled.get(), 0);
    assert_eq!(header.len, 16 + 104);
    assert_eq!(header.unique, 78);
    let out = AttrOut::decode(&payload);
    assert_eq!(out.attr_valid, 5);
    assert_eq!(out.attr_valid_nsec, 6);
    assert_eq!(out.dummy, 0);
    assert_eq!(out.attr.ino, 42);
    assert_eq!(out.attr.mode, 0o100644);
}

#[test]
fn stat_as_writes_the_record_it_is_given() {
    let bytes = message(3, 5, 42, &bytes_of(&GetattrIn { flags: 0, dummy: 0, fh: 0 }));
    let Dispatch::Getattr(incoming) = dispatch(&bytes) else { panic!("not a getattr") };
    let (_, reply) = incoming.op().ok().unwrap();
    let record = Attrs::default().size(3).stamp(Ino(8), EntryType::Directory);
    let (_, payload) = frame(reply.stat_as(&record, Ttl::new(1, 2)));
    let out = AttrOut::decode(&payload);
    assert_eq!(out.attr, record);
    assert_eq!(out.attr.mode, 0o040000);
    assert_eq!(out.attr_valid, 1);
    assert_eq!(out.attr_valid_nsec, 2);
}

#[test]
fn lookup_failures() {
    let bytes = message(1, 9, 1, b"gone\0");
    let Dispatch::Lookup(incoming) = dispatch(&bytes) else { panic!("not a lookup") };
    let (_, reply) = incoming.op().ok().unwrap();
    assert_fails(reply.not_found(), 9, errno::ENOENT);

    let Dispatch::Lookup(incoming) = dispatch(&bytes) else { panic!("not a lookup") };
    let (_, reply) = incoming.op().ok().unwrap();
    assert_fails(reply.not_found_uncached(), 9, 2);

    let Dispatch::Lookup(incoming) = dispatch(&bytes) else { panic!("not a lookup") };
    let (_, reply) = incoming.op().ok().unwrap();
    let (header, payload) = frame(reply.not_found_for(Ttl::new(3, 4)));
    assert_eq!(header.error, 0);
    assert_eq!(header.len, 144);
    let entry = EntryOut::decode(&payload);
    assert_eq!(entry.nodeid, 0);
    assert_eq!(entry.entry_valid, 3);
    assert_eq!(entry.entry_valid_nsec, 4);
    assert_eq!(entry.attr_valid, 0);
    assert_eq!(entry.attr_valid_nsec, 0);
    assert_eq!(bytes_of(&entry.attr), vec![0; 88]);
}

#[test]
fn fail_with_zero_goes_out_as_enomsg() {
    let bytes = message(1, 9, 1, b"x\0");
    let Dispatch::Lookup(incoming) = dispatch(&bytes) else { panic!("not a lookup") };
    let (_, reply) = incoming.op().ok().unwrap();
    assert_fails(reply.fail(0), 9, Errno::ENOMSG as i32);
    let Dispatch::Lookup(incoming) = dispatch(&bytes) else { panic!("not a lookup") };
    let (_, reply) = incoming.op().ok().unwrap();
    assert_fails(reply.fail(-5), 9, Errno::ENOMSG as i32);
    let Dispatch::Lookup(incoming) = dispatch(&bytes) else { panic!("not a lookup") };
    let (_, reply) = incoming.op().ok().unwrap();
    assert_fails(reply.fail(i32::MIN), 9, Errno::ENOMSG as i32);
    let Dispatch::Lookup(incoming) = dispatch(&bytes) else { panic!("not a lookup") };
    let (_, reply) = incoming.op().ok().unwrap();
    assert_fails(reply.fail(i32::MAX), 9, i32::MAX);
}

#[test]
fn named_failures_carry_their_numbers() {
    let bytes = message(5, 3, 1, &[]);
    let reply = || {
        let Dispatch::Readlink(incoming) = dispatch(&bytes) else { panic!("not a readlink") };
        incoming.op().ok().unwrap().1
    };
    assert_fails(reply().not_implemented(), 3, Errno::ENOSYS as i32);
    assert_fails(reply().not_permitted(), 3, 1);
    assert_fails(reply().io_error(), 3, 5);
    assert_fails(reply().invalid_argument(), 3, 22);
    assert_fails(reply().interrupted(), 3, 4);
    assert_eq!(errno::EACCES, 13);
    assert_eq!(errno::ERANGE, 34);
}

#[test]
fn interrupt_for_this_request_answers_eintr() {
    let bytes = message(1, 50, 1, b"slow\0");
    let Dispatch::Lookup(incoming) = dispatch(&bytes) else { panic!("not a lookup") };
    let (_, reply) = incoming.op().ok().unwrap();
    let reply = match reply.interrupt(49) {
        Interruptible::Completed(reply, ()) => reply,
        Interruptible::Interrupted(_) => panic!("another request was interrupted"),
    };
    match reply.interrupt(50) {
        Interruptible::Completed(_, ()) => panic!("this request was interrupted"),
        Interruptible::Interrupted(done) => assert_fails(done, 50, errno::EINTR),
    }
}

#[test]
fn fallible_and_and_then() {
    let bytes = message(5, 3, 1, &[]);
    let reply = || {
        let Dispatch::Readlink(incoming) = dispatch(&bytes) else { panic!("not a readlink") };
        incoming.op().ok().unwrap().1
    };
    let (kept, value) = reply().fallible(Ok::<u8, i32>(7)).ok().unwrap();
    assert_eq!(value, 7);
    assert_empty(kept.slice(&[]), 3);
    let done = reply().fallible(Err::<u8, i32>(errno::EINVAL)).err().unwrap();
    assert_fails(done, 3, 22);

    let (_, value) = reply().and_then(Ok::<u8, i32>(8)).ok().unwrap();
    assert_eq!(value, 8);
    let Failed(done, error) = reply().and_then(Err::<u8, i32>(errno::EPERM)).err().unwrap();
    assert_eq!(error, 1);
    assert_fails(done, 3, 1);
    let failed = reply().and_then(Err::<u8, i32>(13)).err().unwrap();
    assert_fails(failed.into_done(), 3, 13);
}

#[test]
fn io_errors_are_refused_with_their_number() {
    let bytes = message(5, 3, 1, &[]);
    let reply = || {
        let Dispatch::Readlink(incoming) = dispatch(&bytes) else { panic!("not a readlink") };
        incoming.op().ok().unwrap().1
    };
    let os = std::io::Error::from_raw_os_error(errno::ENOENT);
    let failed = reply().and_then(Err::<(), _>(os)).err().unwrap();
    assert_fails(failed.0, 3, 2);
    let other = std::io::Error::new(std::io::ErrorKind::Other, "no number");
    let failed = reply().and_then(Err::<(), _>(other)).err().unwrap();
    assert_fails(failed.0, 3, errno::EIO);
    let unknown = std::io::Error::from_raw_os_error(100_000);
    let failed = reply().and_then(Err::<(), _>(unknown)).err().unwrap();
    assert_fails(failed.0, 3, Errno::ENOMSG as i32);
}

#[test]
fn forget_is_not_answered() {
    let bytes = message(2, 4, 10, &bytes_of(&ForgetIn { nlookup: 3 }));
    let Dispatch::Forget(incoming) = dispatch(&bytes) else { panic!("not a forget") };
    let (request, reply) = incoming.op().ok().unwrap();
    let mut list = request.forget_list();
    assert_eq!(list.next(), Some((Ino(10), 3)));
    assert_eq!(list.next(), None);
    assert_eq!(list.next(), None);
    assert!(reply.ok().consume().is_none());
}

#[test]
fn batch_forget_lists_every_record() {
    let mut body = bytes_of(&blown_fuse::proto::BatchForgetIn { count: 2, dummy: 0 });
    body.extend_from_slice(&bytes_of(&ForgetOne { ino: 10, nlookup: 1 }));
    body.extend_from_slice(&bytes_of(&ForgetOne { ino: 11, nlookup: 2 }));
    let bytes = message(42, 4, 0, &body);
    let Dispatch::Forget(incoming) = dispatch(&bytes) else { panic!("not a forget") };
    let (request, reply) = incoming.op().ok().unwrap();
    let mut list = request.forget_list();
    assert_eq!(list.next(), Some((Ino(10), 1)));
    assert_eq!(list.next(), Some((Ino(11), 2)));
    assert_eq!(list.next(), None);
    assert!(reply.ok().consume().is_none());
}

#[test]
fn batch_forget_with_a_wrong_count_is_answered_with_eio() {
    let mut body = bytes_of(&blown_fuse::proto::BatchForgetIn { count: 3, dummy: 0 });
    body.extend_from_slice(&bytes_of(&ForgetOne { ino: 10, nlookup: 1 }));
    let bytes = message(42, 4, 0, &body);
    let Dispatch::Forget(incoming) = dispatch(&bytes) else { panic!("not a forget") };
    assert_fails(incoming.op().err().unwrap(), 4, errno::EIO);
}

#[test]
fn readlink_answers_with_bytes() {
    let bytes = message(5, 3, 1, &[]);
    let reply = || {
        let Dispatch::Readlink(incoming) = dispatch(&bytes) else { panic!("not a readlink") };
        incoming.op().ok().unwrap().1
    };
    let (header, payload) = frame(reply().slice(b"/target"));
    assert_eq!(header.len, 23);
    assert_eq!(header.unique, 3);
    assert_eq!(payload, b"/target");
    let (_, payload) = frame(reply().blob(b"/blob"));
    assert_eq!(payload, b"/blob");
    let (header, payload) = frame(reply().gather(&[b"/a", b"", b"/b"]));
    assert_eq!(header.len, 20);
    assert_eq!(payload, b"/a/b");
    let (_, payload) = frame(reply().target(b"/t"));
    assert_eq!(payload, b"/t");
    let (_, payload) = frame(reply().gather_target(&[b"/x", b"/y"]));
    assert_eq!(payload, b"/x/y");
    let (header, payload) = frame(reply().gather(&[]));
    assert_eq!(header.len, 16);
    assert!(payload.is_empty());
}

#[test]
fn read_request_and_reply() {
    let body = bytes_of(&ReadIn {
        fh: 3,
        offset: 4096,
        size: 512,
        read_flags: 0,
        lock_owner: 0,
        flags: 0,
        padding: 0,
    });
    let bytes = message(15, 21, 42, &body);
    let Dispatch::Read(incoming) = dispatch(&bytes) else { panic!("not a read") };
    let (request, reply) = incoming.op().ok().unwrap();
    assert_eq!(request.handle(), 3);
    assert_eq!(request.offset(), 4096);
    assert_eq!(request.size(), 512);
    let (header, payload) = frame(reply.slice(&[1, 2, 3]));
    assert_eq!(header.len, 19);
    assert_eq!(header.unique, 21);
    assert_eq!(payload, vec![1, 2, 3]);
}

fn write_request(size: u32, data: &[u8]) -> Vec<u8> {
    let mut body = bytes_of(&WriteIn {
        fh: 3,
        offset: 10,
        size,
        write_flags: 0,
        lock_owner: 0,
        flags: 0,
        padding: 0,
    });
    body.extend_from_slice(data);
    message(16, 22, 42, &body)
}

#[test]
fn write_acknowledges_the_stated_size() {
    let bytes = write_request(4, b"data");
    let Dispatch::Write(incoming) = dispatch(&bytes) else { panic!("not a write") };
    let (request, reply) = incoming.op().ok().unwrap();
    assert_eq!(request.handle(), 3);
    assert_eq!(request.offset(), 10);
    assert_eq!(request.data(), b"data");
    assert!(request.size_matches());
    let (header, payload) = frame(reply.all());
    assert_eq!(header.len, 24);
    assert_eq!(payload, vec![4, 0, 0, 0, 0, 0, 0, 0]);
}

#[test]
fn write_with_another_size_than_its_data_trusts_the_size() {
    let bytes = write_request(100, b"data");
    let Dispatch::Write(incoming) = dispatch(&bytes) else { panic!("not a write") };
    let (request, reply) = incoming.op().ok().unwrap();
    assert_eq!(request.data(), b"data");
    assert!(!request.size_matches());
    let (_, payload) = frame(reply.all());
    assert_eq!(payload, vec![100, 0, 0, 0, 0, 0, 0, 0]);
}

#[test]
fn empty_successes() {
    let release = message(
        18,
        1,
        2,
        &bytes_of(&ReleaseIn { fh: 7, flags: 0, release_flags: 0, lock_owner: 0 }),
    );
    let Dispatch::Release(incoming) = dispatch(&release) else { panic!("not a release") };
    let (request, reply) = incoming.op().ok().unwrap();
    assert_eq!(request.handle(), 7);
    assert_empty(reply.ok(), 1);

    let releasedir = message(
        29,
        2,
        2,
        &bytes_of(&ReleasedirIn {
            release_in: ReleaseIn { fh: 8, flags: 0, release_flags: 0, lock_owner: 0 },
        }),
    );
    let Dispatch::Releasedir(incoming) = dispatch(&releasedir) else { panic!("not a releasedir") };
    let (request, reply) = incoming.op().ok().unwrap();
    assert_eq!(request.handle(), 8);
    assert_empty(reply.ok(), 2);

    let flush =
        message(25, 3, 2, &bytes_of(&FlushIn { fh: 9, unused: 0, padding: 0, lock_owner: 0 }));
    let Dispatch::Flush(incoming) = dispatch(&flush) else { panic!("not a flush") };
    let (request, reply) = incoming.op().ok().unwrap();
    assert_eq!(request.handle(), 9);
    assert_empty(reply.ok(), 3);

    let fsync = message(20, 4, 2, &bytes_of(&FsyncIn { fh: 10, fsync_flags: 3, padding: 0 }));
    let Dispatch::Fsync(incoming) = dispatch(&fsync) else { panic!("not an fsync") };
    let (request, reply) = incoming.op().ok().unwrap();
    assert_eq!(request.handle(), 10);
    assert_eq!(request.flags().bits(), 1);
    assert_empty(reply.ok(), 4);

    let fsyncdir = message(
        30,
        5,
        2,
        &bytes_of(&FsyncdirIn { fsync_in: FsyncIn { fh: 11, fsync_flags: 0, padding: 0 } }),
    );
    let Dispatch::Fsyncdir(incoming) = dispatch(&fsyncdir) else { panic!("not an fsyncdir") };
    let (request, reply) = incoming.op().ok().unwrap();
    assert_eq!(request.handle(), 11);
    assert_eq!(request.flags().bits(), 0);
    assert_empty(reply.ok(), 5);

    let unlink = message(10, 6, 2, b"file\0");
    let Dispatch::Unlink(incoming) = dispatch(&unlink) else { panic!("not an unlink") };
    let (request, reply) = incoming.op().ok().unwrap();
    assert_eq!(request.name(), b"file");
    assert_empty(reply.ok(), 6);

    let rmdir = message(11, 7, 2, b"dir\0");
    let Dispatch::Rmdir(incoming) = dispatch(&rmdir) else { panic!("not an rmdir") };
    let (request, reply) = incoming.op().ok().unwrap();
    assert_eq!(request.name(), b"dir");
    assert_empty(reply.ok(), 7);
}

#[test]
fn mkdir_symlink_and_link_make_an_inode_known() {
    let unveiled = Rc::new(Cell::new(0));

    let mut body = bytes_of(&MkdirIn { mode: 0o40755, umask: 0o022 });
    body.extend_from_slice(b"dir\0");
    let mkdir = message(9, 1, 2, &body);
    let Dispatch::Mkdir(incoming) = dispatch(&mkdir) else { panic!("not a mkdir") };
    let (request, reply) = incoming.op().ok().unwrap();
    assert_eq!(request.name(), b"dir");
    assert_eq!(request.mode().bits(), 0o755);
    assert_eq!(request.umask().bits(), 0o022);
    let (header, payload) = frame(reply.known(hello(&unveiled), Ttl::null()));
    assert_eq!(header.len, 144);
    assert_eq!(EntryOut::decode(&payload).nodeid, 42);
    assert_eq!(unveiled.get(), 1);

    let symlink = message(6, 2, 2, b"link\0/target\0");
    let Dispatch::Symlink(incoming) = dispatch(&symlink) else { panic!("not a symlink") };
    let (request, reply) = incoming.op().ok().unwrap();
    assert_eq!(request.name(), b"link");
    assert_eq!(request.target(), b"/target");
    let (header, _) = frame(reply.known(hello(&unveiled), Ttl::null()));
    assert_eq!(header.len, 144);
    assert_eq!(unveiled.get(), 2);

    let mut body = bytes_of(&LinkIn { old_ino: 42 });
    body.extend_from_slice(b"hard\0");
    let link = message(13, 3, 2, &body);
    let Dispatch::Link(incoming) = dispatch(&link) else { panic!("not a link") };
    let (request, reply) = incoming.op().ok().unwrap();
    assert_eq!(request.name(), b"hard");
    assert_eq!(request.source_ino(), Ino(42));
    let (header, _) = frame(reply.known(hello(&unveiled), Ttl::null()));
    assert_eq!(header.len, 144);
    assert_eq!(unveiled.get(), 3);
}

#[test]
fn known_as_writes_the_record_it_is_given() {
    let bytes = message(1, 77, 1, b"hello\0");
    let Dispatch::Lookup(incoming) = dispatch(&bytes) else { panic!("not a lookup") };
    let (_, reply) = incoming.op().ok().unwrap();
    let attrs = Attrs::default().stamp(Ino(5), EntryType::Symlink);
    let record = EntryOut {
        nodeid: 5,
        generation: 0,
        entry_valid: 1,
        attr_valid: 2,
        entry_valid_nsec: 3,
        attr_valid_nsec: 4,
        attr: attrs,
    };
    let (_, payload) = frame(reply.known_as(&record));
    assert_eq!(payload, bytes_of(&record));
    assert_eq!(EntryOut::decode(&payload).attr.mode, 0o120000);
}

#[test]
fn open_replies_carry_the_flags_of_the_reply() {
    let bytes = message(14, 30, 42, &bytes_of(&OpenIn { flags: 0x8002, unused: 0 }));
    let reply = || {
        let Dispatch::Open(incoming) = dispatch(&bytes) else { panic!("not an open") };
        incoming.op().ok().unwrap()
    };
    let (request, plain) = reply();
    let flags: OpenFlags = request.flags();
    assert_eq!(flags.bits() & !0x8002, 0);
    assert_eq!(flags.bits() & 3, 2);
    let (header, payload) = frame(plain.ok());
    assert_eq!(header.len, 32);
    assert_eq!(header.unique, 30);
    assert_eq!(OpenOut::decode(&payload), OpenOut { fh: 0, open_flags: 0x00, padding: 0 });

    let (_, mut direct) = reply();
    direct.force_direct_io();
    let (_, payload) = frame(direct.ok_with_handle(5));
    assert_eq!(OpenOut::decode(&payload), OpenOut { fh: 5, open_flags: 0x01, padding: 0 });

    let (_, mut stream) = reply();
    stream.non_seekable();
    stream.is_stream();
    let (_, payload) = frame(stream.ok_with_handle(6));
    assert_eq!(OpenOut::decode(&payload), OpenOut { fh: 6, open_flags: 0x14, padding: 0 });

    let (_, denied) = reply();
    assert_fails(denied.permission_denied(), 30, errno::EACCES);
}

#[test]
fn opendir_replies() {
    let bytes = message(
        27,
        31,
        42,
        &bytes_of(&OpendirIn { open_in: OpenIn { flags: 0, unused: 0 } }),
    );
    let Dispatch::Opendir(incoming) = dispatch(&bytes) else { panic!("not an opendir") };
    let (_, reply) = incoming.op().ok().unwrap();
    let (header, payload) = frame(reply.ok());
    assert_eq!(header.len, 32);
    assert_eq!(OpenOut::decode(&payload), OpenOut { fh: 0, open_flags: 0x00, padding: 0 });
    let Dispatch::Opendir(incoming) = dispatch(&bytes) else { panic!("not an opendir") };
    let (_, reply) = incoming.op().ok().unwrap();
    assert_fails(reply.permission_denied(), 31, 13);
}

#[test]
fn access_asks_about_kinds_of_access() {
    let bytes = message(34, 32, 42, &bytes_of(&AccessIn { mask: 0xf5, padding: 0 }));
    let Dispatch::Access(incoming) = dispatch(&bytes) else { panic!("not an access") };
    let (request, reply) = incoming.op().ok().unwrap();
    let flags: AccessFlags = request.flags();
    assert_eq!(flags.bits(), 5);
    assert_eq!(request.mask().bits(), 5);
    assert_empty(reply.ok(), 32);
    let Dispatch::Access(incoming) = dispatch(&bytes) else { panic!("not an access") };
    let (_, reply) = incoming.op().ok().unwrap();
    assert_fails(reply.permission_denied(), 32, 13);
}

#[test]
fn create_makes_an_inode_known_and_opens_it() {
    let mut body = bytes_of(&CreateIn { flags: 0x41, mode: 0o100640, umask: 0o027, padding: 0 });
    body.extend_from_slice(b"new\0");
    let bytes = message(35, 33, 2, &body);
    let reply = || {
        let Dispatch::Create(incoming) = dispatch(&bytes) else { panic!("not a create") };
        incoming.op().ok().unwrap()
    };
    let (request, known) = reply();
    assert_eq!(request.name(), b"new");
    assert_eq!(request.mode().bits(), 0o640);
    assert_eq!(request.umask().bits(), 0o027);
    assert_eq!(request.flags().bits() & !0x41, 0);
    let unveiled = Rc::new(Cell::new(0));
    let (header, payload) = frame(known.known(hello(&unveiled), Ttl::new(1, 0)));
    assert_eq!(unveiled.get(), 1);
    assert_eq!(header.len, 16 + 128 + 16);
    assert_eq!(EntryOut::decode(&payload[..128]).nodeid, 42);
    assert_eq!(
        OpenOut::decode(&payload[128..]),
        OpenOut { fh: 0, open_flags: 0x00, padding: 0 }
    );

    let (_, mut handled) = reply();
    handled.force_direct_io();
    let (_, payload) = frame(handled.known_with_handle(hello(&unveiled), Ttl::new(1, 0), 9));
    assert_eq!(unveiled.get(), 2);
    assert_eq!(
        OpenOut::decode(&payload[128..]),
        OpenOut { fh: 9, open_flags: 0x01, padding: 0 }
    );

    let (_, exact) = reply();
    let record = EntryOut::decode(&payload[..128]);
    let (_, again) = frame(exact.known_with_handle_as(&record, 9));
    assert_eq!(&again[..128], &payload[..128]);
    assert_eq!(OpenOut::decode(&again[128..]).fh, 9);

    let (_, denied) = reply();
    assert_fails(denied.permission_denied(), 33, 13);
}

fn getxattr_reply(size: u32) -> Vec<u8> {
    let mut body = bytes_of(&GetxattrIn { size, padding: 0 });
    body.extend_from_slice(b"user.key\0");
    message(22, 40, 42, &body)
}

#[test]
fn getxattr_with_size_zero_is_a_size_inquiry() {
    let bytes = getxattr_reply(0);
    let Dispatch::Getxattr(incoming) = dispatch(&bytes) else { panic!("not a getxattr") };
    let (request, reply) = incoming.op().ok().unwrap();
    assert_eq!(request.size(), 0);
    assert_eq!(request.name(), b"user.key");
    let (header, payload) = frame(reply.slice(b"value"));
    assert_eq!(header.len, 24);
    assert_eq!(header.error, 0);
    assert_eq!(payload, vec![5, 0, 0, 0, 0, 0, 0, 0]);

    let Dispatch::Getxattr(incoming) = dispatch(&bytes) else { panic!("not a getxattr") };
    let (_, reply) = incoming.op().ok().unwrap();
    let (_, payload) = frame(reply.requires_size(77));
    assert_eq!(payload, vec![77, 0, 0, 0, 0, 0, 0, 0]);
}

#[test]
fn getxattr_with_too_small_a_buffer_is_erange() {
    let bytes = getxattr_reply(4);
    let Dispatch::Getxattr(incoming) = dispatch(&bytes) else { panic!("not a getxattr") };
    let (_, reply) = incoming.op().ok().unwrap();
    assert_fails(reply.gather(&[b"val", b"ue"]), 40, errno::ERANGE);
    let Dispatch::Getxattr(incoming) = dispatch(&bytes) else { panic!("not a getxattr") };
    let (_, reply) = incoming.op().ok().unwrap();
    assert_fails(reply.buffer_too_small(), 40, 34);
    let Dispatch::Getxattr(incoming) = dispatch(&bytes) else { panic!("not a getxattr") };
    let (_, reply) = incoming.op().ok().unwrap();
    assert_fails(reply.not_found(), 40, Errno::ENODATA as i32);
}

#[test]
fn getxattr_with_room_returns_the_value() {
    for size in [5, 6, 4096] {
        let bytes = getxattr_reply(size);
        let Dispatch::Getxattr(incoming) = dispatch(&bytes) else { panic!("not a getxattr") };
        let (_, reply) = incoming.op().ok().unwrap();
        let (header, payload) = frame(reply.slice(b"value"));
        assert_eq!(header.len, 21);
        assert_eq!(payload, b"value");
    }
}

#[test]
fn listxattr_and_the_other_xattr_operations() {
    let list = message(
        23,
        41,
        42,
        &bytes_of(&ListxattrIn { getxattr_in: GetxattrIn { size: 0, padding: 0 } }),
    );
    let Dispatch::Listxattr(incoming) = dispatch(&list) else { panic!("not a listxattr") };
    let (request, reply) = incoming.op().ok().unwrap();
    assert_eq!(request.size(), 0);
    let (header, payload) = frame(reply.requires_size(12));
    assert_eq!(header.len, 24);
    assert_eq!(payload, vec![12, 0, 0, 0, 0, 0, 0, 0]);
    let Dispatch::Listxattr(incoming) = dispatch(&list) else { panic!("not a listxattr") };
    let (_, reply) = incoming.op().ok().unwrap();
    assert_fails(reply.buffer_too_small(), 41, 34);

    let mut body = bytes_of(&SetxattrIn { size: 2, flags: 0 });
    body.extend_from_slice(b"user.key\0");
    body.extend_from_slice(&[7, 8]);
    let set = message(21, 42, 42, &body);
    let Dispatch::Setxattr(incoming) = dispatch(&set) else { panic!("not a setxattr") };
    let (request, reply) = incoming.op().ok().unwrap();
    assert_eq!(request.name(), b"user.key");
    assert_eq!(request.data(), &[7, 8]);
    assert_empty(reply.ok(), 42);
    let Dispatch::Setxattr(incoming) = dispatch(&set) else { panic!("not a setxattr") };
    let (_, reply) = incoming.op().ok().unwrap();
    assert_fails(reply.not_found(), 42, Errno::ENODATA as i32);

    let remove = message(24, 43, 42, b"user.key\0");
    let Dispatch::Removexattr(incoming) = dispatch(&remove) else { panic!("not a removexattr") };
    let (request, reply) = incoming.op().ok().unwrap();
    assert_eq!(request.name(), b"user.key");
    assert_empty(reply.ok(), 43);
    let Dispatch::Removexattr(incoming) = dispatch(&remove) else { panic!("not a removexattr") };
    let (_, reply) = incoming.op().ok().unwrap();
    assert_fails(reply.not_found(), 43, Errno::ENODATA as i32);
}

#[test]
fn statfs_answers_with_statistics() {
    let bytes = message(17, 44, 1, &[]);
    let Dispatch::Statfs(incoming) = dispatch(&bytes) else { panic!("not a statfs") };
    let (_, reply) = incoming.op().ok().unwrap();
    let info = FsInfo::default().blocks(4096, 100, 50, 40).inodes(10, 5).max_filename(255);
    let (header, payload) = frame(reply.info(&info));
    assert_eq!(header.len, 96);
    let out = StatfsOut::decode(&payload);
    assert_eq!(out.bsize, 4096);
    assert_eq!(out.blocks, 100);
    assert_eq!(out.bfree, 50);
    assert_eq!(out.bavail, 40);
    assert_eq!(out.files, 10);
    assert_eq!(out.ffree, 5);
    assert_eq!(out.namelen, 255);
    assert_eq!(out.frsize, 0);
    assert_eq!(out.spare, [0; 6]);
    assert_eq!(bytes_of(&FsInfo::default().into_record()), vec![0; 80]);
}

#[test]
fn bmap_asks_for_a_block() {
    let bytes = message(37, 45, 42, &bytes_of(&BmapIn { block: 12, block_size: 512, padding: 0 }));
    let Dispatch::Bmap(incoming) = dispatch(&bytes) else { panic!("not a bmap") };
    let (request, reply) = incoming.op().ok().unwrap();
    assert_eq!(request.block(), 12);
    assert_eq!(request.block_size(), 512);
    let (header, payload) = frame(reply.block(99));
    assert_eq!(header.len, 24);
    assert_eq!(payload, 99u64.to_le_bytes());
}

#[test]
fn a_body_that_does_not_parse_is_answered_with_eio() {
    let truncated = message(15, 46, 42, &[0; 39]);
    let Dispatch::Read(incoming) = dispatch(&truncated) else { panic!("not a read") };
    assert_fails(incoming.op().err().unwrap(), 46, errno::EIO);
    let overlong = message(15, 47, 42, &[0; 41]);
    let Dispatch::Read(incoming) = dispatch(&overlong) else { panic!("not a read") };
    assert_fails(incoming.op().err().unwrap(), 47, 5);
    let unterminated = message(1, 48, 1, b"name");
    let Dispatch::Lookup(incoming) = dispatch(&unterminated) else { panic!("not a lookup") };
    assert_fails(incoming.op().err().unwrap(), 48, 5);
}

#[test]
fn attrs_are_built_field_by_field() {
    let attrs = Attrs::default()
        .size(1)
        .owner(2, 3)
        .mode(Mode::from_bits_truncate(0o170755))
        .blocks(4)
        .block_size(5)
        .device(6)
        .times(Timestamp::new(7, 8), Timestamp::new(-1, 9), Timestamp::new(10, 11))
        .links(12);
    let record = attrs.stamp(Ino(13), EntryType::Directory);
    assert_eq!(record.ino, 13);
    assert_eq!(record.size, 1);
    assert_eq!(record.uid, 2);
    assert_eq!(record.gid, 3);
    assert_eq!(record.mode, 0o040755);
    assert_eq!(record.blocks, 4);
    assert_eq!(record.blksize, 5);
    assert_eq!(record.rdev, 6);
    assert_eq!(record.atime, 7);
    assert_eq!(record.atimensec, 8);
    assert_eq!(record.mtime, u64::MAX);
    assert_eq!(record.mtimensec, 9);
    assert_eq!(record.ctime, 10);
    assert_eq!(record.ctimensec, 11);
    assert_eq!(record.nlink, 12);
    assert_eq!(record.padding, 0);
    let plain = Attrs::default().stamp(Ino(0), EntryType::File);
    assert_eq!(plain.nlink, 1);
    assert_eq!(plain.mode, 0o100000);
}

#[test]
fn entry_types_have_their_bits() {
    let table = [
        (EntryType::Fifo, 0o010000, 1),
        (EntryType::CharacterDevice, 0o020000, 2),
        (EntryType::Directory, 0o040000, 4),
        (EntryType::BlockDevice, 0o060000, 6),
        (EntryType::File, 0o100000, 8),
        (EntryType::Symlink, 0o120000, 10),
        (EntryType::Socket, 0o140000, 12),
    ];
    for (kind, mode, dirent) in table {
        assert_eq!(kind.mode_bits(), mode);
        assert_eq!(kind.dirent_type(), dirent);
    }
}

#[test]
fn flags_of_the_system_are_truncated() {
    assert_eq!(Mode::from_bits_truncate(0o177777).bits(), 0o7777);
    assert_eq!(Mode::from_bits_truncate(0o100644).bits(), 0o644);
    assert_eq!(Mode::from_bits_truncate(0).bits(), 0);
    assert_eq!(AccessFlags::from_bits_truncate(-1).bits(), 7);
    assert_eq!(AccessFlags::from_bits_truncate(0x14).bits(), 4);
    let open = OpenFlags::from_bits_truncate(-1);
    assert_ne!(open.bits(), -1);
    assert_eq!(OpenFlags::from_bits_truncate(1).bits(), 1);
    assert_eq!(OpenFlags::from_bits_truncate(0).bits(), 0);
}

#[test]
fn timestamps_and_ttls() {
    assert_eq!(Timestamp::new(-5, 6).seconds(), -5);
    assert_eq!(Timestamp::new(-5, 6).nanoseconds(), 6);
    assert_eq!(Timestamp::from_epoch(false, 10, 20), Timestamp::new(10, 20));
    assert_eq!(Timestamp::from_epoch(true, 10, 20), Timestamp::new(-10, 20));
    assert_eq!(Timestamp::from_epoch(true, 0, 0), Timestamp::new(0, 0));
    assert_eq!(Ttl::new(1, 999_999_999).seconds(), 1);
    assert_eq!(Ttl::new(1, 999_999_999).nanoseconds(), 999_999_999);
    assert_eq!(Ttl::null(), Ttl::new(0, 0));
    assert_eq!(Ttl::max().seconds(), u64::MAX);
    assert_eq!(Ttl::max().nanoseconds(), u32::MAX);
    assert_eq!(Ino::null(), Ino(0));
    assert_eq!(Ino::root(), Ino(1));
    assert_eq!(Ino(9).as_raw(), 9);
    let entry = known_entry;
    let _ = entry;
}

#[test]
fn older_names_answer_as_the_newer_ones() {
    let bytes = message(1, 77, 1, b"hello\0");
    let Dispatch::Lookup(incoming) = dispatch(&bytes) else { panic!("not a lookup") };
    let (_, reply) = incoming.op().ok().unwrap();
    let unveiled = Rc::new(Cell::new(0));
    let (header, payload) = frame(reply.found(hello(&unveiled), Ttl::null()));
    assert_eq!(header.len, 144);
    assert_eq!(EntryOut::decode(&payload).nodeid, 42);
    assert_eq!(unveiled.get(), 1);

    let bytes = getxattr_reply(0);
    let Dispatch::Getxattr(incoming) = dispatch(&bytes) else { panic!("not a getxattr") };
    let (_, reply) = incoming.op().ok().unwrap();
    assert_eq!(frame(reply.value_size(9)).1, vec![9, 0, 0, 0, 0, 0, 0, 0]);

    let mut body = bytes_of(&SetxattrIn { size: 2, flags: 0 });
    body.extend_from_slice(b"k\0");
    body.extend_from_slice(&[7, 8]);
    let set = message(21, 42, 42, &body);
    let Dispatch::Setxattr(incoming) = dispatch(&set) else { panic!("not a setxattr") };
    let (request, _) = incoming.op().ok().unwrap();
    assert_eq!(request.value(), &[7, 8]);
}

#[test]
fn errno_of_an_io_error() {
    assert_eq!(blown_fuse::io::errno_of(None), 5);
    assert_eq!(blown_fuse::io::errno_of(Some(2)), 2);
    assert_eq!(blown_fuse::io::errno_of(Some(0)), 0);
    assert_eq!(blown_fuse::io::errno_of(Some(-3)), 0);
    assert_eq!(blown_fuse::io::errno_of(Some(1_000_000)), 0);
}
