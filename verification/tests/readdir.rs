use std::cell::Cell;
use std::rc::Rc;

use nix::errno::Errno;

use blown_fuse::io::{Attrs, Entry, EntryType, Interruptible, Known, Mode, Stat};
use blown_fuse::ops::BufferedReaddir;
use blown_fuse::proto::{
    bytes_of, Dirent, DirentPlus, InHeader, OutHeader, Pod, ReadIn, ReaddirIn, ReaddirPlusIn,
};
use blown_fuse::session::{receive, Dispatch, Received};
use blown_fuse::{Done, Ino, Reply, Ttl};

fn message(opcode: u32, unique: u64, size: u32) -> Vec<u8> {
    let read_in =
        ReadIn { fh: 3, offset: 17, size, read_flags: 0, lock_owner: 0, flags: 0, padding: 0 };
    let body = if opcode == 44 {
        bytes_of(&ReaddirPlusIn { read_in })
    } else {
        bytes_of(&ReaddirIn { read_in })
    };
    let header = InHeader {
        len: (40 + body.len()) as u32,
        opcode,
        unique,
        ino: 1,
        uid: 0,
        gid: 0,
        pid: 0,
        padding: 0,
    };
    let mut bytes = bytes_of(&header);
    bytes.extend_from_slice(&body);
    bytes
}

fn listing(bytes: &[u8]) -> Reply<'_, BufferedReaddir> {
    let Ok(Received::Dispatch(Dispatch::Readdir(incoming))) = receive(bytes) else {
        panic!("not a readdir")
    };
    let (request, reply) = incoming.op().ok().unwrap();
    assert_eq!(request.handle(), 3);
    assert_eq!(request.offset(), 17);
    reply.buffered(Vec::new())
}

fn frame(done: Done) -> (OutHeader, Vec<u8>) {
    let bytes = done.consume().expect("a reply");
    let header = OutHeader::decode(&bytes[..16]);
    assert_eq!(header.len as usize, bytes.len());
    (header, bytes[16..].to_vec())
}

struct File {
    ino: u64,
    kind: EntryType,
}

impl Stat for File {
    fn ino(&self) -> Ino {
        Ino(self.ino)
    }

    fn inode_type(&self) -> EntryType {
        self.kind
    }

    fn attrs(&self) -> (Attrs, Ttl) {
        (Attrs::default().mode(Mode::from_bits_truncate(0o644)), Ttl::new(1, 0))
    }
}

struct Listed {
    file: File,
    unveiled: Rc<Cell<u32>>,
}

impl Known for Listed {
    type Inode = File;

    fn inode(&self) -> &File {
        &self.file
    }

    fn unveil(self) {
        self.unveiled.set(self.unveiled.get() + 1);
    }
}

fn entry<'a>(
    offset: u64,
    name: &'a [u8],
    ino: u64,
    kind: EntryType,
    unveiled: &Rc<Cell<u32>>,
) -> Entry<'a, Listed> {
    Entry {
        offset,
        name,
        inode: Listed { file: File { ino, kind }, unveiled: Rc::clone(unveiled) },
        ttl: Ttl::new(2, 0),
    }
}

#[test]
fn plain_records_are_padded_to_eight_bytes() {
    let bytes = message(28, 5, 4096);
    let unveiled = Rc::new(Cell::new(0));
    let mut reply = listing(&bytes);
    let mut expected = 0;
    for (index, name) in [&b"a"[..], b"ab", b"abcdefgh", b"abcdefghi", b""].iter().enumerate() {
        reply = match reply.entry(entry(index as u64 + 1, name, 10, EntryType::File, &unveiled)) {
            Interruptible::Completed(reply, ()) => reply,
            Interruptible::Interrupted(_) => panic!("the listing has room"),
        };
        expected += (24 + name.len() + 7) / 8 * 8;
    }
    let (header, payload) = frame(reply.end());
    assert_eq!(header.unique, 5);
    assert_eq!(header.error, 0);
    assert_eq!(payload.len(), expected);
    assert_eq!(expected, 32 + 32 + 32 + 40 + 24);
    assert_eq!(payload.len() % 8, 0);
    assert_eq!(unveiled.get(), 0);

    let first = Dirent::decode(&payload[..24]);
    assert_eq!(first, Dirent { ino: 10, off: 1, namelen: 1, entry_type: 8 });
    assert_eq!(&payload[24..32], b"a\0\0\0\0\0\0\0");
    let third = Dirent::decode(&payload[64..88]);
    assert_eq!(third.namelen, 8);
    assert_eq!(&payload[88..96], b"abcdefgh");
    let fourth = Dirent::decode(&payload[96..120]);
    assert_eq!(fourth.namelen, 9);
    assert_eq!(&payload[120..136], b"abcdefghi\0\0\0\0\0\0\0");
}

#[test]
fn a_buffer_too_small_for_the_first_entry_is_enobufs() {
    for size in [0, 8, 24, 31] {
        let bytes = message(28, 6, size);
        let unveiled = Rc::new(Cell::new(0));
        let reply = listing(&bytes);
        assert!(!reply.has_room(b"a"));
        assert!(!reply.unveils(b"a"));
        match reply.entry(entry(1, b"a", 10, EntryType::File, &unveiled)) {
            Interruptible::Completed(..) => panic!("the record has no room"),
            Interruptible::Interrupted(done) => {
                let (header, payload) = frame(done);
                assert_eq!(header.error, -(Errno::ENOBUFS as i32));
                assert_eq!(header.unique, 6);
                assert_eq!(header.len, 16);
                assert!(payload.is_empty());
            }
        }
    }
}

#[test]
fn a_listing_stops_at_max_read() {
    let bytes = message(28, 7, 70);
    let unveiled = Rc::new(Cell::new(0));
    let reply = listing(&bytes);
    assert!(reply.has_room(b"a"));
    let reply = match reply.entry(entry(1, b"a", 10, EntryType::File, &unveiled)) {
        Interruptible::Completed(reply, ()) => reply,
        Interruptible::Interrupted(_) => panic!("a smallest record still has room"),
    };
    assert!(reply.has_room(b"b"));
    assert!(!reply.has_room(b"a name that is too long"));
    match reply.entry(entry(2, b"b", 11, EntryType::Directory, &unveiled)) {
        Interruptible::Completed(..) => panic!("no further record has room"),
        Interruptible::Interrupted(done) => {
            let (header, payload) = frame(done);
            assert_eq!(header.error, 0);
            assert_eq!(payload.len(), 64);
            assert_eq!(Dirent::decode(&payload[32..56]).entry_type, 4);
        }
    }
}

#[test]
fn an_entry_without_room_ends_the_listing_with_what_was_listed() {
    let bytes = message(28, 8, 80);
    let unveiled = Rc::new(Cell::new(0));
    let reply = listing(&bytes);
    let reply = match reply.entry(entry(1, b"a", 10, EntryType::File, &unveiled)) {
        Interruptible::Completed(reply, ()) => reply,
        Interruptible::Interrupted(_) => panic!("a smallest record still has room"),
    };
    match reply.entry(entry(2, b"a name of thirty-one bytes.....", 11, EntryType::File, &unveiled))
    {
        Interruptible::Completed(..) => panic!("the record has no room"),
        Interruptible::Interrupted(done) => {
            let (header, payload) = frame(done);
            assert_eq!(header.error, 0);
            assert_eq!(payload.len(), 32);
            assert_eq!(Dirent::decode(&payload[..24]).off, 1);
        }
    }
}

#[test]
fn readdirplus_truncates_at_the_request_size() {
    let bytes = message(44, 9, 128);
    let unveiled = Rc::new(Cell::new(0));
    let reply = listing(&bytes);
    assert!(!reply.has_room(b"a"));
    match reply.entry(entry(1, b"a", 10, EntryType::File, &unveiled)) {
        Interruptible::Completed(..) => panic!("a record of 160 bytes has no room in 128"),
        Interruptible::Interrupted(done) => assert_eq!(frame(done).0.error, -(Errno::ENOBUFS as i32)),
    }
    assert_eq!(unveiled.get(), 0);

    let bytes = message(44, 9, 400);
    let mut reply = listing(&bytes);
    let names: Vec<Vec<u8>> = (b'a'..=b'z').map(|letter| vec![letter]).collect();
    let mut done = None;
    let mut listed = 0;
    for (index, name) in names.iter().enumerate() {
        let kind = if index == 1 { EntryType::Directory } else { EntryType::File };
        match reply.entry(entry(index as u64 + 1, name, 10 + index as u64, kind, &unveiled)) {
            Interruptible::Completed(next, ()) => {
                listed += 1;
                reply = next;
            }
            Interruptible::Interrupted(finished) => {
                done = Some(finished);
                break;
            }
        }
    }
    let (header, payload) = frame(done.expect("the listing ends before the last entry"));
    assert_eq!(listed, 1);
    assert_eq!(header.error, 0);
    assert_eq!(payload.len(), 320);
    assert_eq!(unveiled.get(), 2);
    let first = DirentPlus::decode(&payload[..152]);
    assert_eq!(first.entry_out.nodeid, 10);
    assert_eq!(first.entry_out.entry_valid, 2);
    assert_eq!(first.entry_out.attr_valid, 1);
    assert_eq!(first.entry_out.attr.mode, 0o100644);
    assert_eq!(first.dirent, Dirent { ino: 10, off: 1, namelen: 1, entry_type: 8 });
    assert_eq!(&payload[152..160], b"a\0\0\0\0\0\0\0");
    let second = DirentPlus::decode(&payload[160..312]);
    assert_eq!(second.entry_out.nodeid, 11);
    assert_eq!(second.entry_out.attr.mode, 0o040644);
    assert_eq!(second.dirent, Dirent { ino: 11, off: 2, namelen: 1, entry_type: 4 });
    assert_eq!(&payload[312..320], b"b\0\0\0\0\0\0\0");
}

#[test]
fn readdirplus_unveils_all_but_dot_and_dot_dot() {
    let bytes = message(44, 10, 4096);
    let unveiled = Rc::new(Cell::new(0));
    let mut reply = listing(&bytes);
    assert!(!reply.unveils(b"."));
    assert!(!reply.unveils(b".."));
    assert!(reply.unveils(b"..."));
    assert!(reply.unveils(b".a"));
    assert!(reply.unveils(b""));
    for (index, name) in [&b"."[..], b"..", b"file", b"...", b".x"].iter().enumerate() {
        reply = match reply.entry(entry(index as u64 + 1, name, 10, EntryType::File, &unveiled)) {
            Interruptible::Completed(reply, ()) => reply,
            Interruptible::Interrupted(_) => panic!("the listing has room"),
        };
    }
    assert_eq!(unveiled.get(), 3);
    let (_, payload) = frame(reply.end());
    assert_eq!(payload.len(), 5 * 160);
}

#[test]
fn plain_readdir_unveils_nothing() {
    let bytes = message(28, 11, 4096);
    let unveiled = Rc::new(Cell::new(0));
    let reply = listing(&bytes);
    assert!(!reply.unveils(b"file"));
    let reply = match reply.entry(entry(1, b"file", 10, EntryType::File, &unveiled)) {
        Interruptible::Completed(reply, ()) => reply,
        Interruptible::Interrupted(_) => panic!("the listing has room"),
    };
    assert_eq!(unveiled.get(), 0);
    assert_eq!(frame(reply.end()).1.len(), 32);
}

#[test]
fn entry_as_lists_the_values_it_is_given() {
    let bytes = message(28, 12, 4096);
    let reply = listing(&bytes);
    let outcome = reply.entry_as(
        9,
        b"socket",
        Ino(77),
        EntryType::Socket,
        Attrs::default(),
        Ttl::null(),
        Ttl::null(),
    );
    let Interruptible::Completed(reply, ()) = outcome else { panic!("the listing has room") };
    let (_, payload) = frame(reply.end());
    assert_eq!(payload.len(), 32);
    assert_eq!(
        Dirent::decode(&payload[..24]),
        Dirent { ino: 77, off: 9, namelen: 6, entry_type: 12 }
    );
    assert_eq!(&payload[24..], b"socket\0\0");
}

#[test]
fn an_empty_listing_ends_empty() {
    let bytes = message(28, 13, 4096);
    let (header, payload) = frame(listing(&bytes).end());
    assert_eq!(header.len, 16);
    assert_eq!(header.error, 0);
    assert!(payload.is_empty());
    let bytes = message(28, 13, 4096);
    let (header, _) = frame(listing(&bytes).full());
    assert_eq!(header.error, -(Errno::ENOBUFS as i32));
}

struct Counted {
    asked: Rc<Cell<u32>>,
}

impl Stat for Counted {
    fn ino(&self) -> Ino {
        Ino(5)
    }

    fn inode_type(&self) -> EntryType {
        EntryType::File
    }

    fn attrs(&self) -> (Attrs, Ttl) {
        self.asked.set(self.asked.get() + 1);
        (Attrs::default(), Ttl::null())
    }
}

impl Known for Counted {
    type Inode = Counted;

    fn inode(&self) -> &Counted {
        self
    }

    fn unveil(self) {}
}

#[test]
fn attributes_are_asked_for_only_where_they_are_listed() {
    let asked = Rc::new(Cell::new(0));
    let one = |offset| Entry {
        offset,
        name: &b"name"[..],
        inode: Counted { asked: Rc::clone(&asked) },
        ttl: Ttl::null(),
    };

    let bytes = message(28, 14, 4096);
    let reply = listing(&bytes);
    assert!(reply.is_ready());
    assert_eq!(reply.listed(), 0);
    let Interruptible::Completed(reply, ()) = reply.entry(one(1)) else {
        panic!("the listing has room")
    };
    assert_eq!(reply.listed(), 32);
    assert_eq!(asked.get(), 0);

    let bytes = message(44, 15, 4096);
    let Interruptible::Completed(reply, ()) = listing(&bytes).entry(one(1)) else {
        panic!("the listing has room")
    };
    assert_eq!(reply.listed(), 160);
    assert_eq!(asked.get(), 1);

    let bytes = message(44, 16, 100);
    assert!(matches!(listing(&bytes).entry(one(1)), Interruptible::Interrupted(_)));
    assert_eq!(asked.get(), 1);
}

#[test]
fn a_listing_keeps_the_size_that_the_request_states() {
    let bytes = message(28, 17, u32::MAX);
    let reply = listing(&bytes);
    assert!(reply.has_room(b"name"));
    let Interruptible::Completed(reply, ()) =
        reply.entry_as(1, b"name", Ino(1), EntryType::File, Attrs::default(), Ttl::null(), Ttl::null())
    else {
        panic!("the listing has room")
    };
    assert_eq!(reply.listed(), 32);
}
