use nix::errno::Errno;

use blown_fuse::error::{FuseError, MountError};
use blown_fuse::ops::{Read, Readlink};
use blown_fuse::proto::{
    bytes_of, InHeader, InitIn, InitOut, InterruptIn, Opcode, OutHeader, Pod, ReadIn,
};
use blown_fuse::session::{
    receive, Dispatch, Handshake, Received, Session, Start,
    HEADER_END, INTERRUPT_BROADCAST_CAPACITY, MAX_PAYLOAD, SHARED_BUFFERS,
};
use blown_fuse::util::OutputChain;
use blown_fuse::Done;

fn message(opcode: u32, unique: u64, body: &[u8]) -> Vec<u8> {
    let header = InHeader {
        len: (40 + body.len()) as u32,
        opcode,
        unique,
        ino: 1,
        uid: 0,
        gid: 0,
        pid: 0,
        padding: 0,
    };
    let mut bytes = bytes_of(&header);
    bytes.extend_from_slice(body);
    bytes
}

fn init(major: u32, minor: u32, flags: u32) -> Vec<u8> {
    message(26, 1, &bytes_of(&InitIn { major, minor, max_readahead: 65536, flags }))
}

fn frame(done: Done) -> (OutHeader, Vec<u8>) {
    let bytes = done.consume().expect("a reply");
    let header = OutHeader::decode(&bytes[..16]);
    assert_eq!(header.len as usize, bytes.len());
    (header, bytes[16..].to_vec())
}

fn session() -> Session {
    Start::new(b"/mnt/point".to_vec()).start(4096)
}

#[test]
fn constants() {
    assert_eq!(SHARED_BUFFERS, 32);
    assert_eq!(INTERRUPT_BROADCAST_CAPACITY, 32);
    assert_eq!(HEADER_END, 40);
    assert_eq!(MAX_PAYLOAD, u32::MAX as usize - 16);
    assert_eq!(blown_fuse::proto::ROOT_ID, 1);
    assert_eq!(blown_fuse::proto::MAJOR_VERSION, 7);
    assert_eq!(blown_fuse::proto::TARGET_MINOR_VERSION, 32);
    assert_eq!(blown_fuse::proto::REQUIRED_MINOR_VERSION, 31);
    assert_eq!(blown_fuse::proto::MIN_READ_SIZE, 8192);
    assert_eq!(blown_fuse::proto::DIRENT_ALIGNMENT_BITS, 3);
}

#[test]
fn frames_count_header_and_payload() {
    let chain = OutputChain::tail(&[b"ab", b"", b"cde"]);
    let frame = Session::send(9, -7, &chain);
    assert_eq!(frame.len(), 21);
    assert_eq!(&frame[..4], &21u32.to_le_bytes());
    assert_eq!(&frame[4..8], &(-7i32).to_le_bytes());
    assert_eq!(&frame[8..16], &9u64.to_le_bytes());
    assert_eq!(&frame[16..], b"abcde");
    let frame = Session::ok(10, &OutputChain::empty());
    assert_eq!(frame, bytes_of(&OutHeader { len: 16, error: 0, unique: 10 }));
    assert_eq!(Session::fail(11, 2), bytes_of(&OutHeader { len: 16, error: -2, unique: 11 }));
    let no_message = bytes_of(&OutHeader { len: 16, error: -(Errno::ENOMSG as i32), unique: 11 });
    assert_eq!(Session::fail(11, 0), no_message);
    assert_eq!(Session::fail(11, -1), no_message);
}

#[test]
fn a_short_write_is_an_error() {
    assert!(Session::written(16, 16).is_ok());
    assert!(Session::written(0, 0).is_ok());
    assert!(matches!(Session::written(15, 16), Err(FuseError::ShortWrite)));
    assert!(matches!(Session::written(17, 16), Err(FuseError::ShortWrite)));
}

#[test]
fn error_messages() {
    assert_eq!(FuseError::ProtocolInit.message(), "fuse handshake failed (ancient kernel?)");
    assert_eq!(FuseError::Truncated.message(), "fuse request truncated");
    assert_eq!(FuseError::BadOpcode.message(), "unknown fuse operation");
    assert_eq!(FuseError::BadLength.message(), "bad length in fuse request");
    assert_eq!(FuseError::ShortWrite.message(), "fuse reply was trimmed on write()");
    let io = std::io::Error::from_raw_os_error(5);
    assert_eq!(FuseError::Io(io).message(), "I/O error");
    assert_eq!(MountError::Fusermount.message(), "fusermount failed");
    let io = std::io::Error::from_raw_os_error(5);
    assert_eq!(MountError::Io(io).message(), "I/O error during mount");
}

#[test]
fn handshake_with_a_later_major_version_restarts() {
    let session = session();
    let bytes = init(8, 0, 0);
    match session.handshake(&bytes) {
        Ok(Handshake::Restart(done)) => {
            let (header, payload) = frame(done);
            assert_eq!(header.error, 0);
            assert_eq!(header.unique, 1);
            assert_eq!(header.len, 20);
            assert_eq!(payload, vec![7, 0, 0, 0]);
        }
        _ => panic!("a later major version is answered with ours"),
    }
}

#[test]
fn handshake_upgrade() {
    let session = session();
    assert!(matches!(session.handshake(&init(8, 0, 0)), Ok(Handshake::Restart(_))));
    let parallel_dirops = 1 << 18;
    let max_pages = 1 << 22;
    let posix_locks = 1 << 1;
    let bytes = init(7, 31, parallel_dirops | max_pages | posix_locks);
    match session.handshake(&bytes) {
        Ok(Handshake::Accept(request, reply)) => {
            assert_eq!(request.unique(), 1);
            let (header, payload) = frame(reply.ok());
            assert_eq!(header.len, 16 + 64);
            assert_eq!(header.error, 0);
            assert_eq!(header.unique, 1);
            let out = InitOut::decode(&payload);
            assert_eq!(out.major, 7);
            assert_eq!(out.minor, 32);
            assert_eq!(out.flags, parallel_dirops | max_pages);
            assert_eq!(out.max_pages, 2);
            assert_eq!(out.max_write, 8192 - 80);
            assert_eq!(out.max_readahead, 0);
            assert_eq!(out.max_background, 0);
            assert_eq!(out.congestion_threshold, 0);
            assert_eq!(out.time_gran, 1);
            assert_eq!(out.padding, 0);
            assert_eq!(out.unused, [0; 8]);
        }
        _ => panic!("our major version with a late enough minor version is accepted"),
    }
}

#[test]
fn handshake_advertises_what_both_sides_support() {
    let session = session();
    let bytes = init(7, 40, 0xffff_ffff);
    let Ok(Handshake::Accept(_, reply)) = session.handshake(&bytes) else {
        panic!("a later minor version is accepted")
    };
    let out = InitOut::decode(&frame(reply.ok()).1);
    let supported = (1 << 0) | (1 << 2) | (1 << 3) | (1 << 4) | (1 << 5) | (1 << 11) | (1 << 12)
        | (1 << 13) | (1 << 14) | (1 << 18) | (1 << 21) | (1 << 22) | (1 << 23);
    assert_eq!(out.flags, supported);
    let plain = init(7, 31, 0);
    let Ok(Handshake::Accept(_, reply)) = session.handshake(&plain) else {
        panic!("the required minor version is accepted")
    };
    assert_eq!(InitOut::decode(&frame(reply.ok()).1).flags, 0);
}

#[test]
fn handshake_with_too_old_a_protocol_is_refused() {
    let session = session();
    for (major, minor) in [(6, 40), (7, 30), (7, 0), (0, 0)] {
        match session.handshake(&init(major, minor, 0)) {
            Ok(Handshake::Refuse(done)) => {
                let (header, payload) = frame(done);
                assert_eq!(header.error, -(Errno::EPROTONOSUPPORT as i32));
                assert_eq!(header.unique, 1);
                assert!(payload.is_empty());
            }
            _ => panic!("an old protocol is refused"),
        }
    }
}

#[test]
fn handshake_errors() {
    let session = session();
    let lookup = message(1, 1, b"x\0");
    assert!(matches!(session.handshake(&lookup), Err(FuseError::ProtocolInit)));
    assert!(matches!(session.handshake(&[0; 10]), Err(FuseError::Truncated)));
    let mut long = init(7, 31, 0);
    long[0] += 1;
    assert!(matches!(session.handshake(&long), Err(FuseError::BadLength)));
    let unknown = message(0xdead_beef, 1, &[]);
    assert!(matches!(session.handshake(&unknown), Err(FuseError::BadOpcode)));
    let short = message(26, 1, &[0; 15]);
    assert!(matches!(session.handshake(&short), Err(FuseError::Truncated)));
    let overlong = message(26, 1, &[0; 17]);
    assert!(matches!(session.handshake(&overlong), Err(FuseError::BadLength)));
}

#[test]
fn bad_opcode_is_answered_with_enosys() {
    let bytes = message(0xdead_beef, 99, &[]);
    match receive(&bytes) {
        Ok(Received::Answered(done)) => {
            let (header, payload) = frame(done);
            assert_eq!(header.error, -(Errno::ENOSYS as i32));
            assert_eq!(header.unique, 99);
            assert!(payload.is_empty());
        }
        _ => panic!("an unknown opcode is answered"),
    }
    let next = message(5, 100, &[]);
    assert!(matches!(receive(&next), Ok(Received::Dispatch(Dispatch::Readlink(_)))));
}

#[test]
fn operations_that_are_not_served_are_answered_with_enosys() {
    for opcode in [4, 8, 12, 31, 32, 33, 39, 40, 41, 43, 45, 46, 47] {
        let bytes = message(opcode, 3, &[0; 8]);
        match receive(&bytes) {
            Ok(Received::Answered(done)) => assert_eq!(frame(done).0.error, -(Errno::ENOSYS as i32)),
            _ => panic!("the operation is not served"),
        }
    }
}

#[test]
fn a_header_with_a_wrong_length_is_answered_with_eio() {
    let mut bytes = message(5, 98, &[]);
    bytes.push(0);
    match receive(&bytes) {
        Ok(Received::Answered(done)) => {
            let (header, _) = frame(done);
            assert_eq!(header.error, -5);
            assert_eq!(header.unique, 98);
        }
        _ => panic!("a wrong length is answered"),
    }
}

#[test]
fn a_message_shorter_than_a_header_fails() {
    assert!(matches!(receive(&[0; 39]), Err(FuseError::Truncated)));
    assert!(matches!(receive(&[]), Err(FuseError::Truncated)));
}

#[test]
fn destroy_ends_the_session() {
    let bytes = message(38, 4, &[]);
    let received = receive(&bytes).ok().unwrap();
    assert!(matches!(received, Received::Destroy));
    assert!(received.is_break());
    let next = message(5, 5, &[]);
    assert!(!receive(&next).ok().unwrap().is_break());
}

#[test]
fn interrupt_names_its_target() {
    let bytes = message(36, 6, &bytes_of(&InterruptIn { unique: 1234 }));
    assert!(matches!(receive(&bytes), Ok(Received::Interrupt(1234))));
    let short = message(36, 6, &[0; 7]);
    match receive(&short) {
        Ok(Received::Answered(done)) => assert_eq!(frame(done).0.error, -5),
        _ => panic!("an interrupt without a target is answered"),
    }
}

#[test]
fn every_served_operation_is_dispatched_as_itself() {
    let table = [
        (1, Opcode::Lookup),
        (2, Opcode::Forget),
        (3, Opcode::Getattr),
        (5, Opcode::Readlink),
        (6, Opcode::Symlink),
        (9, Opcode::Mkdir),
        (10, Opcode::Unlink),
        (11, Opcode::Rmdir),
        (13, Opcode::Link),
        (14, Opcode::Open),
        (15, Opcode::Read),
        (16, Opcode::Write),
        (17, Opcode::Statfs),
        (18, Opcode::Release),
        (20, Opcode::Fsync),
        (21, Opcode::Setxattr),
        (22, Opcode::Getxattr),
        (23, Opcode::Listxattr),
        (24, Opcode::Removexattr),
        (25, Opcode::Flush),
        (27, Opcode::Opendir),
        (28, Opcode::Readdir),
        (29, Opcode::Releasedir),
        (30, Opcode::Fsyncdir),
        (34, Opcode::Access),
        (35, Opcode::Create),
        (37, Opcode::Bmap),
        (42, Opcode::Forget),
        (44, Opcode::Readdir),
    ];
    for (raw, kind) in table {
        let bytes = message(raw, 7, &[]);
        let Ok(Received::Dispatch(dispatch)) = receive(&bytes) else {
            panic!("the operation is served")
        };
        assert_eq!(dispatch.kind(), kind);
        let (request, reply) = dispatch.op();
        assert_eq!(request.unique(), 7);
        assert_eq!(frame(reply.not_implemented()).0.unique, 7);
    }
}

#[test]
fn the_pool_lends_and_takes_back() {
    let mut session = session();
    assert_eq!(session.permits(), 32);
    assert_eq!(session.buffer_size(), 8192);
    let body = bytes_of(&ReadIn {
        fh: 3,
        offset: 0,
        size: 10,
        read_flags: 0,
        lock_owner: 0,
        flags: 0,
        padding: 0,
    });
    let bytes = message(15, 8, &body);
    let mut loans = Vec::new();
    for taken in 1..=32 {
        let Ok(Received::Dispatch(Dispatch::Read(incoming))) = receive(&bytes) else {
            panic!("not a read")
        };
        let (done, owned) = incoming.owned(&mut session).ok().unwrap();
        assert!(done.consume().is_none());
        assert_eq!(session.permits(), 32 - taken);
        loans.push(owned);
    }
    let Ok(Received::Dispatch(Dispatch::Read(incoming))) = receive(&bytes) else {
        panic!("not a read")
    };
    let incoming = incoming.owned(&mut session).err().expect("no buffer may be lent");
    assert_eq!(session.permits(), 0);
    let (request, _) = incoming.op().ok().unwrap();
    assert_eq!(request.size(), 10);

    {
        let (request, reply) = loans[0].op().ok().unwrap();
        assert_eq!(request.handle(), 3);
        assert_eq!(request.unique(), 8);
        let (header, payload) = frame(reply.slice(b"0123456789"));
        assert_eq!(header.unique, 8);
        assert_eq!(payload, b"0123456789");
    }
    for (returned, owned) in loans.into_iter().enumerate() {
        session.reclaim::<Read>(owned);
        assert_eq!(session.permits(), returned + 1);
    }
    assert_eq!(session.permits(), SHARED_BUFFERS);
}

#[test]
fn an_owned_request_outlives_the_bytes_it_came_in() {
    let mut session = session();
    let owned = {
        let bytes = message(5, 9, &[]);
        let Ok(Received::Dispatch(Dispatch::Readlink(incoming))) = receive(&bytes) else {
            panic!("not a readlink")
        };
        incoming.owned(&mut session).ok().unwrap().1
    };
    let (request, reply) = owned.op().ok().unwrap();
    assert_eq!(request.unique(), 9);
    assert_eq!(frame(reply.slice(b"/t")).1, b"/t");
    session.reclaim::<Readlink>(owned);
    assert_eq!(session.permits(), 32);
}

#[test]
fn the_mountpoint_is_taken_once() {
    let mut session = session();
    assert_eq!(session.unmount_sync(), Some(b"/mnt/point".to_vec()));
    assert_eq!(session.unmount_sync(), None);
    assert_eq!(session.unmount_sync(), None);
    assert_eq!(session.permits(), 32);

    let mut aborted = Start::new(b"/mnt/other".to_vec()).start(4096);
    aborted.abort();
    assert_eq!(aborted.unmount_sync(), None);

    assert_eq!(Start::new(b"/mnt/early".to_vec()).unmount_sync(), b"/mnt/early".to_vec());
}

#[test]
fn buffers_are_no_smaller_than_the_smallest_read() {
    for (page_size, size) in
        [(1, 8192), (4096, 8192), (8192, 8192), (3000, 9000), (16384, 16384), (65536, 65536)]
    {
        let session = Start::new(Vec::new()).start(page_size);
        assert_eq!(session.buffer_size(), size);
        let endpoint = session.endpoint();
        let mut endpoint = endpoint;
        assert_eq!(endpoint.buffer_mut().len(), size);
    }
}

#[test]
fn an_endpoint_receives_what_was_read_into_its_buffer() {
    let session = session();
    let mut endpoint = session.endpoint();
    let bytes = message(5, 10, &[]);
    endpoint.buffer_mut()[..bytes.len()].copy_from_slice(&bytes);
    let Ok(Received::Dispatch(Dispatch::Readlink(incoming))) = endpoint.receive(bytes.len())
    else {
        panic!("not a readlink")
    };
    let (request, _) = incoming.op().ok().unwrap();
    assert_eq!(request.unique(), 10);
    assert!(matches!(endpoint.receive(39), Err(FuseError::Truncated)));
}
