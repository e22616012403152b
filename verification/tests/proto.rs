use blown_fuse::error::FuseError;
use blown_fuse::proto::{
    bytes_of, find_nul, Attrs, BatchForgetIn, CStr, Dirent, DirentPlus, EntryOut, ForgetBatch,
    ForgetIn, ForgetOne, FsyncFlags, GetxattrIn, InHeader, InitFlags, InitIn, InitOut, MkdirIn, NotifyCode,
    Opcode, OpcodeSelect, OpenOutFlags, OutHeader, Pod, ReadIn, SetxattrIn, StatfsOut, Structured,
    WriteIn,
};

fn header(len: u32, opcode: u32, unique: u64, ino: u64) -> InHeader {
    InHeader { len, opcode, unique, ino, uid: 1000, gid: 100, pid: 4242, padding: 0 }
}

fn header_bytes(len: u32, opcode: u32, unique: u64, ino: u64) -> Vec<u8> {
    let mut bytes = Vec::new();
    bytes.extend_from_slice(&len.to_le_bytes());
    bytes.extend_from_slice(&opcode.to_le_bytes());
    bytes.extend_from_slice(&unique.to_le_bytes());
    bytes.extend_from_slice(&ino.to_le_bytes());
    bytes.extend_from_slice(&1000u32.to_le_bytes());
    bytes.extend_from_slice(&100u32.to_le_bytes());
    bytes.extend_from_slice(&4242u32.to_le_bytes());
    bytes.extend_from_slice(&0u32.to_le_bytes());
    bytes
}

#[test]
fn header_of_a_whole_request_is_read() {
    let bytes = header_bytes(40, 5, 7, 42);
    let (header, opcode) = InHeader::from_bytes(&bytes).unwrap();
    assert_eq!(opcode, Opcode::Readlink);
    assert_eq!(header.len, 40);
    assert_eq!(header.opcode, 5);
    assert_eq!(header.unique, 7);
    assert_eq!(header.ino, 42);
    assert_eq!(header.uid, 1000);
    assert_eq!(header.gid, 100);
    assert_eq!(header.pid, 4242);
    assert_eq!(header.padding, 0);
}

#[test]
fn header_shorter_than_forty_bytes_is_truncated() {
    let bytes = header_bytes(39, 5, 7, 42);
    assert!(matches!(InHeader::from_bytes(&bytes[..39]), Err(FuseError::Truncated)));
    assert!(matches!(InHeader::from_bytes(&[]), Err(FuseError::Truncated)));
}

#[test]
fn header_with_another_length_than_the_message_is_bad_length() {
    let long = header_bytes(41, 5, 7, 42);
    assert!(matches!(InHeader::from_bytes(&long), Err(FuseError::BadLength)));
    let mut short = header_bytes(40, 5, 7, 42);
    short.push(0);
    assert!(matches!(InHeader::from_bytes(&short), Err(FuseError::BadLength)));
}

#[test]
fn header_with_an_unknown_opcode_is_bad_opcode() {
    let unknown = header_bytes(40, 0xdead_beef, 7, 42);
    assert!(matches!(InHeader::from_bytes(&unknown), Err(FuseError::BadOpcode)));
    let gap = header_bytes(40, 7, 7, 42);
    assert!(matches!(InHeader::from_bytes(&gap), Err(FuseError::BadOpcode)));
    let zero = header_bytes(40, 0, 7, 42);
    assert!(matches!(InHeader::from_bytes(&zero), Err(FuseError::BadOpcode)));
}

#[test]
fn bad_length_is_found_before_bad_opcode() {
    let both = header_bytes(99, 0xdead_beef, 7, 42);
    assert!(matches!(InHeader::from_bytes(&both), Err(FuseError::BadLength)));
}

#[test]
fn header_round_trip() {
    let before = header(56, 26, 0x0102_0304_0506_0708, 1);
    let bytes = bytes_of(&before);
    assert_eq!(bytes.len(), 40);
    assert_eq!(bytes, header_bytes(56, 26, 0x0102_0304_0506_0708, 1));
    assert_eq!(InHeader::decode(&bytes), before);
}

#[test]
fn out_header_layout() {
    let bytes = bytes_of(&OutHeader { len: 16, error: -2, unique: 0x1122_3344_5566_7788 });
    assert_eq!(
        bytes,
        vec![16, 0, 0, 0, 0xfe, 0xff, 0xff, 0xff, 0x88, 0x77, 0x66, 0x55, 0x44, 0x33, 0x22, 0x11]
    );
    let back = OutHeader::decode(&bytes);
    assert_eq!(back.len, 16);
    assert_eq!(back.error, -2);
    assert_eq!(back.unique, 0x1122_3344_5566_7788);
}

#[test]
fn record_sizes() {
    assert_eq!(InHeader::size(), 40);
    assert_eq!(OutHeader::size(), 16);
    assert_eq!(Attrs::size(), 88);
    assert_eq!(EntryOut::size(), 128);
    assert_eq!(Dirent::size(), 24);
    assert_eq!(DirentPlus::size(), 152);
    assert_eq!(ReadIn::size(), 40);
    assert_eq!(WriteIn::size(), 40);
    assert_eq!(InitIn::size(), 16);
    assert_eq!(InitOut::size(), 64);
    assert_eq!(StatfsOut::size(), 80);
    assert_eq!(ForgetOne::size(), 16);
}

#[test]
fn every_opcode_has_its_number() {
    let table: [(Opcode, u32); 45] = [
        (Opcode::Lookup, 1),
        (Opcode::Forget, 2),
        (Opcode::Getattr, 3),
        (Opcode::Setattr, 4),
        (Opcode::Readlink, 5),
        (Opcode::Symlink, 6),
        (Opcode::Mknod, 8),
        (Opcode::Mkdir, 9),
        (Opcode::Unlink, 10),
        (Opcode::Rmdir, 11),
        (Opcode::Rename, 12),
        (Opcode::Link, 13),
        (Opcode::Open, 14),
        (Opcode::Read, 15),
        (Opcode::Write, 16),
        (Opcode::Statfs, 17),
        (Opcode::Release, 18),
        (Opcode::Fsync, 20),
        (Opcode::Setxattr, 21),
        (Opcode::Getxattr, 22),
        (Opcode::Listxattr, 23),
        (Opcode::Removexattr, 24),
        (Opcode::Flush, 25),
        (Opcode::Init, 26),
        (Opcode::Opendir, 27),
        (Opcode::Readdir, 28),
        (Opcode::Releasedir, 29),
        (Opcode::Fsyncdir, 30),
        (Opcode::Getlk, 31),
        (Opcode::Setlk, 32),
        (Opcode::Setlkw, 33),
        (Opcode::Access, 34),
        (Opcode::Create, 35),
        (Opcode::Interrupt, 36),
        (Opcode::Bmap, 37),
        (Opcode::Destroy, 38),
        (Opcode::Ioctl, 39),
        (Opcode::Poll, 40),
        (Opcode::NotifyReply, 41),
        (Opcode::BatchForget, 42),
        (Opcode::Fallocate, 43),
        (Opcode::ReaddirPlus, 44),
        (Opcode::Rename2, 45),
        (Opcode::Lseek, 46),
        (Opcode::CopyFileRange, 47),
    ];
    for (opcode, raw) in table {
        assert_eq!(opcode.raw(), raw);
        assert_eq!(Opcode::from_raw(raw), Some(opcode));
    }
    assert_eq!(Opcode::from_raw(0), None);
    assert_eq!(Opcode::from_raw(7), None);
    assert_eq!(Opcode::from_raw(19), None);
    assert_eq!(Opcode::from_raw(48), None);
    assert_eq!(Opcode::Lookup.name(), "Lookup");
    assert_eq!(Opcode::CopyFileRange.name(), "CopyFileRange");
}

#[test]
fn every_notify_code_has_its_number() {
    let table = [
        (NotifyCode::Poll, 1),
        (NotifyCode::InvalInode, 2),
        (NotifyCode::InvalEntry, 3),
        (NotifyCode::Store, 4),
        (NotifyCode::Retrieve, 5),
        (NotifyCode::Delete, 6),
    ];
    for (code, raw) in table {
        assert_eq!(code.raw(), raw);
        assert_eq!(NotifyCode::from_raw(raw), Some(code));
    }
    assert_eq!(NotifyCode::from_raw(0), None);
    assert_eq!(NotifyCode::from_raw(7), None);
    assert_eq!(NotifyCode::from_raw(-1), None);
}

#[test]
fn pod_takes_its_bytes_and_leaves_the_rest() {
    let record = ReadIn {
        fh: 3,
        offset: 4096,
        size: 512,
        read_flags: 1,
        lock_owner: 9,
        flags: 0x8000,
        padding: 0,
    };
    let mut bytes = bytes_of(&record);
    bytes.extend_from_slice(&[1, 2, 3]);
    let head = header(83, 15, 1, 1);
    let (parsed, rest) = ReadIn::split_from(&bytes, &head, false).unwrap();
    assert_eq!(parsed, record);
    assert_eq!(rest, &[1, 2, 3]);
    assert!(matches!(ReadIn::toplevel_from(&bytes, &head), Err(FuseError::BadLength)));
    assert_eq!(ReadIn::toplevel_from(&bytes[..40], &head).unwrap(), record);
}

#[test]
fn pod_that_is_cut_short_is_truncated() {
    let bytes = bytes_of(&ForgetIn { nlookup: 5 });
    let head = header(47, 2, 1, 1);
    assert!(matches!(ForgetIn::split_from(&bytes[..7], &head, true), Err(FuseError::Truncated)));
    assert!(matches!(ForgetIn::toplevel_from(&[], &head), Err(FuseError::Truncated)));
}

#[test]
fn unit_reads_nothing() {
    let head = header(40, 5, 1, 1);
    let ((), rest) = <()>::split_from(&[1, 2], &head, true).unwrap();
    assert_eq!(rest, &[1, 2]);
    assert!(<()>::toplevel_from(&[], &head).is_ok());
    assert!(matches!(<()>::toplevel_from(&[0], &head), Err(FuseError::BadLength)));
}

#[test]
fn c_string_before_the_end_stops_at_the_first_nul() {
    let head = header(40, 6, 1, 1);
    let (name, rest) = CStr::split_from(b"name\0target\0", &head, false).unwrap();
    assert_eq!(name.to_bytes(), b"name");
    assert_eq!(rest, b"target\0");
    let (empty, rest) = CStr::split_from(b"\0x", &head, false).unwrap();
    assert_eq!(empty.to_bytes(), b"");
    assert_eq!(rest, b"x");
}

#[test]
fn c_string_before_the_end_without_nul_is_truncated() {
    let head = header(40, 6, 1, 1);
    assert!(matches!(CStr::split_from(b"name", &head, false), Err(FuseError::Truncated)));
    assert!(matches!(CStr::split_from(b"", &head, false), Err(FuseError::Truncated)));
}

#[test]
fn c_string_at_the_end_must_fill_the_rest() {
    let head = header(40, 1, 1, 1);
    let (name, rest) = CStr::split_from(b"hello\0", &head, true).unwrap();
    assert_eq!(name.to_bytes(), b"hello");
    assert!(rest.is_empty());
    assert!(matches!(CStr::split_from(b"hello", &head, true), Err(FuseError::BadLength)));
    assert!(matches!(CStr::split_from(b"he\0lo\0", &head, true), Err(FuseError::BadLength)));
    assert!(matches!(CStr::split_from(b"hello\0x", &head, true), Err(FuseError::BadLength)));
    assert!(matches!(CStr::split_from(b"", &head, true), Err(FuseError::BadLength)));
}

#[test]
fn find_nul_finds_the_first() {
    assert_eq!(find_nul(b"ab\0cd\0"), Some(2));
    assert_eq!(find_nul(b"\0"), Some(0));
    assert_eq!(find_nul(b"abc"), None);
    assert_eq!(find_nul(b""), None);
}

#[test]
fn payload_takes_all_that_is_left() {
    let head = header(40, 16, 1, 1);
    let (data, rest) = <&[u8]>::split_from(&[9, 8, 7], &head, true).unwrap();
    assert_eq!(data, &[9, 8, 7]);
    assert!(rest.is_empty());
    let (none, rest) = <&[u8]>::split_from(&[], &head, true).unwrap();
    assert!(none.is_empty());
    assert!(rest.is_empty());
}

#[test]
fn packed_array_takes_whole_records() {
    let head = header(40, 42, 1, 1);
    let mut bytes = bytes_of(&ForgetOne { ino: 10, nlookup: 1 });
    bytes.extend_from_slice(&bytes_of(&ForgetOne { ino: 11, nlookup: 2 }));
    let (records, rest) = Vec::<ForgetOne>::split_from(&bytes, &head, true).unwrap();
    assert_eq!(records, vec![ForgetOne { ino: 10, nlookup: 1 }, ForgetOne { ino: 11, nlookup: 2 }]);
    assert!(rest.is_empty());
    let (none, _) = Vec::<ForgetOne>::split_from(&[], &head, true).unwrap();
    assert!(none.is_empty());
    assert!(matches!(
        Vec::<ForgetOne>::split_from(&bytes[..31], &head, true),
        Err(FuseError::Truncated)
    ));
}

#[test]
fn pair_reads_one_part_after_the_other() {
    let head = header(40, 9, 1, 1);
    let mut bytes = bytes_of(&MkdirIn { mode: 0o755, umask: 0o022 });
    bytes.extend_from_slice(b"dir\0");
    let (fixed, name) = <(MkdirIn, CStr)>::toplevel_from(&bytes, &head).unwrap();
    assert_eq!(fixed, MkdirIn { mode: 0o755, umask: 0o022 });
    assert_eq!(name.to_bytes(), b"dir");
    assert!(matches!(
        <(MkdirIn, CStr)>::toplevel_from(&bytes[..7], &head),
        Err(FuseError::Truncated)
    ));
    assert!(matches!(
        <(MkdirIn, CStr)>::toplevel_from(&bytes[..11], &head),
        Err(FuseError::BadLength)
    ));
}

#[test]
fn triple_reads_three_parts() {
    let head = header(40, 21, 1, 1);
    let mut bytes = bytes_of(&SetxattrIn { size: 3, flags: 0 });
    bytes.extend_from_slice(b"user.key\0");
    bytes.extend_from_slice(&[1, 2, 3]);
    let (fixed, name, value) = <(SetxattrIn, CStr, &[u8])>::toplevel_from(&bytes, &head).unwrap();
    assert_eq!(fixed, SetxattrIn { size: 3, flags: 0 });
    assert_eq!(name.to_bytes(), b"user.key");
    assert_eq!(value, &[1, 2, 3]);
    let no_nul = &bytes[..12];
    assert!(matches!(
        <(SetxattrIn, CStr, &[u8])>::toplevel_from(no_nul, &head),
        Err(FuseError::Truncated)
    ));
}

#[test]
fn opcode_select_goes_by_the_header() {
    let bytes = bytes_of(&GetxattrIn { size: 5, padding: 0 });
    let matching = header(48, 22, 1, 1);
    let other = header(48, 23, 1, 1);
    match OpcodeSelect::<GetxattrIn, ForgetIn, 22>::toplevel_from(&bytes, &matching).unwrap() {
        OpcodeSelect::Match(left) => assert_eq!(left, GetxattrIn { size: 5, padding: 0 }),
        OpcodeSelect::Alt(_) => panic!("the opcode matched"),
    }
    match OpcodeSelect::<GetxattrIn, ForgetIn, 22>::toplevel_from(&bytes, &other).unwrap() {
        OpcodeSelect::Match(_) => panic!("the opcode did not match"),
        OpcodeSelect::Alt(right) => assert_eq!(right, ForgetIn { nlookup: 5 }),
    }
}

#[test]
fn batch_forget_body() {
    let head = header(80, 42, 1, 1);
    let mut bytes = bytes_of(&BatchForgetIn { count: 2, dummy: 0 });
    bytes.extend_from_slice(&bytes_of(&ForgetOne { ino: 10, nlookup: 1 }));
    bytes.extend_from_slice(&bytes_of(&ForgetOne { ino: 11, nlookup: 2 }));
    let (fixed, records) = <(BatchForgetIn, Vec<ForgetOne>)>::toplevel_from(&bytes, &head).unwrap();
    assert_eq!(fixed.count, 2);
    assert_eq!(records.len(), 2);
    assert_eq!(records[1], ForgetOne { ino: 11, nlookup: 2 });
}

#[test]
fn batch_forget_count_must_be_the_number_of_records() {
    let head = header(80, 42, 1, 1);
    let records = [ForgetOne { ino: 10, nlookup: 1 }, ForgetOne { ino: 11, nlookup: 2 }];
    for count in [0, 1, 3, u32::MAX] {
        let mut bytes = bytes_of(&BatchForgetIn { count, dummy: 0 });
        bytes.extend_from_slice(&bytes_of(&records[0]));
        bytes.extend_from_slice(&bytes_of(&records[1]));
        assert!(matches!(ForgetBatch::toplevel_from(&bytes, &head), Err(FuseError::BadLength)));
    }
    let mut bytes = bytes_of(&BatchForgetIn { count: 2, dummy: 0 });
    bytes.extend_from_slice(&bytes_of(&records[0]));
    bytes.extend_from_slice(&bytes_of(&records[1]));
    let batch = ForgetBatch::toplevel_from(&bytes, &head).unwrap();
    assert_eq!(batch.head.count, 2);
    assert_eq!(batch.records, records.to_vec());
    assert!(matches!(
        ForgetBatch::toplevel_from(&bytes[..39], &head),
        Err(FuseError::Truncated)
    ));
    let empty = bytes_of(&BatchForgetIn { count: 0, dummy: 0 });
    assert!(ForgetBatch::toplevel_from(&empty, &head).unwrap().records.is_empty());
}

#[test]
fn attrs_layout_is_that_of_the_kernel() {
    let attrs = Attrs {
        ino: 1,
        size: 2,
        blocks: 3,
        atime: 4,
        mtime: 5,
        ctime: 6,
        atimensec: 7,
        mtimensec: 8,
        ctimensec: 9,
        mode: 10,
        nlink: 11,
        uid: 12,
        gid: 13,
        rdev: 14,
        blksize: 15,
        padding: 16,
    };
    let bytes = bytes_of(&attrs);
    assert_eq!(bytes.len(), 88);
    for (index, value) in [1u64, 2, 3, 4, 5, 6].iter().enumerate() {
        assert_eq!(&bytes[index * 8..index * 8 + 8], &value.to_le_bytes());
    }
    for (index, value) in [7u32, 8, 9, 10, 11, 12, 13, 14, 15, 16].iter().enumerate() {
        assert_eq!(&bytes[48 + index * 4..52 + index * 4], &value.to_le_bytes());
    }
    assert_eq!(Attrs::decode(&bytes), attrs);
}

#[test]
fn records_with_arrays_round_trip() {
    let statfs = StatfsOut {
        blocks: 1,
        bfree: 2,
        bavail: 3,
        files: 4,
        ffree: 5,
        bsize: 6,
        namelen: 7,
        frsize: 8,
        padding: 9,
        spare: [10, 11, 12, 13, 14, 15],
    };
    let bytes = bytes_of(&statfs);
    assert_eq!(bytes.len(), 80);
    assert_eq!(&bytes[56..60], &10u32.to_le_bytes());
    assert_eq!(&bytes[76..80], &15u32.to_le_bytes());
    let back = StatfsOut::decode(&bytes);
    assert_eq!(back.spare, [10, 11, 12, 13, 14, 15]);
    assert_eq!(back.frsize, 8);

    let init = InitOut {
        major: 7,
        minor: 32,
        max_readahead: 1,
        flags: 2,
        max_background: 3,
        congestion_threshold: 4,
        max_write: 5,
        time_gran: 6,
        max_pages: 7,
        padding: 8,
        unused: [9, 10, 11, 12, 13, 14, 15, 16],
    };
    let bytes = bytes_of(&init);
    assert_eq!(bytes.len(), 64);
    assert_eq!(&bytes[16..18], &3u16.to_le_bytes());
    assert_eq!(&bytes[18..20], &4u16.to_le_bytes());
    assert_eq!(&bytes[28..30], &7u16.to_le_bytes());
    let back = InitOut::decode(&bytes);
    assert_eq!(back.max_pages, 7);
    assert_eq!(back.unused, [9, 10, 11, 12, 13, 14, 15, 16]);
}

#[test]
fn encode_appends() {
    let mut out = vec![0xaa];
    ForgetIn { nlookup: 0x0102 }.encode(&mut out);
    assert_eq!(out, vec![0xaa, 2, 1, 0, 0, 0, 0, 0, 0]);
}

#[test]
fn flag_sets_keep_what_the_protocol_defines() {
    assert_eq!(InitFlags::from_bits_truncate(0xffff_ffff).bits(), 0x03ff_ffff);
    assert_eq!(InitFlags::from_bits_truncate(0x0440_0000).bits(), 0x0040_0000);
    let kernel = InitFlags::from_bits_truncate(0x0004_0002);
    let server = InitFlags::from_bits_truncate(0x0004_0001);
    assert_eq!(kernel.intersection(server).bits(), 0x0004_0000);
    assert!(kernel.contains(InitFlags::from_bits_truncate(0x2)));
    assert!(!kernel.contains(server));
    assert_eq!(OpenOutFlags::empty().bits(), 0);
    assert_eq!(OpenOutFlags::from_bits_truncate(0xff).bits(), 0x1f);
    let direct = OpenOutFlags::from_bits_truncate(1);
    let stream = OpenOutFlags::from_bits_truncate(0x10);
    assert_eq!(direct.union(stream).bits(), 0x11);
    assert!(direct.union(stream).contains(stream));
    assert!(!direct.contains(stream));
    assert_eq!(FsyncFlags::from_bits_truncate(3).bits(), 1);
    assert!(FsyncFlags::from_bits_truncate(1).data_only());
    assert!(!FsyncFlags::from_bits_truncate(2).data_only());
}

#[test]
fn a_changed_byte_changes_the_value_or_is_refused() {
    let head = header(48, 9, 1, 1);
    let mut bytes = bytes_of(&MkdirIn { mode: 0o755, umask: 0o022 });
    bytes.extend_from_slice(b"dir\0");
    let (fixed, name) = <(MkdirIn, CStr)>::toplevel_from(&bytes, &head).unwrap();
    let before = (fixed, name.to_bytes().to_vec());
    for index in 0..bytes.len() {
        let mut changed = bytes.clone();
        changed[index] ^= 0x40;
        match <(MkdirIn, CStr)>::toplevel_from(&changed, &head) {
            Ok((fixed, name)) => assert_ne!((fixed, name.to_bytes().to_vec()), before),
            Err(error) => {
                assert!(matches!(error, FuseError::Truncated | FuseError::BadLength))
            }
        }
    }
    let mut cut = bytes.clone();
    cut[9] = 0;
    assert!(matches!(<(MkdirIn, CStr)>::toplevel_from(&cut, &head), Err(FuseError::BadLength)));
}
