use blown_fuse::errno;
use blown_fuse::io::{
    AccessFlags, EntryType, Mode, OpenFlags, ACCESS_ALL, MODE_ALL, S_IFBLK, S_IFCHR, S_IFDIR,
    S_IFIFO, S_IFLNK, S_IFREG, S_IFSOCK,
};
use nix::errno::Errno;
use nix::sys::stat::SFlag;

#[test]
fn error_numbers_are_those_of_the_system() {
    let table = [
        (errno::EPERM, Errno::EPERM),
        (errno::ENOENT, Errno::ENOENT),
        (errno::EINTR, Errno::EINTR),
        (errno::EIO, Errno::EIO),
        (errno::EACCES, Errno::EACCES),
        (errno::EINVAL, Errno::EINVAL),
        (errno::ERANGE, Errno::ERANGE),
    ];
    for (number, system) in table {
        assert_eq!(number, system as i32);
        assert_eq!(Errno::from_i32(number), system);
    }
}

#[test]
fn file_type_bits_are_those_of_the_system() {
    let table = [
        (EntryType::Fifo, S_IFIFO, SFlag::S_IFIFO),
        (EntryType::CharacterDevice, S_IFCHR, SFlag::S_IFCHR),
        (EntryType::Directory, S_IFDIR, SFlag::S_IFDIR),
        (EntryType::BlockDevice, S_IFBLK, SFlag::S_IFBLK),
        (EntryType::File, S_IFREG, SFlag::S_IFREG),
        (EntryType::Symlink, S_IFLNK, SFlag::S_IFLNK),
        (EntryType::Socket, S_IFSOCK, SFlag::S_IFSOCK),
    ];
    for (kind, bits, system) in table {
        assert_eq!(bits, system.bits());
        assert_eq!(kind.mode_bits(), system.bits());
        assert_eq!(kind.dirent_type(), system.bits() >> 12);
    }
}

#[test]
fn flag_sets_are_those_of_the_system() {
    assert_eq!(MODE_ALL, nix::sys::stat::Mode::all().bits());
    assert_eq!(ACCESS_ALL, nix::unistd::AccessFlags::all().bits());
    for bits in [0u32, 0o644, 0o7777, 0o170000, u32::MAX, 0x8000_0001] {
        assert_eq!(
            Mode::from_bits_truncate(bits).bits(),
            nix::sys::stat::Mode::from_bits_truncate(bits).bits()
        );
    }
    for bits in [0i32, 1, 4, 7, 8, -1, i32::MIN, 0x0010_0042] {
        assert_eq!(
            AccessFlags::from_bits_truncate(bits).bits(),
            nix::unistd::AccessFlags::from_bits_truncate(bits).bits()
        );
        assert_eq!(
            OpenFlags::from_bits_truncate(bits).bits(),
            nix::fcntl::OFlag::from_bits_truncate(bits).bits()
        );
        assert_eq!(OpenFlags::from_bits_truncate(bits).bits() & !bits, 0);
    }
}
