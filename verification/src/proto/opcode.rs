//! The numbers that name operations and notifications.

use vstd::prelude::*;

verus! {

/// An operation that a request can ask for.
#[derive(Clone, Copy, Debug, PartialEq, Eq, Structural)]
pub enum Opcode {
    Lookup,
    Forget,
    Getattr,
    Setattr,
    Readlink,
    Symlink,
    Mknod,
    Mkdir,
    Unlink,
    Rmdir,
    Rename,
    Link,
    Open,
    Read,
    Write,
    Statfs,
    Release,
    Fsync,
    Setxattr,
    Getxattr,
    Listxattr,
    Removexattr,
    Flush,
    Init,
    Opendir,
    Readdir,
    Releasedir,
    Fsyncdir,
    Getlk,
    Setlk,
    Setlkw,
    Access,
    Create,
    Interrupt,
    Bmap,
    Destroy,
    Ioctl,
    Poll,
    NotifyReply,
    BatchForget,
    Fallocate,
    ReaddirPlus,
    Rename2,
    Lseek,
    CopyFileRange,
}

impl Opcode {
    /// The number that stands for this operation on the wire.
    pub open spec fn spec_raw(self) -> u32 {
        match self {
            Opcode::Lookup => 1,
            Opcode::Forget => 2,
            Opcode::Getattr => 3,
            Opcode::Setattr => 4,
            Opcode::Readlink => 5,
            Opcode::Symlink => 6,
            Opcode::Mknod => 8,
            Opcode::Mkdir => 9,
            Opcode::Unlink => 10,
            Opcode::Rmdir => 11,
            Opcode::Rename => 12,
            Opcode::Link => 13,
            Opcode::Open => 14,
            Opcode::Read => 15,
            Opcode::Write => 16,
            Opcode::Statfs => 17,
            Opcode::Release => 18,
            Opcode::Fsync => 20,
            Opcode::Setxattr => 21,
            Opcode::Getxattr => 22,
            Opcode::Listxattr => 23,
            Opcode::Removexattr => 24,
            Opcode::Flush => 25,
            Opcode::Init => 26,
            Opcode::Opendir => 27,
            Opcode::Readdir => 28,
            Opcode::Releasedir => 29,
            Opcode::Fsyncdir => 30,
            Opcode::Getlk => 31,
            Opcode::Setlk => 32,
            Opcode::Setlkw => 33,
            Opcode::Access => 34,
            Opcode::Create => 35,
            Opcode::Interrupt => 36,
            Opcode::Bmap => 37,
            Opcode::Destroy => 38,
            Opcode::Ioctl => 39,
            Opcode::Poll => 40,
            Opcode::NotifyReply => 41,
            Opcode::BatchForget => 42,
            Opcode::Fallocate => 43,
            Opcode::ReaddirPlus => 44,
            Opcode::Rename2 => 45,
            Opcode::Lseek => 46,
            Opcode::CopyFileRange => 47,
        }
    }

    /// The number that stands for this operation on the wire.
    pub fn raw(self) -> (raw: u32)
        ensures
            raw == self.spec_raw(),
    {
        match self {
            Opcode::Lookup => 1,
            Opcode::Forget => 2,
            Opcode::Getattr => 3,
            Opcode::Setattr => 4,
            Opcode::Readlink => 5,
            Opcode::Symlink => 6,
            Opcode::Mknod => 8,
            Opcode::Mkdir => 9,
            Opcode::Unlink => 10,
            Opcode::Rmdir => 11,
            Opcode::Rename => 12,
            Opcode::Link => 13,
            Opcode::Open => 14,
            Opcode::Read => 15,
            Opcode::Write => 16,
            Opcode::Statfs => 17,
            Opcode::Release => 18,
            Opcode::Fsync => 20,
            Opcode::Setxattr => 21,
            Opcode::Getxattr => 22,
            Opcode::Listxattr => 23,
            Opcode::Removexattr => 24,
            Opcode::Flush => 25,
            Opcode::Init => 26,
            Opcode::Opendir => 27,
            Opcode::Readdir => 28,
            Opcode::Releasedir => 29,
            Opcode::Fsyncdir => 30,
            Opcode::Getlk => 31,
            Opcode::Setlk => 32,
            Opcode::Setlkw => 33,
            Opcode::Access => 34,
            Opcode::Create => 35,
            Opcode::Interrupt => 36,
            Opcode::Bmap => 37,
            Opcode::Destroy => 38,
            Opcode::Ioctl => 39,
            Opcode::Poll => 40,
            Opcode::NotifyReply => 41,
            Opcode::BatchForget => 42,
            Opcode::Fallocate => 43,
            Opcode::ReaddirPlus => 44,
            Opcode::Rename2 => 45,
            Opcode::Lseek => 46,
            Opcode::CopyFileRange => 47,
        }
    }

    /// The operation that `raw` stands for, if it stands for one.
    pub open spec fn spec_from_raw(raw: u32) -> Option<Opcode> {
        match raw {
            1 => Some(Opcode::Lookup),
            2 => Some(Opcode::Forget),
            3 => Some(Opcode::Getattr),
            4 => Some(Opcode::Setattr),
            5 => Some(Opcode::Readlink),
            6 => Some(Opcode::Symlink),
            8 => Some(Opcode::Mknod),
            9 => Some(Opcode::Mkdir),
            10 => Some(Opcode::Unlink),
            11 => Some(Opcode::Rmdir),
            12 => Some(Opcode::Rename),
            13 => Some(Opcode::Link),
            14 => Some(Opcode::Open),
            15 => Some(Opcode::Read),
            16 => Some(Opcode::Write),
            17 => Some(Opcode::Statfs),
            18 => Some(Opcode::Release),
            20 => Some(Opcode::Fsync),
            21 => Some(Opcode::Setxattr),
            22 => Some(Opcode::Getxattr),
            23 => Some(Opcode::Listxattr),
            24 => Some(Opcode::Removexattr),
            25 => Some(Opcode::Flush),
            26 => Some(Opcode::Init),
            27 => Some(Opcode::Opendir),
            28 => Some(Opcode::Readdir),
            29 => Some(Opcode::Releasedir),
            30 => Some(Opcode::Fsyncdir),
            31 => Some(Opcode::Getlk),
            32 => Some(Opcode::Setlk),
            33 => Some(Opcode::Setlkw),
            34 => Some(Opcode::Access),
            35 => Some(Opcode::Create),
            36 => Some(Opcode::Interrupt),
            37 => Some(Opcode::Bmap),
            38 => Some(Opcode::Destroy),
            39 => Some(Opcode::Ioctl),
            40 => Some(Opcode::Poll),
            41 => Some(Opcode::NotifyReply),
            42 => Some(Opcode::BatchForget),
            43 => Some(Opcode::Fallocate),
            44 => Some(Opcode::ReaddirPlus),
            45 => Some(Opcode::Rename2),
            46 => Some(Opcode::Lseek),
            47 => Some(Opcode::CopyFileRange),
            _ => None,
        }
    }

    /// The operation that `raw` stands for, if it stands for one.
    pub fn from_raw(raw: u32) -> (found: Option<Opcode>)
        ensures
            found == Self::spec_from_raw(raw),
    {
        match raw {
            1 => Some(Opcode::Lookup),
            2 => Some(Opcode::Forget),
            3 => Some(Opcode::Getattr),
            4 => Some(Opcode::Setattr),
            5 => Some(Opcode::Readlink),
            6 => Some(Opcode::Symlink),
            8 => Some(Opcode::Mknod),
            9 => Some(Opcode::Mkdir),
            10 => Some(Opcode::Unlink),
            11 => Some(Opcode::Rmdir),
            12 => Some(Opcode::Rename),
            13 => Some(Opcode::Link),
            14 => Some(Opcode::Open),
            15 => Some(Opcode::Read),
            16 => Some(Opcode::Write),
            17 => Some(Opcode::Statfs),
            18 => Some(Opcode::Release),
            20 => Some(Opcode::Fsync),
            21 => Some(Opcode::Setxattr),
            22 => Some(Opcode::Getxattr),
            23 => Some(Opcode::Listxattr),
            24 => Some(Opcode::Removexattr),
            25 => Some(Opcode::Flush),
            26 => Some(Opcode::Init),
            27 => Some(Opcode::Opendir),
            28 => Some(Opcode::Readdir),
            29 => Some(Opcode::Releasedir),
            30 => Some(Opcode::Fsyncdir),
            31 => Some(Opcode::Getlk),
            32 => Some(Opcode::Setlk),
            33 => Some(Opcode::Setlkw),
            34 => Some(Opcode::Access),
            35 => Some(Opcode::Create),
            36 => Some(Opcode::Interrupt),
            37 => Some(Opcode::Bmap),
            38 => Some(Opcode::Destroy),
            39 => Some(Opcode::Ioctl),
            40 => Some(Opcode::Poll),
            41 => Some(Opcode::NotifyReply),
            42 => Some(Opcode::BatchForget),
            43 => Some(Opcode::Fallocate),
            44 => Some(Opcode::ReaddirPlus),
            45 => Some(Opcode::Rename2),
            46 => Some(Opcode::Lseek),
            47 => Some(Opcode::CopyFileRange),
            _ => None,
        }
    }

    /// The operation's name.
    pub fn name(self) -> (name: &'static str)
        ensures
            name@ == self.spec_name(),
    {
        match self {
            Opcode::Lookup => "Lookup",
            Opcode::Forget => "Forget",
            Opcode::Getattr => "Getattr",
            Opcode::Setattr => "Setattr",
            Opcode::Readlink => "Readlink",
            Opcode::Symlink => "Symlink",
            Opcode::Mknod => "Mknod",
            Opcode::Mkdir => "Mkdir",
            Opcode::Unlink => "Unlink",
            Opcode::Rmdir => "Rmdir",
            Opcode::Rename => "Rename",
            Opcode::Link => "Link",
            Opcode::Open => "Open",
            Opcode::Read => "Read",
            Opcode::Write => "Write",
            Opcode::Statfs => "Statfs",
            Opcode::Release => "Release",
            Opcode::Fsync => "Fsync",
            Opcode::Setxattr => "Setxattr",
            Opcode::Getxattr => "Getxattr",
            Opcode::Listxattr => "Listxattr",
            Opcode::Removexattr => "Removexattr",
            Opcode::Flush => "Flush",
            Opcode::Init => "Init",
            Opcode::Opendir => "Opendir",
            Opcode::Readdir => "Readdir",
            Opcode::Releasedir => "Releasedir",
            Opcode::Fsyncdir => "Fsyncdir",
            Opcode::Getlk => "Getlk",
            Opcode::Setlk => "Setlk",
            Opcode::Setlkw => "Setlkw",
            Opcode::Access => "Access",
            Opcode::Create => "Create",
            Opcode::Interrupt => "Interrupt",
            Opcode::Bmap => "Bmap",
            Opcode::Destroy => "Destroy",
            Opcode::Ioctl => "Ioctl",
            Opcode::Poll => "Poll",
            Opcode::NotifyReply => "NotifyReply",
            Opcode::BatchForget => "BatchForget",
            Opcode::Fallocate => "Fallocate",
            Opcode::ReaddirPlus => "ReaddirPlus",
            Opcode::Rename2 => "Rename2",
            Opcode::Lseek => "Lseek",
            Opcode::CopyFileRange => "CopyFileRange",
        }
    }

    pub open spec fn spec_name(self) -> Seq<char> {
        match self {
            Opcode::Lookup => "Lookup"@,
            Opcode::Forget => "Forget"@,
            Opcode::Getattr => "Getattr"@,
            Opcode::Setattr => "Setattr"@,
            Opcode::Readlink => "Readlink"@,
            Opcode::Symlink => "Symlink"@,
            Opcode::Mknod => "Mknod"@,
            Opcode::Mkdir => "Mkdir"@,
            Opcode::Unlink => "Unlink"@,
            Opcode::Rmdir => "Rmdir"@,
            Opcode::Rename => "Rename"@,
            Opcode::Link => "Link"@,
            Opcode::Open => "Open"@,
            Opcode::Read => "Read"@,
            Opcode::Write => "Write"@,
            Opcode::Statfs => "Statfs"@,
            Opcode::Release => "Release"@,
            Opcode::Fsync => "Fsync"@,
            Opcode::Setxattr => "Setxattr"@,
            Opcode::Getxattr => "Getxattr"@,
            Opcode::Listxattr => "Listxattr"@,
            Opcode::Removexattr => "Removexattr"@,
            Opcode::Flush => "Flush"@,
            Opcode::Init => "Init"@,
            Opcode::Opendir => "Opendir"@,
            Opcode::Readdir => "Readdir"@,
            Opcode::Releasedir => "Releasedir"@,
            Opcode::Fsyncdir => "Fsyncdir"@,
            Opcode::Getlk => "Getlk"@,
            Opcode::Setlk => "Setlk"@,
            Opcode::Setlkw => "Setlkw"@,
            Opcode::Access => "Access"@,
            Opcode::Create => "Create"@,
            Opcode::Interrupt => "Interrupt"@,
            Opcode::Bmap => "Bmap"@,
            Opcode::Destroy => "Destroy"@,
            Opcode::Ioctl => "Ioctl"@,
            Opcode::Poll => "Poll"@,
            Opcode::NotifyReply => "NotifyReply"@,
            Opcode::BatchForget => "BatchForget"@,
            Opcode::Fallocate => "Fallocate"@,
            Opcode::ReaddirPlus => "ReaddirPlus"@,
            Opcode::Rename2 => "Rename2"@,
            Opcode::Lseek => "Lseek"@,
            Opcode::CopyFileRange => "CopyFileRange"@,
        }
    }
}

/// A number stands for an operation just if it is that operation's number.
pub proof fn lemma_opcode_raw(opcode: Opcode, raw: u32)
    ensures
        Opcode::spec_from_raw(raw) == Some(opcode) <==> opcode.spec_raw() == raw,
{
}

/// A message that the server sends without having been asked.
#[derive(Clone, Copy, Debug, PartialEq, Eq, Structural)]
pub enum NotifyCode {
    Poll,
    InvalInode,
    InvalEntry,
    Store,
    Retrieve,
    Delete,
}

impl NotifyCode {
    /// The number that stands for this notification on the wire.
    pub open spec fn spec_raw(self) -> i32 {
        match self {
            NotifyCode::Poll => 1,
            NotifyCode::InvalInode => 2,
            NotifyCode::InvalEntry => 3,
            NotifyCode::Store => 4,
            NotifyCode::Retrieve => 5,
            NotifyCode::Delete => 6,
        }
    }

    /// The number that stands for this notification on the wire.
    pub fn raw(self) -> (raw: i32)
        ensures
            raw == self.spec_raw(),
    {
        match self {
            NotifyCode::Poll => 1,
            NotifyCode::InvalInode => 2,
            NotifyCode::InvalEntry => 3,
            NotifyCode::Store => 4,
            NotifyCode::Retrieve => 5,
            NotifyCode::Delete => 6,
        }
    }

    /// The notification that `raw` stands for, if it stands for one.
    pub open spec fn spec_from_raw(raw: i32) -> Option<NotifyCode> {
        match raw {
            1 => Some(NotifyCode::Poll),
            2 => Some(NotifyCode::InvalInode),
            3 => Some(NotifyCode::InvalEntry),
            4 => Some(NotifyCode::Store),
            5 => Some(NotifyCode::Retrieve),
            6 => Some(NotifyCode::Delete),
            _ => None,
        }
    }

    /// The notification that `raw` stands for, if it stands for one.
    pub fn from_raw(raw: i32) -> (found: Option<NotifyCode>)
        ensures
            found == Self::spec_from_raw(raw),
    {
        match raw {
            1 => Some(NotifyCode::Poll),
            2 => Some(NotifyCode::InvalInode),
            3 => Some(NotifyCode::InvalEntry),
            4 => Some(NotifyCode::Store),
            5 => Some(NotifyCode::Retrieve),
            6 => Some(NotifyCode::Delete),
            _ => None,
        }
    }
}

/// A number stands for a notification just if it is that notification's number.
pub proof fn lemma_notify_code_raw(code: NotifyCode, raw: i32)
    ensures
        NotifyCode::spec_from_raw(raw) == Some(code) <==> code.spec_raw() == raw,
{
}

} // verus!
