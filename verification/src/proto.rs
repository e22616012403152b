//! The wire format: record layouts, opcodes, and the reader that splits a request body into
//! typed parts.

use vstd::arithmetic::div_mod::{lemma_mod_multiples_basic, lemma_mod_sub_multiples_vanish};
use vstd::bytes::*;
use vstd::prelude::*;
use vstd::slice::*;

use crate::error::{FuseError, FuseResult};

pub use self::flags::{FsyncFlags, InitFlags, OpenOutFlags};
pub use self::header::{InHeader, OutHeader};
pub use self::opcode::{NotifyCode, Opcode};
pub use self::reply::{
    AttrOut, Attrs, BmapOut, Dirent, DirentPlus, EntryOut, GetxattrOut, InitOut, ListxattrOut,
    OpenOut, StatfsOut, WriteOut,
};
pub use self::request::{
    AccessIn, BatchForgetIn, BmapIn, CopyFileRangeIn, CreateIn, FallocateIn, FileLock, FlushIn,
    ForgetIn, ForgetOne, FsyncIn, FsyncdirIn, GetattrIn, GetlkIn, GetxattrIn, InitIn, InterruptIn,
    IoctlIn, LinkIn, ListxattrIn, LkIn, LseekIn, MkdirIn, MknodIn, OpenIn, OpendirIn, PollIn,
    ReadIn, ReaddirIn, ReaddirPlusIn, ReleaseIn, ReleasedirIn, Rename2In, RenameIn, SetattrIn,
    SetlkIn, SetlkwIn, SetxattrIn, WriteIn,
};

pub mod flags;
pub mod header;
pub mod opcode;
pub mod reply;
pub mod request;

verus! {

/// The inode number under which the kernel knows the root of a mount.
pub const ROOT_ID: u64 = 1;

/// The major version of the protocol that this server speaks.
pub const MAJOR_VERSION: u32 = 7;

/// The minor version that this server offers.
pub const TARGET_MINOR_VERSION: u32 = 32;

/// The earliest minor version of a kernel that this server serves.
pub const REQUIRED_MINOR_VERSION: u32 = 31;

/// The smallest buffer that the kernel accepts for a read of a request.
pub const MIN_READ_SIZE: usize = 8192;

/// Directory records are aligned to two to the power of this many bytes.
pub const DIRENT_ALIGNMENT_BITS: usize = 3;

/// The number of the batched forget operation.
pub const BATCH_FORGET: u32 = 42;

/// The number of the readdirplus operation.
pub const READDIR_PLUS: u32 = 44;

/// A record of fixed size whose fields lie on the wire one after another, little-endian and
/// without gaps.
pub trait Pod: Sized + Copy + View<V = Self> {
    /// How many bytes the record takes.
    spec fn wire_len() -> nat;

    /// The bytes of a record.
    spec fn to_wire(self) -> Seq<u8>;

    /// The record that `wire_len()` bytes hold.
    spec fn from_wire(bytes: Seq<u8>) -> Self;

    fn size() -> (n: usize)
        ensures
            n == Self::wire_len(),
            n > 0,
    ;

    fn decode(bytes: &[u8]) -> (record: Self)
        requires
            bytes@.len() == Self::wire_len(),
        ensures
            record == Self::from_wire(bytes@),
    ;

    fn encode(&self, out: &mut Vec<u8>)
        ensures
            final(out)@ == old(out)@ + self.to_wire(),
    ;

    /// Reading back what was written gives the record again.
    proof fn lemma_wire(self)
        ensures
            self.to_wire().len() == Self::wire_len(),
            Self::from_wire(self.to_wire()) == self,
    ;

    /// No record is empty.
    proof fn lemma_wire_len()
        ensures
            Self::wire_len() > 0,
    ;

    /// A record is its own model.
    proof fn lemma_view(self)
        ensures
            self@ == self,
    ;

    /// Writing what was read gives the bytes again.
    proof fn lemma_unwire(bytes: Seq<u8>)
        requires
            bytes.len() == Self::wire_len(),
        ensures
            Self::from_wire(bytes).to_wire() == bytes,
    ;
}

pub(crate) fn put_u16(out: &mut Vec<u8>, value: u16)
    ensures
        final(out)@ == old(out)@ + spec_u16_to_le_bytes(value),
{
    let bytes = u16_to_le_bytes(value);
    out.extend_from_slice(bytes.as_slice());
}

pub(crate) fn put_u32(out: &mut Vec<u8>, value: u32)
    ensures
        final(out)@ == old(out)@ + spec_u32_to_le_bytes(value),
{
    let bytes = u32_to_le_bytes(value);
    out.extend_from_slice(bytes.as_slice());
}

pub(crate) fn put_u64(out: &mut Vec<u8>, value: u64)
    ensures
        final(out)@ == old(out)@ + spec_u64_to_le_bytes(value),
{
    let bytes = u64_to_le_bytes(value);
    out.extend_from_slice(bytes.as_slice());
}

/// The bytes of one record, as a fresh vector.
pub fn bytes_of<T: Pod>(record: &T) -> (bytes: Vec<u8>)
    ensures
        bytes@ == record.to_wire(),
        bytes@.len() == T::wire_len(),
{
    let mut bytes = Vec::new();
    record.encode(&mut bytes);
    proof {
        record.lemma_wire();
        assert(bytes@ =~= record.to_wire());
    }
    bytes
}

/// Whether no byte of `bytes` is NUL.
pub open spec fn nul_free(bytes: Seq<u8>) -> bool {
    forall|i: int| 0 <= i < bytes.len() ==> bytes[i] != 0
}

/// Whether the first NUL of `bytes` stands at index `at`.
pub open spec fn first_nul_at(bytes: Seq<u8>, at: int) -> bool {
    &&& 0 <= at < bytes.len()
    &&& bytes[at] == 0
    &&& nul_free(bytes.subrange(0, at))
}

/// Whether an executable split gave what the grammar says.
pub open spec fn split_agrees<'o, S: View>(
    result: FuseResult<(S, &'o [u8])>,
    parsed: FuseResult<(S::V, Seq<u8>)>,
) -> bool {
    match (result, parsed) {
        (Ok((value, rest)), Ok((spec_value, spec_rest))) => value@ == spec_value && rest@
            == spec_rest,
        (Err(error), Err(spec_error)) => error == spec_error,
        _ => false,
    }
}

/// Whether an executable read of a whole body gave what the grammar says.
pub open spec fn toplevel_agrees<S: View>(result: FuseResult<S>, parsed: FuseResult<S::V>) -> bool {
    match (result, parsed) {
        (Ok(value), Ok(spec_value)) => value@ == spec_value,
        (Err(error), Err(spec_error)) => error == spec_error,
        _ => false,
    }
}

/// A part of a request body that can be read off the front of a byte slice.
///
/// `parse` is the grammar and `wire` its inverse; the two lemmas say so.
pub trait Structured<'o>: Sized + View {
    /// Whether a part of this shape may stand as the last part (`last`) or before it.
    spec fn positioned(last: bool) -> bool;

    /// What reading a part off the front of `bytes` gives: the value and the bytes after it.
    spec fn parse(bytes: Seq<u8>, header: InHeader, last: bool) -> FuseResult<(Self::V, Seq<u8>)>;

    /// The bytes that stand for `value`.
    spec fn wire(value: Self::V) -> Seq<u8>;

    /// Whether `value` can come out of a request with this header.
    spec fn well_formed(value: Self::V, header: InHeader) -> bool;

    fn split_from(bytes: &'o [u8], header: &InHeader, last: bool) -> (result: FuseResult<
        (Self, &'o [u8]),
    >)
        requires
            Self::positioned(last),
        ensures
            split_agrees(result, Self::parse(bytes@, *header, last)),
    ;

    /// Reads a whole body: a part that leaves bytes over is refused as `BadLength`.
    fn toplevel_from(bytes: &'o [u8], header: &InHeader) -> (result: FuseResult<Self>)
        requires
            Self::positioned(true),
        ensures
            toplevel_agrees(
                result,
                match Self::parse(bytes@, *header, true) {
                    Ok((value, rest)) => if rest.len() == 0 {
                        Ok(value)
                    } else {
                        Err(FuseError::BadLength)
                    },
                    Err(error) => Err(error),
                },
            ),
    {
        match Self::split_from(bytes, header, true) {
            Ok((value, end)) => {
                if end.len() == 0 {
                    Ok(value)
                } else {
                    Err(FuseError::BadLength)
                }
            },
            Err(error) => Err(error),
        }
    }

    /// Reading what stands for a value gives the value, and leaves what followed it.
    proof fn lemma_parse_wire(value: Self::V, rest: Seq<u8>, header: InHeader, last: bool)
        requires
            Self::positioned(last),
            Self::well_formed(value, header),
            last ==> rest.len() == 0,
        ensures
            Self::parse(Self::wire(value) + rest, header, last) == Ok::<_, FuseError>(
                (value, rest),
            ),
    ;

    /// What was read stands at the front of the bytes, and a refusal is `Truncated` or
    /// `BadLength`.
    proof fn lemma_wire_parse(bytes: Seq<u8>, header: InHeader, last: bool)
        requires
            Self::positioned(last),
        ensures
            match Self::parse(bytes, header, last) {
                Ok((value, rest)) => Self::wire(value) + rest == bytes && Self::well_formed(
                    value,
                    header,
                ),
                Err(error) => error == FuseError::Truncated || error == FuseError::BadLength,
            },
    ;
}

/// What reading `bytes` as a whole body of shape `S` gives: the value of the part that they
/// hold, or `BadLength` where the part leaves bytes over.
pub open spec fn parse_toplevel<'o, S: Structured<'o>>(
    bytes: Seq<u8>,
    header: InHeader,
) -> FuseResult<S::V> {
    match S::parse(bytes, header, true) {
        Ok((value, rest)) => if rest.len() == 0 {
            Ok(value)
        } else {
            Err(FuseError::BadLength)
        },
        Err(error) => Err(error),
    }
}

/// The grammar of a fixed-size record: its bytes, or `Truncated` if there are too few.
pub open spec fn parse_pod<T: Pod>(bytes: Seq<u8>) -> FuseResult<(T, Seq<u8>)> {
    if bytes.len() < T::wire_len() {
        Err(FuseError::Truncated)
    } else {
        Ok(
            (
                T::from_wire(bytes.subrange(0, T::wire_len() as int)),
                bytes.subrange(T::wire_len() as int, bytes.len() as int),
            ),
        )
    }
}

pub(crate) fn split_pod<'o, T: Pod>(bytes: &'o [u8]) -> (result: FuseResult<
    (T, &'o [u8]),
>)
    ensures
        split_agrees(result, parse_pod::<T>(bytes@)),
{
    let size = T::size();
    if bytes.len() < size {
        Err(FuseError::Truncated)
    } else {
        let record = T::decode(slice_subrange(bytes, 0, size));
        proof {
            record.lemma_view();
        }
        Ok((record, slice_subrange(bytes, size, bytes.len())))
    }
}

pub(crate) proof fn lemma_parse_pod_wire<T: Pod>(value: T, rest: Seq<u8>)
    ensures
        parse_pod::<T>(value.to_wire() + rest) == Ok::<_, FuseError>((value, rest)),
{
    value.lemma_wire();
    let bytes = value.to_wire() + rest;
    assert(bytes.subrange(0, T::wire_len() as int) =~= value.to_wire());
    assert(bytes.subrange(T::wire_len() as int, bytes.len() as int) =~= rest);
}

pub(crate) proof fn lemma_wire_parse_pod<T: Pod>(bytes: Seq<u8>)
    ensures
        match parse_pod::<T>(bytes) {
            Ok((value, rest)) => value.to_wire() + rest == bytes,
            Err(error) => error == FuseError::Truncated,
        },
{
    if bytes.len() >= T::wire_len() {
        let front = bytes.subrange(0, T::wire_len() as int);
        T::lemma_unwire(front);
        assert(front + bytes.subrange(T::wire_len() as int, bytes.len() as int) =~= bytes);
    }
}

/// A fixed-size record is read off the front of the bytes.
impl<'o, T: Pod> Structured<'o> for T {
    open spec fn positioned(last: bool) -> bool {
        true
    }

    open spec fn parse(bytes: Seq<u8>, header: InHeader, last: bool) -> FuseResult<(T, Seq<u8>)> {
        parse_pod::<T>(bytes)
    }

    open spec fn wire(value: T) -> Seq<u8> {
        value.to_wire()
    }

    open spec fn well_formed(value: T, header: InHeader) -> bool {
        true
    }

    fn split_from(bytes: &'o [u8], header: &InHeader, last: bool) -> (result: FuseResult<
        (Self, &'o [u8]),
    >) {
        split_pod(bytes)
    }

    proof fn lemma_parse_wire(value: T, rest: Seq<u8>, header: InHeader, last: bool) {
        lemma_parse_pod_wire(value, rest);
    }

    proof fn lemma_wire_parse(bytes: Seq<u8>, header: InHeader, last: bool) {
        lemma_wire_parse_pod::<T>(bytes);
    }
}

impl<'o> Structured<'o> for () {
    open spec fn positioned(last: bool) -> bool {
        true
    }

    open spec fn parse(bytes: Seq<u8>, header: InHeader, last: bool) -> FuseResult<((), Seq<u8>)> {
        Ok(((), bytes))
    }

    open spec fn wire(value: ()) -> Seq<u8> {
        Seq::empty()
    }

    open spec fn well_formed(value: (), header: InHeader) -> bool {
        true
    }

    fn split_from(bytes: &'o [u8], header: &InHeader, last: bool) -> (result: FuseResult<
        (Self, &'o [u8]),
    >) {
        Ok(((), bytes))
    }

    proof fn lemma_parse_wire(value: (), rest: Seq<u8>, header: InHeader, last: bool) {
        assert(Seq::<u8>::empty() + rest =~= rest);
    }

    proof fn lemma_wire_parse(bytes: Seq<u8>, header: InHeader, last: bool) {
        assert(Seq::<u8>::empty() + bytes =~= bytes);
    }
}

impl<'o, T: Structured<'o>, U: Structured<'o>> Structured<'o> for (T, U) {
    open spec fn positioned(last: bool) -> bool {
        T::positioned(false) && U::positioned(last)
    }

    open spec fn parse(bytes: Seq<u8>, header: InHeader, last: bool) -> FuseResult<
        ((T::V, U::V), Seq<u8>),
    > {
        match T::parse(bytes, header, false) {
            Err(error) => Err(error),
            Ok((first, bytes)) => match U::parse(bytes, header, last) {
                Err(error) => Err(error),
                Ok((second, end)) => Ok(((first, second), end)),
            },
        }
    }

    open spec fn wire(value: (T::V, U::V)) -> Seq<u8> {
        T::wire(value.0) + U::wire(value.1)
    }

    open spec fn well_formed(value: (T::V, U::V), header: InHeader) -> bool {
        T::well_formed(value.0, header) && U::well_formed(value.1, header)
    }

    fn split_from(bytes: &'o [u8], header: &InHeader, last: bool) -> (result: FuseResult<
        (Self, &'o [u8]),
    >) {
        match T::split_from(bytes, header, false) {
            Err(error) => Err(error),
            Ok((first, bytes)) => match U::split_from(bytes, header, last) {
                Err(error) => Err(error),
                Ok((second, end)) => Ok(((first, second), end)),
            },
        }
    }

    proof fn lemma_parse_wire(value: (T::V, U::V), rest: Seq<u8>, header: InHeader, last: bool) {
        let tail = U::wire(value.1) + rest;
        assert(Self::wire(value) + rest =~= T::wire(value.0) + tail);
        T::lemma_parse_wire(value.0, tail, header, false);
        U::lemma_parse_wire(value.1, rest, header, last);
    }

    proof fn lemma_wire_parse(bytes: Seq<u8>, header: InHeader, last: bool) {
        T::lemma_wire_parse(bytes, header, false);
        if let Ok((first, middle)) = T::parse(bytes, header, false) {
            U::lemma_wire_parse(middle, header, last);
            if let Ok((second, end)) = U::parse(middle, header, last) {
                assert((T::wire(first) + U::wire(second)) + end =~= T::wire(first) + (U::wire(
                    second,
                ) + end));
            }
        }
    }
}

impl<'o, T: Structured<'o>, U: Structured<'o>, V: Structured<'o>> Structured<'o> for (T, U, V) {
    open spec fn positioned(last: bool) -> bool {
        T::positioned(false) && U::positioned(false) && V::positioned(last)
    }

    open spec fn parse(bytes: Seq<u8>, header: InHeader, last: bool) -> FuseResult<
        ((T::V, U::V, V::V), Seq<u8>),
    > {
        match T::parse(bytes, header, false) {
            Err(error) => Err(error),
            Ok((first, bytes)) => match U::parse(bytes, header, false) {
                Err(error) => Err(error),
                Ok((second, bytes)) => match V::parse(bytes, header, last) {
                    Err(error) => Err(error),
                    Ok((third, end)) => Ok(((first, second, third), end)),
                },
            },
        }
    }

    open spec fn wire(value: (T::V, U::V, V::V)) -> Seq<u8> {
        T::wire(value.0) + U::wire(value.1) + V::wire(value.2)
    }

    open spec fn well_formed(value: (T::V, U::V, V::V), header: InHeader) -> bool {
        T::well_formed(value.0, header) && U::well_formed(value.1, header) && V::well_formed(
            value.2,
            header,
        )
    }

    fn split_from(bytes: &'o [u8], header: &InHeader, last: bool) -> (result: FuseResult<
        (Self, &'o [u8]),
    >) {
        match T::split_from(bytes, header, false) {
            Err(error) => Err(error),
            Ok((first, bytes)) => match U::split_from(bytes, header, false) {
                Err(error) => Err(error),
                Ok((second, bytes)) => match V::split_from(bytes, header, last) {
                    Err(error) => Err(error),
                    Ok((third, end)) => Ok(((first, second, third), end)),
                },
            },
        }
    }

    proof fn lemma_parse_wire(
        value: (T::V, U::V, V::V),
        rest: Seq<u8>,
        header: InHeader,
        last: bool,
    ) {
        let tail = V::wire(value.2) + rest;
        let middle = U::wire(value.1) + tail;
        assert(Self::wire(value) + rest =~= T::wire(value.0) + middle);
        T::lemma_parse_wire(value.0, middle, header, false);
        U::lemma_parse_wire(value.1, tail, header, false);
        V::lemma_parse_wire(value.2, rest, header, last);
    }

    proof fn lemma_wire_parse(bytes: Seq<u8>, header: InHeader, last: bool) {
        T::lemma_wire_parse(bytes, header, false);
        if let Ok((first, after_first)) = T::parse(bytes, header, false) {
            U::lemma_wire_parse(after_first, header, false);
            if let Ok((second, after_second)) = U::parse(after_first, header, false) {
                V::lemma_wire_parse(after_second, header, last);
                if let Ok((third, end)) = V::parse(after_second, header, last) {
                    assert((T::wire(first) + U::wire(second) + V::wire(third)) + end =~= T::wire(
                        first,
                    ) + (U::wire(second) + (V::wire(third) + end)));
                }
            }
        }
    }
}

/// An opaque payload: all the bytes that are left. It can only stand last.
impl<'o> Structured<'o> for &'o [u8] {
    open spec fn positioned(last: bool) -> bool {
        last
    }

    open spec fn parse(bytes: Seq<u8>, header: InHeader, last: bool) -> FuseResult<
        (Seq<u8>, Seq<u8>),
    > {
        Ok((bytes, Seq::empty()))
    }

    open spec fn wire(value: Seq<u8>) -> Seq<u8> {
        value
    }

    open spec fn well_formed(value: Seq<u8>, header: InHeader) -> bool {
        true
    }

    fn split_from(bytes: &'o [u8], header: &InHeader, last: bool) -> (result: FuseResult<
        (Self, &'o [u8]),
    >) {
        let end = slice_subrange(bytes, bytes.len(), bytes.len());
        assert(end@ =~= Seq::<u8>::empty());
        Ok((bytes, end))
    }

    proof fn lemma_parse_wire(value: Seq<u8>, rest: Seq<u8>, header: InHeader, last: bool) {
        assert(value + rest =~= value);
        assert(rest =~= Seq::<u8>::empty());
    }

    proof fn lemma_wire_parse(bytes: Seq<u8>, header: InHeader, last: bool) {
        assert(bytes + Seq::<u8>::empty() =~= bytes);
    }
}

/// A name on the wire: bytes up to a NUL. The value holds the bytes before the NUL.
#[derive(Clone, Copy, Debug)]
pub struct CStr<'o> {
    bytes: &'o [u8],
}

impl<'o> View for CStr<'o> {
    type V = Seq<u8>;

    closed spec fn view(&self) -> Seq<u8> {
        self.bytes@
    }
}

impl<'o> CStr<'o> {
    /// The bytes of the name, without the NUL that ended it.
    pub fn to_bytes(&self) -> (bytes: &'o [u8])
        ensures
            bytes@ == self@,
    {
        self.bytes
    }
}

/// The grammar of a name. Before the last part it ends at the first NUL, and without one the
/// body is `Truncated`. As the last part it must fill the rest: a rest that does not end in a
/// NUL, or holds one earlier, is a `BadLength`.
pub open spec fn parse_c_str(bytes: Seq<u8>, last: bool) -> FuseResult<(Seq<u8>, Seq<u8>)> {
    if last {
        if first_nul_at(bytes, bytes.len() - 1) {
            Ok((bytes.subrange(0, bytes.len() - 1), Seq::empty()))
        } else {
            Err(FuseError::BadLength)
        }
    } else {
        if exists|at: int| first_nul_at(bytes, at) {
            let at = choose|at: int| first_nul_at(bytes, at);
            Ok((bytes.subrange(0, at), bytes.subrange(at + 1, bytes.len() as int)))
        } else {
            Err(FuseError::Truncated)
        }
    }
}

/// A sequence of bytes has at most one first NUL.
pub proof fn lemma_first_nul_unique(bytes: Seq<u8>, at: int, other: int)
    requires
        first_nul_at(bytes, at),
        first_nul_at(bytes, other),
    ensures
        at == other,
{
    if at < other {
        assert(bytes.subrange(0, other)[at] == bytes[at]);
    } else if other < at {
        assert(bytes.subrange(0, at)[other] == bytes[other]);
    }
}

/// The index of the first NUL of `bytes`, if it has one.
pub fn find_nul(bytes: &[u8]) -> (found: Option<usize>)
    ensures
        match found {
            Some(at) => first_nul_at(bytes@, at as int),
            None => nul_free(bytes@),
        },
{
    let mut i: usize = 0;
    while i < bytes.len()
        invariant
            i <= bytes.len(),
            nul_free(bytes@.subrange(0, i as int)),
        decreases bytes.len() - i,
    {
        if bytes[i] == 0 {
            return Some(i);
        }
        proof {
            let next = bytes@.subrange(0, i + 1);
            assert forall|j: int| 0 <= j < next.len() implies next[j] != 0 by {
                if j < i {
                    assert(bytes@.subrange(0, i as int)[j] == next[j]);
                }
            }
        }
        i += 1;
    }
    assert(bytes@.subrange(0, i as int) =~= bytes@);
    None
}

impl<'o> Structured<'o> for CStr<'o> {
    open spec fn positioned(last: bool) -> bool {
        true
    }

    open spec fn parse(bytes: Seq<u8>, header: InHeader, last: bool) -> FuseResult<
        (Seq<u8>, Seq<u8>),
    > {
        parse_c_str(bytes, last)
    }

    open spec fn wire(value: Seq<u8>) -> Seq<u8> {
        value.push(0)
    }

    open spec fn well_formed(value: Seq<u8>, header: InHeader) -> bool {
        nul_free(value)
    }

    fn split_from(bytes: &'o [u8], header: &InHeader, last: bool) -> (result: FuseResult<
        (Self, &'o [u8]),
    >) {
        match find_nul(bytes) {
            Some(nul) => {
                proof {
                    if exists|at: int| first_nul_at(bytes@, at) {
                        let at = choose|at: int| first_nul_at(bytes@, at);
                        lemma_first_nul_unique(bytes@, at, nul as int);
                    }
                    if first_nul_at(bytes@, bytes@.len() - 1) {
                        lemma_first_nul_unique(bytes@, bytes@.len() - 1, nul as int);
                    }
                }
                assert(nul < bytes.len());
                if last && nul + 1 != bytes.len() {
                    return Err(FuseError::BadLength);
                }
                let name = CStr { bytes: slice_subrange(bytes, 0, nul) };
                let after = slice_subrange(bytes, nul + 1, bytes.len());
                assert(last ==> after@ =~= Seq::<u8>::empty());
                Ok((name, after))
            },
            None => {
                proof {
                    assert forall|at: int| !first_nul_at(bytes@, at) by {
                        if 0 <= at < bytes@.len() {
                            assert(bytes@[at] != 0);
                        }
                    }
                }
                if last {
                    Err(FuseError::BadLength)
                } else {
                    Err(FuseError::Truncated)
                }
            },
        }
    }

    proof fn lemma_parse_wire(value: Seq<u8>, rest: Seq<u8>, header: InHeader, last: bool) {
        let bytes = value.push(0) + rest;
        let at = value.len() as int;
        assert(bytes.subrange(0, at) =~= value);
        assert(bytes[at] == 0);
        assert(first_nul_at(bytes, at));
        assert(bytes.subrange(at + 1, bytes.len() as int) =~= rest);
        if last {
            assert(rest =~= Seq::<u8>::empty());
        } else {
            let chosen = choose|at: int| first_nul_at(bytes, at);
            lemma_first_nul_unique(bytes, chosen, at);
        }
    }

    proof fn lemma_wire_parse(bytes: Seq<u8>, header: InHeader, last: bool) {
        if let Ok((value, rest)) = parse_c_str(bytes, last) {
            if last {
                assert(value.push(0) + rest =~= bytes);
            } else {
                let at = choose|at: int| first_nul_at(bytes, at);
                assert(value.push(0) + rest =~= bytes);
            }
        }
    }
}

/// The records that stand in `bytes` one after another, from the front, as long as a whole
/// one is left.
pub open spec fn unpack<T: Pod>(bytes: Seq<u8>) -> Seq<T>
    decreases bytes.len(),
{
    if T::wire_len() == 0 || bytes.len() < T::wire_len() {
        Seq::empty()
    } else {
        seq![T::from_wire(bytes.subrange(0, T::wire_len() as int))] + unpack::<T>(
            bytes.subrange(T::wire_len() as int, bytes.len() as int),
        )
    }
}

/// The bytes of `records`, one record after another.
pub open spec fn pack<T: Pod>(records: Seq<T>) -> Seq<u8>
    decreases records.len(),
{
    if records.len() == 0 {
        Seq::empty()
    } else {
        records[0].to_wire() + pack(records.subrange(1, records.len() as int))
    }
}

/// The grammar of a packed array: whole records to the end, `Truncated` if the bytes do not
/// divide into records.
pub open spec fn parse_records<T: Pod>(bytes: Seq<u8>) -> FuseResult<(Seq<T>, Seq<u8>)> {
    if bytes.len() % T::wire_len() != 0 {
        Err(FuseError::Truncated)
    } else {
        Ok((unpack::<T>(bytes), Seq::empty()))
    }
}

pub proof fn lemma_pack_len<T: Pod>(records: Seq<T>)
    ensures
        pack(records).len() == records.len() * T::wire_len(),
        pack(records).len() % T::wire_len() == 0,
    decreases records.len(),
{
    T::lemma_wire_len();
    if records.len() > 0 {
        let rest = records.subrange(1, records.len() as int);
        records[0].lemma_wire();
        lemma_pack_len(rest);
        assert(pack(records).len() == T::wire_len() + rest.len() * T::wire_len());
        assert(T::wire_len() + rest.len() * T::wire_len() == records.len() * T::wire_len())
            by (nonlinear_arith)
            requires
                records.len() == rest.len() + 1,
        ;
    }
    lemma_mod_multiples_basic(records.len() as int, T::wire_len() as int);
}

/// Unpacking what was packed gives the records again.
pub proof fn lemma_unpack_pack<T: Pod>(records: Seq<T>)
    ensures
        unpack::<T>(pack(records)) == records,
    decreases records.len(),
{
    T::lemma_wire_len();
    if records.len() == 0 {
        assert(unpack::<T>(pack(records)) =~= records);
    } else {
        let rest = records.subrange(1, records.len() as int);
        let bytes = pack(records);
        records[0].lemma_wire();
        lemma_unpack_pack(rest);
        assert(bytes.subrange(0, T::wire_len() as int) =~= records[0].to_wire());
        assert(bytes.subrange(T::wire_len() as int, bytes.len() as int) =~= pack(rest));
        assert(seq![records[0]] + rest =~= records);
    }
}

/// Packing what was unpacked gives the bytes again, if they divide into records.
pub proof fn lemma_pack_unpack<T: Pod>(bytes: Seq<u8>)
    requires
        bytes.len() % T::wire_len() == 0,
    ensures
        pack(unpack::<T>(bytes)) == bytes,
    decreases bytes.len(),
{
    T::lemma_wire_len();
    let size = T::wire_len() as int;
    if bytes.len() < size {
        assert(bytes.len() == 0) by {
            vstd::arithmetic::div_mod::lemma_small_mod(bytes.len(), T::wire_len());
        }
        assert(pack(unpack::<T>(bytes)) =~= bytes);
    } else {
        let front = bytes.subrange(0, size);
        let back = bytes.subrange(size, bytes.len() as int);
        lemma_mod_sub_multiples_vanish(bytes.len() as int, size);
        assert(back.len() == -size + bytes.len());
        lemma_pack_unpack::<T>(back);
        T::lemma_unwire(front);
        let records = unpack::<T>(bytes);
        assert(records[0] == T::from_wire(front));
        assert(records.subrange(1, records.len() as int) =~= unpack::<T>(back));
        assert(front + back =~= bytes);
    }
}

/// A packed array of records: what is left of the body, as whole records. It can only stand
/// last.
impl<'o, T: Pod> Structured<'o> for Vec<T> {
    open spec fn positioned(last: bool) -> bool {
        last
    }

    open spec fn parse(bytes: Seq<u8>, header: InHeader, last: bool) -> FuseResult<
        (Seq<T>, Seq<u8>),
    > {
        parse_records::<T>(bytes)
    }

    open spec fn wire(value: Seq<T>) -> Seq<u8> {
        pack(value)
    }

    open spec fn well_formed(value: Seq<T>, header: InHeader) -> bool {
        true
    }

    fn split_from(bytes: &'o [u8], header: &InHeader, last: bool) -> (result: FuseResult<
        (Self, &'o [u8]),
    >) {
        let size = T::size();
        if bytes.len() % size != 0 {
            return Err(FuseError::Truncated);
        }
        let mut records: Vec<T> = Vec::new();
        let mut offset: usize = 0;
        assert(bytes@.subrange(0, bytes@.len() as int) =~= bytes@);
        while offset < bytes.len()
            invariant
                size == T::wire_len(),
                size > 0,
                offset <= bytes.len(),
                (bytes.len() - offset) % (size as int) == 0,
                unpack::<T>(bytes@) == records@ + unpack::<T>(
                    bytes@.subrange(offset as int, bytes@.len() as int),
                ),
            decreases bytes.len() - offset,
        {
            let ghost left = bytes@.subrange(offset as int, bytes@.len() as int);
            proof {
                if bytes.len() - offset < size {
                    vstd::arithmetic::div_mod::lemma_small_mod(
                        (bytes.len() - offset) as nat,
                        size as nat,
                    );
                }
                lemma_mod_sub_multiples_vanish(bytes.len() - offset, size as int);
            }
            let record = T::decode(slice_subrange(bytes, offset, offset + size));
            proof {
                assert(left.subrange(0, size as int) =~= bytes@.subrange(
                    offset as int,
                    offset + size,
                ));
                assert(left.subrange(size as int, left.len() as int) =~= bytes@.subrange(
                    offset + size,
                    bytes@.len() as int,
                ));
                assert(records@ + (seq![record] + unpack::<T>(
                    bytes@.subrange(offset + size, bytes@.len() as int),
                )) =~= records@.push(record) + unpack::<T>(
                    bytes@.subrange(offset + size, bytes@.len() as int),
                ));
            }
            records.push(record);
            offset += size;
        }
        let end = slice_subrange(bytes, bytes.len(), bytes.len());
        proof {
            assert(end@ =~= Seq::<u8>::empty());
            assert(records@ + Seq::<T>::empty() =~= records@);
        }
        Ok((records, end))
    }

    proof fn lemma_parse_wire(value: Seq<T>, rest: Seq<u8>, header: InHeader, last: bool) {
        lemma_pack_len(value);
        lemma_unpack_pack(value);
        assert(pack(value) + rest =~= pack(value));
        assert(rest =~= Seq::<u8>::empty());
    }

    proof fn lemma_wire_parse(bytes: Seq<u8>, header: InHeader, last: bool) {
        if bytes.len() % T::wire_len() == 0 {
            lemma_pack_unpack::<T>(bytes);
            assert(bytes + Seq::<u8>::empty() =~= bytes);
        }
    }
}

/// The body of a batched forget: the count, then that many records.
pub struct ForgetBatch {
    pub head: BatchForgetIn,
    pub records: Vec<ForgetOne>,
}

impl View for ForgetBatch {
    type V = (BatchForgetIn, Seq<ForgetOne>);

    open spec fn view(&self) -> (BatchForgetIn, Seq<ForgetOne>) {
        (self.head, self.records@)
    }
}

/// The grammar of a batched forget: the fixed part, then records to the end. A count that is
/// not the number of records is a `BadLength`.
impl<'o> Structured<'o> for ForgetBatch {
    open spec fn positioned(last: bool) -> bool {
        last
    }

    open spec fn parse(bytes: Seq<u8>, header: InHeader, last: bool) -> FuseResult<
        ((BatchForgetIn, Seq<ForgetOne>), Seq<u8>),
    > {
        match <(BatchForgetIn, Vec<ForgetOne>) as Structured<'o>>::parse(bytes, header, last) {
            Ok((batch, rest)) => if batch.0.count == batch.1.len() {
                Ok((batch, rest))
            } else {
                Err(FuseError::BadLength)
            },
            Err(error) => Err(error),
        }
    }

    open spec fn wire(value: (BatchForgetIn, Seq<ForgetOne>)) -> Seq<u8> {
        value.0.to_wire() + pack(value.1)
    }

    open spec fn well_formed(value: (BatchForgetIn, Seq<ForgetOne>), header: InHeader) -> bool {
        value.0.count == value.1.len()
    }

    fn split_from(bytes: &'o [u8], header: &InHeader, last: bool) -> (result: FuseResult<
        (Self, &'o [u8]),
    >) {
        match <(BatchForgetIn, Vec<ForgetOne>)>::split_from(bytes, header, last) {
            Ok(((head, records), rest)) => {
                if head.count as usize == records.len() {
                    Ok((ForgetBatch { head, records }, rest))
                } else {
                    Err(FuseError::BadLength)
                }
            },
            Err(error) => Err(error),
        }
    }

    proof fn lemma_parse_wire(
        value: (BatchForgetIn, Seq<ForgetOne>),
        rest: Seq<u8>,
        header: InHeader,
        last: bool,
    ) {
        <(BatchForgetIn, Vec<ForgetOne>) as Structured<'o>>::lemma_parse_wire(
            value,
            rest,
            header,
            last,
        );
    }

    proof fn lemma_wire_parse(bytes: Seq<u8>, header: InHeader, last: bool) {
        <(BatchForgetIn, Vec<ForgetOne>) as Structured<'o>>::lemma_wire_parse(
            bytes,
            header,
            last,
        );
    }
}

/// One of two shapes, chosen by the request's opcode: `L` where it is `OP`, `R` elsewhere.
pub enum OpcodeSelect<L, R, const OP: u32> {
    Match(L),
    Alt(R),
}

impl<L: View, R: View, const OP: u32> View for OpcodeSelect<L, R, OP> {
    type V = OpcodeSelect<L::V, R::V, OP>;

    open spec fn view(&self) -> OpcodeSelect<L::V, R::V, OP> {
        match self {
            OpcodeSelect::Match(left) => OpcodeSelect::Match(left@),
            OpcodeSelect::Alt(right) => OpcodeSelect::Alt(right@),
        }
    }
}

impl<'o, L: Structured<'o>, R: Structured<'o>, const OP: u32> Structured<'o> for OpcodeSelect<
    L,
    R,
    OP,
> {
    open spec fn positioned(last: bool) -> bool {
        L::positioned(last) && R::positioned(last)
    }

    open spec fn parse(bytes: Seq<u8>, header: InHeader, last: bool) -> FuseResult<
        (OpcodeSelect<L::V, R::V, OP>, Seq<u8>),
    > {
        if header.opcode == OP {
            match L::parse(bytes, header, last) {
                Ok((left, end)) => Ok((OpcodeSelect::Match(left), end)),
                Err(error) => Err(error),
            }
        } else {
            match R::parse(bytes, header, last) {
                Ok((right, end)) => Ok((OpcodeSelect::Alt(right), end)),
                Err(error) => Err(error),
            }
        }
    }

    open spec fn wire(value: OpcodeSelect<L::V, R::V, OP>) -> Seq<u8> {
        match value {
            OpcodeSelect::Match(left) => L::wire(left),
            OpcodeSelect::Alt(right) => R::wire(right),
        }
    }

    open spec fn well_formed(value: OpcodeSelect<L::V, R::V, OP>, header: InHeader) -> bool {
        match value {
            OpcodeSelect::Match(left) => header.opcode == OP && L::well_formed(left, header),
            OpcodeSelect::Alt(right) => header.opcode != OP && R::well_formed(right, header),
        }
    }

    fn split_from(bytes: &'o [u8], header: &InHeader, last: bool) -> (result: FuseResult<
        (Self, &'o [u8]),
    >) {
        if header.opcode == OP {
            match L::split_from(bytes, header, last) {
                Ok((left, end)) => Ok((OpcodeSelect::Match(left), end)),
                Err(error) => Err(error),
            }
        } else {
            match R::split_from(bytes, header, last) {
                Ok((right, end)) => Ok((OpcodeSelect::Alt(right), end)),
                Err(error) => Err(error),
            }
        }
    }

    proof fn lemma_parse_wire(
        value: OpcodeSelect<L::V, R::V, OP>,
        rest: Seq<u8>,
        header: InHeader,
        last: bool,
    ) {
        match value {
            OpcodeSelect::Match(left) => L::lemma_parse_wire(left, rest, header, last),
            OpcodeSelect::Alt(right) => R::lemma_parse_wire(right, rest, header, last),
        }
    }

    proof fn lemma_wire_parse(bytes: Seq<u8>, header: InHeader, last: bool) {
        if header.opcode == OP {
            L::lemma_wire_parse(bytes, header, last);
        } else {
            R::lemma_wire_parse(bytes, header, last);
        }
    }
}

/// What the head of a request says: the header and the operation it names.
///
/// Fewer bytes than a header is `Truncated`; a header whose `len` is not the number of bytes
/// that arrived is `BadLength`; an opcode that names no operation is `BadOpcode`.
pub open spec fn parse_header(bytes: Seq<u8>) -> FuseResult<(InHeader, Opcode)> {
    if bytes.len() < InHeader::wire_len() {
        Err(FuseError::Truncated)
    } else {
        let header = InHeader::from_wire(bytes.subrange(0, InHeader::wire_len() as int));
        if header.len != bytes.len() {
            Err(FuseError::BadLength)
        } else {
            match Opcode::spec_from_raw(header.opcode) {
                Some(opcode) => Ok((header, opcode)),
                None => Err(FuseError::BadOpcode),
            }
        }
    }
}

impl InHeader {
    /// Reads the header of the request that `bytes` holds.
    pub fn from_bytes(bytes: &[u8]) -> (result: FuseResult<(InHeader, Opcode)>)
        ensures
            result == parse_header(bytes@),
    {
        let size = InHeader::size();
        if bytes.len() < size {
            return Err(FuseError::Truncated);
        }
        let header = InHeader::decode(slice_subrange(bytes, 0, size));
        if header.len as usize != bytes.len() {
            return Err(FuseError::BadLength);
        }
        match Opcode::from_raw(header.opcode) {
            Some(opcode) => Ok((header, opcode)),
            None => Err(FuseError::BadOpcode),
        }
    }
}

/// A whole body that is read is read to its last byte, and a body that is refused is refused
/// as `Truncated` or `BadLength`.
pub proof fn lemma_toplevel_consumes<'o, S: Structured<'o>>(bytes: Seq<u8>, header: InHeader)
    requires
        S::positioned(true),
    ensures
        match parse_toplevel::<S>(bytes, header) {
            Ok(value) => S::wire(value) == bytes && S::wire(value).len() == bytes.len()
                && S::well_formed(value, header),
            Err(error) => error == FuseError::Truncated || error == FuseError::BadLength,
        },
{
    S::lemma_wire_parse(bytes, header, true);
    if let Ok((value, rest)) = S::parse(bytes, header, true) {
        if rest.len() == 0 {
            assert(S::wire(value) + rest =~= S::wire(value));
        }
    }
}

/// Two bodies that are read as the same value are the same bytes: a change to any byte of a
/// body that is read changes the value, or has the body refused.
pub proof fn lemma_toplevel_injective<'o, S: Structured<'o>>(
    bytes: Seq<u8>,
    changed: Seq<u8>,
    header: InHeader,
)
    requires
        S::positioned(true),
        parse_toplevel::<S>(bytes, header) is Ok,
        parse_toplevel::<S>(changed, header) == parse_toplevel::<S>(bytes, header),
    ensures
        changed == bytes,
{
    lemma_toplevel_consumes::<S>(bytes, header);
    lemma_toplevel_consumes::<S>(changed, header);
}

/// Reading the bytes that stand for a value as a whole body gives the value.
pub proof fn lemma_toplevel_roundtrip<'o, S: Structured<'o>>(value: S::V, header: InHeader)
    requires
        S::positioned(true),
        S::well_formed(value, header),
    ensures
        parse_toplevel::<S>(S::wire(value), header) == Ok::<_, FuseError>(value),
{
    S::lemma_parse_wire(value, Seq::empty(), header, true);
    assert(S::wire(value) + Seq::<u8>::empty() =~= S::wire(value));
}

/// Reading the bytes of a header, followed by as many bytes as it announces, gives the
/// header and the operation that its opcode names.
pub proof fn lemma_header_roundtrip(header: InHeader, opcode: Opcode, body: Seq<u8>)
    requires
        opcode.spec_raw() == header.opcode,
        header.len == InHeader::wire_len() + body.len(),
    ensures
        parse_header(header.to_wire() + body) == Ok::<_, FuseError>((header, opcode)),
        (header.to_wire() + body).subrange(
            InHeader::wire_len() as int,
            (header.to_wire() + body).len() as int,
        ) == body,
{
    header.lemma_wire();
    let bytes = header.to_wire() + body;
    assert(bytes.subrange(0, InHeader::wire_len() as int) =~= header.to_wire());
    assert(bytes.subrange(InHeader::wire_len() as int, bytes.len() as int) =~= body);
    self::opcode::lemma_opcode_raw(opcode, header.opcode);
}

} // verus!
