//! What the mount helper is told.

use vstd::prelude::*;

verus! {

/// The name of the mount helper.
pub const FUSERMOUNT_CMD: &'static str = "fusermount3";

/// The variable through which the mount helper learns of its end of the socket pair.
pub const COMMFD_VAR: &'static str = "_FUSE_COMMFD";

/// Mount options, as the string that the mount helper takes: options separated by commas.
#[derive(Debug)]
pub struct Options(Vec<u8>);

/// Whether `part` can be a key or a value of an option: it is not empty and holds neither a
/// comma nor an equals sign.
pub open spec fn valid_part(part: Seq<u8>) -> bool {
    &&& part.len() > 0
    &&& forall|i: int| 0 <= i < part.len() ==> part[i] != 44 && part[i] != 61
}

/// Whether `option` can be pushed as it is: it is not empty and neither starts nor ends with
/// a comma.
pub open spec fn valid_option(option: Seq<u8>) -> bool {
    &&& option.len() > 0
    &&& option[0] != 44
    &&& option[option.len() - 1] != 44
}

/// The option string `options` with `option` added to it.
pub open spec fn pushed(options: Seq<u8>, option: Seq<u8>) -> Seq<u8> {
    if options.len() == 0 {
        option
    } else {
        options.push(44) + option
    }
}

/// The option that sets `key` to `value`.
pub open spec fn key_value(key: Seq<u8>, value: Seq<u8>) -> Seq<u8> {
    key.push(61) + value
}

/// `fsname`.
pub open spec fn fs_name_key() -> Seq<u8> {
    seq![102u8, 115u8, 110u8, 97u8, 109u8, 101u8]
}

/// `ro`.
pub open spec fn read_only_option() -> Seq<u8> {
    seq![114u8, 111u8]
}

/// The arguments with which the mount helper mounts at `mountpoint` with `options`: `-o`
/// and the options if there are any, then `--` and the mountpoint.
pub open spec fn mount_args(options: Seq<u8>, mountpoint: Seq<u8>) -> Seq<Seq<u8>> {
    if options.len() > 0 {
        seq![seq![45u8, 111u8], options, seq![45u8, 45u8], mountpoint]
    } else {
        seq![seq![45u8, 45u8], mountpoint]
    }
}

/// The arguments with which the mount helper unmounts `mountpoint`, lazily and quietly:
/// `-zuq`, `--` and the mountpoint.
pub open spec fn unmount_args(mountpoint: Seq<u8>) -> Seq<Seq<u8>> {
    seq![seq![45u8, 122u8, 117u8, 113u8], seq![45u8, 45u8], mountpoint]
}

/// The contents of each vector of `args`.
pub open spec fn arg_views(args: Seq<Vec<u8>>) -> Seq<Seq<u8>> {
    Seq::new(args.len(), |i: int| args[i]@)
}

impl View for Options {
    type V = Seq<u8>;

    closed spec fn view(&self) -> Seq<u8> {
        self.0@
    }
}

impl Default for Options {
    fn default() -> (options: Self)
        ensures
            options@ == Seq::<u8>::empty(),
    {
        Options(Vec::new())
    }
}

impl Options {
    /// Names the filesystem.
    pub fn fs_name(&mut self, fs_name: &[u8])
        requires
            valid_part(fs_name@),
        ensures
            final(self)@ == pushed(old(self)@, key_value(fs_name_key(), fs_name@)),
    {
        let key: [u8; 6] = [102, 115, 110, 97, 109, 101];
        assert(key@ =~= fs_name_key());
        self.push_key_value(key.as_slice(), fs_name);
    }

    /// Mounts read-only.
    pub fn read_only(&mut self)
        ensures
            final(self)@ == pushed(old(self)@, read_only_option()),
    {
        let option: [u8; 2] = [114, 111];
        assert(option@ =~= read_only_option());
        self.push(option.as_slice());
    }

    /// Adds an option as it is.
    pub fn push(&mut self, option: &[u8])
        requires
            valid_option(option@),
        ensures
            final(self)@ == pushed(old(self)@, option@),
    {
        let parts = [option];
        assert(crate::util::concat(crate::util::segment_views(parts@)) == option@) by {
            crate::ops::lemma_concat_one(option@);
            assert(crate::util::segment_views(parts@) =~= seq![option@]);
        }
        self.push_parts(parts.as_slice());
    }

    /// Adds the option that sets `key` to `value`.
    pub fn push_key_value(&mut self, key: &[u8], value: &[u8])
        requires
            valid_part(key@),
            valid_part(value@),
        ensures
            final(self)@ == pushed(old(self)@, key_value(key@, value@)),
    {
        let equals: [u8; 1] = [61];
        let parts = [key, equals.as_slice(), value];
        proof {
            let views = crate::util::segment_views(parts@);
            assert(views =~= seq![key@, equals@, value@]);
            assert(views.drop_last() =~= seq![key@, equals@]);
            crate::ops::open::lemma_concat_two(key@, equals@);
            assert(equals@ =~= seq![61u8]);
            assert(crate::util::concat(views) =~= key_value(key@, value@));
        }
        self.push_parts(parts.as_slice());
    }

    /// Adds the option that the parts of `segment` make up together.
    fn push_parts(&mut self, segment: &[&[u8]])
        requires
            valid_option(crate::util::concat(crate::util::segment_views(segment@))),
        ensures
            final(self)@ == pushed(
                old(self)@,
                crate::util::concat(crate::util::segment_views(segment@)),
            ),
    {
        if self.0.len() > 0 {
            self.0.push(44);
        }
        let ghost start = self.0@;
        let ghost views = crate::util::segment_views(segment@);
        let mut i: usize = 0;
        while i < segment.len()
            invariant
                i <= segment.len(),
                views == crate::util::segment_views(segment@),
                self.0@ == start + crate::util::concat(views.subrange(0, i as int)),
            decreases segment.len() - i,
        {
            proof {
                let longer = views.subrange(0, i + 1);
                assert(longer.drop_last() =~= views.subrange(0, i as int));
                assert(longer.last() == segment@[i as int]@);
                assert(start + (crate::util::concat(views.subrange(0, i as int))
                    + segment@[i as int]@) =~= (start + crate::util::concat(
                    views.subrange(0, i as int),
                )) + segment@[i as int]@);
            }
            self.0.extend_from_slice(segment[i]);
            i += 1;
        }
        assert(views.subrange(0, i as int) =~= views);
    }

    /// The option string.
    pub fn as_bytes(&self) -> (bytes: &[u8])
        ensures
            bytes@ == self@,
    {
        self.0.as_slice()
    }

    /// Adds each of `options` as it is.
    pub fn extend(&mut self, options: &[&[u8]])
        requires
            forall|i: int| 0 <= i < options@.len() ==> valid_option(#[trigger] options@[i]@),
        ensures
            final(self)@ == pushed_all(old(self)@, crate::util::segment_views(options@)),
    {
        let ghost views = crate::util::segment_views(options@);
        let ghost before = self@;
        let mut i: usize = 0;
        while i < options.len()
            invariant
                i <= options.len(),
                views == crate::util::segment_views(options@),
                forall|i: int| 0 <= i < options@.len() ==> valid_option(#[trigger] options@[i]@),
                self@ == pushed_all(before, views.subrange(0, i as int)),
            decreases options.len() - i,
        {
            proof {
                let longer = views.subrange(0, i + 1);
                assert(longer.drop_last() =~= views.subrange(0, i as int));
                assert(longer.last() == options@[i as int]@);
            }
            self.push(options[i]);
            i += 1;
        }
        assert(views.subrange(0, i as int) =~= views);
    }

    /// The arguments for the mount helper to mount at `mountpoint` with these options.
    pub fn mount_args(&self, mountpoint: &[u8]) -> (args: Vec<Vec<u8>>)
        ensures
            arg_views(args@) == mount_args(self@, mountpoint@),
    {
        let mut args: Vec<Vec<u8>> = Vec::new();
        if self.0.len() > 0 {
            let flag: [u8; 2] = [45, 111];
            args.push(vstd::slice::slice_to_vec(flag.as_slice()));
            args.push(vstd::slice::slice_to_vec(self.0.as_slice()));
        }
        let dashes: [u8; 2] = [45, 45];
        args.push(vstd::slice::slice_to_vec(dashes.as_slice()));
        args.push(vstd::slice::slice_to_vec(mountpoint));
        assert(arg_views(args@) =~= mount_args(self@, mountpoint@)) by {
            if self@.len() > 0 {
                assert(args@[0]@ =~= seq![45u8, 111u8]);
                assert(args@[2]@ =~= seq![45u8, 45u8]);
            } else {
                assert(args@[0]@ =~= seq![45u8, 45u8]);
            }
        }
        args
    }
}

/// The option string `options` with each of `more` added to it in turn.
pub open spec fn pushed_all(options: Seq<u8>, more: Seq<Seq<u8>>) -> Seq<u8>
    decreases more.len(),
{
    if more.len() == 0 {
        options
    } else {
        pushed(pushed_all(options, more.drop_last()), more.last())
    }
}

/// The arguments for the mount helper to unmount `mountpoint`.
pub fn unmount_command(mountpoint: &[u8]) -> (args: Vec<Vec<u8>>)
    ensures
        arg_views(args@) == unmount_args(mountpoint@),
{
    let mut args: Vec<Vec<u8>> = Vec::new();
    let flags: [u8; 4] = [45, 122, 117, 113];
    let dashes: [u8; 2] = [45, 45];
    args.push(vstd::slice::slice_to_vec(flags.as_slice()));
    args.push(vstd::slice::slice_to_vec(dashes.as_slice()));
    args.push(vstd::slice::slice_to_vec(mountpoint));
    assert(arg_views(args@) =~= unmount_args(mountpoint@)) by {
        assert(args@[0]@ =~= seq![45u8, 122u8, 117u8, 113u8]);
        assert(args@[1]@ =~= seq![45u8, 45u8]);
    }
    args
}

} // verus!
