use blown_fuse::mount::{unmount_command, Options, COMMFD_VAR, FUSERMOUNT_CMD};
use blown_fuse::util::{display_or, total_len, OutputChain};

#[test]
fn a_chain_is_walked_front_to_back() {
    let xs: [&[u8]; 2] = [b"x1", b"x2"];
    let ys: [&[u8]; 3] = [b"y1", b"", b"y3"];
    let tail = OutputChain::tail(&xs);
    let chain = tail.preceded(&ys);
    let mut iter = chain.iter();
    let mut flat: Vec<&[u8]> = Vec::new();
    while let Some(run) = iter.next() {
        flat.extend_from_slice(run);
    }
    assert_eq!(flat, vec![&b"y1"[..], b"", b"y3", b"x1", b"x2"]);
    assert!(iter.next().is_none());
    assert_eq!(chain.to_vec(), b"y1y3x1x2");
    assert_eq!(tail.to_vec(), b"x1x2");
}

#[test]
fn an_empty_chain_has_one_empty_run() {
    let chain = OutputChain::empty();
    let mut iter = chain.iter();
    assert_eq!(iter.next().map(|run| run.len()), Some(0));
    assert!(iter.next().is_none());
    assert!(chain.to_vec().is_empty());
    let front: [&[u8]; 1] = [b"only"];
    assert_eq!(chain.preceded(&front).to_vec(), b"only");
}

#[test]
fn chains_nest() {
    let a: [&[u8]; 1] = [b"a"];
    let b: [&[u8]; 1] = [b"b"];
    let c: [&[u8]; 1] = [b"c"];
    let last = OutputChain::tail(&c);
    let middle = last.preceded(&b);
    let first = middle.preceded(&a);
    assert_eq!(first.to_vec(), b"abc");
}

#[test]
fn total_len_adds_the_lengths() {
    assert_eq!(total_len(&[]), 0);
    assert_eq!(total_len(&[b"", b"ab", b"cde"]), 5);
}

#[test]
fn display_or_shows_the_default_for_none() {
    assert_eq!(display_or(Some("Lookup".to_string()), "bad opcode"), "Lookup");
    assert_eq!(display_or(None, "bad opcode"), "bad opcode");
}

#[test]
fn options_are_joined_by_commas() {
    let mut options = Options::default();
    assert_eq!(options.as_bytes(), b"");
    options.fs_name(b"ext2");
    assert_eq!(options.as_bytes(), b"fsname=ext2");
    options.read_only();
    assert_eq!(options.as_bytes(), b"fsname=ext2,ro");
    options.push(b"allow_other");
    options.push_key_value(b"max_read", b"4096");
    assert_eq!(options.as_bytes(), b"fsname=ext2,ro,allow_other,max_read=4096");
    options.extend(&[b"a", b"b=c"]);
    assert_eq!(options.as_bytes(), b"fsname=ext2,ro,allow_other,max_read=4096,a,b=c");
}

#[test]
fn mount_helper_arguments() {
    assert_eq!(FUSERMOUNT_CMD, "fusermount3");
    assert_eq!(COMMFD_VAR, "_FUSE_COMMFD");
    let mut options = Options::default();
    assert_eq!(options.mount_args(b"/mnt"), vec![b"--".to_vec(), b"/mnt".to_vec()]);
    options.read_only();
    assert_eq!(
        options.mount_args(b"/mnt"),
        vec![b"-o".to_vec(), b"ro".to_vec(), b"--".to_vec(), b"/mnt".to_vec()]
    );
    assert_eq!(
        unmount_command(b"/mnt"),
        vec![b"-zuq".to_vec(), b"--".to_vec(), b"/mnt".to_vec()]
    );
}
