use ext4_fuse_adapter::attr::{
    kind_from_mode, synthesize_attr, AttrRecord, FileKind, BLOCK_SIZE, MODE_DIRECTORY,
    MODE_REGULAR,
};
use ext4_fuse_adapter::node::Inode;
use ext4_fuse_adapter::time::{SetTime, TimeSpec};
use ext4_fuse_adapter::update::{apply_update, InodeAttr};

fn sample_node() -> Inode {
    Inode {
        mode: 0o100644,
        uid: 501,
        gid: 20,
        size: 8192,
        links: 2,
        atime: 10,
        mtime: 20,
        ctime: 30,
        crtime: 40,
        flags: 7,
    }
}

#[test]
fn directory_bit_yields_directory_kind() {
    assert_eq!(kind_from_mode(0o040755), FileKind::Directory);
    assert_eq!(kind_from_mode(MODE_DIRECTORY), FileKind::Directory);
}

#[test]
fn regular_bit_yields_regular_kind() {
    assert_eq!(kind_from_mode(0o100644), FileKind::RegularFile);
    assert_eq!(kind_from_mode(MODE_REGULAR), FileKind::RegularFile);
}

#[test]
fn unrecognized_type_bits_fall_back_to_regular() {
    // A symbolic link's type bits and an all-zero mode both take the fallback.
    assert_eq!(kind_from_mode(0o120777), FileKind::RegularFile);
    assert_eq!(kind_from_mode(0), FileKind::RegularFile);
    // Fifo, character device, socket.
    assert_eq!(kind_from_mode(0o010644), FileKind::RegularFile);
    assert_eq!(kind_from_mode(0o020644), FileKind::RegularFile);
    assert_eq!(kind_from_mode(0o140644), FileKind::RegularFile);
}

#[test]
fn blocks_are_size_divided_by_block_size() {
    assert_eq!(BLOCK_SIZE, 4096);
    let mut node = sample_node();
    for (size, blocks) in [(0u64, 0u64), (1, 0), (4095, 0), (4096, 1), (8193, 2)] {
        node.size = size;
        let attr = synthesize_attr(9, &node);
        assert_eq!(attr.blocks, blocks);
        assert_eq!(attr.blocks, size / BLOCK_SIZE);
    }
}

#[test]
fn synthesized_record_reports_the_node() {
    let node = sample_node();
    let attr = synthesize_attr(77, &node);
    let expected = AttrRecord {
        ino: 77,
        size: 8192,
        blocks: 2,
        atime: TimeSpec { secs: 10, nanos: 0 },
        mtime: TimeSpec { secs: 20, nanos: 0 },
        ctime: TimeSpec { secs: 30, nanos: 0 },
        crtime: TimeSpec { secs: 40, nanos: 0 },
        kind: FileKind::RegularFile,
        perm: 0o644,
        nlink: 2,
        uid: 501,
        gid: 20,
        rdev: 0,
        flags: 0,
        blksize: 4096,
    };
    assert_eq!(attr, expected);
}

#[test]
fn size_only_update_leaves_other_fields_alone() {
    let original = sample_node();
    let mut node = original;
    let mut upd = InodeAttr::empty();
    upd.size = Some(0);
    apply_update(&mut node, &upd, 999);
    assert_eq!(node.size, 0);
    assert_eq!(node.mode, original.mode);
    assert_eq!(node.uid, original.uid);
    assert_eq!(node.gid, original.gid);
    assert_eq!(node.atime, original.atime);
    assert_eq!(node.mtime, original.mtime);
    assert_eq!(node.ctime, original.ctime);
    assert_eq!(node.crtime, original.crtime);
    assert_eq!(node.flags, original.flags);
    assert_eq!(node.links, original.links);
}

#[test]
fn empty_update_changes_nothing() {
    let original = sample_node();
    let mut node = original;
    apply_update(&mut node, &InodeAttr::empty(), 999);
    assert_eq!(node, original);
}

#[test]
fn update_applies_exactly_the_present_fields() {
    let mut node = sample_node();
    let mut upd = InodeAttr::empty();
    upd.mode = Some(0o100600);
    upd.uid = Some(1000);
    upd.atime = Some(SetTime::Now);
    upd.mtime = Some(SetTime::Specific(TimeSpec { secs: 50, nanos: 0 }));
    upd.crtime = Some(TimeSpec { secs: 60, nanos: 0 });
    upd.flags = Some(1);
    apply_update(&mut node, &upd, 123);
    assert_eq!(node.mode, 0o100600);
    assert_eq!(node.uid, 1000);
    assert_eq!(node.gid, 20);
    assert_eq!(node.size, 8192);
    assert_eq!(node.atime, 123);
    assert_eq!(node.mtime, 50);
    assert_eq!(node.ctime, 30);
    assert_eq!(node.crtime, 60);
    assert_eq!(node.flags, 1);
    assert_eq!(node.links, 2);
}

#[test]
fn update_narrows_wide_identifiers_to_the_engine_width() {
    let mut node = sample_node();
    let mut upd = InodeAttr::empty();
    upd.uid = Some(0x0001_0203);
    upd.gid = Some(0xFFFF_FFFF);
    apply_update(&mut node, &upd, 0);
    assert_eq!(node.uid, 0x0203);
    assert_eq!(node.gid, 0xFFFF);
}

#[test]
fn update_with_pre_epoch_time_stores_zero() {
    let mut node = sample_node();
    let mut upd = InodeAttr::empty();
    upd.mtime = Some(SetTime::Specific(TimeSpec {
        secs: -100,
        nanos: 0,
    }));
    apply_update(&mut node, &upd, 0);
    assert_eq!(node.mtime, 0);
}
