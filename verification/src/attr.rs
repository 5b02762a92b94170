//! Attribute synthesis: building the protocol's attribute record for a node.
//!
//! The synthesizer is a pure transform from a resolved node to the record
//! the protocol requires. Its fixed policies: the block count is the byte
//! size divided by the block size with integer division; the node kind
//! comes from the type bits of the mode, with any unrecognized pattern
//! reported as a regular file so that unsupported node types still list;
//! the permission bits are the low nine bits of the mode, the one masking
//! policy used on every path.

use vstd::prelude::*;

use crate::node::Inode;
use crate::time::TimeSpec;
use crate::time::spec_wall_from_timestamp;
use crate::time::wall_from_timestamp;

verus! {

/// The storage unit the engine allocates in; block counts are derived from
/// byte sizes with this constant.
pub const BLOCK_SIZE: u64 = 4096;

/// Mask selecting the type bits of a mode field.
pub const MODE_TYPE_MASK: u16 = 0xF000;

/// Type bits of a fifo.
pub const MODE_FIFO: u16 = 0x1000;

/// Type bits of a character device.
pub const MODE_CHAR_DEVICE: u16 = 0x2000;

/// Type bits of a directory.
pub const MODE_DIRECTORY: u16 = 0x4000;

/// Type bits of a block device.
pub const MODE_BLOCK_DEVICE: u16 = 0x6000;

/// Type bits of a regular file.
pub const MODE_REGULAR: u16 = 0x8000;

/// Type bits of a symbolic link.
pub const MODE_SYMLINK: u16 = 0xA000;

/// Type bits of a socket.
pub const MODE_SOCKET: u16 = 0xC000;

/// Mask selecting the low nine permission bits of a mode field.
pub const MODE_PERM_MASK: u16 = 0o777;

/// The node kinds the protocol distinguishes.
#[derive(Clone, Copy, PartialEq, Eq, Structural, Debug)]
pub enum FileKind {
    RegularFile,
    Directory,
    Symlink,
    CharDevice,
    BlockDevice,
    NamedPipe,
    Socket,
}

/// The protocol's attribute record for one node.
#[derive(Clone, Copy, PartialEq, Eq, Structural, Debug)]
pub struct AttrRecord {
    /// Host-facing node identifier.
    pub ino: u64,
    /// Size in bytes.
    pub size: u64,
    /// Block count: always `size / BLOCK_SIZE`.
    pub blocks: u64,
    /// Last access time.
    pub atime: TimeSpec,
    /// Last modification time.
    pub mtime: TimeSpec,
    /// Last status-change time.
    pub ctime: TimeSpec,
    /// Creation time.
    pub crtime: TimeSpec,
    /// Node kind, agreeing with the type bits of the node's mode.
    pub kind: FileKind,
    /// Permission bits, the low nine bits of the node's mode.
    pub perm: u16,
    /// Hard-link count.
    pub nlink: u32,
    /// Owner identifier.
    pub uid: u32,
    /// Group identifier.
    pub gid: u32,
    /// Device number, reported for device nodes only; zero here.
    pub rdev: u32,
    /// Protocol flag bits; zero here.
    pub flags: u32,
    /// The block size the counts refer to.
    pub blksize: u32,
}

/// The kind the synthesizer derives from a mode field: the directory type
/// bits yield a directory, the regular-file bits a regular file, and every
/// other pattern falls back to a regular file.
pub open spec fn spec_kind_from_mode(mode: u16) -> FileKind {
    if mode & MODE_TYPE_MASK == MODE_DIRECTORY {
        FileKind::Directory
    } else {
        FileKind::RegularFile
    }
}

/// Derive the protocol node kind from a node's raw mode bits.
pub fn kind_from_mode(mode: u16) -> (r: FileKind)
    ensures
        r == spec_kind_from_mode(mode),
        mode & MODE_TYPE_MASK == MODE_DIRECTORY ==> r == FileKind::Directory,
        mode & MODE_TYPE_MASK == MODE_REGULAR ==> r == FileKind::RegularFile,
        mode & MODE_TYPE_MASK != MODE_DIRECTORY && mode & MODE_TYPE_MASK != MODE_REGULAR
            ==> r == FileKind::RegularFile,
{
    if mode & MODE_TYPE_MASK == MODE_DIRECTORY {
        FileKind::Directory
    } else {
        FileKind::RegularFile
    }
}

/// The record the synthesizer produces for a node presented under the
/// given host-facing identifier.
pub open spec fn spec_synthesize_attr(ino: u64, node: Inode) -> AttrRecord {
    AttrRecord {
        ino,
        size: node.size,
        blocks: node.size / BLOCK_SIZE,
        atime: spec_wall_from_timestamp(node.atime),
        mtime: spec_wall_from_timestamp(node.mtime),
        ctime: spec_wall_from_timestamp(node.ctime),
        crtime: spec_wall_from_timestamp(node.crtime),
        kind: spec_kind_from_mode(node.mode),
        perm: node.mode & MODE_PERM_MASK,
        nlink: node.links as u32,
        uid: node.uid as u32,
        gid: node.gid as u32,
        rdev: 0,
        flags: 0,
        blksize: BLOCK_SIZE as u32,
    }
}

/// Build the protocol attribute record for a resolved node.
pub fn synthesize_attr(ino: u64, node: &Inode) -> (r: AttrRecord)
    ensures
        r == spec_synthesize_attr(ino, *node),
        r.blocks == node.size / BLOCK_SIZE,
        r.kind == spec_kind_from_mode(node.mode),
{
    AttrRecord {
        ino,
        size: node.size,
        blocks: node.size / BLOCK_SIZE,
        atime: wall_from_timestamp(node.atime),
        mtime: wall_from_timestamp(node.mtime),
        ctime: wall_from_timestamp(node.ctime),
        crtime: wall_from_timestamp(node.crtime),
        kind: kind_from_mode(node.mode),
        perm: node.mode & MODE_PERM_MASK,
        nlink: node.links as u32,
        uid: node.uid as u32,
        gid: node.gid as u32,
        rdev: 0,
        flags: 0,
        blksize: BLOCK_SIZE as u32,
    }
}

/// The synthesized record's invariants, for every node and identifier: the
/// block count is the byte size divided by the block size with integer
/// division, including a size of zero; and the kind agrees with the type
/// bits of the node's mode — directory for the directory pattern, regular
/// file for the regular-file pattern and for every other pattern.
pub proof fn lemma_synthesized_record_invariants(ino: u64, node: Inode)
    ensures
        spec_synthesize_attr(ino, node).blocks == node.size / BLOCK_SIZE,
        node.mode & MODE_TYPE_MASK == MODE_DIRECTORY ==> spec_synthesize_attr(ino, node).kind
            == FileKind::Directory,
        node.mode & MODE_TYPE_MASK != MODE_DIRECTORY ==> spec_synthesize_attr(ino, node).kind
            == FileKind::RegularFile,
{
}

} // verus!
