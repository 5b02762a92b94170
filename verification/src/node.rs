//! The adapter's view of a storage-engine node.
//!
//! The engine owns its node records; for each request the caller copies the
//! fields the adapter reads and writes into an [`Inode`], hands it to the
//! functions of this crate, and writes any changed fields back through the
//! engine. Field widths follow the engine's on-disk record: mode, owner,
//! group and link count are 16-bit, timestamps are unsigned 32-bit second
//! counters.

use vstd::prelude::*;

verus! {

/// The fields of a storage-engine node that the adapter reads and writes.
#[derive(Clone, Copy, PartialEq, Eq, Structural, Debug)]
pub struct Inode {
    /// Raw mode bits: the type bits in the high nibble, permission bits low.
    pub mode: u16,
    /// Owner identifier.
    pub uid: u16,
    /// Group identifier.
    pub gid: u16,
    /// Size in bytes.
    pub size: u64,
    /// Hard-link count.
    pub links: u16,
    /// Last access time, whole seconds since the epoch.
    pub atime: u32,
    /// Last modification time, whole seconds since the epoch.
    pub mtime: u32,
    /// Last status-change time, whole seconds since the epoch.
    pub ctime: u32,
    /// Creation time, whole seconds since the epoch.
    pub crtime: u32,
    /// Engine-defined flag bits.
    pub flags: u32,
}

} // verus!
