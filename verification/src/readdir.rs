//! Directory enumeration: slicing the engine's entry list into a reply.
//!
//! The engine materializes the full, ordered entry list of a directory in
//! one call. The reply keeps that order, drops the first `offset` entries,
//! and numbers each remaining entry with its one-based position in the
//! full list as the continuation cookie, so that a follow-up call with the
//! last cookie as its offset resumes exactly after it.

use vstd::prelude::*;

use crate::attr::FileKind;

verus! {

/// A directory entry as the engine lists it: the child's engine node
/// identifier, its name as raw bytes, and the engine's entry type tag.
pub struct DirEntry {
    pub ino: u32,
    pub name: Vec<u8>,
    pub de_type: u8,
}

/// One entry of a `readdir` reply.
pub struct ReaddirItem {
    /// The child's node identifier.
    pub ino: u64,
    /// Continuation cookie: the entry's one-based position in the full
    /// list; passing it back as the offset resumes after this entry.
    pub cookie: i64,
    /// The node kind derived from the engine's entry type tag.
    pub kind: FileKind,
    /// The entry's name as raw bytes.
    pub name: Vec<u8>,
}

/// Entry type tag the engine uses for a regular file.
pub const DIRENT_TYPE_REGULAR: u8 = 1;

/// Entry type tag the engine uses for a directory.
pub const DIRENT_TYPE_DIRECTORY: u8 = 2;

/// The kind an engine entry type tag maps to: directories and regular
/// files are distinguished, every other tag is listed as a regular file.
pub open spec fn spec_kind_from_dirent_type(de_type: u8) -> FileKind {
    if de_type == DIRENT_TYPE_DIRECTORY {
        FileKind::Directory
    } else {
        FileKind::RegularFile
    }
}

/// Map an engine entry type tag to the protocol node kind.
pub fn kind_from_dirent_type(de_type: u8) -> (r: FileKind)
    ensures
        r == spec_kind_from_dirent_type(de_type),
{
    if de_type == DIRENT_TYPE_DIRECTORY {
        FileKind::Directory
    } else {
        FileKind::RegularFile
    }
}

/// Copy a name buffer byte for byte.
fn copy_bytes(src: &Vec<u8>) -> (r: Vec<u8>)
    ensures
        r@ == src@,
{
    let mut out: Vec<u8> = Vec::new();
    let mut i: usize = 0;
    while i < src.len()
        invariant
            i <= src@.len(),
            out@ == src@.subrange(0, i as int),
        decreases src@.len() - i,
    {
        out.push(src[i]);
        assert(out@ == src@.subrange(0, i + 1 as int));
        i = i + 1;
    }
    assert(src@.subrange(0, src@.len() as int) == src@);
    out
}

/// Whether a reply item reports the directory entry at one-based position
/// `pos` of the full list.
pub open spec fn spec_item_reports(item: ReaddirItem, entry: DirEntry, pos: int) -> bool {
    &&& item.ino == entry.ino as u64
    &&& item.cookie == pos
    &&& item.kind == spec_kind_from_dirent_type(entry.de_type)
    &&& item.name@ == entry.name@
}

/// Build the `readdir` reply for a directory's full entry list and an
/// enumeration offset: the entries from `offset` onward in their original
/// order, each carrying its one-based position in the full list as the
/// continuation cookie. An offset at or past the end yields an empty
/// reply; the operation always succeeds.
pub fn readdir_page(entries: &Vec<DirEntry>, offset: usize) -> (r: Vec<ReaddirItem>)
    requires
        entries@.len() <= i64::MAX,
    ensures
        offset <= entries@.len() ==> r@.len() == entries@.len() - offset,
        offset > entries@.len() ==> r@.len() == 0,
        forall|j: int|
            0 <= j < r@.len() ==> spec_item_reports(
                #[trigger] r@[j],
                entries@[offset + j],
                offset + j + 1,
            ),
{
    let mut out: Vec<ReaddirItem> = Vec::new();
    if offset >= entries.len() {
        return out;
    }
    let mut i: usize = offset;
    while i < entries.len()
        invariant
            offset <= i <= entries@.len(),
            entries@.len() <= i64::MAX,
            out@.len() == i - offset,
            forall|j: int|
                0 <= j < out@.len() ==> spec_item_reports(
                    #[trigger] out@[j],
                    entries@[offset + j],
                    offset + j + 1,
                ),
        decreases entries@.len() - i,
    {
        let entry = &entries[i];
        let item = ReaddirItem {
            ino: entry.ino as u64,
            cookie: (i + 1) as i64,
            kind: kind_from_dirent_type(entry.de_type),
            name: copy_bytes(&entry.name),
        };
        out.push(item);
        i = i + 1;
    }
    out
}

} // verus!
