//! Per-operation reply decisions of the adapter.
//!
//! Each protocol request runs the same way: the caller reconciles the
//! incoming node identifier, performs the engine calls, and feeds what came
//! back into the decision function of the operation, which fixes the reply
//! — the attribute record or payload on success, the protocol error code
//! otherwise. Everything the adapter decides stands here; the engine calls
//! themselves are the caller's.

use vstd::prelude::*;

use crate::attr::AttrRecord;
use crate::attr::BLOCK_SIZE;
use crate::attr::FileKind;
use crate::attr::MODE_DIRECTORY;
use crate::attr::MODE_PERM_MASK;
use crate::attr::MODE_REGULAR;
use crate::attr::MODE_SYMLINK;
use crate::attr::MODE_TYPE_MASK;
use crate::attr::spec_synthesize_attr;
use crate::attr::synthesize_attr;
use crate::node::Inode;
use crate::time::epoch;
use crate::time::spec_epoch;

verus! {

/// Protocol error code: no such entry.
pub const ENOENT: i32 = 2;

/// Protocol error code: input/output error.
pub const EIO: i32 = 5;

/// Protocol error code: no space; the adapter replies it for node types it
/// does not support creating.
pub const ENOSPC: i32 = 28;

/// The engine's status value for success.
pub const EOK: usize = 0;

/// Decide the `lookup` reply. `open_ok` says whether the engine resolved
/// the name under the parent; on success `child_ino` is the engine
/// identifier of the resolved child and `node` its record.
pub fn lookup_reply(open_ok: bool, child_ino: u64, node: &Inode) -> (r: Result<AttrRecord, i32>)
    ensures
        open_ok ==> r == Ok::<AttrRecord, i32>(spec_synthesize_attr(child_ino, *node)),
        !open_ok ==> r == Err::<AttrRecord, i32>(ENOENT),
{
    if open_ok {
        Ok(synthesize_attr(child_ino, node))
    } else {
        Err(ENOENT)
    }
}

/// Allocate the reply buffer for a `read` of `len` bytes: the engine fills
/// the prefix it can actually read, and the rest of the buffer stays zero,
/// so a read past the end of a file reports a zero-padded tail.
pub fn read_buffer(len: usize) -> (r: Vec<u8>)
    ensures
        r@.len() == len,
        forall|i: int| 0 <= i < len ==> r@[i] == 0,
{
    let mut buf: Vec<u8> = Vec::new();
    let mut i: usize = 0;
    while i < len
        invariant
            i <= len,
            buf@.len() == i,
            forall|j: int| 0 <= j < i ==> buf@[j] == 0,
        decreases len - i,
    {
        buf.push(0u8);
        i = i + 1;
    }
    buf
}

/// Decide the `read` reply. On engine success the reply keeps the buffer's
/// length, carries the engine-filled prefix of `read_len` bytes, and holds
/// zero in every byte past that prefix — the zero tail is rebuilt here, so
/// a read past the end of the file reports zero padding whatever the
/// engine left in the rest of the buffer. A failed engine read is answered
/// "no such entry".
pub fn read_reply(engine_ok: bool, buf: Vec<u8>, read_len: usize) -> (r: Result<Vec<u8>, i32>)
    ensures
        !engine_ok ==> r == Err::<Vec<u8>, i32>(ENOENT),
        engine_ok ==> (r matches Ok(b) && b@.len() == buf@.len() && (forall|i: int|
            0 <= i < buf@.len() && i < read_len ==> b@[i] == buf@[i]) && (forall|i: int|
            read_len <= i < buf@.len() ==> b@[i] == 0)),
{
    if !engine_ok {
        return Err(ENOENT);
    }
    let len = buf.len();
    let mut out: Vec<u8> = Vec::new();
    let mut i: usize = 0;
    while i < len
        invariant
            i <= len,
            len == buf@.len(),
            out@.len() == i,
            forall|j: int| 0 <= j < i && j < read_len ==> out@[j] == buf@[j],
            forall|j: int| read_len <= j < i ==> out@[j] == 0,
        decreases len - i,
    {
        if i < read_len {
            out.push(buf[i]);
        } else {
            out.push(0u8);
        }
        i = i + 1;
    }
    Ok(out)
}

/// Decide the `write` reply from the engine's positioned-write outcome:
/// the engine's actual written count is propagated on success, and an
/// engine failure — or a count past the handed buffer, which the engine
/// never returns for a well-formed call — is an input/output error.
pub fn write_reply(data_len: usize, engine_written: Option<usize>) -> (r: Result<u32, i32>)
    requires
        data_len <= u32::MAX,
    ensures
        engine_written is None ==> r == Err::<u32, i32>(EIO),
        engine_written matches Some(n) ==> r == (if n <= data_len {
            Ok::<u32, i32>(n as u32)
        } else {
            Err::<u32, i32>(EIO)
        }),
{
    match engine_written {
        Some(n) => {
            if n <= data_len {
                Ok(n as u32)
            } else {
                Err(EIO)
            }
        },
        None => Err(EIO),
    }
}

/// What `unlink` does once target resolution is decided: proceed to the
/// engine's unlink call only for a resolved target; an unresolved name is
/// answered "no such entry" with no engine call.
#[derive(Clone, Copy, PartialEq, Eq, Structural, Debug)]
pub enum UnlinkStep {
    /// Call the engine's unlink for the resolved target.
    Unlink,
    /// Reply with this error code; the engine is not called.
    Reject(i32),
}

/// Decide how `unlink` continues after trying to resolve the target name.
pub fn unlink_step(resolved: bool) -> (r: UnlinkStep)
    ensures
        resolved ==> r == UnlinkStep::Unlink,
        !resolved ==> r == UnlinkStep::Reject(ENOENT),
{
    if resolved {
        UnlinkStep::Unlink
    } else {
        UnlinkStep::Reject(ENOENT)
    }
}

/// Decide the `unlink` reply from the engine's unlink status: success for
/// the engine's success value, an input/output error for anything else.
pub fn unlink_reply(status: usize) -> (r: Result<(), i32>)
    ensures
        status == EOK ==> r == Ok::<(), i32>(()),
        status != EOK ==> r == Err::<(), i32>(EIO),
{
    if status == EOK {
        Ok(())
    } else {
        Err(EIO)
    }
}

/// The node types `mknod` supports creating: regular files, symbolic
/// links and directories.
pub open spec fn spec_mknod_supported(file_type: u32) -> bool {
    ||| file_type == MODE_REGULAR as u32
    ||| file_type == MODE_SYMLINK as u32
    ||| file_type == MODE_DIRECTORY as u32
}

/// Check a requested `mknod` mode before any engine call: an unsupported
/// node type (device, fifo, socket, or anything unrecognized) is rejected
/// with the "no space" code; a supported one yields its type bits.
pub fn mknod_precheck(mode: u32) -> (r: Result<u32, i32>)
    ensures
        r is Ok <==> spec_mknod_supported(mode & (MODE_TYPE_MASK as u32)),
        r matches Ok(ft) ==> ft == mode & (MODE_TYPE_MASK as u32),
        r is Err ==> r == Err::<u32, i32>(ENOSPC),
{
    let file_type: u32 = mode & (MODE_TYPE_MASK as u32);
    if file_type == MODE_REGULAR as u32 || file_type == MODE_SYMLINK as u32 || file_type
        == MODE_DIRECTORY as u32 {
        Ok(file_type)
    } else {
        Err(ENOSPC)
    }
}

/// The mode `mknod` hands the engine to store: the requested type bits
/// together with the umask-filtered permission bits, so the persisted mode
/// agrees with the permission bits of the reply.
pub fn mknod_engine_mode(mode: u32, umask: u32) -> (r: u16)
    ensures
        r == (((mode & (MODE_TYPE_MASK as u32)) | ((mode & !umask) & (MODE_PERM_MASK as u32)))
            as u16),
{
    let m: u32 = (mode & (MODE_TYPE_MASK as u32)) | ((mode & !umask) & (MODE_PERM_MASK as u32));
    assert(m < 0x10000) by (bit_vector)
        requires
            m == (mode & 0xF000u32) | ((mode & !umask) & 0x1FFu32),
    ;
    m as u16
}

/// The kind `mknod` reports for a created node, narrowed to the supported
/// set; an unexpected pattern falls back to a regular file.
pub open spec fn spec_mknod_kind(file_type: u32) -> FileKind {
    if file_type == MODE_DIRECTORY as u32 {
        FileKind::Directory
    } else if file_type == MODE_SYMLINK as u32 {
        FileKind::Symlink
    } else {
        FileKind::RegularFile
    }
}

/// The attribute record `mknod` replies for a node just created under the
/// given engine identifier: empty, with the requested mode's type bits as
/// its kind, the umask-filtered permission bits, the calling identity as
/// owner and group, and epoch placeholders for the timestamps it does not
/// have yet.
pub open spec fn spec_mknod_attr(
    ino: u64,
    mode: u32,
    umask: u32,
    uid: u32,
    gid: u32,
    rdev: u32,
) -> AttrRecord {
    AttrRecord {
        ino,
        size: 0,
        blocks: 0,
        atime: spec_epoch(),
        mtime: spec_epoch(),
        ctime: spec_epoch(),
        crtime: spec_epoch(),
        kind: spec_mknod_kind(mode & (MODE_TYPE_MASK as u32)),
        perm: ((mode & !umask) & (MODE_PERM_MASK as u32)) as u16,
        nlink: 1,
        uid,
        gid,
        rdev,
        flags: 0,
        blksize: BLOCK_SIZE as u32,
    }
}

/// Decide the `mknod` reply once the engine's create call has run: the
/// attribute record of the new node on success, an input/output error when
/// the engine could not create it.
pub fn mknod_reply(
    created_ok: bool,
    ino: u64,
    mode: u32,
    umask: u32,
    uid: u32,
    gid: u32,
    rdev: u32,
) -> (r: Result<AttrRecord, i32>)
    ensures
        created_ok ==> r == Ok::<AttrRecord, i32>(spec_mknod_attr(ino, mode, umask, uid, gid, rdev)),
        !created_ok ==> r == Err::<AttrRecord, i32>(EIO),
{
    if !created_ok {
        return Err(EIO);
    }
    let file_type: u32 = mode & (MODE_TYPE_MASK as u32);
    let kind: FileKind = if file_type == MODE_DIRECTORY as u32 {
        FileKind::Directory
    } else if file_type == MODE_SYMLINK as u32 {
        FileKind::Symlink
    } else {
        FileKind::RegularFile
    };
    let p32: u32 = (mode & !umask) & (MODE_PERM_MASK as u32);
    assert(p32 < 0x10000) by (bit_vector)
        requires
            p32 == (mode & !umask) & 0x1FFu32,
    ;
    Ok(
        AttrRecord {
            ino,
            size: 0,
            blocks: 0,
            atime: epoch(),
            mtime: epoch(),
            ctime: epoch(),
            crtime: epoch(),
            kind,
            perm: p32 as u16,
            nlink: 1,
            uid,
            gid,
            rdev,
            flags: 0,
            blksize: BLOCK_SIZE as u32,
        },
    )
}

} // verus!
