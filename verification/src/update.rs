//! The sparse attribute-update pipeline behind the protocol's `setattr`.
//!
//! A request carries an [`InodeAttr`]: one optional value per mutable
//! attribute. Applying it touches exactly the fields that are present and
//! leaves every other field of the node unchanged. The caller persists the
//! node through the engine once, after all field mutations.

use vstd::prelude::*;

use crate::node::Inode;
use crate::time::SetTime;
use crate::time::TimeSpec;
use crate::time::spec_timestamp_from_wall;
use crate::time::timestamp_from_wall;

verus! {

/// A sparse attribute update: each field is applied only when present.
///
/// Mode, owner and group arrive in the protocol's 32-bit width and are
/// narrowed to the engine's 16-bit fields by truncation. The access and
/// modification times may be given either as a specific time or as "now";
/// the remaining times are always specific. The change-time and backup-time
/// fields have no counterpart in the engine's node record and applying an
/// update never reads them.
#[derive(Clone, Copy, PartialEq, Eq, Structural, Debug)]
pub struct InodeAttr {
    pub mode: Option<u32>,
    pub uid: Option<u32>,
    pub gid: Option<u32>,
    pub size: Option<u64>,
    pub atime: Option<SetTime>,
    pub mtime: Option<SetTime>,
    pub ctime: Option<TimeSpec>,
    pub crtime: Option<TimeSpec>,
    pub chgtime: Option<TimeSpec>,
    pub bkuptime: Option<TimeSpec>,
    pub flags: Option<u32>,
}

impl InodeAttr {
    /// An update with no field present; applying it changes nothing.
    pub fn empty() -> (r: InodeAttr)
        ensures
            r == (InodeAttr {
                mode: None,
                uid: None,
                gid: None,
                size: None,
                atime: None,
                mtime: None,
                ctime: None,
                crtime: None,
                chgtime: None,
                bkuptime: None,
                flags: None,
            }),
    {
        InodeAttr {
            mode: None,
            uid: None,
            gid: None,
            size: None,
            atime: None,
            mtime: None,
            ctime: None,
            crtime: None,
            chgtime: None,
            bkuptime: None,
            flags: None,
        }
    }
}

/// The engine timestamp a requested time resolves to: a specific time goes
/// through the bridge, "now" resolves to the current time the caller
/// supplied.
pub open spec fn spec_resolve_set_time(t: SetTime, now: u32) -> u32 {
    match t {
        SetTime::Specific(ts) => spec_timestamp_from_wall(ts),
        SetTime::Now => now,
    }
}

/// The node that applying an update to a node yields: each present field
/// replaces the node's, each absent field leaves it unchanged, and the
/// link count is never touched.
pub open spec fn spec_apply_update(node: Inode, upd: InodeAttr, now: u32) -> Inode {
    Inode {
        mode: match upd.mode {
            Some(m) => m as u16,
            None => node.mode,
        },
        uid: match upd.uid {
            Some(u) => u as u16,
            None => node.uid,
        },
        gid: match upd.gid {
            Some(g) => g as u16,
            None => node.gid,
        },
        size: match upd.size {
            Some(s) => s,
            None => node.size,
        },
        links: node.links,
        atime: match upd.atime {
            Some(t) => spec_resolve_set_time(t, now),
            None => node.atime,
        },
        mtime: match upd.mtime {
            Some(t) => spec_resolve_set_time(t, now),
            None => node.mtime,
        },
        ctime: match upd.ctime {
            Some(t) => spec_timestamp_from_wall(t),
            None => node.ctime,
        },
        crtime: match upd.crtime {
            Some(t) => spec_timestamp_from_wall(t),
            None => node.crtime,
        },
        flags: match upd.flags {
            Some(f) => f,
            None => node.flags,
        },
    }
}

/// Resolve a requested timestamp against the caller-supplied current time.
pub fn resolve_set_time(t: SetTime, now: u32) -> (r: u32)
    ensures
        r == spec_resolve_set_time(t, now),
{
    match t {
        SetTime::Specific(ts) => timestamp_from_wall(ts),
        SetTime::Now => now,
    }
}

/// Apply a sparse update to a node: mutate exactly the present fields.
///
/// `now` is the current time as an engine timestamp; it stands in for every
/// time field the update marks "set to now". The caller persists the node
/// through the engine exactly once after this returns.
pub fn apply_update(node: &mut Inode, upd: &InodeAttr, now: u32)
    ensures
        *final(node) == spec_apply_update(*old(node), *upd, now),
{
    if let Some(m) = upd.mode {
        node.mode = #[verifier::truncate] (m as u16);
    }
    if let Some(u) = upd.uid {
        node.uid = #[verifier::truncate] (u as u16);
    }
    if let Some(g) = upd.gid {
        node.gid = #[verifier::truncate] (g as u16);
    }
    if let Some(s) = upd.size {
        node.size = s;
    }
    if let Some(t) = upd.atime {
        node.atime = resolve_set_time(t, now);
    }
    if let Some(t) = upd.mtime {
        node.mtime = resolve_set_time(t, now);
    }
    if let Some(t) = upd.ctime {
        node.ctime = timestamp_from_wall(t);
    }
    if let Some(t) = upd.crtime {
        node.crtime = timestamp_from_wall(t);
    }
    if let Some(f) = upd.flags {
        node.flags = f;
    }
}

/// An update whose only present field sets the size leaves the mode, the
/// owner, the group, every timestamp, the flags and the link count of the
/// node unchanged; only the size takes the requested value.
pub proof fn lemma_size_only_update_preserves_metadata(
    node: Inode,
    upd: InodeAttr,
    now: u32,
    s: u64,
)
    requires
        upd.size == Some(s),
        upd.mode is None,
        upd.uid is None,
        upd.gid is None,
        upd.atime is None,
        upd.mtime is None,
        upd.ctime is None,
        upd.crtime is None,
        upd.flags is None,
    ensures
        spec_apply_update(node, upd, now) == (Inode { size: s, ..node }),
{
}

} // verus!
