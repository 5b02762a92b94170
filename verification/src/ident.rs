//! Identifier reconciliation between the protocol's node-identifier space
//! and the storage engine's.
//!
//! The protocol reserves one identifier for the filesystem root; the engine
//! addresses its root by a different fixed identifier. Every handler that
//! receives a node identifier from the protocol must translate it through
//! [`reconcile_node_id`] before any engine call.

use vstd::prelude::*;

verus! {

/// The node identifier the protocol reserves for the filesystem root.
pub const RESERVED_ROOT: u64 = 1;

/// The node identifier under which the storage engine addresses its root.
pub const ENGINE_ROOT: u64 = 2;

/// What [`reconcile_node_id`] returns: the reserved root identifier maps to
/// the engine root, every other identifier is left unchanged.
pub open spec fn spec_reconcile_node_id(ino: u64) -> u64 {
    if ino == RESERVED_ROOT {
        ENGINE_ROOT
    } else {
        ino
    }
}

/// Translate a host-supplied node identifier into the identifier to present
/// to the storage engine.
pub fn reconcile_node_id(ino: u64) -> (r: u64)
    ensures
        r == spec_reconcile_node_id(ino),
        ino == RESERVED_ROOT ==> r == ENGINE_ROOT,
        ino != RESERVED_ROOT ==> r == ino,
{
    if ino == RESERVED_ROOT {
        ENGINE_ROOT
    } else {
        ino
    }
}

} // verus!
