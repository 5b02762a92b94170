//! Adapter layer that presents a block-storage filesystem engine through a
//! user-space kernel-filesystem protocol.
//!
//! The crate holds the translation logic itself: identifier reconciliation,
//! attribute synthesis, the timestamp bridge, the per-operation reply
//! decisions, and the sparse attribute-update pipeline. The storage engine
//! and the protocol transport perform I/O and live outside this crate; they
//! hand these functions plain values and receive plain values back.

pub mod attr;
pub mod handlers;
pub mod ident;
pub mod node;
pub mod readdir;
pub mod time;
pub mod update;
