//! Bridge between the storage engine's timestamps and the protocol's.
//!
//! The engine stores a timestamp as an unsigned 32-bit count of whole
//! seconds since the epoch. The protocol speaks of wall-clock times: a
//! signed second offset from the epoch plus a nanosecond component. Both
//! directions of the bridge are total. Converting a wall-clock time that
//! lies before the epoch saturates to zero; one beyond the 32-bit range
//! keeps only the low 32 bits of its second count, as the engine's on-disk
//! field does.

use vstd::prelude::*;

verus! {

/// A wall-clock time as the protocol represents it: signed whole seconds
/// relative to the epoch, plus nanoseconds.
#[derive(Clone, Copy, PartialEq, Eq, Structural, Debug)]
pub struct TimeSpec {
    pub secs: i64,
    pub nanos: u32,
}

/// A requested timestamp in an attribute update: either a specific
/// wall-clock time, or "the current time", which the caller resolves when
/// the update is applied.
#[derive(Clone, Copy, PartialEq, Eq, Structural, Debug)]
pub enum SetTime {
    Specific(TimeSpec),
    Now,
}

/// The wall-clock time an engine timestamp denotes: that many whole
/// seconds after the epoch, with no sub-second component.
pub open spec fn spec_wall_from_timestamp(ts: u32) -> TimeSpec {
    TimeSpec { secs: ts as i64, nanos: 0 }
}

/// The engine timestamp a wall-clock time maps to: zero for any time
/// before the epoch, otherwise the low 32 bits of its whole-second count.
pub open spec fn spec_timestamp_from_wall(t: TimeSpec) -> u32 {
    if t.secs < 0 {
        0u32
    } else {
        (t.secs % 0x1_0000_0000) as u32
    }
}

/// The epoch origin, used as a placeholder wherever a node has no real
/// timestamp to report yet.
pub open spec fn spec_epoch() -> TimeSpec {
    TimeSpec { secs: 0, nanos: 0 }
}

/// The epoch origin as an executable value.
pub fn epoch() -> (r: TimeSpec)
    ensures
        r == spec_epoch(),
{
    TimeSpec { secs: 0, nanos: 0 }
}

/// Convert an engine timestamp to the wall-clock time it denotes.
pub fn wall_from_timestamp(ts: u32) -> (r: TimeSpec)
    ensures
        r == spec_wall_from_timestamp(ts),
        r.secs == ts as i64,
        r.nanos == 0,
{
    TimeSpec { secs: ts as i64, nanos: 0 }
}

/// Convert a wall-clock time to the engine's timestamp representation,
/// saturating pre-epoch times to zero and truncating to whole seconds.
pub fn timestamp_from_wall(t: TimeSpec) -> (r: u32)
    ensures
        r == spec_timestamp_from_wall(t),
{
    let s: i64 = t.secs;
    if s < 0 {
        0u32
    } else {
        #[verifier::truncate]
        let r: u32 = s as u32;
        assert(r == s % 0x1_0000_0000) by (bit_vector)
            requires
                0 <= s,
                r == s as u32,
        ;
        r
    }
}

/// Round trip through the bridge: a whole-second, non-negative wall-clock
/// time whose second count fits the engine's 32-bit field converts to an
/// engine timestamp and back without change. Sub-second precision and
/// times outside that range are lost by design.
pub proof fn lemma_timestamp_round_trip(t: TimeSpec)
    requires
        0 <= t.secs <= u32::MAX,
        t.nanos == 0,
    ensures
        spec_wall_from_timestamp(spec_timestamp_from_wall(t)) == t,
{
}

} // verus!
