use ext4_fuse_adapter::ident::{reconcile_node_id, ENGINE_ROOT, RESERVED_ROOT};
use ext4_fuse_adapter::time::{epoch, timestamp_from_wall, wall_from_timestamp, TimeSpec};

#[test]
fn reserved_root_maps_to_engine_root() {
    assert_eq!(RESERVED_ROOT, 1);
    assert_eq!(ENGINE_ROOT, 2);
    assert_eq!(reconcile_node_id(1), 2);
}

#[test]
fn non_root_identifiers_pass_through() {
    assert_eq!(reconcile_node_id(2), 2);
    assert_eq!(reconcile_node_id(3), 3);
    assert_eq!(reconcile_node_id(42), 42);
    assert_eq!(reconcile_node_id(u64::MAX), u64::MAX);
}

#[test]
fn timestamp_round_trip_whole_seconds() {
    let t = TimeSpec {
        secs: 1_700_000_000,
        nanos: 0,
    };
    let ts = timestamp_from_wall(t);
    assert_eq!(ts, 1_700_000_000);
    assert_eq!(wall_from_timestamp(ts), t);
}

#[test]
fn timestamp_round_trip_at_origin_and_limit() {
    let zero = TimeSpec { secs: 0, nanos: 0 };
    assert_eq!(wall_from_timestamp(timestamp_from_wall(zero)), zero);
    let limit = TimeSpec {
        secs: u32::MAX as i64,
        nanos: 0,
    };
    assert_eq!(wall_from_timestamp(timestamp_from_wall(limit)), limit);
}

#[test]
fn pre_epoch_times_saturate_to_zero() {
    let before = TimeSpec {
        secs: -5,
        nanos: 0,
    };
    assert_eq!(timestamp_from_wall(before), 0);
    let far_before = TimeSpec {
        secs: i64::MIN,
        nanos: 123,
    };
    assert_eq!(timestamp_from_wall(far_before), 0);
}

#[test]
fn sub_second_precision_is_dropped() {
    let t = TimeSpec {
        secs: 7,
        nanos: 999_999_999,
    };
    assert_eq!(timestamp_from_wall(t), 7);
}

#[test]
fn epoch_is_the_zero_time() {
    assert_eq!(epoch(), TimeSpec { secs: 0, nanos: 0 });
    assert_eq!(wall_from_timestamp(0), epoch());
}
