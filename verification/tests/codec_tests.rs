use snowflake_id::codec::construct_id;
use snowflake_id::codec::machine_field;
use snowflake_id::codec::millis_field;
use snowflake_id::codec::sequence_field;

#[test]
fn assembles_documented_layout() {
    // 1 << 22 for the millisecond, 5 << 12 for the machine, 2 as sequence.
    assert_eq!(construct_id(1, 5, 2), 0x0040_5002);
}

#[test]
fn round_trips_fields() {
    let id = construct_id(0x1234_5678_9A, 0x2B7, 0xC3D & 0xFFF);
    assert_eq!(millis_field(id), 0x1234_5678_9A);
    assert_eq!(machine_field(id), 0x2B7);
    assert_eq!(sequence_field(id), 0xC3D & 0xFFF);
}

#[test]
fn masks_machine_and_sequence() {
    // Inputs beyond the field widths wrap within the field.
    let id = construct_id(7, 0xFFFF, 0xFFFF);
    assert_eq!(machine_field(id), 0x3FF);
    assert_eq!(sequence_field(id), 0xFFF);
    assert_eq!(millis_field(id), 7);
}

#[test]
fn high_bit_stays_clear() {
    let id = construct_id(0x1FF_FFFF_FFFF, 0xFFFF, 0xFFFF);
    assert_eq!(id >> 63, 0);
    assert!(id < 0x8000_0000_0000_0000);
    assert!((id as i64) >= 0);
}

#[test]
fn later_bucket_sorts_higher() {
    // A later millisecond beats any machine and sequence of an earlier one.
    let early = construct_id(100, 0x3FF, 0xFFF);
    let late = construct_id(101, 0, 0);
    assert!(late > early);
    let much_later = construct_id(0x1FF_FFFF_FFFF, 0, 0);
    assert!(much_later > late);
}

#[test]
fn same_bucket_distinct_sequences_distinct_ids() {
    let a = construct_id(42, 9, 0);
    let b = construct_id(42, 9, 1);
    let c = construct_id(42, 9, 4095);
    assert_ne!(a, b);
    assert_ne!(a, c);
    assert_ne!(b, c);
}

#[test]
fn zero_everywhere_is_zero() {
    assert_eq!(construct_id(0, 0, 0), 0);
}
