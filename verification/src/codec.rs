//! Bit-layout codec for the 64-bit identifiers.
//!
//! An identifier is laid out, most-significant bit first, as: 1 reserved
//! bit fixed to 0, 41 bits of milliseconds, 10 bits of machine identifier,
//! 12 bits of sequence number. The machine identifier and the sequence
//! number are masked to their field widths rather than rejected, so values
//! beyond the field silently wrap within it.

use vstd::prelude::*;

verus! {

/// Exclusive upper bound of the 41-bit millisecond field.
pub const MILLIS_LIMIT: u64 = 0x200_0000_0000;

/// Mask selecting the low 41 bits of a millisecond value.
pub const MILLIS_MASK: u64 = 0x1FF_FFFF_FFFF;

/// Mask selecting the low 10 bits of a machine identifier.
pub const MACHINE_MASK: u16 = 0x3FF;

/// Mask selecting the low 12 bits of a sequence number.
pub const SEQUENCE_MASK: u16 = 0xFFF;

/// The identifier assembled from a millisecond value, a machine
/// identifier and a sequence number.
pub open spec fn spec_construct_id(millis: u64, machine_id: u16, sequence_id: u16) -> u64 {
    (millis << 22) | (((machine_id & MACHINE_MASK) as u64) << 12) | ((sequence_id & SEQUENCE_MASK) as u64)
}

/// The 41-bit millisecond field of an identifier.
pub open spec fn spec_millis_field(id: u64) -> u64 {
    (id >> 22) & MILLIS_MASK
}

/// The 10-bit machine identifier field of an identifier.
pub open spec fn spec_machine_field(id: u64) -> u64 {
    (id >> 12) & (MACHINE_MASK as u64)
}

/// The 12-bit sequence number field of an identifier.
pub open spec fn spec_sequence_field(id: u64) -> u64 {
    id & (SEQUENCE_MASK as u64)
}

/// Assembles an identifier: one reserved zero bit, then 41 bits of
/// `millis`, 10 bits of `machine_id`, 12 bits of `sequence_id`, the last
/// two masked to their field widths.
pub fn construct_id(millis: u64, machine_id: u16, sequence_id: u16) -> (id: u64)
    requires
        millis < MILLIS_LIMIT,
    ensures
        id == spec_construct_id(millis, machine_id, sequence_id),
{
    (millis << 22u64) | (((machine_id & MACHINE_MASK) as u64) << 12u64) | ((sequence_id & SEQUENCE_MASK) as u64)
}

/// Reads the millisecond field back out of an identifier.
pub fn millis_field(id: u64) -> (m: u64)
    ensures
        m == spec_millis_field(id),
{
    (id >> 22u64) & MILLIS_MASK
}

/// Reads the machine identifier field back out of an identifier.
pub fn machine_field(id: u64) -> (m: u64)
    ensures
        m == spec_machine_field(id),
{
    (id >> 12u64) & (MACHINE_MASK as u64)
}

/// Reads the sequence number field back out of an identifier.
pub fn sequence_field(id: u64) -> (s: u64)
    ensures
        s == spec_sequence_field(id),
{
    id & (SEQUENCE_MASK as u64)
}

/// Round trip: decoding an assembled identifier reproduces the masked
/// inputs exactly.
pub proof fn lemma_codec_round_trip(millis: u64, machine_id: u16, sequence_id: u16)
    requires
        millis < MILLIS_LIMIT,
    ensures
        spec_millis_field(spec_construct_id(millis, machine_id, sequence_id)) == millis,
        spec_machine_field(spec_construct_id(millis, machine_id, sequence_id)) == ((machine_id & MACHINE_MASK) as u64),
        spec_sequence_field(spec_construct_id(millis, machine_id, sequence_id)) == ((sequence_id & SEQUENCE_MASK) as u64),
{
    assert(spec_millis_field(spec_construct_id(millis, machine_id, sequence_id)) == millis
        && spec_machine_field(spec_construct_id(millis, machine_id, sequence_id)) == ((machine_id & MACHINE_MASK) as u64)
        && spec_sequence_field(spec_construct_id(millis, machine_id, sequence_id)) == ((sequence_id & SEQUENCE_MASK) as u64)) by (bit_vector)
        requires
            millis < MILLIS_LIMIT,
    ;
}

/// The reserved most-significant bit of an assembled identifier is never
/// set: every identifier is non-negative as a signed 64-bit value.
pub proof fn lemma_high_bit_clear(millis: u64, machine_id: u16, sequence_id: u16)
    requires
        millis < MILLIS_LIMIT,
    ensures
        spec_construct_id(millis, machine_id, sequence_id) < 0x8000_0000_0000_0000,
{
    assert(spec_construct_id(millis, machine_id, sequence_id) < 0x8000_0000_0000_0000) by (bit_vector)
        requires
            millis < MILLIS_LIMIT,
    ;
}

/// Identifiers from a strictly later millisecond bucket are numerically
/// greater than every identifier from a strictly earlier bucket, whatever
/// their machine identifiers and sequence numbers.
pub proof fn lemma_later_bucket_greater(
    millis1: u64, machine1: u16, sequence1: u16,
    millis2: u64, machine2: u16, sequence2: u16,
)
    requires
        millis1 < millis2,
        millis2 < MILLIS_LIMIT,
    ensures
        spec_construct_id(millis1, machine1, sequence1) < spec_construct_id(millis2, machine2, sequence2),
{
    assert(spec_construct_id(millis1, machine1, sequence1) < spec_construct_id(millis2, machine2, sequence2)) by (bit_vector)
        requires
            millis1 < millis2,
            millis2 < MILLIS_LIMIT,
    ;
}

/// Within one millisecond bucket and machine, distinct masked sequence
/// numbers give identifiers that differ, and differ in their sequence
/// fields.
pub proof fn lemma_same_bucket_distinct(millis: u64, machine_id: u16, sequence1: u16, sequence2: u16)
    requires
        sequence1 & SEQUENCE_MASK != sequence2 & SEQUENCE_MASK,
    ensures
        spec_construct_id(millis, machine_id, sequence1) != spec_construct_id(millis, machine_id, sequence2),
        spec_sequence_field(spec_construct_id(millis, machine_id, sequence1))
            != spec_sequence_field(spec_construct_id(millis, machine_id, sequence2)),
{
    assert(spec_construct_id(millis, machine_id, sequence1) != spec_construct_id(millis, machine_id, sequence2)
        && spec_sequence_field(spec_construct_id(millis, machine_id, sequence1))
            != spec_sequence_field(spec_construct_id(millis, machine_id, sequence2))) by (bit_vector)
        requires
            sequence1 & SEQUENCE_MASK != sequence2 & SEQUENCE_MASK,
    ;
}

} // verus!
