//! Sampling of the wall clock, truncated to the 41-bit millisecond field.

use vstd::prelude::*;
use crate::codec::MILLIS_LIMIT;
use crate::codec::MILLIS_MASK;

verus! {

/// Relies on std::time::SystemTime::now, read as whole milliseconds since
/// std::time::UNIX_EPOCH. Nothing can be promised of a clock reading; a
/// clock standing before the epoch is fatal and aborts, as clock
/// unavailability is unrecoverable by design.
#[verifier::external_body]
fn unix_millis() -> u64 {
    std::time::SystemTime::now()
        .duration_since(std::time::UNIX_EPOCH)
        .unwrap()
        .as_millis() as u64
}

/// Truncates a raw millisecond count to the 41 bits the identifier's
/// timestamp field can carry. The value wraps roughly every 69 years; the
/// wrap is an accepted design limitation, not handled specially.
pub fn truncate_millis(raw: u64) -> (m: u64)
    ensures
        m == raw & MILLIS_MASK,
        m < MILLIS_LIMIT,
{
    proof {
        assert(raw & MILLIS_MASK < MILLIS_LIMIT) by (bit_vector);
    }
    raw & MILLIS_MASK
}

/// Samples the wall clock and truncates it to a 41-bit millisecond value.
/// Whatever the clock reads, the result fits the timestamp field.
pub fn millis_41bits() -> (m: u64)
    ensures
        m < MILLIS_LIMIT,
{
    truncate_millis(unix_millis())
}

} // verus!
