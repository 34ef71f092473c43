//! The nanosecond model of `std::time::Duration` that the library's contracts speak of.

use std::time::Duration;
use vstd::prelude::*;

verus! {

/// The total number of whole nanoseconds that a `Duration` holds, as `Duration::as_nanos`
/// reports it.
pub uninterp spec fn duration_as_nanos(d: Duration) -> u128;

/// The nanosecond count of `d` cut to its low 64 bits, which is what `as u64` keeps of it.
pub open spec fn truncated_nanos(d: Duration) -> u64 {
    (duration_as_nanos(d) % 0x1_0000_0000_0000_0000) as u64
}

/// `Duration::as_nanos`: the total number of nanoseconds of `d`.
#[verifier::external_body]
pub(crate) fn as_nanos(d: Duration) -> (r: u128)
    ensures
        r == duration_as_nanos(d),
{
    d.as_nanos()
}

/// `Duration::from_nanos`: a duration of exactly `nanos` nanoseconds, so its `as_nanos` is
/// `nanos` again (std documents `from_nanos` as creating a duration of that many nanoseconds).
#[verifier::external_body]
pub(crate) fn from_nanos(nanos: u64) -> (d: Duration)
    ensures
        duration_as_nanos(d) == nanos,
{
    Duration::from_nanos(nanos)
}

proof fn lemma_u128_cast_is_mod(x: u128)
    ensures
        x as u64 == (x % 0x1_0000_0000_0000_0000) as u64,
        (x % 0x1_0000_0000_0000_0000) < 0x1_0000_0000_0000_0000,
{
    assert(x as u64 == (x % 0x1_0000_0000_0000_0000) as u64) by (bit_vector);
}

/// The nanoseconds of `d` as a `u64`, cut to the low 64 bits as an `as` conversion does.
pub(crate) fn nanos_u64(d: Duration) -> (r: u64)
    ensures
        r == truncated_nanos(d),
{
    let n = as_nanos(d);
    proof {
        lemma_u128_cast_is_mod(n);
    }
    n as u64
}

} // verus!
