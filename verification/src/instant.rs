//! Point-in-time measurements taken by a [`Clock`](crate::clock::Clock), in nanoseconds of
//! reference time, and their arithmetic with `Duration`.

use std::ops::{Add, AddAssign, Sub, SubAssign};
use std::time::Duration;
use vstd::prelude::*;
use vstd::std_specs::ops::{AddSpec, AddSpecImpl, SubSpec, SubSpecImpl};

use crate::duration::{as_nanos, duration_as_nanos, from_nanos, nanos_u64, truncated_nanos};

verus! {

/// A point-in-time wall-clock measurement.
///
/// Represents a time measurement that has been taken by a clock and scaled to wall-clock
/// time.  It gives no guarantee of monotonicity beyond the ones given by the clock itself,
/// and its inner value is only meaningful when compared with instants of the same clock.
///
/// An `Instant` is 8 bytes.
#[derive(Clone, Copy, PartialEq, Eq, Ord, Debug, Structural)]
pub struct Instant(pub(crate) u64);

impl View for Instant {
    type V = u64;

    /// The nanosecond count that the instant holds.
    closed spec fn view(&self) -> u64 {
        self.0
    }
}

/// `later - earlier`, or `None` when `earlier` is the later of the two.
pub open spec fn nanos_between(later: u64, earlier: u64) -> Option<u64> {
    if earlier <= later {
        Some((later - earlier) as u64)
    } else {
        None
    }
}

/// `t + n`, or `None` when the sum does not fit in 64 bits.
pub open spec fn nanos_after(t: u64, n: nat) -> Option<u64> {
    if t + n <= u64::MAX {
        Some((t + n) as u64)
    } else {
        None
    }
}

/// `t - n`, or `None` when `n` is larger than `t`.
pub open spec fn nanos_before(t: u64, n: nat) -> Option<u64> {
    if n <= t {
        Some((t - n) as u64)
    } else {
        None
    }
}

/// The view of an optional instant.
pub open spec fn opt_view(o: Option<Instant>) -> Option<u64> {
    match o {
        Some(i) => Some(i@),
        None => None,
    }
}

impl Instant {
    /// Wraps a nanosecond count.
    pub(crate) fn new(inner: u64) -> (r: Instant)
        ensures
            r@ == inner,
    {
        Instant(inner)
    }

    /// Returns the amount of time elapsed from another instant to this one.
    ///
    /// `earlier` must not be later than `self` (the call panics otherwise).
    pub fn duration_since(&self, earlier: Instant) -> (r: Duration)
        requires
            earlier@ <= self@,
        ensures
            duration_as_nanos(r) == self@ - earlier@,
    {
        from_nanos(self.0 - earlier.0)
    }

    /// Returns the amount of time elapsed from another instant to this one, or `None` if that
    /// instant is later than this one.
    pub fn checked_duration_since(&self, earlier: Instant) -> (r: Option<Duration>)
        ensures
            r is Some <==> earlier@ <= self@,
            r matches Some(d) ==> duration_as_nanos(d) == self@ - earlier@,
    {
        match self.0.checked_sub(earlier.0) {
            Some(n) => Some(from_nanos(n)),
            None => None,
        }
    }

    /// Returns the amount of time elapsed from another instant to this one, or a zero duration
    /// if that instant is later than this one.
    pub fn saturating_duration_since(&self, earlier: Instant) -> (r: Duration)
        ensures
            duration_as_nanos(r) == match nanos_between(self@, earlier@) {
                Some(n) => n,
                None => 0u64,
            },
    {
        match self.checked_duration_since(earlier) {
            Some(d) => d,
            None => from_nanos(0),
        }
    }

    /// Returns `Some(t)` where `t` is the time `self + duration` if `t` can be represented as an
    /// `Instant`, `None` otherwise.
    pub fn checked_add(&self, duration: Duration) -> (r: Option<Instant>)
        ensures
            opt_view(r) == nanos_after(self@, duration_as_nanos(duration) as nat),
    {
        let n = as_nanos(duration);
        if n > u64::MAX as u128 {
            return None;
        }
        match self.0.checked_add(n as u64) {
            Some(t) => Some(Instant(t)),
            None => None,
        }
    }

    /// Returns `Some(t)` where `t` is the time `self - duration` if `t` can be represented as an
    /// `Instant`, `None` otherwise.
    pub fn checked_sub(&self, duration: Duration) -> (r: Option<Instant>)
        ensures
            opt_view(r) == nanos_before(self@, duration_as_nanos(duration) as nat),
    {
        let n = as_nanos(duration);
        if n > u64::MAX as u128 {
            return None;
        }
        match self.0.checked_sub(n as u64) {
            Some(t) => Some(Instant(t)),
            None => None,
        }
    }

    /// Gets the inner value of this `Instant`.
    pub fn as_u64(&self) -> (r: u64)
        ensures
            r == self@,
    {
        self.0
    }
}

impl AddSpecImpl<Duration> for Instant {
    open spec fn obeys_add_spec() -> bool {
        true
    }

    closed spec fn add_req(self, rhs: Duration) -> bool {
        self.0 + duration_as_nanos(rhs) <= u64::MAX
    }

    closed spec fn add_spec(self, rhs: Duration) -> Instant {
        Instant((self.0 + duration_as_nanos(rhs)) as u64)
    }
}

impl Add<Duration> for Instant {
    type Output = Instant;

    /// `self + other`; the sum must be representable (the call panics otherwise).
    fn add(self, other: Duration) -> (r: Instant)
        ensures
            r@ == self@ + duration_as_nanos(other),
    {
        self.checked_add(other).unwrap()
    }
}

impl AddAssign<Duration> for Instant {
    /// Moves the instant forward by `other`, wrapping around at 64 bits.
    fn add_assign(&mut self, other: Duration)
        ensures
            final(self)@ == (old(self)@ + truncated_nanos(other)) % 0x1_0000_0000_0000_0000,
    {
        self.0 = self.0.wrapping_add(nanos_u64(other));
    }
}

impl SubSpecImpl<Duration> for Instant {
    open spec fn obeys_sub_spec() -> bool {
        true
    }

    closed spec fn sub_req(self, rhs: Duration) -> bool {
        duration_as_nanos(rhs) <= self.0
    }

    closed spec fn sub_spec(self, rhs: Duration) -> Instant {
        Instant((self.0 - duration_as_nanos(rhs)) as u64)
    }
}

impl Sub<Duration> for Instant {
    type Output = Instant;

    /// `self - other`; the difference must not go below zero (the call panics otherwise).
    fn sub(self, other: Duration) -> (r: Instant)
        ensures
            r@ == self@ - duration_as_nanos(other),
    {
        self.checked_sub(other).unwrap()
    }
}

impl SubAssign<Duration> for Instant {
    /// Moves the instant back by `other`, wrapping around at 64 bits.
    fn sub_assign(&mut self, other: Duration)
        ensures
            final(self)@ == (old(self)@ - truncated_nanos(other)) % 0x1_0000_0000_0000_0000,
    {
        self.0 = self.0.wrapping_sub(nanos_u64(other));
    }
}

impl SubSpecImpl<Instant> for Instant {
    open spec fn obeys_sub_spec() -> bool {
        false
    }

    closed spec fn sub_req(self, rhs: Instant) -> bool {
        rhs.0 <= self.0
    }

    closed spec fn sub_spec(self, rhs: Instant) -> Duration {
        choose|d: Duration| duration_as_nanos(d) == self.0 - rhs.0
    }
}

impl Sub<Instant> for Instant {
    type Output = Duration;

    /// The time elapsed from `other` to `self`; `other` must not be later (the call panics
    /// otherwise).
    fn sub(self, other: Instant) -> (r: Duration)
        ensures
            duration_as_nanos(r) == self@ - other@,
    {
        self.duration_since(other)
    }
}

impl Instant {
    /// Two instants are equal exactly when they hold the same nanosecond count.
    pub proof fn lemma_equal_iff_same_value(self, other: Instant)
        ensures
            self == other <==> self@ == other@,
    {
    }

    /// `self + d` may be taken exactly when the sum fits in 64 bits.
    pub proof fn lemma_add_req(self, d: Duration)
        ensures
            <Instant as AddSpec<Duration>>::add_req(self, d) <==> self@ + duration_as_nanos(d) <= u64::MAX,
    {
    }

    /// `self - d` may be taken exactly when `d` is not longer than `self`.
    pub proof fn lemma_sub_req(self, d: Duration)
        ensures
            <Instant as SubSpec<Duration>>::sub_req(self, d) <==> duration_as_nanos(d) <= self@,
    {
    }

    /// `self - earlier` may be taken exactly when `earlier` is not later than `self`.
    pub proof fn lemma_elapsed_req(self, earlier: Instant)
        ensures
            <Instant as SubSpec<Instant>>::sub_req(self, earlier) <==> earlier@ <= self@,
    {
    }
}

/// Moving an instant forward by a duration and back by the same duration returns to where it
/// started, and the time elapsed between the start and the moved instant is that duration;
/// this holds whenever the forward move fits in 64 bits.
pub proof fn lemma_add_then_sub_returns(t: u64, n: nat)
    requires
        nanos_after(t, n) is Some,
    ensures
        nanos_before(nanos_after(t, n)->0, n) == Some(t),
        nanos_between(nanos_after(t, n)->0, t) == Some(n as u64),
{
}

/// Moving an instant back by a duration and forward again returns to where it started, and the
/// time elapsed from the moved instant to the start is that duration; this holds whenever the
/// backward move stays at or above zero.
pub proof fn lemma_sub_then_add_returns(t: u64, n: nat)
    requires
        nanos_before(t, n) is Some,
    ensures
        nanos_after(nanos_before(t, n)->0, n) == Some(t),
        nanos_between(t, nanos_before(t, n)->0) == Some(n as u64),
{
}

/// The elapsed time between two instants is defined in exactly one direction, unless they are
/// equal, where it is zero both ways.
pub proof fn lemma_between_one_way(a: u64, b: u64)
    ensures
        nanos_between(a, b) is Some || nanos_between(b, a) is Some,
        (nanos_between(a, b) is Some && nanos_between(b, a) is Some) ==> (a == b && nanos_between(
            a,
            b,
        ) == Some(0u64)),
{
}

} // verus!
