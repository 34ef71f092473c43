//! The unified clock: a reference clock, a calibrated cycle counter, or a mock.
//!
//! Reading the hardware (the operating system's monotonic clock or the processor's time stamp
//! counter) is done by the caller; the clock takes that reading and decides what it means.

use std::sync::Arc;
use std::time::Duration;
use vstd::prelude::*;

use crate::calibration::{mul_div_po2, Calibration};
use crate::duration::{duration_as_nanos, from_nanos};
use crate::instant::Instant;
use crate::mock::Mock;

verus! {

/// The operating system's monotonic reference clock, counting nanoseconds.
#[derive(Debug, Clone, Copy)]
pub struct Monotonic;

impl Monotonic {
    /// The reference clock.
    pub fn new() -> Monotonic {
        Monotonic
    }
}

impl Default for Monotonic {
    fn default() -> Monotonic {
        Monotonic::new()
    }
}

/// The processor's time stamp counter, counting cycles.
#[derive(Debug, Clone, Copy)]
pub struct Counter;

impl Counter {
    /// The cycle counter.
    pub fn new() -> Counter {
        Counter
    }
}

impl Default for Counter {
    fn default() -> Counter {
        Counter::new()
    }
}

/// A `timespec` reading (`tv_sec` seconds and `tv_nsec` nanoseconds) as nanoseconds.
pub open spec fn timespec_nanos_spec(tv_sec: i64, tv_nsec: i64) -> int {
    tv_sec * 1_000_000_000 + tv_nsec
}

/// Converts a `timespec` reading of the monotonic clock to nanoseconds, or `None` when a part
/// is negative or the total does not fit in 64 bits.
pub fn timespec_to_nanos(tv_sec: i64, tv_nsec: i64) -> (r: Option<u64>)
    ensures
        r is Some <==> (0 <= tv_sec && 0 <= tv_nsec && timespec_nanos_spec(tv_sec, tv_nsec)
            <= u64::MAX),
        r matches Some(n) ==> n == timespec_nanos_spec(tv_sec, tv_nsec),
{
    if tv_sec < 0 || tv_nsec < 0 {
        return None;
    }
    let secs = tv_sec as u64;
    let nanos = tv_nsec as u64;
    if secs > (u64::MAX - nanos) / 1_000_000_000 {
        return None;
    }
    Some(secs * 1_000_000_000 + nanos)
}

/// A platform counter reading of `raw` ticks, at `numer / denom` nanoseconds per tick, in
/// nanoseconds: `raw * numer / denom` rounded down (a mach timebase gives `numer` and `denom`; a
/// performance counter running at `f` ticks per second gives `1_000_000_000` and `f`).  `None`
/// when `denom` is zero or the result does not fit in 64 bits.
pub fn ticks_to_nanos(raw: u64, numer: u64, denom: u64) -> (r: Option<u64>)
    ensures
        r is Some <==> (denom != 0 && (raw * numer) as nat / (denom as nat) <= u64::MAX),
        r matches Some(n) ==> n == (raw * numer) as nat / (denom as nat),
{
    if denom == 0 {
        return None;
    }
    proof {
        assert(raw * numer <= u64::MAX * u64::MAX) by (nonlinear_arith)
            requires
                raw <= u64::MAX,
                numer <= u64::MAX,
        ;
        assert(u64::MAX * u64::MAX <= u128::MAX);
    }
    let product: u128 = (raw as u128) * (numer as u128);
    let q: u128 = product / (denom as u128);
    if q > u64::MAX as u128 {
        None
    } else {
        Some(q as u64)
    }
}

/// Which hardware source a clock reads.
#[derive(Debug, Clone, Copy, PartialEq, Eq, Structural)]
pub enum SourceKind {
    /// The monotonic reference clock.
    Reference,
    /// The time stamp counter, scaled by a calibration.
    Counter,
    /// No hardware: the clock reads a [`Mock`].
    Mocked,
}

/// What a clock is: the reference clock; the counter with the largest reading seen so far and
/// its calibration; or a mock.
pub enum ClockModel {
    Reference,
    Counter { last: u64, calibration: Calibration },
    Mocked,
}

#[derive(Debug, Clone)]
enum ClockType {
    Monotonic(Monotonic),
    Counter(u64, Monotonic, Counter, Calibration),
    Mock(Arc<Mock>),
}

/// Unified clock for taking measurements.
#[derive(Debug, Clone)]
pub struct Clock {
    inner: ClockType,
}

/// The counter reading that a counter clock keeps after seeing `reading`: the larger of the two.
pub open spec fn counter_step(last: u64, reading: u64) -> u64 {
    if reading > last {
        reading
    } else {
        last
    }
}

/// A counter clock with `calibration` scales `value` without overflow.
pub open spec fn scales_in_range(calibration: Calibration, value: u64) -> bool {
    calibration.scale_spec(value) <= u64::MAX
}

/// `Arc::clone`: another pointer to the same allocation, so the same value.
#[verifier::external_body]
fn share_mock(m: &Arc<Mock>) -> (r: Arc<Mock>)
    ensures
        r == *m,
{
    Arc::clone(m)
}

impl View for Clock {
    type V = ClockModel;

    closed spec fn view(&self) -> ClockModel {
        match self.inner {
            ClockType::Monotonic(_) => ClockModel::Reference,
            ClockType::Counter(last, _, _, calibration) => ClockModel::Counter { last, calibration },
            ClockType::Mock(_) => ClockModel::Mocked,
        }
    }
}

impl Clock {
    /// The mock that a mocked clock reads, and no mock for any other clock.
    pub closed spec fn mock_handle(self) -> Option<Mock> {
        match self.inner {
            ClockType::Mock(m) => Some(*m),
            _ => None,
        }
    }

    /// A clock that reads the reference clock.
    pub fn from_reference(reference: Monotonic) -> (c: Clock)
        ensures
            c@ == ClockModel::Reference,
            c.mock_handle() is None,
    {
        Clock { inner: ClockType::Monotonic(reference) }
    }

    /// A clock that reads the time stamp counter and scales it with `calibration`.
    pub fn from_counter(reference: Monotonic, source: Counter, calibration: Calibration) -> (c:
        Clock)
        ensures
            c@ == (ClockModel::Counter { last: 0, calibration }),
            c.mock_handle() is None,
    {
        Clock { inner: ClockType::Counter(0, reference, source, calibration) }
    }

    /// Creates a new clock that is mocked for controlling the underlying time.
    ///
    /// Returns the clock and a handle to the underlying [`Mock`] source so that the caller can
    /// control the passage of time.
    pub fn mock() -> (r: (Clock, Arc<Mock>))
        ensures
            r.0@ == ClockModel::Mocked,
            r.0.mock_handle() == Some(*r.1),
    {
        let mock = Arc::new(Mock::new());
        let clock = Clock { inner: ClockType::Mock(share_mock(&mock)) };
        (clock, mock)
    }

    /// Which hardware source this clock reads.
    pub fn source_kind(&self) -> (k: SourceKind)
        ensures
            k == match self@ {
                ClockModel::Reference => SourceKind::Reference,
                ClockModel::Counter { .. } => SourceKind::Counter,
                ClockModel::Mocked => SourceKind::Mocked,
            },
    {
        match &self.inner {
            ClockType::Monotonic(_) => SourceKind::Reference,
            ClockType::Counter(..) => SourceKind::Counter,
            ClockType::Mock(_) => SourceKind::Mocked,
        }
    }

    /// Gets the current time, scaled to reference time, from `reading`, a reading just taken
    /// from this clock's hardware source (a mocked clock reads its mock instead).
    ///
    /// A counter clock never goes backwards between calls on the same clock: it keeps the
    /// largest reading it has seen and scales that one.
    pub fn now(&mut self, reading: u64) -> (r: Instant)
        requires
            old(self)@ matches ClockModel::Counter { last, calibration } ==> scales_in_range(
                calibration,
                counter_step(last, reading),
            ),
        ensures
            match old(self)@ {
                ClockModel::Reference => final(self)@ == ClockModel::Reference && r@ == reading,
                ClockModel::Counter { last, calibration } => {
                    &&& final(self)@ == (ClockModel::Counter {
                        last: counter_step(last, reading),
                        calibration,
                    })
                    &&& r@ == calibration.scale_spec(counter_step(last, reading))
                },
                ClockModel::Mocked => final(self)@ == ClockModel::Mocked,
            },
    {
        match &mut self.inner {
            ClockType::Monotonic(_) => Instant::new(reading),
            ClockType::Counter(last, _, _, calibration) => {
                if reading > *last {
                    *last = reading;
                }
                Instant::new(calibration.scale(*last))
            },
            ClockType::Mock(mock) => Instant::new(mock.now()),
        }
    }

    /// Does what [`Clock::now`] does, or returns `None` and leaves the clock unchanged when a
    /// counter clock's scaled time would not fit in 64 bits.
    pub fn try_now(&mut self, reading: u64) -> (r: Option<Instant>)
        ensures
            r is None <==> (old(self)@ matches ClockModel::Counter { last, calibration }
                && !scales_in_range(calibration, counter_step(last, reading))),
            r is None ==> final(self)@ == old(self)@,
            r matches Some(i) ==> match old(self)@ {
                ClockModel::Reference => final(self)@ == ClockModel::Reference && i@ == reading,
                ClockModel::Counter { last, calibration } => {
                    &&& final(self)@ == (ClockModel::Counter {
                        last: counter_step(last, reading),
                        calibration,
                    })
                    &&& i@ == calibration.scale_spec(counter_step(last, reading))
                },
                ClockModel::Mocked => final(self)@ == ClockModel::Mocked,
            },
    {
        let in_range = match &self.inner {
            ClockType::Counter(last, _, _, calibration) => {
                let kept = if reading > *last {
                    reading
                } else {
                    *last
                };
                calibration.checked_scale(kept).is_some()
            },
            _ => true,
        };
        if in_range {
            Some(self.now(reading))
        } else {
            None
        }
    }

    /// Does what [`Clock::scaled`] does, or returns `None` when a counter clock's scaled value
    /// would not fit in 64 bits.
    pub fn try_scaled(&self, value: u64) -> (r: Option<Instant>)
        ensures
            r is None <==> (self@ matches ClockModel::Counter { calibration, .. }
                && !scales_in_range(calibration, value)),
            r matches Some(i) ==> i@ == match self@ {
                ClockModel::Counter { calibration, .. } => calibration.scale_spec(value),
                _ => value as int,
            },
    {
        match &self.inner {
            ClockType::Counter(_, _, _, calibration) => match calibration.checked_scale(value) {
                Some(v) => Some(Instant::new(v)),
                None => None,
            },
            _ => Some(Instant::new(value)),
        }
    }

    /// Gets the underlying time from `reading`, a reading just taken from this clock's hardware
    /// source; a mocked clock reads its mock instead.  The value is not scaled.
    pub fn raw(&self, reading: u64) -> (r: u64)
        ensures
            !(self@ is Mocked) ==> r == reading,
    {
        match &self.inner {
            ClockType::Mock(mock) => mock.now(),
            _ => reading,
        }
    }

    /// Scales a raw measurement to reference time.  For a counter clock the scaled value must
    /// fit in 64 bits; any other clock's raw measurements already are reference time.
    pub fn scaled(&self, value: u64) -> (r: Instant)
        requires
            self@ matches ClockModel::Counter { calibration, .. } ==> scales_in_range(
                calibration,
                value,
            ),
        ensures
            r@ == match self@ {
                ClockModel::Counter { calibration, .. } => calibration.scale_spec(value),
                _ => value as int,
            },
    {
        match &self.inner {
            ClockType::Counter(_, _, _, calibration) => Instant::new(calibration.scale(value)),
            _ => Instant::new(value),
        }
    }

    /// Calculates the delta between two raw measurements, scaled to reference time.  It is zero
    /// when `end` is not after `start`.
    pub fn delta(&self, start: u64, end: u64) -> (r: Duration)
        ensures
            duration_as_nanos(r) == if end <= start {
                0
            } else {
                match self@ {
                    ClockModel::Counter { calibration, .. } => mul_div_po2(
                        (end - start) as u64,
                        calibration.scale_factor(),
                        calibration.scale_shift() as nat,
                    ) as int,
                    _ => end - start,
                }
            },
    {
        if end <= start {
            return from_nanos(0);
        }
        let raw_delta = end.wrapping_sub(start);
        let scaled = match &self.inner {
            ClockType::Counter(_, _, _, calibration) => calibration.scale_delta(raw_delta),
            _ => raw_delta,
        };
        from_nanos(scaled)
    }

    /// Gets the most recent time from `latest`, the value that the upkeep thread last
    /// published (zero if it never ran); a mocked clock reads its mock instead.
    pub fn recent(&self, latest: u64) -> (r: Instant)
        ensures
            !(self@ is Mocked) ==> r@ == latest,
    {
        match &self.inner {
            ClockType::Mock(mock) => Instant::new(mock.now()),
            _ => Instant::new(latest),
        }
    }
}

/// Two successive calls of `now` on a counter clock never go backwards: whatever the two
/// readings, the second instant is not earlier than the first, as long as the scaling of the
/// larger reading fits in 64 bits.
pub proof fn lemma_counter_now_never_decreases(
    calibration: Calibration,
    last: u64,
    first: u64,
    second: u64,
)
    requires
        calibration.offset_fits(counter_step(counter_step(last, first), second)),
    ensures
        calibration.scale_spec(counter_step(last, first)) <= calibration.scale_spec(
            counter_step(counter_step(last, first), second),
        ),
{
    calibration.lemma_scale_monotonic(
        counter_step(last, first),
        counter_step(counter_step(last, first), second),
    );
}

} // verus!
