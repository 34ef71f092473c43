//! Scaling of cycle-counter readings to reference (nanosecond) time, and the arithmetic of
//! calibrating the scaling ratio against the reference clock.

use vstd::arithmetic::power2::{
    lemma2_to64, lemma2_to64_rest, lemma_pow2_pos, lemma_pow2_strictly_increases,
    lemma_pow2_unfold, pow2,
};
use vstd::arithmetic::div_mod::{lemma_div_is_ordered, lemma_fundamental_div_mod, lemma_mod_bound};
use vstd::bits::lemma_u128_shr_is_div;
use vstd::prelude::*;

verus! {

/// Upper bound on the wall time spent calibrating, in nanoseconds (200 ms).
pub const MAXIMUM_CAL_TIME_NS: u64 = 200_000_000;

/// Reference time burnt between two calibration rounds, in nanoseconds.
pub const CAL_LOOP_DELTA_NS: u64 = 1000;

/// Number of calibration rounds to run before the result may be judged stable.
pub const MINIMUM_CAL_ROUNDS: u64 = 500;

/// Largest mean error, in nanoseconds, at which a calibration counts as stable.
pub const MAXIMUM_CAL_ERROR_NS: u64 = 10;

/// `a - b` wrapped around at 64 bits, as `u64::wrapping_sub` computes it.
pub open spec fn wrapping_diff(a: u64, b: u64) -> u64 {
    if a >= b {
        (a - b) as u64
    } else {
        (a - b + 0x1_0000_0000_0000_0000) as u64
    }
}

/// `a - b`, or zero when `b` is larger.
pub open spec fn saturating_diff(a: u64, b: u64) -> u64 {
    if a >= b {
        (a - b) as u64
    } else {
        0
    }
}

/// `value * numer / 2^shift`, rounded down, then cut to its low 64 bits.
pub open spec fn mul_div_po2(value: u64, numer: u64, shift: nat) -> u64 {
    (((value * numer) as nat / pow2(shift)) % 0x1_0000_0000_0000_0000) as u64
}

/// `2^k` is the smallest power of two that is at least `x`.
pub open spec fn is_po2_ceiling(x: nat, k: nat) -> bool {
    &&& x <= pow2(k)
    &&& k > 0 ==> pow2((k - 1) as nat) < x
}

/// The scale factor that turns a source delta `src_d` into the reference delta `ref_d` with the
/// power-of-two denominator `po2`: `ref_d * po2 / src_d` rounded down, saturating at
/// `u64::MAX`; an empty source delta gives `u64::MAX`, or zero when the reference delta is
/// empty as well.
pub open spec fn scale_ratio(ref_d: u64, src_d: u64, po2: nat) -> u64 {
    if src_d == 0 {
        if ref_d == 0 {
            0
        } else {
            u64::MAX
        }
    } else if (ref_d * po2) as nat / (src_d as nat) > u64::MAX {
        u64::MAX
    } else {
        ((ref_d * po2) as nat / (src_d as nat)) as u64
    }
}

/// The scale factor brackets the exact ratio: for a non-empty source delta, `factor * src_d` is
/// at most `ref_d * po2`, and unless the factor saturated, `(factor + 1) * src_d` is above it;
/// an empty source delta gives zero when the reference delta is empty too, else `u64::MAX`.
pub proof fn lemma_scale_ratio_brackets(ref_d: u64, src_d: u64, po2: nat)
    ensures
        src_d != 0 ==> scale_ratio(ref_d, src_d, po2) * src_d <= ref_d * po2,
        src_d != 0 && scale_ratio(ref_d, src_d, po2) < u64::MAX ==> ref_d * po2 < (scale_ratio(
            ref_d,
            src_d,
            po2,
        ) + 1) * src_d,
        src_d == 0 && ref_d == 0 ==> scale_ratio(ref_d, src_d, po2) == 0,
        src_d == 0 && ref_d != 0 ==> scale_ratio(ref_d, src_d, po2) == u64::MAX,
{
    if src_d != 0 {
        let n = ref_d * po2;
        let q = n / (src_d as int);
        assert(0 <= n) by (nonlinear_arith)
            requires
                n == ref_d * po2,
                0 <= po2,
        ;
        lemma_fundamental_div_mod(n, src_d as int);
        lemma_mod_bound(n, src_d as int);
        let f = scale_ratio(ref_d, src_d, po2);
        if q > u64::MAX {
            assert(f == u64::MAX);
            assert(f * src_d <= q * src_d) by (nonlinear_arith)
                requires
                    f <= q,
                    0 < src_d,
            ;
            assert(q * src_d <= n) by (nonlinear_arith)
                requires
                    n == src_d * q + n % (src_d as int),
                    0 <= n % (src_d as int),
            ;
        } else {
            assert(f == q);
            assert(f * src_d <= n) by (nonlinear_arith)
                requires
                    f == q,
                    n == src_d * q + n % (src_d as int),
                    0 <= n % (src_d as int),
            ;
            assert(n < (f + 1) * src_d) by (nonlinear_arith)
                requires
                    f == q,
                    n == src_d * q + n % (src_d as int),
                    n % (src_d as int) < src_d,
            ;
        }
    }
}

/// Scaling the source delta by the ratio computed from it gives back the reference delta, or
/// one nanosecond less (the factor is rounded down), whenever the factor did not saturate.
pub proof fn lemma_ratio_recovers_reference_delta(ref_d: u64, src_d: u64, k: nat)
    requires
        src_d != 0,
        is_po2_ceiling(src_d as nat, k),
        scale_ratio(ref_d, src_d, pow2(k)) < u64::MAX,
    ensures
        mul_div_po2(src_d, scale_ratio(ref_d, src_d, pow2(k)), k) == ref_d
            || mul_div_po2(src_d, scale_ratio(ref_d, src_d, pow2(k)), k) + 1 == ref_d,
{
    let p = pow2(k) as int;
    lemma_pow2_pos(k);
    let f = scale_ratio(ref_d, src_d, pow2(k)) as int;
    lemma_scale_ratio_brackets(ref_d, src_d, pow2(k));
    let m = src_d * f;
    assert(m == f * src_d) by (nonlinear_arith)
        requires
            m == src_d * f,
    ;
    // m <= ref_d * p  and  ref_d * p < m + src_d <= m + p
    assert(ref_d * p < m + p) by (nonlinear_arith)
        requires
            ref_d * p < (f + 1) * src_d,
            m == f * src_d,
            src_d <= p,
    ;
    let q = m / p;
    lemma_fundamental_div_mod(m, p);
    lemma_mod_bound(m, p);
    assert(q <= ref_d && ref_d <= q + 1) by (nonlinear_arith)
        requires
            m == p * q + m % p,
            0 <= m % p < p,
            m <= ref_d * p,
            ref_d * p < m + p,
            0 < p,
    ;
    assert(0 <= q);
    assert(q < 0x1_0000_0000_0000_0000);
    assert((q % 0x1_0000_0000_0000_0000) == q);
}

/// The ratio between a source clock (such as a cycle counter) and the reference clock: a source
/// reading `s` stands for reference time
/// `ref_time + (s - src_time) * scale_factor / 2^scale_shift`.
#[derive(Debug, Copy, Clone)]
pub struct Calibration {
    ref_time: u64,
    src_time: u64,
    scale_factor: u64,
    scale_shift: u32,
}

impl Calibration {
    /// The shift stays below 64, so that scaling never shifts a 128-bit product too far.
    #[verifier::type_invariant]
    spec fn shift_in_range(self) -> bool {
        self.scale_shift < 64
    }

    /// Reference time at the calibration's anchor point.
    pub closed spec fn ref_time(self) -> u64 {
        self.ref_time
    }

    /// Source time at the calibration's anchor point.
    pub closed spec fn src_time(self) -> u64 {
        self.src_time
    }

    /// Numerator of the source-to-reference ratio.
    pub closed spec fn scale_factor(self) -> u64 {
        self.scale_factor
    }

    /// Base-two logarithm of the denominator of the source-to-reference ratio.
    pub closed spec fn scale_shift(self) -> u32 {
        self.scale_shift
    }

    /// Source reading `src_raw` in reference time, before the final addition of `ref_time`.
    pub open spec fn scaled_offset(self, src_raw: u64) -> u64 {
        mul_div_po2(
            saturating_diff(src_raw, self.src_time()),
            self.scale_factor(),
            self.scale_shift() as nat,
        )
    }

    /// Source reading `src_raw` in reference time.
    pub open spec fn scale_spec(self, src_raw: u64) -> int {
        self.scaled_offset(src_raw) + self.ref_time()
    }

    /// The quotient in the scaling of `src_raw` fits in 64 bits, so nothing of it is cut away.
    pub open spec fn offset_fits(self, src_raw: u64) -> bool {
        (saturating_diff(src_raw, self.src_time()) * self.scale_factor()) as nat / pow2(
            self.scale_shift() as nat,
        ) < 0x1_0000_0000_0000_0000
    }

    /// Scaling keeps the order of source readings: a later reading never scales to an earlier
    /// reference time, as long as the later one's quotient fits in 64 bits.
    pub proof fn lemma_scale_monotonic(self, a: u64, b: u64)
        requires
            a <= b,
            self.offset_fits(b),
        ensures
            self.offset_fits(a),
            self.scaled_offset(a) <= self.scaled_offset(b),
            self.scale_spec(a) <= self.scale_spec(b),
    {
        let da = saturating_diff(a, self.src_time());
        let db = saturating_diff(b, self.src_time());
        let f = self.scale_factor();
        let p = pow2(self.scale_shift() as nat);
        lemma_pow2_pos(self.scale_shift() as nat);
        assert(da * f <= db * f) by (nonlinear_arith)
            requires
                da <= db,
                0 <= f,
        ;
        lemma_div_is_ordered((da * f) as int, (db * f) as int, p as int);
    }

    /// A source reading at or before the anchor point scales to the anchor's reference time.
    pub proof fn lemma_scale_at_anchor(self, src_raw: u64)
        requires
            src_raw <= self.src_time(),
        ensures
            self.scale_spec(src_raw) == self.ref_time(),
    {
        lemma_pow2_pos(self.scale_shift() as nat);
        assert(saturating_diff(src_raw, self.src_time()) == 0);
        assert(0 * self.scale_factor() == 0);
    }

    /// Scaling the difference of two source readings at or after the anchor gives the
    /// difference of their scaled values, or one nanosecond less (each scaling rounds down on
    /// its own), as long as the later reading's quotient fits in 64 bits.
    pub proof fn lemma_delta_matches_scaled_difference(self, start: u64, end: u64)
        requires
            self.src_time() <= start <= end,
            self.offset_fits(end),
        ensures
            ({
                let delta = mul_div_po2((end - start) as u64, self.scale_factor(), self.scale_shift() as nat);
                let diff = self.scale_spec(end) - self.scale_spec(start);
                delta == diff || delta + 1 == diff
            }),
    {
        let f = self.scale_factor() as int;
        let d = pow2(self.scale_shift() as nat) as int;
        lemma_pow2_pos(self.scale_shift() as nat);
        let a = (end - self.src_time()) * f;
        let b = (start - self.src_time()) * f;
        let c = (end - start) * f;
        assert(c == a - b) by (nonlinear_arith)
            requires
                a == (end - self.src_time()) * f,
                b == (start - self.src_time()) * f,
                c == (end - start) * f,
        ;
        assert(0 <= b <= a) by (nonlinear_arith)
            requires
                a == (end - self.src_time()) * f,
                b == (start - self.src_time()) * f,
                self.src_time() <= start <= end,
                0 <= f,
        ;
        self.lemma_scale_monotonic(start, end);
        lemma_div_is_ordered(c, a, d);
        lemma_fundamental_div_mod(a, d);
        lemma_fundamental_div_mod(b, d);
        lemma_fundamental_div_mod(c, d);
        lemma_mod_bound(a, d);
        lemma_mod_bound(b, d);
        lemma_mod_bound(c, d);
        let qa = a / d;
        let qb = b / d;
        let qc = c / d;
        assert(qc == qa - qb || qc + 1 == qa - qb) by (nonlinear_arith)
            requires
                a == d * qa + a % d,
                b == d * qb + b % d,
                c == d * qc + c % d,
                c == a - b,
                0 <= a % d < d,
                0 <= b % d < d,
                0 <= c % d < d,
                0 < d,
        ;
    }

    /// A calibration anchored at zero with the ratio 1/2.
    pub fn new() -> (c: Calibration)
        ensures
            c.ref_time() == 0,
            c.src_time() == 0,
            c.scale_factor() == 1,
            c.scale_shift() == 1,
    {
        Calibration { ref_time: 0, src_time: 0, scale_factor: 1, scale_shift: 1 }
    }

    /// Anchors the calibration at a pair of readings taken together from the reference and the
    /// source clock; the ratio is kept.
    pub fn anchor(&mut self, ref_time: u64, src_time: u64)
        ensures
            final(self).ref_time() == ref_time,
            final(self).src_time() == src_time,
            final(self).scale_factor() == old(self).scale_factor(),
            final(self).scale_shift() == old(self).scale_shift(),
    {
        proof {
            use_type_invariant(&*self);
        }
        self.ref_time = ref_time;
        self.src_time = src_time;
    }

    /// Whether a source reading `src_end` lies close enough after the anchor for a ratio to be
    /// formed from it: its distance from the anchor (with wrap-around at 64 bits) is at most
    /// `2^63`, whose power-of-two ceiling is the largest that fits in 64 bits.
    pub fn source_delta_in_range(&self, src_end: u64) -> (r: bool)
        ensures
            r == (wrapping_diff(src_end, self.src_time()) <= 0x8000_0000_0000_0000),
    {
        src_end.wrapping_sub(self.src_time) <= 0x8000_0000_0000_0000
    }

    /// Recomputes the ratio from the readings `ref_end` and `src_end`, taken together from the
    /// reference and the source clock, against the anchor point.
    ///
    /// With the deltas `ref_d` and `src_d` (each taken with wrap-around at 64 bits), the new
    /// denominator is the smallest power of two `2^k` at least `src_d`, and the numerator is
    /// `ref_d` scaled by the same amount: `ref_d * 2^k / src_d`, in exact integer arithmetic.
    /// `src_d` must not exceed `2^63`, whose power-of-two ceiling is the largest that fits in 64
    /// bits (see [`Calibration::source_delta_in_range`]).
    pub fn adjust_cal_ratio(&mut self, ref_end: u64, src_end: u64)
        requires
            wrapping_diff(src_end, old(self).src_time()) <= 0x8000_0000_0000_0000,
        ensures
            final(self).ref_time() == old(self).ref_time(),
            final(self).src_time() == old(self).src_time(),
            is_po2_ceiling(
                wrapping_diff(src_end, old(self).src_time()) as nat,
                final(self).scale_shift() as nat,
            ),
            final(self).scale_factor() == scale_ratio(
                wrapping_diff(ref_end, old(self).ref_time()),
                wrapping_diff(src_end, old(self).src_time()),
                pow2(final(self).scale_shift() as nat),
            ),
            ({
                let ref_d = wrapping_diff(ref_end, old(self).ref_time());
                let src_d = wrapping_diff(src_end, old(self).src_time());
                let f = final(self).scale_factor();
                let p = pow2(final(self).scale_shift() as nat);
                &&& src_d != 0 ==> f * src_d <= ref_d * p
                &&& src_d != 0 && f < u64::MAX ==> ref_d * p < (f + 1) * src_d
                &&& src_d == 0 ==> f == (if ref_d == 0 { 0 } else { u64::MAX })
            }),
    {
        proof {
            use_type_invariant(&*self);
        }
        let ref_d = ref_end.wrapping_sub(self.ref_time);
        let src_d = src_end.wrapping_sub(self.src_time);
        let (src_d_po2, shift) = next_power_of_two(src_d);
        let factor = ratio_to_po2(ref_d, src_d, src_d_po2, Ghost(shift as nat));
        proof {
            lemma_scale_ratio_brackets(ref_d, src_d, src_d_po2 as nat);
        }
        self.scale_factor = factor;
        self.scale_shift = shift;
    }

    /// Scales a source reading to reference time: the reading's distance past the anchor
    /// (zero if it lies before it) times the ratio, plus the anchor's reference time.  The sum
    /// must fit in 64 bits.
    pub fn scale(&self, src_raw: u64) -> (r: u64)
        requires
            self.scale_spec(src_raw) <= u64::MAX,
        ensures
            r == self.scale_spec(src_raw),
    {
        proof {
            use_type_invariant(self);
        }
        let delta = src_raw.saturating_sub(self.src_time);
        let scaled = mul_div_po2_u64(delta, self.scale_factor, self.scale_shift);
        scaled + self.ref_time
    }

    /// Scales a source reading to reference time as [`Calibration::scale`] does, or `None` when
    /// the result does not fit in 64 bits.
    pub fn checked_scale(&self, src_raw: u64) -> (r: Option<u64>)
        ensures
            r is Some <==> self.scale_spec(src_raw) <= u64::MAX,
            r matches Some(v) ==> v == self.scale_spec(src_raw),
    {
        proof {
            use_type_invariant(self);
        }
        let delta = src_raw.saturating_sub(self.src_time);
        let scaled = mul_div_po2_u64(delta, self.scale_factor, self.scale_shift);
        scaled.checked_add(self.ref_time)
    }

    /// Scales a difference of two source readings to a reference-time difference.
    pub fn scale_delta(&self, raw_delta: u64) -> (r: u64)
        ensures
            r == mul_div_po2(raw_delta, self.scale_factor(), self.scale_shift() as nat),
    {
        proof {
            use_type_invariant(self);
        }
        mul_div_po2_u64(raw_delta, self.scale_factor, self.scale_shift)
    }
}

impl Default for Calibration {
    fn default() -> (c: Calibration)
        ensures
            c.ref_time() == 0,
            c.src_time() == 0,
            c.scale_factor() == 1,
            c.scale_shift() == 1,
    {
        Calibration::new()
    }
}

/// The reference time at which calibration gives up: `now` plus [`MAXIMUM_CAL_TIME_NS`], or
/// `None` when that does not fit in 64 bits.
pub fn calibration_deadline(now: u64) -> (r: Option<u64>)
    ensures
        r is Some <==> now + MAXIMUM_CAL_TIME_NS <= u64::MAX,
        r matches Some(d) ==> d == now + MAXIMUM_CAL_TIME_NS,
{
    now.checked_add(MAXIMUM_CAL_TIME_NS)
}

/// Whether calibration stops at a round whose spinning ended at reference time `last`: it
/// stops once `last` has reached the deadline.
pub open spec fn calibration_expired_spec(last: u64, deadline: u64) -> bool {
    last >= deadline
}

/// Whether calibration stops at a round whose spinning ended at reference time `last`, given
/// the deadline from [`calibration_deadline`].
pub fn calibration_expired(last: u64, deadline: u64) -> (r: bool)
    ensures
        r == calibration_expired_spec(last, deadline),
{
    last >= deadline
}

/// Calibration takes at most [`MAXIMUM_CAL_TIME_NS`] of reference time: with the deadline set
/// from the reading `start` taken when it began, every round that goes on (whose spinning ended
/// at `last`, not before `start`) ends less than that long after `start`, and every round that
/// ends that long after `start` or later stops it.
pub proof fn lemma_calibration_time_bounded(start: u64, last: u64)
    requires
        start + MAXIMUM_CAL_TIME_NS <= u64::MAX,
        start <= last,
    ensures
        !calibration_expired_spec(last, (start + MAXIMUM_CAL_TIME_NS) as u64) ==> last - start
            < MAXIMUM_CAL_TIME_NS,
        last - start >= MAXIMUM_CAL_TIME_NS ==> calibration_expired_spec(
            last,
            (start + MAXIMUM_CAL_TIME_NS) as u64,
        ),
{
}

/// The reference time until which a calibration round spins: `last` plus
/// [`CAL_LOOP_DELTA_NS`], or `None` when that does not fit in 64 bits.
pub fn spin_target(last: u64) -> (r: Option<u64>)
    ensures
        r is Some <==> last + CAL_LOOP_DELTA_NS <= u64::MAX,
        r matches Some(t) ==> t == last + CAL_LOOP_DELTA_NS,
{
    last.checked_add(CAL_LOOP_DELTA_NS)
}

/// Multiplies `value` by `numer` and divides by `2^denom`, rounding down, in 128-bit arithmetic;
/// the quotient is cut to its low 64 bits.  `denom` is the number of bits to shift, not the
/// denominator itself, and must be below 128.
pub fn mul_div_po2_u64(value: u64, numer: u64, denom: u32) -> (r: u64)
    requires
        denom < 128,
    ensures
        r == mul_div_po2(value, numer, denom as nat),
{
    let mut v: u128 = value as u128;
    proof {
        assert(value * numer <= u64::MAX * u64::MAX) by (nonlinear_arith)
            requires
                value <= u64::MAX,
                numer <= u64::MAX,
        ;
        assert(u64::MAX * u64::MAX <= u128::MAX);
    }
    v = v * (numer as u128);
    let ghost prod: u128 = v;
    v = v >> denom;
    proof {
        assert(prod >> denom == prod >> (denom as u128)) by (bit_vector);
        lemma_u128_shr_is_div(prod, denom as u128);
        assert(v as u64 == (v % 0x1_0000_0000_0000_0000) as u64) by (bit_vector);
    }
    v as u64
}

/// The smallest power of two that is at least `x`, with its exponent.  `x` must not exceed
/// `2^63`.
fn next_power_of_two(x: u64) -> (r: (u64, u32))
    requires
        x <= 0x8000_0000_0000_0000,
    ensures
        r.0 == pow2(r.1 as nat),
        r.1 < 64,
        is_po2_ceiling(x as nat, r.1 as nat),
{
    let mut p: u64 = 1;
    let mut k: u32 = 0;
    proof {
        lemma2_to64();
        lemma2_to64_rest();
    }
    while p < x
        invariant
            p == pow2(k as nat),
            k < 64,
            x <= 0x8000_0000_0000_0000,
            k > 0 ==> pow2((k - 1) as nat) < x,
            pow2(63) == 0x8000_0000_0000_0000,
        decreases 64 - k,
    {
        proof {
            if k >= 63 {
                if k > 63 {
                    lemma_pow2_strictly_increases(63, k as nat);
                }
                assert(false);
            }
            lemma_pow2_unfold((k + 1) as nat);
        }
        p = p * 2;
        k = k + 1;
    }
    (p, k)
}

/// `ref_d * po2 / src_d` rounded down and saturating at `u64::MAX`, where `po2` is a power of two
/// no larger than `2^63`; see [`scale_ratio`] for an empty source delta.
fn ratio_to_po2(ref_d: u64, src_d: u64, po2: u64, Ghost(k): Ghost<nat>) -> (r: u64)
    requires
        po2 == pow2(k),
        k < 64,
    ensures
        r == scale_ratio(ref_d, src_d, po2 as nat),
{
    if src_d == 0 {
        if ref_d == 0 {
            0
        } else {
            u64::MAX
        }
    } else {
        proof {
            lemma_pow2_pos(k);
            assert(ref_d * po2 <= u64::MAX * u64::MAX) by (nonlinear_arith)
                requires
                    ref_d <= u64::MAX,
                    po2 <= u64::MAX,
            ;
            assert(u64::MAX * u64::MAX <= u128::MAX);
        }
        let num: u128 = (ref_d as u128) * (po2 as u128);
        let q: u128 = num / (src_d as u128);
        if q > u64::MAX as u128 {
            u64::MAX
        } else {
            q as u64
        }
    }
}

} // verus!
