use vstd::arithmetic::div_mod::{lemma_div_is_ordered, lemma_div_multiples_vanish};
use vstd::arithmetic::mul::lemma_mul_inequality;
use vstd::prelude::*;

verus! {

/// The longest duration, in any time unit, that the easing arithmetic accepts:
/// its cube must fit in 64 bits.
pub const MAX_EASING_DURATION: u64 = 1_000_000;

/// Cubic ease-in-out at progress `elapsed / duration`, scaled by `duration³`:
/// `4t³` before the midpoint and `1 - (2 - 2t)³ / 2` from it on. Scaling keeps
/// the value an exact integer.
pub open spec fn eased(elapsed: int, duration: int) -> int {
    if 2 * elapsed < duration {
        4 * (elapsed * elapsed * elapsed)
    } else {
        duration * duration * duration - 4 * ((duration - elapsed) * (duration - elapsed) * (
        duration - elapsed))
    }
}

/// The scale of `eased`: the value it takes at the end of the animation.
pub open spec fn cube(x: int) -> int {
    x * x * x
}

/// The position between `start` and `end` at `elapsed` of `duration`, following
/// the easing curve; the fraction of the distance is truncated toward `start`.
pub open spec fn interpolated(start: int, end: int, elapsed: int, duration: int) -> int {
    if start <= end {
        start + (end - start) * eased(elapsed, duration) / cube(duration)
    } else {
        start - (start - end) * eased(elapsed, duration) / cube(duration)
    }
}

proof fn lemma_cube_monotonic(a: int, b: int)
    requires
        0 <= a <= b,
    ensures
        cube(a) <= cube(b),
{
    assert(a * a * a <= b * b * b) by (nonlinear_arith)
        requires
            0 <= a <= b,
    ;
}

proof fn lemma_square_bound(a: int)
    requires
        0 <= a <= MAX_EASING_DURATION,
    ensures
        0 <= a * a <= 1_000_000_000_000,
{
    assert(0 <= a * a <= 1_000_000_000_000) by (nonlinear_arith)
        requires
            0 <= a <= 1_000_000,
    ;
}

/// A fraction `k / c` of `m`, rounded down, is no more than `m`.
proof fn lemma_scaled_fraction(m: int, k: int, c: int)
    requires
        0 <= m,
        0 <= k <= c,
        0 < c,
    ensures
        0 <= m * k / c <= m,
{
    lemma_mul_inequality(k, c, m);
    assert(k * m == m * k && c * m == m * c && 0 <= m * k) by (nonlinear_arith)
        requires
            0 <= m,
            0 <= k,
    ;
    lemma_div_is_ordered(m * k, m * c, c);
    lemma_div_is_ordered(0, m * k, c);
    lemma_div_multiples_vanish(m, c);
}

proof fn lemma_cube_double(a: int)
    ensures
        cube(2 * a) == 8 * cube(a),
{
    assert((2 * a) * (2 * a) * (2 * a) == 8 * (a * a * a)) by (nonlinear_arith);
}

/// Before the midpoint the curve stays below half of its scale, from the
/// midpoint on it stays at or above half, and it never leaves `[0, duration³]`.
proof fn lemma_eased_halves(elapsed: int, duration: int)
    requires
        0 <= elapsed <= duration,
    ensures
        2 * elapsed < duration ==> 0 <= 2 * eased(elapsed, duration) < cube(duration),
        2 * elapsed >= duration ==> cube(duration) <= 2 * eased(elapsed, duration),
        0 <= eased(elapsed, duration) <= cube(duration),
{
    lemma_cube_monotonic(0, elapsed);
    lemma_cube_double(elapsed);
    lemma_cube_double(duration - elapsed);
    lemma_cube_monotonic(0, duration - elapsed);
    if 2 * elapsed < duration {
        assert(cube(2 * elapsed) < cube(duration)) by (nonlinear_arith)
            requires
                0 <= 2 * elapsed < duration,
        ;
    } else {
        lemma_cube_monotonic(2 * (duration - elapsed), duration);
    }
}

/// Evaluates the cubic ease-in-out curve at `elapsed / duration`, scaled by
/// `duration³` so that the result is exact.
pub fn ease_in_out_cubic(elapsed: u64, duration: u64) -> (r: u64)
    requires
        0 < duration <= MAX_EASING_DURATION,
        elapsed <= duration,
    ensures
        r == eased(elapsed as int, duration as int),
        r <= cube(duration as int),
{
    proof {
        lemma_eased_halves(elapsed as int, duration as int);
        lemma_cube_monotonic(duration as int, MAX_EASING_DURATION as int);
        lemma_cube_monotonic(elapsed as int, duration as int);
        lemma_cube_monotonic((duration - elapsed) as int, duration as int);
        lemma_square_bound(duration as int);
        lemma_square_bound(elapsed as int);
        lemma_square_bound((duration - elapsed) as int);
    }
    let full: u64 = duration * duration * duration;
    if 2 * elapsed < duration {
        4 * (elapsed * elapsed * elapsed)
    } else {
        let rest: u64 = duration - elapsed;
        full - 4 * (rest * rest * rest)
    }
}

/// Moves from `start` toward `end` by the eased fraction of the distance at
/// `elapsed` of `duration`. The result lies between the two.
pub fn interpolate(start: i64, end: i64, elapsed: u64, duration: u64) -> (r: i64)
    requires
        0 < duration <= MAX_EASING_DURATION,
        elapsed <= duration,
    ensures
        r == interpolated(start as int, end as int, elapsed as int, duration as int),
        start <= end ==> start <= r <= end,
        end < start ==> end <= r <= start,
{
    let k: u64 = ease_in_out_cubic(elapsed, duration);
    proof {
        lemma_cube_monotonic(duration as int, MAX_EASING_DURATION as int);
        lemma_square_bound(duration as int);
        let d = duration as int;
        assert(d * d * d > 0) by (nonlinear_arith)
            requires
                d > 0,
        ;
    }
    let c: u128 = (duration as u128) * (duration as u128) * (duration as u128);
    assert(c == cube(duration as int));
    let mag: u128 = if start <= end {
        (end as i128 - start as i128) as u128
    } else {
        (start as i128 - end as i128) as u128
    };
    proof {
        let (m, kk) = (mag as int, k as int);
        assert(m * kk <= 18_446_744_073_709_551_615 * 1_000_000_000_000_000_000) by (
        nonlinear_arith)
            requires
                0 <= m <= 18_446_744_073_709_551_615,
                0 <= kk <= 1_000_000_000_000_000_000,
        ;
        lemma_scaled_fraction(m, kk, c as int);
    }
    let off: u128 = mag * (k as u128) / c;
    if start <= end {
        (start as i128 + off as i128) as i64
    } else {
        (start as i128 - off as i128) as i64
    }
}

/// The curve starts at zero, ends at its full scale, and passes through half of
/// it at the midpoint.
pub proof fn lemma_ease_endpoints(duration: int)
    requires
        0 < duration,
    ensures
        eased(0, duration) == 0,
        eased(duration, duration) == cube(duration),
        duration % 2 == 0 ==> 2 * eased(duration / 2, duration) == cube(duration),
{
    lemma_cube_double(duration / 2);
}

/// The curve is symmetric about its midpoint: `f(t) = 1 - f(1 - t)`.
pub proof fn lemma_ease_symmetric(elapsed: int, duration: int)
    requires
        0 <= elapsed <= duration,
    ensures
        eased(elapsed, duration) + eased(duration - elapsed, duration) == cube(duration),
{
    if 2 * elapsed == duration {
        lemma_cube_double(elapsed);
    }
}

/// The curve never goes down as time goes on.
pub proof fn lemma_ease_monotonic(earlier: int, later: int, duration: int)
    requires
        0 <= earlier <= later <= duration,
    ensures
        eased(earlier, duration) <= eased(later, duration),
{
    lemma_eased_halves(earlier, duration);
    lemma_eased_halves(later, duration);
    if 2 * later < duration {
        lemma_cube_monotonic(earlier, later);
    } else if 2 * earlier >= duration {
        lemma_cube_monotonic(duration - later, duration - earlier);
    }
}

} // verus!
