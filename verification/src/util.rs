//! The shared fractional-position interpolation primitive.
//!
//! Sample playback and the delay line both read their buffers at fractional
//! positions: given the four consecutive samples around the read position and
//! the fractional offset between the two middle ones, [`interpolate_frame`]
//! produces a smoothed estimate of the signal between them.
//!
//! The curve is a cubic through the four points, evaluated in fixed point,
//! with the result clamped to the interval spanned by the two middle samples.
//! The clamp keeps the interpolator from overshooting the samples it reads,
//! which is what lets a feedback loop built on it stay bounded.

use vstd::prelude::*;

use crate::frame::{Frame, FIXED_ONE};

verus! {

/// The smaller of the two middle samples: the low end of the clamp interval.
pub open spec fn bracket_lo(c: int, n1: int) -> int {
    if c <= n1 {
        c
    } else {
        n1
    }
}

/// The larger of the two middle samples: the high end of the clamp interval.
pub open spec fn bracket_hi(c: int, n1: int) -> int {
    if c <= n1 {
        n1
    } else {
        c
    }
}

/// Multiplication by a fraction `f / FIXED_ONE`, truncated toward zero.
pub open spec fn spec_scale_frac(x: int, f: int) -> int {
    if x >= 0 {
        (x * f) / (FIXED_ONE as int)
    } else {
        -(((-x) * f) / (FIXED_ONE as int))
    }
}

/// Division by two, truncated toward zero.
pub open spec fn spec_half(x: int) -> int {
    if x >= 0 {
        x / 2
    } else {
        -((-x) / 2)
    }
}

/// The cubic's offset from the current sample at fraction `f`: the three
/// curve coefficients are held doubled so that they stay integers, and the
/// polynomial is evaluated nested, scaling by `f` at each step.
pub open spec fn spec_curve(p: int, c: int, n1: int, n2: int, f: int) -> int {
    let c1x2 = n1 - p;
    let c2x2 = 2 * p - 5 * c + 4 * n1 - n2;
    let c3x2 = (n2 - p) + 3 * (c - n1);
    spec_half(
        spec_scale_frac(spec_scale_frac(spec_scale_frac(c3x2, f) + c2x2, f) + c1x2, f),
    )
}

/// What interpolating one channel yields: the cubic estimate, clamped to the
/// interval spanned by the two middle samples.
pub open spec fn spec_interpolate_sample(p: int, c: int, n1: int, n2: int, f: int) -> int {
    let raw = c + spec_curve(p, c, n1, n2, f);
    if raw < bracket_lo(c, n1) {
        bracket_lo(c, n1)
    } else if raw > bracket_hi(c, n1) {
        bracket_hi(c, n1)
    } else {
        raw
    }
}

/// What interpolating a frame yields: each channel interpolated on its own.
pub open spec fn spec_interpolate_frame(
    previous: Frame,
    current: Frame,
    next_1: Frame,
    next_2: Frame,
    f: int,
) -> Frame {
    Frame {
        left: spec_interpolate_sample(
            previous.left as int,
            current.left as int,
            next_1.left as int,
            next_2.left as int,
            f,
        ) as i64,
        right: spec_interpolate_sample(
            previous.right as int,
            current.right as int,
            next_1.right as int,
            next_2.right as int,
            f,
        ) as i64,
    }
}

/// `x * f / FIXED_ONE` truncated toward zero, on a bounded intermediate value.
pub(crate) fn scale_frac(x: i128, f: i64) -> (r: i128)
    requires
        0 <= f <= FIXED_ONE,
        (-0x1000_0000_0000_0000_0000_0000int) <= x <= 0x1000_0000_0000_0000_0000_0000int,
    ensures
        r == spec_scale_frac(x as int, f as int),
        x >= 0 ==> 0 <= r <= x,
        x < 0 ==> x <= r <= 0,
{
    proof {
        assert(x >= 0 ==> (x as int) * (f as int) <= (x as int) * (FIXED_ONE as int))
            by (nonlinear_arith)
            requires
                0 <= f <= FIXED_ONE,
        ;
        assert(x < 0 ==> (-(x as int)) * (f as int) <= (-(x as int)) * (FIXED_ONE as int))
            by (nonlinear_arith)
            requires
                0 <= f <= FIXED_ONE,
        ;
        assert(x >= 0 ==> (x as int) * (f as int) >= 0) by (nonlinear_arith)
            requires
                0 <= f,
        ;
        assert(x < 0 ==> (-(x as int)) * (f as int) >= 0) by (nonlinear_arith)
            requires
                0 <= f,
        ;
    }
    if x >= 0 {
        let q: u128 = (x as u128 * f as u128) / FIXED_ONE as u128;
        proof {
            assert((x as int) * (FIXED_ONE as int) / (FIXED_ONE as int) == x as int);
            vstd::arithmetic::div_mod::lemma_div_is_ordered(
                (x as int) * (f as int),
                (x as int) * (FIXED_ONE as int),
                FIXED_ONE as int,
            );
        }
        q as i128
    } else {
        let q: u128 = ((-x) as u128 * f as u128) / FIXED_ONE as u128;
        proof {
            assert((-(x as int)) * (FIXED_ONE as int) / (FIXED_ONE as int) == -(x as int));
            vstd::arithmetic::div_mod::lemma_div_is_ordered(
                (-(x as int)) * (f as int),
                (-(x as int)) * (FIXED_ONE as int),
                FIXED_ONE as int,
            );
        }
        -(q as i128)
    }
}

/// One channel of the interpolation: the cubic estimate at fraction
/// `f / FIXED_ONE`, clamped to the interval spanned by `c` and `n1`.
fn interpolate_sample(p: i64, c: i64, n1: i64, n2: i64, f: i64) -> (r: i64)
    requires
        0 <= f < FIXED_ONE,
    ensures
        r == spec_interpolate_sample(p as int, c as int, n1 as int, n2 as int, f as int),
{
    let c1x2: i128 = n1 as i128 - p as i128;
    let c2x2: i128 = 2 * (p as i128) - 5 * (c as i128) + 4 * (n1 as i128) - n2 as i128;
    let c3x2: i128 = (n2 as i128 - p as i128) + 3 * ((c as i128) - (n1 as i128));
    let t1: i128 = scale_frac(c3x2, f);
    let t2: i128 = scale_frac(t1 + c2x2, f);
    let t3: i128 = scale_frac(t2 + c1x2, f);
    let half: i128 = if t3 >= 0 {
        (t3 as u128 / 2) as i128
    } else {
        -(((-t3) as u128 / 2) as i128)
    };
    let raw: i128 = c as i128 + half;
    let lo: i128 = if c <= n1 {
        c as i128
    } else {
        n1 as i128
    };
    let hi: i128 = if c <= n1 {
        n1 as i128
    } else {
        c as i128
    };
    let clamped: i128 = if raw < lo {
        lo
    } else if raw > hi {
        hi
    } else {
        raw
    };
    clamped as i64
}

/// Given the four consecutive frames around a fractional read position and
/// the fractional offset `fraction / FIXED_ONE` between `current` and
/// `next_1`, produces a smoothed estimate of the signal between them.
///
/// At fraction 0 this returns `current` exactly, and each channel of the
/// result always lies between the corresponding channels of `current` and
/// `next_1`.
pub fn interpolate_frame(
    previous: Frame,
    current: Frame,
    next_1: Frame,
    next_2: Frame,
    fraction: i64,
) -> (r: Frame)
    requires
        0 <= fraction < FIXED_ONE,
    ensures
        r == spec_interpolate_frame(previous, current, next_1, next_2, fraction as int),
{
    Frame {
        left: interpolate_sample(
            previous.left,
            current.left,
            next_1.left,
            next_2.left,
            fraction,
        ),
        right: interpolate_sample(
            previous.right,
            current.right,
            next_1.right,
            next_2.right,
            fraction,
        ),
    }
}

/// Interpolation identity, first half: at fractional offset 0 the
/// interpolator returns exactly the current frame.
pub proof fn lemma_interpolate_at_zero(previous: Frame, current: Frame, next_1: Frame, next_2: Frame)
    ensures
        spec_interpolate_frame(previous, current, next_1, next_2, 0) == current,
{
}

/// Interpolation identity, second half: when all four input frames are
/// equal, the interpolator returns that frame regardless of the offset.
pub proof fn lemma_interpolate_constant(x: Frame, f: int)
    requires
        0 <= f < FIXED_ONE,
    ensures
        spec_interpolate_frame(x, x, x, x, f) == x,
{
}

/// The fractional scaling lies between zero and its argument: scaling by a
/// fraction of at most one can only move a value toward zero.
pub proof fn lemma_scale_frac_between(x: int, f: int)
    requires
        0 <= f <= FIXED_ONE,
    ensures
        x >= 0 ==> 0 <= spec_scale_frac(x, f) <= x,
        x < 0 ==> x <= spec_scale_frac(x, f) <= 0,
{
    if x >= 0 {
        assert(0 <= x * f <= x * (FIXED_ONE as int)) by (nonlinear_arith)
            requires
                x >= 0,
                0 <= f <= FIXED_ONE,
        ;
        vstd::arithmetic::div_mod::lemma_div_is_ordered(x * f, x * (FIXED_ONE as int), FIXED_ONE as int);
        vstd::arithmetic::div_mod::lemma_div_multiples_vanish(x, FIXED_ONE as int);
        vstd::arithmetic::div_mod::lemma_div_pos_is_pos(x * f, FIXED_ONE as int);
    } else {
        assert(0 <= (-x) * f <= (-x) * (FIXED_ONE as int)) by (nonlinear_arith)
            requires
                x < 0,
                0 <= f <= FIXED_ONE,
        ;
        vstd::arithmetic::div_mod::lemma_div_is_ordered((-x) * f, (-x) * (FIXED_ONE as int), FIXED_ONE as int);
        vstd::arithmetic::div_mod::lemma_div_multiples_vanish(-x, FIXED_ONE as int);
        vstd::arithmetic::div_mod::lemma_div_pos_is_pos((-x) * f, FIXED_ONE as int);
    }
}

/// The interpolator never leaves the interval spanned by the two middle
/// samples, so it cannot amplify: a magnitude bound on `current` and
/// `next_1` is a magnitude bound on the result.
pub proof fn lemma_interpolate_within(
    previous: Frame,
    current: Frame,
    next_1: Frame,
    next_2: Frame,
    f: int,
    b: int,
)
    requires
        0 <= f < FIXED_ONE,
        current.within(b),
        next_1.within(b),
    ensures
        spec_interpolate_frame(previous, current, next_1, next_2, f).within(b),
{
}

} // verus!
