//! Stereo audio frames with fixed-point arithmetic.

use vstd::prelude::*;

verus! {

/// The fixed-point representation of the amplitude 1. Samples, feedback
/// amounts and interpolation fractions are all integers scaled by this value.
pub const FIXED_ONE: i64 = 4096;

/// Nanoseconds in one second; positions, durations and block steps are
/// integer nanosecond counts.
pub const NANOS_PER_SEC: u64 = 1_000_000_000;

/// The result of saturating an unbounded integer into the `i64` range.
pub open spec fn sat64(x: int) -> int {
    if x > i64::MAX {
        i64::MAX as int
    } else if x < i64::MIN {
        i64::MIN as int
    } else {
        x
    }
}

/// Division by [`FIXED_ONE`] that truncates toward zero, matching what the
/// executable fixed-point operations compute on negative values.
pub open spec fn div_fixed(x: int) -> int {
    if x >= 0 {
        x / (FIXED_ONE as int)
    } else {
        -((-x) / (FIXED_ONE as int))
    }
}

/// A sample scaled by a fixed-point factor: `x * k / FIXED_ONE`, truncated
/// toward zero and saturated into `i64`.
pub open spec fn spec_scale_sample(x: int, k: int) -> int {
    sat64(div_fixed(x * k))
}

/// A saturating sum of two samples.
pub open spec fn spec_add_sample(x: int, y: int) -> int {
    sat64(x + y)
}

/// Scaling a sample within `b` by a factor of magnitude `|k|` yields a
/// sample within `b * |k| / FIXED_ONE`.
pub proof fn lemma_scale_sample_bound(x: int, k: int, b: int)
    requires
        -b <= x <= b,
    ensures
        -div_fixed(b * vstd::math::abs(k)) <= spec_scale_sample(x, k) <= div_fixed(
            b * vstd::math::abs(k),
        ),
{
    let a = vstd::math::abs(k) as int;
    let y = x * k;
    assert(-(b * a) <= y <= b * a) by (nonlinear_arith)
        requires
            -b <= x <= b,
            y == x * k,
            a == vstd::math::abs(k),
    ;
    assert(b * a >= 0) by (nonlinear_arith)
        requires
            a >= 0,
            b >= 0,
    ;
    if y >= 0 {
        vstd::arithmetic::div_mod::lemma_div_is_ordered(y, b * a, FIXED_ONE as int);
        vstd::arithmetic::div_mod::lemma_div_pos_is_pos(y, FIXED_ONE as int);
    } else {
        vstd::arithmetic::div_mod::lemma_div_is_ordered(-y, b * a, FIXED_ONE as int);
        vstd::arithmetic::div_mod::lemma_div_pos_is_pos(-y, FIXED_ONE as int);
    }
    vstd::arithmetic::div_mod::lemma_div_pos_is_pos(b * a, FIXED_ONE as int);
}

/// One stereo sample pair. Samples are fixed-point integers: the amplitude 1
/// is [`FIXED_ONE`].
#[derive(Clone, Copy, PartialEq, Eq, Structural, Debug)]
pub struct Frame {
    /// The sample for the left channel.
    pub left: i64,
    /// The sample for the right channel.
    pub right: i64,
}

/// Saturating addition of two samples.
fn add_sample(x: i64, y: i64) -> (r: i64)
    ensures
        r == spec_add_sample(x as int, y as int),
{
    if y >= 0 {
        if x > i64::MAX - y {
            i64::MAX
        } else {
            x + y
        }
    } else {
        if x < i64::MIN - y {
            i64::MIN
        } else {
            x + y
        }
    }
}

/// A sample scaled by a fixed-point factor, truncating toward zero and
/// saturating into the sample range.
fn scale_sample(x: i64, k: i64) -> (r: i64)
    ensures
        r == spec_scale_sample(x as int, k as int),
{
    proof {
        assert((-0x4000_0000_0000_0000_0000_0000_0000_0000int) <= (x as int) * (k as int)
            <= 0x4000_0000_0000_0000_0000_0000_0000_0000int) by (nonlinear_arith)
            requires
                (-0x8000_0000_0000_0000int) <= x <= 0x7FFF_FFFF_FFFF_FFFFint,
                (-0x8000_0000_0000_0000int) <= k <= 0x7FFF_FFFF_FFFF_FFFFint,
        ;
    }
    let product: i128 = x as i128 * k as i128;
    if product >= 0 {
        let q: u128 = product as u128 / FIXED_ONE as u128;
        if q > i64::MAX as u128 {
            i64::MAX
        } else {
            q as i64
        }
    } else {
        let q: u128 = (-product) as u128 / FIXED_ONE as u128;
        if q >= 9_223_372_036_854_775_808u128 {
            i64::MIN
        } else {
            -(q as i64)
        }
    }
}

impl Frame {
    /// The silent frame.
    pub fn zero() -> (r: Frame)
        ensures
            r == (Frame { left: 0i64, right: 0i64 }),
    {
        Frame { left: 0, right: 0 }
    }

    /// A frame from one sample per channel.
    pub fn new(left: i64, right: i64) -> (r: Frame)
        ensures
            r == (Frame { left, right }),
    {
        Frame { left, right }
    }

    /// A frame that plays the same sample on both channels.
    pub fn from_mono(sample: i64) -> (r: Frame)
        ensures
            r == (Frame { left: sample, right: sample }),
    {
        Frame { left: sample, right: sample }
    }

    /// What adding two frames yields: each channel is the saturating sum.
    pub open spec fn spec_add(self, other: Frame) -> Frame {
        Frame {
            left: spec_add_sample(self.left as int, other.left as int) as i64,
            right: spec_add_sample(self.right as int, other.right as int) as i64,
        }
    }

    /// Adds two frames channel by channel, saturating at the sample range.
    pub fn add(self, other: Frame) -> (r: Frame)
        ensures
            r == self.spec_add(other),
    {
        Frame { left: add_sample(self.left, other.left), right: add_sample(self.right, other.right) }
    }

    /// What scaling a frame yields: each channel is multiplied by the
    /// fixed-point factor `k` (so `k == FIXED_ONE` leaves it unchanged up to
    /// saturation), truncating toward zero.
    pub open spec fn spec_scale(self, k: int) -> Frame {
        Frame {
            left: spec_scale_sample(self.left as int, k) as i64,
            right: spec_scale_sample(self.right as int, k) as i64,
        }
    }

    /// Scales a frame by a fixed-point factor.
    pub fn scale(self, k: i64) -> (r: Frame)
        ensures
            r == self.spec_scale(k as int),
    {
        Frame { left: scale_sample(self.left, k), right: scale_sample(self.right, k) }
    }

    /// Whether both channels lie within the magnitude bound `b`.
    pub open spec fn within(self, b: int) -> bool {
        -b <= self.left <= b && -b <= self.right <= b
    }
}

} // verus!
