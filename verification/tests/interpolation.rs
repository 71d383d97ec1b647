//! The fractional-position interpolation primitive.

use kira::frame::{Frame, FIXED_ONE};
use kira::util::interpolate_frame;

#[test]
fn fraction_zero_returns_current() {
    let previous = Frame::from_mono(-3000);
    let current = Frame::new(123, -456);
    let next_1 = Frame::from_mono(9999);
    let next_2 = Frame::from_mono(-9999);
    assert_eq!(interpolate_frame(previous, current, next_1, next_2, 0), current);
}

#[test]
fn equal_samples_return_that_sample() {
    let x = Frame::new(777, -777);
    for fraction in [0, 1, 1024, 2048, 3000, FIXED_ONE - 1] {
        assert_eq!(interpolate_frame(x, x, x, x, fraction), x);
    }
}

#[test]
fn midpoint_of_a_step() {
    // A step from 0 up to full scale, sampled halfway: the cubic lands
    // exactly in the middle here.
    let lo = Frame::from_mono(0);
    let hi = Frame::from_mono(FIXED_ONE);
    assert_eq!(interpolate_frame(lo, lo, hi, hi, 2048), Frame::from_mono(2048));
}

#[test]
fn result_never_leaves_the_middle_samples() {
    // A spike in the outer samples would make the raw cubic overshoot; the
    // result stays clamped to the interval spanned by the middle two.
    let out = interpolate_frame(
        Frame::from_mono(FIXED_ONE),
        Frame::from_mono(0),
        Frame::from_mono(0),
        Frame::from_mono(FIXED_ONE),
        2048,
    );
    assert_eq!(out, Frame::from_mono(0));
    for fraction in [0, 512, 2048, 4095] {
        let r = interpolate_frame(
            Frame::from_mono(i64::MAX),
            Frame::from_mono(-100),
            Frame::from_mono(100),
            Frame::from_mono(i64::MIN),
            fraction,
        );
        assert!(-100 <= r.left && r.left <= 100);
        assert!(-100 <= r.right && r.right <= 100);
    }
}

#[test]
fn frame_arithmetic() {
    let a = Frame::new(100, -200);
    let b = Frame::new(50, 75);
    assert_eq!(a.add(b), Frame::new(150, -125));
    assert_eq!(Frame::from_mono(1000).scale(2048), Frame::from_mono(500));
    assert_eq!(Frame::from_mono(-1000).scale(2048), Frame::from_mono(-500));
    assert_eq!(Frame::from_mono(1001).scale(-4096), Frame::from_mono(-1001));
    // Saturation at the sample range.
    assert_eq!(Frame::from_mono(i64::MAX).add(Frame::from_mono(1)), Frame::from_mono(i64::MAX));
    assert_eq!(Frame::from_mono(i64::MIN).add(Frame::from_mono(-1)), Frame::from_mono(i64::MIN));
    assert_eq!(Frame::from_mono(i64::MAX).scale(2 * FIXED_ONE), Frame::from_mono(i64::MAX));
}
