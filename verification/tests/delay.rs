//! The delay effect: echoes, feedback scaling, and boundedness.

use kira::effect::delay::{Delay, DelaySettings};
use kira::effect::filter::{Filter, FilterSettings};
use kira::frame::{Frame, FIXED_ONE, NANOS_PER_SEC};
use kira::value::{CachedValue, Parameters, ParameterId, Value};

fn one_sample_delay(feedback: i64) -> Delay {
    // At 2 frames per second a half-second delay is exactly one sample.
    let mut delay = Delay::new(
        DelaySettings::new()
            .delay_time(Value::Fixed(500_000_000))
            .feedback(Value::Fixed(feedback))
            .buffer_length(10 * NANOS_PER_SEC),
    );
    delay.init(2);
    delay
}

#[test]
fn echo_scaled_by_feedback() {
    let mut delay = one_sample_delay(2048);
    let parameters = Parameters::new();
    let dt = 500_000_000;
    let mut outputs: Vec<i64> = Vec::new();
    for step in 0..10 {
        let input = if step == 0 {
            Frame::from_mono(FIXED_ONE)
        } else {
            Frame::zero()
        };
        outputs.push(delay.process(input, dt, &parameters).left);
    }
    // The impulse returns one delay later, then keeps echoing, each pass
    // scaled by the feedback of one half.
    assert_eq!(outputs, vec![0, 0, 4096, 0, 2048, 0, 1024, 0, 512, 0]);
}

#[test]
fn unit_feedback_recirculates_without_decay() {
    let mut delay = one_sample_delay(FIXED_ONE);
    let parameters = Parameters::new();
    let dt = 500_000_000;
    let mut outputs: Vec<i64> = Vec::new();
    for step in 0..13 {
        let input = if step == 0 {
            Frame::from_mono(FIXED_ONE)
        } else {
            Frame::zero()
        };
        outputs.push(delay.process(input, dt, &parameters).left);
    }
    assert_eq!(
        outputs,
        vec![0, 0, 4096, 0, 4096, 0, 4096, 0, 4096, 0, 4096, 0, 4096]
    );
}

#[test]
fn half_second_echo_at_audio_rate() {
    // A half-second delay at 44100 frames per second, stepped with the
    // matching sample period (in whole nanoseconds): the impulse comes back
    // about half a second — 22050 samples — later, split over two samples
    // by the fractional read offset.
    let mut delay = Delay::new(
        DelaySettings::new()
            .delay_time(Value::Fixed(500_000_000))
            .feedback(Value::Fixed(2048))
            .buffer_length(10 * NANOS_PER_SEC),
    );
    delay.init(44100);
    let parameters = Parameters::new();
    let dt = NANOS_PER_SEC / 44100;
    let mut first_echo: Vec<(usize, i64)> = Vec::new();
    for step in 0..22100 {
        let input = if step == 0 {
            Frame::from_mono(FIXED_ONE)
        } else {
            Frame::zero()
        };
        let out = delay.process(input, dt, &parameters).left;
        if out != 0 {
            first_echo.push((step, out));
        }
    }
    assert_eq!(first_echo, vec![(22051, 1098), (22052, 3414)]);
}

#[test]
fn bounded_output_with_feedback_below_one() {
    // Feedback 0.9; inputs bounded by FIXED_ONE. The bound b satisfies
    // in_bound + b * feedback / FIXED_ONE <= b.
    let feedback = 3686;
    let b = 4096 * 4096 / (4096 - feedback) + 1;
    let mut delay = one_sample_delay(feedback);
    let parameters = Parameters::new();
    let dt = 500_000_000;
    for step in 0..2000u64 {
        let sample = match step % 4 {
            0 => FIXED_ONE,
            1 => -FIXED_ONE,
            2 => FIXED_ONE / 2,
            _ => -FIXED_ONE / 3,
        };
        let out = delay.process(Frame::from_mono(sample), dt, &parameters);
        assert!(out.left.abs() <= b && out.right.abs() <= b);
    }
}

#[test]
fn delay_time_follows_a_parameter() {
    let id = ParameterId(3);
    let mut delay = Delay::new(
        DelaySettings::new()
            .delay_time(Value::Parameter(id))
            .feedback(Value::Fixed(0))
            .buffer_length(10 * NANOS_PER_SEC),
    );
    delay.init(2);
    let mut parameters = Parameters::new();
    // One sample of delay, set through the parameter source.
    parameters.set(id, 500_000_000);
    let dt = 500_000_000;
    let mut outputs: Vec<i64> = Vec::new();
    for step in 0..4 {
        let input = if step == 0 {
            Frame::from_mono(100)
        } else {
            Frame::zero()
        };
        outputs.push(delay.process(input, dt, &parameters).left);
    }
    assert_eq!(outputs, vec![0, 0, 100, 0]);
}

#[test]
fn delay_settings_defaults_and_builders() {
    let settings = DelaySettings::new();
    assert!(matches!(settings.delay_time, Value::Fixed(500_000_000)));
    assert!(matches!(settings.feedback, Value::Fixed(2048)));
    assert_eq!(settings.buffer_length, 10_000_000_000);
    assert!(settings.filter_settings.is_none());
    let settings = DelaySettings::default()
        .delay_time(Value::Fixed(250_000_000))
        .feedback(Value::Fixed(-4096))
        .buffer_length(NANOS_PER_SEC)
        .filter_settings(Some(FilterSettings::new()));
    assert!(matches!(settings.delay_time, Value::Fixed(250_000_000)));
    assert!(matches!(settings.feedback, Value::Fixed(-4096)));
    assert_eq!(settings.buffer_length, 1_000_000_000);
    assert!(settings.filter_settings.is_some());
}

#[test]
fn filter_smooths_toward_input() {
    let mut filter = Filter::new(FilterSettings::new().coefficient(Value::Fixed(2048)));
    let parameters = Parameters::new();
    let out1 = filter.process(Frame::from_mono(4096), 1, &parameters);
    assert_eq!(out1, Frame::from_mono(2048));
    let out2 = filter.process(Frame::from_mono(4096), 1, &parameters);
    assert_eq!(out2, Frame::from_mono(3072));
    // A coefficient of one tracks the input exactly.
    let mut tracking = Filter::new(FilterSettings::new().coefficient(Value::Fixed(FIXED_ONE)));
    assert_eq!(tracking.process(Frame::new(-5, 9), 1, &parameters), Frame::new(-5, 9));
}

#[test]
fn filtered_feedback_darkens_echoes() {
    let mut delay = Delay::new(
        DelaySettings::new()
            .delay_time(Value::Fixed(500_000_000))
            .feedback(Value::Fixed(FIXED_ONE))
            .buffer_length(10 * NANOS_PER_SEC)
            .filter_settings(Some(FilterSettings::new().coefficient(Value::Fixed(2048)))),
    );
    delay.init(2);
    let parameters = Parameters::new();
    let dt = 500_000_000;
    let mut outputs: Vec<i64> = Vec::new();
    for step in 0..7 {
        let input = if step == 0 {
            Frame::from_mono(FIXED_ONE)
        } else {
            Frame::zero()
        };
        outputs.push(delay.process(input, dt, &parameters).left);
    }
    // The filter sits inside the feedback loop, so each echo is smoothed
    // again: even with unit feedback the peaks no longer repeat unchanged,
    // and the filter rings between them.
    assert_eq!(outputs, vec![0, 0, 2048, 1024, 1536, 1280, 1408]);
}

#[test]
fn cached_value_clamps_to_range() {
    let cached = CachedValue::new(-FIXED_ONE, FIXED_ONE, Value::Fixed(10_000), 99_999);
    assert_eq!(cached.get(), FIXED_ONE);
    let mut cached = CachedValue::new(0, 100, Value::Fixed(-7), 50);
    assert_eq!(cached.get(), 50);
    let parameters = Parameters::new();
    cached.update(&parameters);
    assert_eq!(cached.get(), 0);
    let id = ParameterId(9);
    let mut cached = CachedValue::new(0, 100, Value::Parameter(id), 50);
    let mut parameters = Parameters::new();
    // No value for the parameter yet: the previous snapshot is kept.
    cached.update(&parameters);
    assert_eq!(cached.get(), 50);
    parameters.set(id, 940);
    cached.update(&parameters);
    assert_eq!(cached.get(), 100);
    parameters.set(id, 41);
    cached.update(&parameters);
    assert_eq!(cached.get(), 41);
}

#[test]
fn initial_cached_values_apply_before_first_parameter() {
    // Both settings track a parameter that has no value yet, so the delay
    // runs on its initial cached values: half a second of delay (one
    // sample at 2 frames per second) and feedback of one half.
    let id = ParameterId(11);
    let mut delay = Delay::new(
        DelaySettings::new()
            .delay_time(Value::Parameter(id))
            .feedback(Value::Parameter(id))
            .buffer_length(10 * NANOS_PER_SEC),
    );
    delay.init(2);
    let parameters = Parameters::new();
    let dt = 500_000_000;
    let mut outputs: Vec<i64> = Vec::new();
    for step in 0..7 {
        let input = if step == 0 {
            Frame::from_mono(FIXED_ONE)
        } else {
            Frame::zero()
        };
        outputs.push(delay.process(input, dt, &parameters).left);
    }
    assert_eq!(outputs, vec![0, 0, 4096, 0, 2048, 0, 1024]);
}
