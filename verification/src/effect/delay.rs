//! Adds echoes to a sound.
//!
//! The delay keeps a circular buffer of recent output, reads it back a
//! configurable time in the past (interpolating between samples, so the
//! delay time need not be a whole number of samples), and feeds the delayed
//! signal — optionally filtered — back into the buffer scaled by the
//! feedback amount.

use vstd::prelude::*;

use crate::effect::filter::{Filter, FilterSettings};
use crate::frame::{div_fixed, spec_scale_sample, Frame, FIXED_ONE, NANOS_PER_SEC};
use crate::util::{interpolate_frame, spec_interpolate_frame};
use crate::value::{CachedValue, Parameters, Value};

verus! {

/// Settings for a [`Delay`] effect.
#[derive(Debug, Clone, Copy)]
pub struct DelaySettings {
    /// The delay time, in nanoseconds.
    pub delay_time: Value,
    /// The amount of feedback, as a fixed-point factor in `[-1, 1]`.
    pub feedback: Value,
    /// The amount of audio the delay can store, in nanoseconds.
    /// This affects the maximum delay time.
    pub buffer_length: u64,
    /// Whether a filter should be added to the feedback loop,
    /// and if so, the settings to use for the filter.
    pub filter_settings: Option<FilterSettings>,
}

impl DelaySettings {
    /// Creates a new `DelaySettings` with the default settings.
    pub fn new() -> (r: DelaySettings)
        ensures
            r == DelaySettings::spec_default(),
    {
        DelaySettings {
            delay_time: Value::Fixed(500_000_000),
            feedback: Value::Fixed(2048),
            buffer_length: 10_000_000_000,
            filter_settings: None,
        }
    }

    /// The default settings: half a second of delay, feedback of one half,
    /// ten seconds of buffer, and no filter.
    pub open spec fn spec_default() -> DelaySettings {
        DelaySettings {
            delay_time: Value::Fixed(500_000_000i64),
            feedback: Value::Fixed(2048i64),
            buffer_length: 10_000_000_000u64,
            filter_settings: None,
        }
    }

    /// Sets the delay time (in nanoseconds).
    pub fn delay_time(self, delay_time: Value) -> (r: DelaySettings)
        ensures
            r == (DelaySettings { delay_time, ..self }),
    {
        DelaySettings { delay_time, ..self }
    }

    /// Sets the amount of feedback.
    pub fn feedback(self, feedback: Value) -> (r: DelaySettings)
        ensures
            r == (DelaySettings { feedback, ..self }),
    {
        DelaySettings { feedback, ..self }
    }

    /// Sets the amount of audio the delay can store.
    pub fn buffer_length(self, buffer_length: u64) -> (r: DelaySettings)
        ensures
            r == (DelaySettings { buffer_length, ..self }),
    {
        DelaySettings { buffer_length, ..self }
    }

    /// Sets whether a filter should be added to the feedback loop,
    /// and if so, the settings to use for the filter.
    pub fn filter_settings(self, filter_settings: Option<FilterSettings>) -> (r: DelaySettings)
        ensures
            r == (DelaySettings { filter_settings, ..self }),
    {
        DelaySettings { filter_settings, ..self }
    }
}

impl Default for DelaySettings {
    /// The default settings.
    fn default() -> (r: DelaySettings)
        ensures
            r == DelaySettings::spec_default(),
    {
        DelaySettings::new()
    }
}

/// Where the delay is in its one-way initialization.
#[derive(Debug, Clone)]
pub enum DelayState {
    /// Not initialized yet: the buffer cannot be allocated until the sample
    /// rate is known.
    Uninitialized {
        /// The amount of audio the buffer will hold, in nanoseconds.
        buffer_length: u64,
    },
    /// Initialized: the circular buffer exists and processing may run.
    Initialized {
        /// The circular audio buffer.
        buffer: Vec<Frame>,
        /// The buffer index that was written last.
        write_position: usize,
    },
}

/// The state an initialized delay steps through, with the buffer as a
/// mathematical sequence.
pub struct DelayView {
    /// The cached delay time.
    pub delay_time: CachedValue,
    /// The cached feedback amount.
    pub feedback: CachedValue,
    /// The circular buffer's contents.
    pub buffer: Seq<Frame>,
    /// The buffer index that was written last.
    pub write_position: int,
    /// The filter in the feedback loop, if one is configured.
    pub filter: Option<Filter>,
}

/// The delay in samples, scaled by [`FIXED_ONE`]: the cached delay time
/// divided by the sample period, keeping the fractional part.
pub open spec fn spec_delay_samples_fixed(delay_time: i64, dt: u64) -> int {
    (delay_time as int) * (FIXED_ONE as int) / (dt as int)
}

/// The scaled read offset into a circular buffer of `len` samples: the
/// write position minus the delay, wrapped forward into the buffer.
pub open spec fn spec_read_fixed(write_position: int, delay_fixed: int, len: int) -> int {
    let m = len * (FIXED_ONE as int);
    (write_position * (FIXED_ONE as int) + (m - delay_fixed % m)) % m
}

/// An effect that repeats audio after a certain delay. Useful
/// for creating echo effects.
pub struct Delay {
    /// The cached delay time, clamped to be non-negative.
    pub delay_time: CachedValue,
    /// The cached feedback amount, clamped into `[-1, 1]` to bound energy
    /// growth.
    pub feedback: CachedValue,
    /// Where the delay is in its one-way initialization.
    pub state: DelayState,
    /// The filter in the feedback loop, if one is configured.
    pub filter: Option<Filter>,
}

/// The view and output after one sample steps through an initialized delay:
///
/// 1. the cached delay time and feedback are refreshed from the parameters;
/// 2. the read position is the write position minus the delay in samples,
///    wrapped forward into the buffer;
/// 3. the delayed signal is interpolated from the four samples around the
///    read position;
/// 4. the write position advances by one, wrapping at the buffer's end;
/// 5. the delayed signal runs through the filter if one is configured;
/// 6. the input plus the (filtered) delayed signal scaled by the feedback is
///    written at the new write position;
/// 7. the (filtered) delayed signal is the output.
pub open spec fn spec_delay_step(v: DelayView, input: Frame, dt: u64, parameters: Parameters) -> (
    DelayView,
    Frame,
) {
    let delay_time = v.delay_time.spec_updated(parameters);
    let feedback = v.feedback.spec_updated(parameters);
    let len = v.buffer.len() as int;
    let delay_fixed = spec_delay_samples_fixed(delay_time.cached, dt);
    let read = spec_read_fixed(v.write_position, delay_fixed, len);
    let current = read / (FIXED_ONE as int);
    let fraction = read % (FIXED_ONE as int);
    let output = spec_interpolate_frame(
        v.buffer[(current + len - 1) % len],
        v.buffer[current],
        v.buffer[(current + 1) % len],
        v.buffer[(current + 2) % len],
        fraction,
    );
    let filter = match v.filter {
        Some(f) => Some(f.spec_processed(output, parameters)),
        None => None,
    };
    let filtered = match filter {
        Some(f) => f.state,
        None => output,
    };
    let write_position = (v.write_position + 1) % len;
    let written = input.spec_add(filtered.spec_scale(feedback.cached as int));
    (
        DelayView {
            delay_time,
            feedback,
            buffer: v.buffer.update(write_position, written),
            write_position,
            filter,
        },
        filtered,
    )
}

impl Delay {
    /// A well-formed delay: the cached ranges are the documented ones, an
    /// initialized buffer is non-empty, and the write position is in it.
    pub open spec fn wf(self) -> bool {
        &&& self.delay_time.wf()
        &&& self.delay_time.min == 0
        &&& self.delay_time.max == i64::MAX
        &&& self.feedback.wf()
        &&& self.feedback.min == -FIXED_ONE
        &&& self.feedback.max == FIXED_ONE
        &&& match self.state {
            DelayState::Initialized { buffer, write_position } => buffer@.len() >= 1
                && write_position < buffer@.len(),
            DelayState::Uninitialized { .. } => true,
        }
        &&& match self.filter {
            Some(f) => f.wf(),
            None => true,
        }
    }

    /// Whether the one-way transition to `Initialized` has happened.
    pub open spec fn is_initialized(self) -> bool {
        self.state matches DelayState::Initialized { .. }
    }

    /// The state of an initialized delay, with the buffer as a sequence.
    pub open spec fn view(self) -> DelayView {
        DelayView {
            delay_time: self.delay_time,
            feedback: self.feedback,
            buffer: match self.state {
                DelayState::Initialized { buffer, .. } => buffer@,
                DelayState::Uninitialized { .. } => Seq::empty(),
            },
            write_position: match self.state {
                DelayState::Initialized { write_position, .. } => write_position as int,
                DelayState::Uninitialized { .. } => 0,
            },
            filter: self.filter,
        }
    }

    /// Creates a new delay effect. Until the first refresh from the
    /// parameter source, the cached delay time is half a second and the
    /// cached feedback is one half; a configured filter starts silent with
    /// its own initial coefficient.
    pub fn new(settings: DelaySettings) -> (r: Delay)
        ensures
            r.wf(),
            !r.is_initialized(),
            r.state == (DelayState::Uninitialized { buffer_length: settings.buffer_length }),
            r.delay_time.value == settings.delay_time,
            r.delay_time.cached == 500_000_000i64,
            r.feedback.value == settings.feedback,
            r.feedback.cached == 2048i64,
            match settings.filter_settings {
                Some(filter_settings) => r.filter matches Some(f) && f.coefficient.value
                    == filter_settings.coefficient && f.coefficient.cached == 2048i64 && f.state
                    == (Frame { left: 0i64, right: 0i64 }),
                None => r.filter is None,
            },
    {
        Delay {
            delay_time: CachedValue::new(0, i64::MAX, settings.delay_time, 500_000_000),
            feedback: CachedValue::new(-FIXED_ONE, FIXED_ONE, settings.feedback, 2048),
            state: DelayState::Uninitialized { buffer_length: settings.buffer_length },
            filter: match settings.filter_settings {
                Some(filter_settings) => Some(Filter::new(filter_settings)),
                None => None,
            },
        }
    }

    /// The number of samples the buffer holds for a given length and rate.
    pub open spec fn spec_buffer_samples(buffer_length: u64, sample_rate: u32) -> int {
        (buffer_length as int) * (sample_rate as int) / (NANOS_PER_SEC as int)
    }

    /// The one-way transition to `Initialized`, run by the first processing
    /// callback that knows the sample rate: allocates the circular buffer —
    /// `buffer_length * sample_rate` samples, rounded down — filled with
    /// silence. Initializing twice is a protocol violation, so an already
    /// initialized delay is left out by precondition.
    pub fn init(&mut self, sample_rate: u32)
        requires
            old(self).wf(),
            !old(self).is_initialized(),
            sample_rate >= 1,
            old(self).state matches DelayState::Uninitialized { buffer_length } && 1
                <= Delay::spec_buffer_samples(buffer_length, sample_rate) <= usize::MAX,
        ensures
            final(self).wf(),
            final(self).is_initialized(),
            final(self).delay_time == old(self).delay_time,
            final(self).feedback == old(self).feedback,
            final(self).filter == old(self).filter,
            final(self).view().write_position == 0,
            old(self).state matches DelayState::Uninitialized { buffer_length }
                ==> final(self).view().buffer == Seq::new(
                Delay::spec_buffer_samples(buffer_length, sample_rate) as nat,
                |i: int| Frame { left: 0i64, right: 0i64 },
            ),
    {
        let buffer_length = match &self.state {
            DelayState::Uninitialized { buffer_length } => *buffer_length,
            DelayState::Initialized { .. } => {
                proof {
                    assert(false);
                }
                0
            },
        };
        let samples: usize = (buffer_length as u128 * sample_rate as u128 / NANOS_PER_SEC as u128)
            as usize;
        let mut buffer: Vec<Frame> = Vec::new();
        while buffer.len() < samples
            invariant
                buffer@.len() <= samples,
                forall|i: int|
                    0 <= i < buffer@.len() ==> buffer@[i] == (Frame { left: 0i64, right: 0i64 }),
            decreases samples - buffer@.len(),
        {
            buffer.push(Frame { left: 0, right: 0 });
        }
        proof {
            assert(buffer@ =~= Seq::new(samples as nat, |i: int| Frame { left: 0i64, right: 0i64 }));
        }
        self.state = DelayState::Initialized { buffer, write_position: 0 };
    }

    /// Runs one sample through the delay and returns this sample's output,
    /// as [`spec_delay_step`] describes. Processing before initialization is
    /// a protocol violation, so an uninitialized delay is left out by
    /// precondition.
    pub fn process(&mut self, input: Frame, dt: u64, parameters: &Parameters) -> (out: Frame)
        requires
            old(self).wf(),
            old(self).is_initialized(),
            dt >= 1,
        ensures
            final(self).wf(),
            final(self).is_initialized(),
            (final(self).view(), out) == spec_delay_step(old(self).view(), input, dt, *parameters),
    {
        self.delay_time.update(parameters);
        self.feedback.update(parameters);
        let delay_cached: i64 = self.delay_time.get();
        let feedback_cached: i64 = self.feedback.get();
        let ghost pre_view = old(self).view();
        let ghost step = spec_delay_step(pre_view, input, dt, *parameters);
        match &mut self.state {
            DelayState::Initialized { buffer, write_position } => {
                let len: usize = buffer.len();
                proof {
                    assert(len >= 1);
                }
                let m: u128 = len as u128 * FIXED_ONE as u128;
                let delay_fixed: u128 = delay_cached as u128 * FIXED_ONE as u128 / dt as u128;
                let read: u128 = ((*write_position as u128 * FIXED_ONE as u128) + (m - delay_fixed
                    % m)) % m;
                let current: usize = (read / FIXED_ONE as u128) as usize;
                let fraction: i64 = (read % FIXED_ONE as u128) as i64;
                proof {
                    assert(read < m);
                    assert((read as int) / (FIXED_ONE as int) < len as int) by (nonlinear_arith)
                        requires
                            0 <= read as int,
                            (read as int) < (len as int) * (FIXED_ONE as int),
                            FIXED_ONE == 4096i64,
                    ;
                }
                let previous_index: usize = ((current as u128 + len as u128 - 1) % len as u128)
                    as usize;
                let next_index: usize = ((current as u128 + 1) % len as u128) as usize;
                let next_index_2: usize = ((current as u128 + 2) % len as u128) as usize;
                let output = interpolate_frame(
                    buffer[previous_index],
                    buffer[current],
                    buffer[next_index],
                    buffer[next_index_2],
                    fraction,
                );
                *write_position = (*write_position + 1) % len;
                let filtered = match &mut self.filter {
                    Some(filter) => filter.process(output, dt, parameters),
                    None => output,
                };
                let written = input.add(filtered.scale(feedback_cached));
                let wp: usize = *write_position;
                buffer.set(wp, written);
                filtered
            },
            DelayState::Uninitialized { .. } => {
                proof {
                    assert(false);
                }
                Frame::zero()
            },
        }
    }
}

} // verus!

verus! {

/// Every stored sample lies within the magnitude bound `b`.
pub open spec fn buffer_within(buffer: Seq<Frame>, b: int) -> bool {
    forall|i: int| 0 <= i < buffer.len() ==> (#[trigger] buffer[i]).within(b)
}

/// The filter state, if a filter is configured, lies within the magnitude
/// bound `b`.
pub open spec fn filter_state_within(filter: Option<Filter>, b: int) -> bool {
    match filter {
        Some(f) => f.state.within(b),
        None => true,
    }
}

/// The whole-sample index the delay reads at, for a given step.
pub open spec fn spec_read_current(v: DelayView, dt: u64, parameters: Parameters) -> int {
    spec_read_fixed(
        v.write_position,
        spec_delay_samples_fixed(v.delay_time.spec_updated(parameters).cached, dt),
        v.buffer.len() as int,
    ) / (FIXED_ONE as int)
}

/// Delay feedback bound law, first half: one delay step keeps every stored
/// sample, the filter state and the output within the magnitude bound `b`,
/// whenever the input stays within `bound_in` and `b` absorbs the feedback:
/// `bound_in + b * |feedback| / FIXED_ONE <= b`. Such a `b` exists for every
/// feedback magnitude below one (and, with silent input, at one), so applying
/// this step bound once per sample keeps the delay's output bounded over
/// arbitrarily many blocks.
pub proof fn lemma_delay_feedback_bound(
    v: DelayView,
    input: Frame,
    dt: u64,
    parameters: Parameters,
    b: int,
    bound_in: int,
)
    requires
        v.buffer.len() >= 1,
        buffer_within(v.buffer, b),
        filter_state_within(v.filter, b),
        v.filter matches Some(f) ==> f.wf(),
        input.within(bound_in),
        0 <= bound_in,
        vstd::math::abs(v.feedback.spec_updated(parameters).cached as int) <= FIXED_ONE,
        bound_in + div_fixed(b * vstd::math::abs(
            v.feedback.spec_updated(parameters).cached as int,
        )) <= b,
    ensures
        buffer_within(spec_delay_step(v, input, dt, parameters).0.buffer, b),
        filter_state_within(spec_delay_step(v, input, dt, parameters).0.filter, b),
        spec_delay_step(v, input, dt, parameters).1.within(b),
{
    broadcast use vstd::arithmetic::div_mod::lemma_mod_division_less_than_divisor;

    let len = v.buffer.len() as int;
    let one = FIXED_ONE as int;
    assert(len * one >= one) by (nonlinear_arith)
        requires
            len >= 1,
            one == 4096,
    ;
    let m = len * one;
    let delay_time = v.delay_time.spec_updated(parameters);
    let feedback = v.feedback.spec_updated(parameters);
    let fb = feedback.cached as int;
    let delay_fixed = spec_delay_samples_fixed(delay_time.cached, dt);
    let read = spec_read_fixed(v.write_position, delay_fixed, len);
    assert(0 <= read < m);
    let current = read / one;
    vstd::arithmetic::div_mod::lemma_div_pos_is_pos(read, one);
    vstd::arithmetic::div_mod::lemma_multiply_divide_lt(read, one, len);
    assert(one * len == m) by (nonlinear_arith)
        requires
            m == len * one,
    ;
    assert(0 <= current < len);
    let fraction = read % one;
    assert(0 <= fraction < one);
    assert(0 <= (current + len - 1) % len < len);
    assert(0 <= (current + 1) % len < len);
    assert(0 <= (current + 2) % len < len);
    let output = spec_interpolate_frame(
        v.buffer[(current + len - 1) % len],
        v.buffer[current],
        v.buffer[(current + 1) % len],
        v.buffer[(current + 2) % len],
        fraction,
    );
    crate::util::lemma_interpolate_within(
        v.buffer[(current + len - 1) % len],
        v.buffer[current],
        v.buffer[(current + 1) % len],
        v.buffer[(current + 2) % len],
        fraction,
        b,
    );
    let filtered = match v.filter {
        Some(f) => {
            crate::effect::filter::lemma_filter_within(f, output, parameters, b);
            f.spec_processed(output, parameters).state
        },
        None => output,
    };
    assert(filtered.within(b));
    let ab = div_fixed(b * vstd::math::abs(fb));
    crate::frame::lemma_scale_sample_bound(filtered.left as int, fb, b);
    crate::frame::lemma_scale_sample_bound(filtered.right as int, fb, b);
    let scaled = filtered.spec_scale(fb);
    assert(scaled.within(ab));
    let written = input.spec_add(scaled);
    assert(written.within(b));
    let wp2 = (v.write_position + 1) % len;
    assert(forall|i: int|
        0 <= i < len ==> (#[trigger] v.buffer.update(wp2, written)[i]).within(b));
}

/// For every input bound a buffer bound exists: whenever the feedback
/// magnitude stays below one, `FIXED_ONE * (bound_in + 1)` absorbs the
/// feedback in the sense [`lemma_delay_feedback_bound`] needs, so the
/// delay's output stays within that bound over arbitrarily many steps.
pub proof fn lemma_delay_feedback_bound_witness(bound_in: int, fb: int)
    requires
        0 <= bound_in,
        vstd::math::abs(fb) < FIXED_ONE,
    ensures
        bound_in + div_fixed(((FIXED_ONE as int) * (bound_in + 1)) * vstd::math::abs(fb)) <= (
        FIXED_ONE as int) * (bound_in + 1),
{
    let one = FIXED_ONE as int;
    let a = vstd::math::abs(fb) as int;
    let b = one * (bound_in + 1);
    assert(b * a == one * ((bound_in + 1) * a)) by (nonlinear_arith)
        requires
            b == one * (bound_in + 1),
    ;
    vstd::arithmetic::div_mod::lemma_div_multiples_vanish((bound_in + 1) * a, one);
    assert(b * a >= 0) by (nonlinear_arith)
        requires
            bound_in >= 0,
            a >= 0,
            b == one * (bound_in + 1),
            one == 4096,
    ;
    assert((bound_in + 1) * a <= (bound_in + 1) * (one - 1)) by (nonlinear_arith)
        requires
            bound_in >= 0,
            0 <= a <= one - 1,
    ;
    assert(bound_in + (bound_in + 1) * (one - 1) <= one * (bound_in + 1)) by (nonlinear_arith);
}

/// The delay after an input sequence has run through it one sample at a
/// time, with a fixed step and parameter snapshot.
pub open spec fn spec_delay_run(
    v: DelayView,
    inputs: Seq<Frame>,
    dt: u64,
    parameters: Parameters,
) -> DelayView
    decreases inputs.len(),
{
    if inputs.len() == 0 {
        v
    } else {
        spec_delay_step(
            spec_delay_run(v, inputs.drop_last(), dt, parameters),
            inputs.last(),
            dt,
            parameters,
        ).0
    }
}

/// Delay feedback bound law, whole-run form: over an arbitrarily long input
/// sequence bounded by `bound_in`, every stored sample, the filter state
/// and every step's output stay within a bound `b` that absorbs the
/// feedback — so with feedback magnitude below one the delay's output
/// never grows without bound.
pub proof fn lemma_delay_run_bounded(
    v: DelayView,
    inputs: Seq<Frame>,
    dt: u64,
    parameters: Parameters,
    b: int,
    bound_in: int,
)
    requires
        v.buffer.len() >= 1,
        buffer_within(v.buffer, b),
        filter_state_within(v.filter, b),
        v.filter matches Some(f) ==> f.wf(),
        forall|k: int| 0 <= k < inputs.len() ==> (#[trigger] inputs[k]).within(bound_in),
        0 <= bound_in,
        vstd::math::abs(v.feedback.spec_updated(parameters).cached as int) <= FIXED_ONE,
        bound_in + div_fixed(b * vstd::math::abs(
            v.feedback.spec_updated(parameters).cached as int,
        )) <= b,
    ensures
        spec_delay_run(v, inputs, dt, parameters).buffer.len() == v.buffer.len(),
        buffer_within(spec_delay_run(v, inputs, dt, parameters).buffer, b),
        filter_state_within(spec_delay_run(v, inputs, dt, parameters).filter, b),
        spec_delay_run(v, inputs, dt, parameters).filter matches Some(f) ==> f.wf(),
        spec_delay_run(v, inputs, dt, parameters).feedback == if inputs.len() == 0 {
            v.feedback
        } else {
            v.feedback.spec_updated(parameters)
        },
        forall|k: int|
            0 <= k < inputs.len() ==> spec_delay_step(
                #[trigger] spec_delay_run(v, inputs.take(k), dt, parameters),
                inputs[k],
                dt,
                parameters,
            ).1.within(b),
    decreases inputs.len(),
{
    if inputs.len() > 0 {
        let head = inputs.drop_last();
        assert(forall|k: int| 0 <= k < head.len() ==> (#[trigger] head[k]).within(bound_in));
        lemma_delay_run_bounded(v, head, dt, parameters, b, bound_in);
        let run = spec_delay_run(v, head, dt, parameters);
        v.feedback.lemma_updated_idempotent(parameters);
        assert(run.feedback.spec_updated(parameters) == v.feedback.spec_updated(parameters));
        lemma_delay_feedback_bound(run, inputs.last(), dt, parameters, b, bound_in);
        assert(inputs.take(inputs.len() - 1) =~= head);
        assert forall|k: int| 0 <= k < inputs.len() implies spec_delay_step(
            #[trigger] spec_delay_run(v, inputs.take(k), dt, parameters),
            inputs[k],
            dt,
            parameters,
        ).1.within(b) by {
            if k < inputs.len() - 1 {
                assert(inputs.take(k) =~= head.take(k));
                assert(inputs[k] == head[k]);
            }
        }
    }
}

/// Delay feedback bound law, second half: with feedback exactly one, no
/// filter in the loop, silent input and a whole-sample read offset, the
/// delayed sample recirculates without decay: the step outputs the stored
/// sample unchanged and writes exactly that sample back into the buffer.
pub proof fn lemma_delay_unit_feedback(v: DelayView, dt: u64, parameters: Parameters)
    requires
        v.buffer.len() >= 1,
        v.filter is None,
        v.feedback.spec_updated(parameters).cached == FIXED_ONE,
        spec_read_fixed(
            v.write_position,
            spec_delay_samples_fixed(v.delay_time.spec_updated(parameters).cached, dt),
            v.buffer.len() as int,
        ) % (FIXED_ONE as int) == 0,
    ensures
        spec_delay_step(v, Frame { left: 0i64, right: 0i64 }, dt, parameters).1 == v.buffer[
            spec_read_current(v, dt, parameters)
        ],
        spec_delay_step(v, Frame { left: 0i64, right: 0i64 }, dt, parameters).0.buffer == v.buffer
            .update(
            (v.write_position + 1) % (v.buffer.len() as int),
            v.buffer[spec_read_current(v, dt, parameters)],
        ),
{
    let len = v.buffer.len() as int;
    let one = FIXED_ONE as int;
    let delay_time = v.delay_time.spec_updated(parameters);
    let delay_fixed = spec_delay_samples_fixed(delay_time.cached, dt);
    let read = spec_read_fixed(v.write_position, delay_fixed, len);
    let current = read / one;
    let sample = v.buffer[current];
    crate::util::lemma_interpolate_at_zero(
        v.buffer[(current + len - 1) % len],
        sample,
        v.buffer[(current + 1) % len],
        v.buffer[(current + 2) % len],
    );
    assert(spec_scale_sample(sample.left as int, one) == sample.left) by {
        lemma_scale_identity(sample.left as int);
    }
    assert(spec_scale_sample(sample.right as int, one) == sample.right) by {
        lemma_scale_identity(sample.right as int);
    }
}

/// A silent input sequence of `n` samples.
pub open spec fn spec_silence(n: nat) -> Seq<Frame> {
    Seq::new(n, |i: int| Frame { left: 0i64, right: 0i64 })
}

/// When the delay is a whole number of samples, the wrapped read offset is
/// a whole number of samples too, whatever the write position.
proof fn lemma_read_fixed_whole(write_position: int, delay_fixed: int, len: int)
    requires
        len >= 1,
        0 <= write_position,
        0 <= delay_fixed,
        delay_fixed % (FIXED_ONE as int) == 0,
    ensures
        spec_read_fixed(write_position, delay_fixed, len) % (FIXED_ONE as int) == 0,
{
    let one = FIXED_ONE as int;
    let m = len * one;
    assert(m == one * len) by (nonlinear_arith)
        requires
            m == len * one,
    ;
    assert(m >= one) by (nonlinear_arith)
        requires
            len >= 1,
            one == 4096,
            m == len * one,
    ;
    vstd::arithmetic::div_mod::lemma_breakdown(delay_fixed, one, len);
    let a = delay_fixed % m;
    let ka = (delay_fixed / one) % len;
    assert(a == one * ka);
    let c = write_position * one + (m - a);
    assert(c == (write_position + len - ka) * one) by (nonlinear_arith)
        requires
            m == len * one,
            a == one * ka,
            c == write_position * one + (m - a),
    ;
    assert(0 <= c);
    vstd::arithmetic::div_mod::lemma_breakdown(c, one, len);
    vstd::arithmetic::div_mod::lemma_mod_multiples_basic(write_position + len - ka, one);
    assert(c % one == 0);
    assert(c % m == one * ((c / one) % len));
    vstd::arithmetic::div_mod::lemma_mod_multiples_basic((c / one) % len, one);
    assert((one * ((c / one) % len)) % one == 0) by {
        assert(one * ((c / one) % len) == ((c / one) % len) * one) by (nonlinear_arith);
    }
}

/// Delay feedback bound law, second half, whole-run form: with feedback
/// exactly one, no filter in the loop, a whole-sample delay offset and
/// silence fed in, every step of an arbitrarily long run emits exactly the
/// stored sample it reads and writes it back unchanged into the buffer —
/// a recirculating impulse repeats indefinitely with undiminished
/// amplitude.
#[verifier::rlimit(60)]
pub proof fn lemma_delay_unit_feedback_run(v: DelayView, n: nat, dt: u64, parameters: Parameters)
    requires
        v.buffer.len() >= 1,
        0 <= v.write_position < v.buffer.len(),
        v.filter is None,
        dt >= 1,
        0 <= v.delay_time.spec_updated(parameters).cached,
        v.feedback.spec_updated(parameters).cached == FIXED_ONE,
        spec_delay_samples_fixed(v.delay_time.spec_updated(parameters).cached, dt) % (
        FIXED_ONE as int) == 0,
    ensures
        spec_delay_run(v, spec_silence(n), dt, parameters).buffer.len() == v.buffer.len(),
        0 <= spec_delay_run(v, spec_silence(n), dt, parameters).write_position < v.buffer.len(),
        spec_delay_run(v, spec_silence(n), dt, parameters).filter is None,
        spec_delay_run(v, spec_silence(n), dt, parameters).delay_time == if n == 0 {
            v.delay_time
        } else {
            v.delay_time.spec_updated(parameters)
        },
        spec_delay_run(v, spec_silence(n), dt, parameters).feedback == if n == 0 {
            v.feedback
        } else {
            v.feedback.spec_updated(parameters)
        },
        forall|t: nat|
            t < n ==> (#[trigger] spec_delay_step(
                spec_delay_run(v, spec_silence(t), dt, parameters),
                Frame { left: 0i64, right: 0i64 },
                dt,
                parameters,
            )).1 == spec_delay_run(v, spec_silence(t), dt, parameters).buffer[
                spec_read_current(spec_delay_run(v, spec_silence(t), dt, parameters), dt, parameters)
            ],
        forall|t: nat|
            t < n ==> spec_delay_run(v, spec_silence((t + 1) as nat), dt, parameters)
                == (#[trigger] spec_delay_step(
                spec_delay_run(v, spec_silence(t), dt, parameters),
                Frame { left: 0i64, right: 0i64 },
                dt,
                parameters,
            )).0,
        forall|t: nat|
            t < n ==> (#[trigger] spec_delay_step(
                spec_delay_run(v, spec_silence(t), dt, parameters),
                Frame { left: 0i64, right: 0i64 },
                dt,
                parameters,
            )).0.buffer == spec_delay_run(v, spec_silence(t), dt, parameters).buffer.update(
                (spec_delay_run(v, spec_silence(t), dt, parameters).write_position + 1) % (
                v.buffer.len() as int),
                spec_delay_run(v, spec_silence(t), dt, parameters).buffer[
                    spec_read_current(
                        spec_delay_run(v, spec_silence(t), dt, parameters),
                        dt,
                        parameters,
                    )
                ],
            ),
    decreases n,
{
    let one = FIXED_ONE as int;
    let zero = Frame { left: 0i64, right: 0i64 };
    if n > 0 {
        let m = (n - 1) as nat;
        lemma_delay_unit_feedback_run(v, m, dt, parameters);
        let run = spec_delay_run(v, spec_silence(m), dt, parameters);
        assert(spec_silence(n).drop_last() =~= spec_silence(m));
        assert(spec_silence(n).last() == zero);
        v.delay_time.lemma_updated_idempotent(parameters);
        v.feedback.lemma_updated_idempotent(parameters);
        assert(run.feedback.spec_updated(parameters).cached == FIXED_ONE);
        let ds = spec_delay_samples_fixed(run.delay_time.spec_updated(parameters).cached, dt);
        assert(ds == spec_delay_samples_fixed(
            v.delay_time.spec_updated(parameters).cached,
            dt,
        ));
        lemma_read_fixed_whole(run.write_position, ds, run.buffer.len() as int);
        lemma_delay_unit_feedback(run, dt, parameters);
        assert(spec_delay_run(v, spec_silence(n), dt, parameters) == spec_delay_step(
            run,
            zero,
            dt,
            parameters,
        ).0);
        assert forall|t: nat| t < n implies spec_delay_run(
            v,
            spec_silence((t + 1) as nat),
            dt,
            parameters,
        ) == (#[trigger] spec_delay_step(
            spec_delay_run(v, spec_silence(t), dt, parameters),
            zero,
            dt,
            parameters,
        )).0 by {
            assert(spec_silence((t + 1) as nat).drop_last() =~= spec_silence(t));
            assert(spec_silence((t + 1) as nat).last() == zero);
        }
        let read = spec_read_fixed(run.write_position, ds, run.buffer.len() as int);
        assert(0 <= read % one);
        assert(0 <= (run.write_position + 1) % (run.buffer.len() as int) < run.buffer.len() as int)
            by {
            vstd::arithmetic::div_mod::lemma_mod_division_less_than_divisor(
                run.write_position + 1,
                run.buffer.len() as int,
            );
        }
    } else {
        assert(spec_silence(0) =~= Seq::<Frame>::empty());
    }
}

/// Scaling a sample by the fixed-point one leaves it unchanged.
proof fn lemma_scale_identity(x: int)
    requires
        i64::MIN <= x <= i64::MAX,
    ensures
        spec_scale_sample(x, FIXED_ONE as int) == x,
{
    let one = FIXED_ONE as int;
    if x >= 0 {
        vstd::arithmetic::div_mod::lemma_div_multiples_vanish(x, one);
        assert(one * x == x * one) by (nonlinear_arith);
    } else {
        vstd::arithmetic::div_mod::lemma_div_multiples_vanish(-x, one);
        assert(one * (-x) == -(x * one)) by (nonlinear_arith);
    }
}

} // verus!
