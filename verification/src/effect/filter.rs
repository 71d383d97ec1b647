//! A one-pole smoothing filter, usable inside the delay's feedback loop.

use vstd::prelude::*;

use crate::frame::{Frame, FIXED_ONE};
use crate::util::{scale_frac, spec_scale_frac};
use crate::value::{CachedValue, Parameters, Value};

verus! {

/// One channel of the filter step: the state moves toward the input by the
/// fraction `c / FIXED_ONE` of the distance, truncating toward zero. The
/// result always lies between the previous state and the input, so the
/// filter never amplifies.
pub open spec fn spec_filter_sample(state: int, input: int, c: int) -> int {
    state + spec_scale_frac(input - state, c)
}

/// Settings for a [`Filter`].
#[derive(Debug, Clone, Copy)]
pub struct FilterSettings {
    /// How far the filter state moves toward each input sample:
    /// 0 freezes the state, [`FIXED_ONE`] tracks the input exactly.
    pub coefficient: Value,
}

impl FilterSettings {
    /// Creates settings with the default coefficient of one half.
    pub fn new() -> (r: FilterSettings)
        ensures
            r.coefficient == Value::Fixed(2048i64),
    {
        FilterSettings { coefficient: Value::Fixed(2048) }
    }

    /// Sets the smoothing coefficient.
    pub fn coefficient(self, coefficient: Value) -> (r: FilterSettings)
        ensures
            r.coefficient == coefficient,
    {
        FilterSettings { coefficient }
    }
}

impl Default for FilterSettings {
    /// The default settings: a coefficient of one half.
    fn default() -> (r: FilterSettings)
        ensures
            r.coefficient == Value::Fixed(2048i64),
    {
        FilterSettings { coefficient: Value::Fixed(2048) }
    }
}

/// A one-pole smoothing lowpass: each output sample moves the filter state
/// part of the way toward the input sample.
#[derive(Debug, Clone, Copy)]
pub struct Filter {
    /// The smoothing coefficient, clamped into `[0, FIXED_ONE]`.
    pub coefficient: CachedValue,
    /// The filter state: the previous output frame.
    pub state: Frame,
}

impl Filter {
    /// A well-formed filter: the coefficient's range is `[0, FIXED_ONE]`.
    pub open spec fn wf(self) -> bool {
        &&& self.coefficient.wf()
        &&& self.coefficient.min == 0
        &&& self.coefficient.max == FIXED_ONE
    }

    /// The filter and output after one step: the coefficient is refreshed
    /// from the parameters, then the state moves toward the input by the
    /// coefficient's fraction of the distance; the new state is the output.
    pub open spec fn spec_processed(self, input: Frame, parameters: Parameters) -> Filter {
        let coefficient = self.coefficient.spec_updated(parameters);
        let c = coefficient.cached as int;
        Filter {
            coefficient,
            state: Frame {
                left: spec_filter_sample(self.state.left as int, input.left as int, c) as i64,
                right: spec_filter_sample(self.state.right as int, input.right as int, c) as i64,
            },
        }
    }

    /// Creates a filter from its settings, starting from a silent state
    /// and an initial cached coefficient of one half.
    pub fn new(settings: FilterSettings) -> (r: Filter)
        ensures
            r.wf(),
            r.coefficient.value == settings.coefficient,
            r.coefficient.cached == 2048i64,
            r.state == (Frame { left: 0i64, right: 0i64 }),
    {
        Filter {
            coefficient: CachedValue::new(0, FIXED_ONE, settings.coefficient, 2048),
            state: Frame { left: 0, right: 0 },
        }
    }

    /// Runs one sample through the filter and returns the filtered sample.
    ///
    /// Each output channel lies between the previous state and the input,
    /// so any shared magnitude bound on them bounds the output too.
    pub fn process(&mut self, input: Frame, _dt: u64, parameters: &Parameters) -> (out: Frame)
        requires
            old(self).wf(),
        ensures
            final(self).wf(),
            *final(self) == old(self).spec_processed(input, *parameters),
            out == final(self).state,
            forall|b: int|
                old(self).state.within(b) && input.within(b) ==> (#[trigger] out.within(b)),
    {
        self.coefficient.update(parameters);
        let c = self.coefficient.get();
        let left = filter_sample(self.state.left, input.left, c);
        let right = filter_sample(self.state.right, input.right, c);
        self.state = Frame { left, right };
        Frame { left, right }
    }
}

/// A filter step keeps any magnitude bound shared by its state and input:
/// each channel of the new state lies between the old state and the input.
pub proof fn lemma_filter_within(f: Filter, input: Frame, parameters: Parameters, b: int)
    requires
        f.wf(),
        f.state.within(b),
        input.within(b),
    ensures
        f.spec_processed(input, parameters).state.within(b),
{
    let c = f.coefficient.spec_updated(parameters).cached as int;
    assert(0 <= c <= FIXED_ONE);
    crate::util::lemma_scale_frac_between(input.left - f.state.left, c);
    crate::util::lemma_scale_frac_between(input.right - f.state.right, c);
}

/// One channel of the filter step.
fn filter_sample(state: i64, input: i64, c: i64) -> (r: i64)
    requires
        0 <= c <= FIXED_ONE,
    ensures
        r == spec_filter_sample(state as int, input as int, c as int),
        state <= input ==> state <= r <= input,
        input <= state ==> input <= r <= state,
{
    let diff: i128 = input as i128 - state as i128;
    let step: i128 = scale_frac(diff, c);
    (state as i128 + step) as i64
}

} // verus!
