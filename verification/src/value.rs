//! Parameter values and the cached, clamped snapshots used on the hot path.

use vstd::prelude::*;

verus! {

/// Identifies a parameter of the external parameter source.
#[derive(Debug, Clone, Copy, PartialEq, Eq, Structural)]
pub struct ParameterId(pub u32);

/// A setting that is either a fixed number or tracks a parameter. The
/// number's scale belongs to the setting: a time is in nanoseconds, a gain
/// or feedback amount is fixed-point with 1 as
/// [`crate::frame::FIXED_ONE`].
#[derive(Debug, Clone, Copy, PartialEq, Eq, Structural)]
pub enum Value {
    /// A fixed value.
    Fixed(i64),
    /// The current value of the parameter with the given id.
    Parameter(ParameterId),
}

/// The first value stored for `id`, scanning from the front.
pub open spec fn spec_lookup(entries: Seq<(u32, i64)>, id: u32) -> Option<i64>
    decreases entries.len(),
{
    if entries.len() == 0 {
        None
    } else if entries[0].0 == id {
        Some(entries[0].1)
    } else {
        spec_lookup(entries.drop_first(), id)
    }
}

/// A snapshot of the external parameter source: the current value of each
/// parameter, queried by id. The effects never see the source itself, only
/// this plain table.
#[derive(Debug, Clone)]
pub struct Parameters {
    /// The parameter values, most recently set first.
    pub entries: Vec<(u32, i64)>,
}

impl Parameters {
    /// The current value of the parameter with the given id, if it has one.
    pub open spec fn spec_get(self, id: ParameterId) -> Option<i64> {
        spec_lookup(self.entries@, id.0)
    }

    /// An empty snapshot: no parameter has a value.
    pub fn new() -> (r: Parameters)
        ensures
            r.entries@ == Seq::<(u32, i64)>::empty(),
            forall|id: ParameterId| #[trigger] r.spec_get(id) is None,
    {
        Parameters { entries: Vec::new() }
    }

    /// Sets the current value of a parameter. Later writes shadow earlier
    /// ones; other parameters keep their values.
    pub fn set(&mut self, id: ParameterId, value: i64)
        ensures
            final(self).spec_get(id) == Some(value),
            forall|other: ParameterId|
                other.0 != id.0 ==> #[trigger] final(self).spec_get(other) == old(self).spec_get(
                    other,
                ),
    {
        self.entries.insert(0, (id.0, value));
        proof {
            assert(self.entries@.drop_first() =~= old(self).entries@);
        }
    }

    /// Looks up the current value of a parameter.
    pub fn get(&self, id: ParameterId) -> (r: Option<i64>)
        ensures
            r == self.spec_get(id),
    {
        let mut i: usize = 0;
        proof {
            assert(self.entries@.skip(0) =~= self.entries@);
        }
        while i < self.entries.len()
            invariant
                0 <= i <= self.entries@.len(),
                spec_lookup(self.entries@, id.0) == spec_lookup(self.entries@.skip(i as int), id.0),
            decreases self.entries@.len() - i,
        {
            proof {
                assert(self.entries@.skip(i as int).drop_first() =~= self.entries@.skip(i + 1));
            }
            if self.entries[i].0 == id.0 {
                return Some(self.entries[i].1);
            }
            i = i + 1;
        }
        proof {
            assert(self.entries@.skip(i as int) =~= Seq::<(u32, i64)>::empty());
        }
        None
    }
}

/// A value clamped into a closed range.
pub open spec fn spec_clamp(x: int, min: int, max: int) -> int {
    if x < min {
        min
    } else if x > max {
        max
    } else {
        x
    }
}

/// A smoothed snapshot of a possibly time-varying setting, clamped to a
/// declared range so that the hot loop always sees a usable number.
/// Refreshed once per block from the current parameter snapshot.
#[derive(Debug, Clone, Copy)]
pub struct CachedValue {
    /// The smallest value the snapshot may take.
    pub min: i64,
    /// The largest value the snapshot may take.
    pub max: i64,
    /// The setting the snapshot follows.
    pub value: Value,
    /// The clamped value seen by the hot loop.
    pub cached: i64,
}

impl CachedValue {
    /// A well-formed cached value: the range is non-empty and the cached
    /// number lies inside it.
    pub open spec fn wf(self) -> bool {
        self.min <= self.cached <= self.max
    }

    /// The cached value after a refresh from `parameters`: a fixed setting
    /// is re-clamped; a parameter setting takes the parameter's clamped
    /// current value, or keeps the previous number when the parameter has
    /// none.
    pub open spec fn spec_updated(self, parameters: Parameters) -> CachedValue {
        match self.value {
            Value::Fixed(v) => CachedValue {
                cached: spec_clamp(v as int, self.min as int, self.max as int) as i64,
                ..self
            },
            Value::Parameter(id) => match parameters.spec_get(id) {
                Some(v) => CachedValue {
                    cached: spec_clamp(v as int, self.min as int, self.max as int) as i64,
                    ..self
                },
                None => self,
            },
        }
    }

    /// Creates a cached value for `value`, clamped into `[min, max]`,
    /// starting from the clamped default.
    pub fn new(min: i64, max: i64, value: Value, default: i64) -> (r: CachedValue)
        requires
            min <= max,
        ensures
            r.wf(),
            r.min == min,
            r.max == max,
            r.value == value,
            r.cached == spec_clamp(default as int, min as int, max as int),
    {
        let cached = if default < min {
            min
        } else if default > max {
            max
        } else {
            default
        };
        CachedValue { min, max, value, cached }
    }

    /// Refreshes the snapshot from the current parameter values.
    pub fn update(&mut self, parameters: &Parameters)
        requires
            old(self).wf(),
        ensures
            final(self).wf(),
            *final(self) == old(self).spec_updated(*parameters),
    {
        let current = match self.value {
            Value::Fixed(v) => Some(v),
            Value::Parameter(id) => parameters.get(id),
        };
        match current {
            Some(v) => {
                self.cached = if v < self.min {
                    self.min
                } else if v > self.max {
                    self.max
                } else {
                    v
                };
            },
            None => {},
        }
    }

    /// Refreshing twice from one snapshot is the same as refreshing once:
    /// the refresh reads only the followed setting, never the cached
    /// number it replaces.
    pub proof fn lemma_updated_idempotent(self, parameters: Parameters)
        ensures
            self.spec_updated(parameters).spec_updated(parameters) == self.spec_updated(
                parameters,
            ),
    {
    }

    /// The clamped value seen by the hot loop.
    pub fn get(&self) -> (r: i64)
        ensures
            r == self.cached,
    {
        self.cached
    }
}

} // verus!
