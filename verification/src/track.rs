//! Mixer tracks: named summation buses with per-track effect chains.
//!
//! Sound players add their output frames into a track's accumulator during a
//! block; the mixer then runs each track's effects over the accumulated
//! frame, sums the sub-tracks into the main track, runs the main track's
//! effects, and clears every accumulator for the next block.

use vstd::prelude::*;

use crate::effect::delay::{spec_delay_step, Delay, DelayView};
use crate::effect::filter::Filter;
use crate::frame::Frame;
use crate::value::Parameters;

verus! {

/// Identifies a mixer track. The main track always exists; sub-tracks are
/// created on the mixer and named by the numbers it assigns.
#[derive(Debug, Clone, Copy, PartialEq, Eq, Structural)]
pub enum TrackId {
    /// The main track: the mixer's final output bus.
    Main,
    /// A sub-track, identified by the number the mixer assigned it.
    Sub(u32),
}

/// An effect in a track's chain.
pub enum Effect {
    /// A delay line.
    Delay(Delay),
    /// A one-pole smoothing filter.
    Filter(Filter),
}

/// The state an effect steps through, with buffers as sequences.
pub enum EffectView {
    /// A delay line's state.
    Delay(DelayView),
    /// A filter's state.
    Filter(Filter),
}

/// The view and output after one sample steps through an effect.
pub open spec fn spec_effect_step(e: EffectView, input: Frame, dt: u64, parameters: Parameters) -> (
    EffectView,
    Frame,
) {
    match e {
        EffectView::Delay(v) => {
            let step = spec_delay_step(v, input, dt, parameters);
            (EffectView::Delay(step.0), step.1)
        },
        EffectView::Filter(f) => {
            let f2 = f.spec_processed(input, parameters);
            (EffectView::Filter(f2), f2.state)
        },
    }
}

impl Effect {
    /// The effect's state with buffers as sequences.
    pub open spec fn view(self) -> EffectView {
        match self {
            Effect::Delay(d) => EffectView::Delay(d.view()),
            Effect::Filter(f) => EffectView::Filter(f),
        }
    }

    /// A well-formed, ready-to-run effect: a delay must be initialized
    /// before it joins a track.
    pub open spec fn wf(self) -> bool {
        match self {
            Effect::Delay(d) => d.wf() && d.is_initialized(),
            Effect::Filter(f) => f.wf(),
        }
    }

    /// Runs one sample through the effect.
    pub fn process(&mut self, input: Frame, dt: u64, parameters: &Parameters) -> (out: Frame)
        requires
            old(self).wf(),
            dt >= 1,
        ensures
            final(self).wf(),
            (final(self).view(), out) == spec_effect_step(
                old(self).view(),
                input,
                dt,
                *parameters,
            ),
    {
        match self {
            Effect::Delay(d) => d.process(input, dt, parameters),
            Effect::Filter(f) => f.process(input, dt, parameters),
        }
    }
}

/// The state a track steps through.
pub struct TrackView {
    /// The frame accumulated for the current block.
    pub input: Frame,
    /// The states of the track's effects, in chain order.
    pub effects: Seq<EffectView>,
}

/// The signal after the first `i` effects of the track have run on its
/// accumulated input.
pub open spec fn spec_signal_through(t: TrackView, dt: u64, parameters: Parameters, i: int) -> Frame
    decreases i,
{
    if i <= 0 {
        t.input
    } else {
        spec_effect_step(
            t.effects[i - 1],
            spec_signal_through(t, dt, parameters, i - 1),
            dt,
            parameters,
        ).1
    }
}

/// The view and output after a track processes its accumulated input: the
/// signal runs through every effect in order, and the accumulator clears
/// for the next block.
pub open spec fn spec_track_step(t: TrackView, dt: u64, parameters: Parameters) -> (
    TrackView,
    Frame,
) {
    (
        TrackView {
            input: Frame { left: 0i64, right: 0i64 },
            effects: Seq::new(
                t.effects.len(),
                |j: int|
                    spec_effect_step(
                        t.effects[j],
                        spec_signal_through(t, dt, parameters, j),
                        dt,
                        parameters,
                    ).0,
            ),
        },
        spec_signal_through(t, dt, parameters, t.effects.len() as int),
    )
}

/// A mutable borrow of one effect in a chain.
fn effect_at_mut(effects: &mut Vec<Effect>, i: usize) -> (effect: &mut Effect)
    requires
        0 <= i < old(effects).len(),
    ensures
        *effect == old(effects)@[i as int],
        final(effects)@ == old(effects)@.update(i as int, *final(effect)),
{
    &mut effects[i]
}

/// A named summation bus: a per-block frame accumulator and an ordered
/// sequence of effects applied to it once per sample.
pub struct Track {
    /// The frame accumulated for the current block.
    pub input: Frame,
    /// The track's effects, in chain order.
    pub effects: Vec<Effect>,
}

impl Track {
    /// A well-formed track: every effect is ready to run.
    pub open spec fn wf(self) -> bool {
        forall|j: int| 0 <= j < self.effects@.len() ==> (#[trigger] self.effects@[j]).wf()
    }

    /// The track's state with effects as views.
    pub open spec fn view(self) -> TrackView {
        TrackView {
            input: self.input,
            effects: Seq::new(self.effects@.len(), |j: int| self.effects@[j].view()),
        }
    }

    /// Creates a track with a silent accumulator and no effects.
    pub fn new() -> (r: Track)
        ensures
            r.wf(),
            r.view() == (TrackView {
                input: Frame { left: 0i64, right: 0i64 },
                effects: Seq::<EffectView>::empty(),
            }),
    {
        let r = Track { input: Frame { left: 0, right: 0 }, effects: Vec::new() };
        proof {
            assert(r.view().effects =~= Seq::<EffectView>::empty());
        }
        r
    }

    /// Appends an effect to the track's chain.
    pub fn add_effect(&mut self, effect: Effect)
        requires
            old(self).wf(),
            effect.wf(),
        ensures
            final(self).wf(),
            final(self).input == old(self).input,
            final(self).view().effects == old(self).view().effects.push(effect.view()),
    {
        self.effects.push(effect);
        proof {
            assert(self.view().effects =~= old(self).view().effects.push(effect.view()));
        }
    }

    /// Adds a frame into the track's accumulator, saturating at the sample
    /// range.
    pub fn add_input(&mut self, frame: Frame)
        ensures
            final(self).input == old(self).input.spec_add(frame),
            final(self).effects == old(self).effects,
    {
        self.input = self.input.add(frame);
    }

    /// Runs the accumulated input through the track's effects and clears
    /// the accumulator, returning the track's output for this sample.
    pub fn process(&mut self, dt: u64, parameters: &Parameters) -> (out: Frame)
        requires
            old(self).wf(),
            dt >= 1,
        ensures
            final(self).wf(),
            (final(self).view(), out) == spec_track_step(old(self).view(), dt, *parameters),
    {
        let ghost t0 = old(self).view();
        let mut signal = self.input;
        let mut j: usize = 0;
        let n = self.effects.len();
        while j < n
            invariant
                n == self.effects@.len(),
                self.effects@.len() == t0.effects.len(),
                0 <= j <= n,
                dt >= 1,
                self.input == t0.input,
                signal == spec_signal_through(t0, dt, *parameters, j as int),
                forall|k: int| 0 <= k < n ==> (#[trigger] self.effects@[k]).wf(),
                forall|k: int|
                    j <= k < n ==> #[trigger] self.effects@[k].view() == t0.effects[k],
                forall|k: int|
                    0 <= k < j ==> #[trigger] self.effects@[k].view() == spec_effect_step(
                        t0.effects[k],
                        spec_signal_through(t0, dt, *parameters, k),
                        dt,
                        *parameters,
                    ).0,
            decreases n - j,
        {
            let effect = effect_at_mut(&mut self.effects, j);
            signal = effect.process(signal, dt, parameters);
            j = j + 1;
        }
        self.input = Frame { left: 0, right: 0 };
        proof {
            assert(self.view().effects =~= spec_track_step(t0, dt, *parameters).0.effects);
        }
        signal
    }
}


/// A sub-track entry after a frame is added to the bus named `n`: only the
/// entry carrying `n` takes the frame into its accumulator.
pub open spec fn spec_bus_added(entry: (u32, TrackView), n: u32, frame: Frame) -> (u32, TrackView) {
    if entry.0 == n {
        (entry.0, TrackView { input: entry.1.input.spec_add(frame), effects: entry.1.effects })
    } else {
        entry
    }
}

/// A sub-track entry after an effect is appended to the bus named `n`: only
/// the entry carrying `n` grows its chain.
pub open spec fn spec_bus_with_effect(entry: (u32, TrackView), n: u32, e: EffectView) -> (
    u32,
    TrackView,
) {
    if entry.0 == n {
        (entry.0, TrackView { input: entry.1.input, effects: entry.1.effects.push(e) })
    } else {
        entry
    }
}

/// The state the whole mixer steps through.
pub struct MixerView {
    /// The main track's state.
    pub main: TrackView,
    /// Each sub-track's assigned number and state, in creation order.
    pub sub_tracks: Seq<(u32, TrackView)>,
}

/// The main track's accumulator after the outputs of the first `i`
/// sub-tracks have been summed into it.
pub open spec fn spec_mixed_main_input(m: MixerView, dt: u64, parameters: Parameters, i: int) -> Frame
    decreases i,
{
    if i <= 0 {
        m.main.input
    } else {
        spec_mixed_main_input(m, dt, parameters, i - 1).spec_add(
            spec_track_step(m.sub_tracks[i - 1].1, dt, parameters).1,
        )
    }
}

/// The view and output after the mixer processes one sample: every
/// sub-track runs its effects over its accumulator, the sub-track outputs
/// are summed into the main accumulator in creation order, the main track
/// runs its effects over the sum, and every accumulator is cleared.
pub open spec fn spec_mixer_step(m: MixerView, dt: u64, parameters: Parameters) -> (
    MixerView,
    Frame,
) {
    let sub_tracks = Seq::new(
        m.sub_tracks.len(),
        |j: int| (m.sub_tracks[j].0, spec_track_step(m.sub_tracks[j].1, dt, parameters).0),
    );
    let main_step = spec_track_step(
        TrackView {
            input: spec_mixed_main_input(m, dt, parameters, m.sub_tracks.len() as int),
            effects: m.main.effects,
        },
        dt,
        parameters,
    );
    (MixerView { main: main_step.0, sub_tracks }, main_step.1)
}

/// The mixer: the main track plus the named sub-tracks, each a summation
/// bus with its own effects.
pub struct Mixer {
    /// The main track: the mixer's final output bus.
    pub main: Track,
    /// The sub-tracks, each with the number assigned at creation.
    pub sub_tracks: Vec<(u32, Track)>,
    /// The number the next sub-track will get.
    pub next_sub_id: u32,
}

/// A mutable borrow of one sub-track entry.
fn sub_track_at_mut(sub_tracks: &mut Vec<(u32, Track)>, i: usize) -> (entry: &mut (u32, Track))
    requires
        0 <= i < old(sub_tracks).len(),
    ensures
        *entry == old(sub_tracks)@[i as int],
        final(sub_tracks)@ == old(sub_tracks)@.update(i as int, *final(entry)),
{
    &mut sub_tracks[i]
}

impl Mixer {
    /// A well-formed mixer: every track is well-formed and the sub-track
    /// numbers are distinct, all below the next number to assign.
    pub open spec fn wf(self) -> bool {
        &&& self.main.wf()
        &&& forall|j: int|
            0 <= j < self.sub_tracks@.len() ==> (#[trigger] self.sub_tracks@[j].1).wf()
        &&& forall|j: int|
            0 <= j < self.sub_tracks@.len() ==> (#[trigger] self.sub_tracks@[j].0)
                < self.next_sub_id
        &&& forall|a: int, b: int|
            0 <= a < b < self.sub_tracks@.len() ==> self.sub_tracks@[a].0 != self.sub_tracks@[b].0
    }

    /// The mixer's state with tracks as views.
    pub open spec fn view(self) -> MixerView {
        MixerView {
            main: self.main.view(),
            sub_tracks: Seq::new(
                self.sub_tracks@.len(),
                |j: int| (self.sub_tracks@[j].0, self.sub_tracks@[j].1.view()),
            ),
        }
    }

    /// Creates a mixer with only the empty main track.
    pub fn new() -> (r: Mixer)
        ensures
            r.wf(),
            r.view().main == (TrackView {
                input: Frame { left: 0i64, right: 0i64 },
                effects: Seq::<EffectView>::empty(),
            }),
            r.view().sub_tracks == Seq::<(u32, TrackView)>::empty(),
    {
        let r = Mixer { main: Track::new(), sub_tracks: Vec::new(), next_sub_id: 0 };
        proof {
            assert(r.view().sub_tracks =~= Seq::<(u32, TrackView)>::empty());
        }
        r
    }

    /// Creates a new, empty sub-track and returns its id.
    pub fn add_sub_track(&mut self) -> (id: TrackId)
        requires
            old(self).wf(),
            old(self).next_sub_id < u32::MAX,
        ensures
            final(self).wf(),
            id == TrackId::Sub(old(self).next_sub_id),
            final(self).view().main == old(self).view().main,
            final(self).view().sub_tracks == old(self).view().sub_tracks.push(
                (
                    old(self).next_sub_id,
                    TrackView {
                        input: Frame { left: 0i64, right: 0i64 },
                        effects: Seq::<EffectView>::empty(),
                    },
                ),
            ),
    {
        let id = self.next_sub_id;
        self.sub_tracks.push((id, Track::new()));
        self.next_sub_id = id + 1;
        proof {
            assert(self.view().sub_tracks =~= old(self).view().sub_tracks.push(
                (
                    id,
                    TrackView {
                        input: Frame { left: 0i64, right: 0i64 },
                        effects: Seq::<EffectView>::empty(),
                    },
                ),
            ));
        }
        TrackId::Sub(id)
    }

    /// Adds a frame into a track's accumulator. Writing to a track that
    /// does not exist is a no-op, not an error: the track may have been
    /// torn down while a stale reference was still in flight.
    pub fn add_to_track(&mut self, id: TrackId, frame: Frame)
        requires
            old(self).wf(),
        ensures
            final(self).wf(),
            id == TrackId::Main ==> final(self).view() == (MixerView {
                main: TrackView {
                    input: old(self).view().main.input.spec_add(frame),
                    effects: old(self).view().main.effects,
                },
                sub_tracks: old(self).view().sub_tracks,
            }),
            id matches TrackId::Sub(n) ==> {
                &&& final(self).view().main == old(self).view().main
                &&& final(self).view().sub_tracks.len() == old(self).view().sub_tracks.len()
                &&& forall|j: int|
                    0 <= j < old(self).view().sub_tracks.len()
                        ==> #[trigger] final(self).view().sub_tracks[j] == spec_bus_added(
                        old(self).view().sub_tracks[j],
                        n,
                        frame,
                    )
            },
    {
        match id {
            TrackId::Main => {
                self.main.add_input(frame);
            },
            TrackId::Sub(n) => {
                let len = self.sub_tracks.len();
                let mut j: usize = 0;
                while j < len
                    invariant
                        old(self).wf(),
                        id == TrackId::Sub(n),
                        len == self.sub_tracks@.len(),
                        0 <= j <= len,
                        *self == *old(self),
                        forall|k: int| 0 <= k < j ==> (#[trigger] self.sub_tracks@[k].0) != n,
                    decreases len - j,
                {
                    if self.sub_tracks[j].0 == n {
                        proof {
                            assert forall|k: int|
                                0 <= k < self.sub_tracks@.len() && k != j as int implies (
                            #[trigger] self.sub_tracks@[k].0) != n by {
                                if k < j as int {
                                    assert(self.sub_tracks@[k].0 != self.sub_tracks@[j as int].0);
                                } else {
                                    assert(self.sub_tracks@[j as int].0 != self.sub_tracks@[k].0);
                                }
                            }
                        }
                        let entry = sub_track_at_mut(&mut self.sub_tracks, j);
                        entry.1.add_input(frame);
                        return ;
                    }
                    j = j + 1;
                }
            },
        }
    }

    /// Appends an effect to a track's chain; returns whether the track was
    /// found.
    pub fn add_effect(&mut self, id: TrackId, effect: Effect) -> (added: bool)
        requires
            old(self).wf(),
            effect.wf(),
        ensures
            final(self).wf(),
            id == TrackId::Main ==> added && final(self).view() == (MixerView {
                main: TrackView {
                    input: old(self).view().main.input,
                    effects: old(self).view().main.effects.push(effect.view()),
                },
                sub_tracks: old(self).view().sub_tracks,
            }),
            id matches TrackId::Sub(n) ==> {
                &&& final(self).view().main == old(self).view().main
                &&& final(self).view().sub_tracks.len() == old(self).view().sub_tracks.len()
                &&& forall|j: int|
                    0 <= j < old(self).view().sub_tracks.len()
                        ==> #[trigger] final(self).view().sub_tracks[j] == spec_bus_with_effect(
                        old(self).view().sub_tracks[j],
                        n,
                        effect.view(),
                    )
                &&& added <==> exists|j: int|
                    0 <= j < old(self).view().sub_tracks.len() && (#[trigger] old(
                        self,
                    ).view().sub_tracks[j].0) == n
            },
    {
        match id {
            TrackId::Main => {
                self.main.add_effect(effect);
                true
            },
            TrackId::Sub(n) => {
                let len = self.sub_tracks.len();
                let mut j: usize = 0;
                while j < len
                    invariant
                        old(self).wf(),
                        effect.wf(),
                        id == TrackId::Sub(n),
                        len == self.sub_tracks@.len(),
                        0 <= j <= len,
                        *self == *old(self),
                        forall|k: int| 0 <= k < j ==> (#[trigger] self.sub_tracks@[k].0) != n,
                    decreases len - j,
                {
                    if self.sub_tracks[j].0 == n {
                        proof {
                            assert forall|k: int|
                                0 <= k < self.sub_tracks@.len() && k != j as int implies (
                            #[trigger] self.sub_tracks@[k].0) != n by {
                                if k < j as int {
                                    assert(self.sub_tracks@[k].0 != self.sub_tracks@[j as int].0);
                                } else {
                                    assert(self.sub_tracks@[j as int].0 != self.sub_tracks@[k].0);
                                }
                            }
                        }
                        proof {
                            assert(old(self).view().sub_tracks[j as int].0 == n);
                        }
                        let entry = sub_track_at_mut(&mut self.sub_tracks, j);
                        entry.1.add_effect(effect);
                        return true;
                    }
                    j = j + 1;
                }
                false
            },
        }
    }

    /// Processes one sample: runs every sub-track, sums their outputs into
    /// the main track in creation order, runs the main track, and returns
    /// the mixer's output frame. Every accumulator is left cleared.
    pub fn process(&mut self, dt: u64, parameters: &Parameters) -> (out: Frame)
        requires
            old(self).wf(),
            dt >= 1,
        ensures
            final(self).wf(),
            (final(self).view(), out) == spec_mixer_step(old(self).view(), dt, *parameters),
    {
        let ghost m0 = old(self).view();
        let len = self.sub_tracks.len();
        let mut j: usize = 0;
        while j < len
            invariant
                len == self.sub_tracks@.len(),
                m0.sub_tracks.len() == len,
                0 <= j <= len,
                dt >= 1,
                self.next_sub_id == old(self).next_sub_id,
                self.main.effects == old(self).main.effects,
                old(self).main.wf(),
                self.main.wf(),
                self.main.view().effects == m0.main.effects,
                self.main.input == spec_mixed_main_input(m0, dt, *parameters, j as int),
                forall|k: int|
                    0 <= k < len ==> (#[trigger] self.sub_tracks@[k].0) == old(
                        self,
                    ).sub_tracks@[k].0,
                forall|k: int| 0 <= k < len ==> (#[trigger] self.sub_tracks@[k].1).wf(),
                forall|k: int|
                    j <= k < len ==> #[trigger] self.sub_tracks@[k].1.view()
                        == m0.sub_tracks[k].1,
                forall|k: int|
                    0 <= k < j ==> #[trigger] self.sub_tracks@[k].1.view() == spec_track_step(
                        m0.sub_tracks[k].1,
                        dt,
                        *parameters,
                    ).0,
            decreases len - j,
        {
            let entry = sub_track_at_mut(&mut self.sub_tracks, j);
            let sub_out = entry.1.process(dt, parameters);
            self.main.add_input(sub_out);
            j = j + 1;
        }
        let out = self.main.process(dt, parameters);
        proof {
            assert(self.view().sub_tracks =~= spec_mixer_step(m0, dt, *parameters).0.sub_tracks);
            assert(self.view() == spec_mixer_step(m0, dt, *parameters).0);
        }
        out
    }
}

} // verus!
