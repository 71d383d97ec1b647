//! The sound player: a playback-state machine around one playable sound.

use vstd::prelude::*;

use crate::frame::Frame;
use crate::sound::{PlaybackInfo, Sound, SoundState};
use crate::track::TrackId;

verus! {

/// The sum of two times, saturating at the largest representable time.
pub open spec fn spec_sat_add_nanos(a: u64, b: u64) -> u64 {
    if a + b > u64::MAX {
        u64::MAX
    } else {
        (a + b) as u64
    }
}

/// Plays one sound: owns the sound, a playback state and a fractional
/// playback position, and advances once per processing block.
pub struct SoundPlayer<S: Sound> {
    /// The sound being played.
    pub sound: S,
    /// The playback state. `Stopped` is terminal: no transition leaves it.
    pub state: SoundState,
    /// The playback position in nanoseconds. Never decreases.
    pub position: u64,
    /// The track this player's output is mixed into.
    pub track: TrackId,
}

impl<S: Sound> SoundPlayer<S> {
    /// The player after one advance by `dt` nanoseconds: in a playing state
    /// the position moves forward and the player stops once it passes the
    /// sound's duration; in `Paused` and `Stopped` nothing changes.
    pub open spec fn spec_advanced(self, dt: u64) -> SoundPlayer<S> {
        if !self.state.spec_is_playing() {
            self
        } else {
            let position = spec_sat_add_nanos(self.position, dt);
            SoundPlayer {
                state: if position > self.sound.spec_duration() {
                    SoundState::Stopped
                } else {
                    self.state
                },
                position,
                ..self
            }
        }
    }

    /// The frame one advance outputs: the sound's frame at the position the
    /// advance started from, or silence when the player is not in a playing
    /// state.
    pub open spec fn spec_output(self) -> Frame {
        if self.state.spec_is_playing() {
            self.sound.spec_frame_at(self.position)
        } else {
            Frame { left: 0, right: 0 }
        }
    }

    /// Creates a player for `sound`, playing from the start into the main
    /// track.
    pub fn new(sound: S) -> (r: SoundPlayer<S>)
        ensures
            r == (SoundPlayer {
                sound,
                state: SoundState::Playing,
                position: 0u64,
                track: TrackId::Main,
            }),
    {
        SoundPlayer { sound, state: SoundState::Playing, position: 0, track: TrackId::Main }
    }

    /// Routes this player's output to `track`.
    pub fn set_track(&mut self, track: TrackId)
        ensures
            *final(self) == (SoundPlayer { track, ..*old(self) }),
    {
        self.track = track;
    }

    /// The player's current playback state.
    pub fn state(&self) -> (r: SoundState)
        ensures
            r == self.state,
    {
        self.state
    }

    /// The track this player's output is mixed into.
    pub fn track(&self) -> (r: TrackId)
        ensures
            r == self.track,
    {
        self.track
    }

    /// Reports the player's state and position to the sound at the start of
    /// a block: the sound receives exactly the snapshot of the current
    /// state and position. The playback state machine itself does not
    /// change.
    pub fn on_start_processing(&mut self)
        ensures
            final(self).state == old(self).state,
            final(self).position == old(self).position,
            final(self).track == old(self).track,
            final(self).sound == old(self).sound.spec_after_report(
                (PlaybackInfo { state: old(self).state, position: old(self).position }),
            ),
    {
        let info = PlaybackInfo { state: self.state, position: self.position };
        self.sound.report_playback_info(info);
    }

    /// Advances playback by `dt` nanoseconds and returns the output frame.
    ///
    /// In a playing state this reads the sound's frame at the current
    /// position, moves the position forward, and stops the player once the
    /// position passes the sound's duration. In `Paused` the position stays
    /// frozen and the output is silence; in `Stopped` the call is a no-op
    /// returning silence, so a stopped player can never produce output
    /// again.
    pub fn process(&mut self, dt: u64) -> (out: Frame)
        ensures
            *final(self) == old(self).spec_advanced(dt),
            out == old(self).spec_output(),
    {
        if !self.state.is_playing() {
            return Frame::zero();
        }
        let out = self.sound.frame_at_position(self.position);
        self.position = if dt > u64::MAX - self.position {
            u64::MAX
        } else {
            self.position + dt
        };
        if self.position > self.sound.duration() {
            self.state = SoundState::Stopped;
        }
        out
    }
}

/// The player after `n` advances by `dt` nanoseconds each.
pub open spec fn spec_advanced_n<S: Sound>(p: SoundPlayer<S>, dt: u64, n: nat) -> SoundPlayer<S>
    decreases n,
{
    if n == 0 {
        p
    } else {
        spec_advanced_n(p, dt, (n - 1) as nat).spec_advanced(dt)
    }
}

/// Playback termination law: a player that starts playing at position 0 and
/// is advanced with a fixed step `dt` is still playing with position
/// `n * dt` as long as that does not exceed the sound's duration `d`, and is
/// stopped on exactly the first advance whose cumulative position exceeds
/// `d` — after which its position stays frozen at that first crossing.
pub proof fn lemma_playback_termination<S: Sound>(p: SoundPlayer<S>, dt: u64, n: nat)
    requires
        p.state == SoundState::Playing,
        p.position == 0,
        dt >= 1,
        n * dt <= u64::MAX,
    ensures
        spec_advanced_n(p, dt, n).sound == p.sound,
        n * dt <= p.sound.spec_duration() ==> spec_advanced_n(p, dt, n) == (SoundPlayer {
            position: (n * dt) as u64,
            ..p
        }),
        n * dt > p.sound.spec_duration() ==> spec_advanced_n(p, dt, n) == (SoundPlayer {
            state: SoundState::Stopped,
            position: ((p.sound.spec_duration() / dt + 1) * dt) as u64,
            ..p
        }),
    decreases n,
{
    let d = p.sound.spec_duration();
    if n > 0 {
        let m = (n - 1) as nat;
        assert(m * dt == n * dt - dt) by (nonlinear_arith)
            requires
                m + 1 == n,
        ;
        lemma_playback_termination(p, dt, m);
        let q = spec_advanced_n(p, dt, m);
        assert(spec_advanced_n(p, dt, n) == q.spec_advanced(dt));
        if m * dt <= d {
            assert(q.position + dt == n * dt);
            if n * dt > d {
                assert(m == d / dt) by (nonlinear_arith)
                    requires
                        dt >= 1,
                        m * dt <= d,
                        m * dt + dt > d,
                ;
            }
        } else {
            assert(m * dt > d);
            assert(n * dt > d) by (nonlinear_arith)
                requires
                    m * dt > d,
                    n * dt >= m * dt,
            ;
            assert(q.state == SoundState::Stopped);
        }
    } else {
        assert(n * dt == 0) by (nonlinear_arith)
            requires
                n == 0,
        ;
    }
}

/// No-resurrection law: advancing a stopped player changes nothing and
/// outputs silence, for any step and any number of advances.
pub proof fn lemma_no_resurrection<S: Sound>(p: SoundPlayer<S>, dt: u64, n: nat)
    requires
        p.state == SoundState::Stopped,
    ensures
        spec_advanced_n(p, dt, n) == p,
        p.spec_output() == (Frame { left: 0i64, right: 0i64 }),
    decreases n,
{
    if n > 0 {
        lemma_no_resurrection(p, dt, (n - 1) as nat);
    }
}

} // verus!
