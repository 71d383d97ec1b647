//! Sounds: identifiers, playback state, and the playable-sound capability.

pub mod player;
pub mod static_sound;

use vstd::prelude::*;

use crate::frame::Frame;

verus! {

/// A unique identifier for a sound: the key of the arena slot that holds its
/// player. Keys carry a generation, so a stale identifier can never alias a
/// reused slot.
#[derive(Clone, Copy)]
pub struct SoundId(pub atomic_arena::Key);

impl SoundId {
    /// Wraps a key reserved from the arena's controller.
    pub fn new(key: atomic_arena::Key) -> (r: SoundId)
        ensures
            r == SoundId(key),
    {
        SoundId(key)
    }
}

/// The playback state of a sound.
#[derive(Debug, Clone, Copy, PartialEq, Eq, Structural, Hash)]
pub enum SoundState {
    /// The sound is playing.
    Playing,
    /// The sound is fading out, and when the fade-out
    /// is finished, the sound will pause playback.
    Pausing,
    /// The sound is paused.
    Paused,
    /// The sound is fading out, and when the fade-out
    /// is finished, the sound will stop.
    Stopping,
    /// The sound is stopped and cannot be interacted with
    /// further.
    Stopped,
}

/// The state a numeric tag decodes to.
pub open spec fn spec_state_from_u8(value: u8) -> SoundState {
    if value == 0 {
        SoundState::Playing
    } else if value == 1 {
        SoundState::Pausing
    } else if value == 2 {
        SoundState::Paused
    } else if value == 3 {
        SoundState::Stopping
    } else {
        SoundState::Stopped
    }
}

impl SoundState {
    /// Whether a sound in this state advances and produces output: true in
    /// `Playing` and during the two fade-outs, false once paused or stopped.
    pub open spec fn spec_is_playing(self) -> bool {
        self == SoundState::Playing || self == SoundState::Pausing || self == SoundState::Stopping
    }

    /// Decodes a numeric state tag. Only the five used tags are meaningful.
    pub fn from_u8(value: u8) -> (r: SoundState)
        requires
            value < 5,
        ensures
            r == spec_state_from_u8(value),
    {
        if value == 0 {
            SoundState::Playing
        } else if value == 1 {
            SoundState::Pausing
        } else if value == 2 {
            SoundState::Paused
        } else if value == 3 {
            SoundState::Stopping
        } else {
            SoundState::Stopped
        }
    }

    /// Whether a sound in this state advances and produces output.
    pub fn is_playing(&self) -> (r: bool)
        ensures
            r == self.spec_is_playing(),
    {
        match self {
            SoundState::Playing => true,
            SoundState::Pausing => true,
            SoundState::Stopping => true,
            SoundState::Paused => false,
            SoundState::Stopped => false,
        }
    }
}

/// How a sound loops by default when playback reaches its end.
#[derive(Debug, Clone, Copy, PartialEq, Eq, Structural)]
pub struct LoopBehavior {
    /// The position (in nanoseconds) playback returns to when it loops.
    pub start_position: u64,
}

/// A snapshot of a player's state and position, reported back to the sound
/// once per block so that control-side observers can read it.
#[derive(Debug, Clone, Copy, PartialEq, Eq, Structural)]
pub struct PlaybackInfo {
    /// The playback state at the start of the block.
    pub state: SoundState,
    /// The playback position (in nanoseconds) at the start of the block.
    pub position: u64,
}

/// The playable-sound capability: anything with a duration, a default loop
/// behavior and a frame at every position can be played by a
/// [`player::SoundPlayer`].
pub trait Sound: Sized {
    /// The sound's duration, in nanoseconds. The defaults here let a sound
    /// be implemented without spelling its ghost model out; a sound whose
    /// playback is to be reasoned about overrides them.
    open spec fn spec_duration(&self) -> u64 {
        0u64
    }

    /// The sound's default loop behavior.
    open spec fn spec_default_loop_behavior(&self) -> Option<LoopBehavior> {
        None
    }

    /// The frame heard at a position (in nanoseconds). Positions outside the
    /// stored audio are silence.
    open spec fn spec_frame_at(&self, position: u64) -> Frame {
        Frame { left: 0, right: 0 }
    }

    /// The sound after receiving a playback snapshot. The default says a
    /// report leaves the sound's value unchanged, which fits sounds that
    /// ignore the snapshot or record it behind a shared handle; a sound
    /// that rewrites itself on report overrides this.
    open spec fn spec_after_report(&self, playback_info: PlaybackInfo) -> Self {
        *self
    }

    /// Returns the sound's duration without changing the sound.
    fn duration(&mut self) -> (d: u64)
        ensures
            *final(self) == *old(self),
            d == old(self).spec_duration(),
    ;

    /// Returns the sound's default loop behavior without changing the sound.
    fn default_loop_behavior(&mut self) -> (b: Option<LoopBehavior>)
        ensures
            *final(self) == *old(self),
            b == old(self).spec_default_loop_behavior(),
    ;

    /// Returns the frame heard at `position` without changing the sound.
    fn frame_at_position(&mut self, position: u64) -> (f: Frame)
        ensures
            *final(self) == *old(self),
            f == old(self).spec_frame_at(position),
    ;

    /// Receives the player's state and position at the start of a block.
    fn report_playback_info(&mut self, playback_info: PlaybackInfo)
        ensures
            *final(self) == old(self).spec_after_report(playback_info),
    ;
}

} // verus!
