//! Audio data loaded into memory all at once.

use vstd::prelude::*;

use crate::frame::{Frame, NANOS_PER_SEC, FIXED_ONE};
use crate::sound::{LoopBehavior, PlaybackInfo, Sound};
use crate::util::{interpolate_frame, spec_interpolate_frame};

verus! {

/// Settings for a [`StaticSound`].
#[derive(Debug, Clone, Copy)]
pub struct StaticSoundSettings {
    /// How the sound loops by default, if it does.
    pub default_loop_behavior: Option<LoopBehavior>,
}

impl StaticSoundSettings {
    /// Creates settings with no default loop behavior.
    pub fn new() -> (r: StaticSoundSettings)
        ensures
            r.default_loop_behavior is None,
    {
        StaticSoundSettings { default_loop_behavior: None }
    }
}

impl Default for StaticSoundSettings {
    /// The default settings: no default loop behavior.
    fn default() -> (r: StaticSoundSettings)
        ensures
            r.default_loop_behavior is None,
    {
        StaticSoundSettings { default_loop_behavior: None }
    }
}

/// The duration, in nanoseconds, of `len` frames at `rate` frames per
/// second, rounded down and capped at the largest representable time.
pub open spec fn spec_duration_nanos(len: int, rate: int) -> u64 {
    let d = (len * (NANOS_PER_SEC as int)) / rate;
    if d > u64::MAX {
        u64::MAX
    } else {
        d as u64
    }
}

/// The frame at index `i`, or silence when `i` lies outside the stored data.
pub open spec fn frame_or_silence(frames: Seq<Frame>, i: int) -> Frame {
    if 0 <= i < frames.len() {
        frames[i]
    } else {
        Frame { left: 0, right: 0 }
    }
}

/// The frame heard at `position` nanoseconds into a buffer of frames at
/// `rate` frames per second: the four stored frames around the fractional
/// sample position, interpolated; reads outside the stored data are silence.
pub open spec fn spec_static_frame_at(frames: Seq<Frame>, rate: u32, position: u64) -> Frame {
    let num = (rate as int) * (position as int);
    let idx = num / (NANOS_PER_SEC as int);
    let frac = ((num % (NANOS_PER_SEC as int)) * (FIXED_ONE as int)) / (NANOS_PER_SEC as int);
    spec_interpolate_frame(
        frame_or_silence(frames, idx - 1),
        frame_or_silence(frames, idx),
        frame_or_silence(frames, idx + 1),
        frame_or_silence(frames, idx + 2),
        frac,
    )
}

/// A chunk of audio data loaded into memory all at once.
#[derive(Debug, Clone)]
pub struct StaticSound {
    /// Frames per second of the stored audio.
    pub sample_rate: u32,
    /// The duration in nanoseconds, fixed at construction from the frame
    /// count and sample rate.
    pub duration: u64,
    /// The stored audio.
    pub frames: Vec<Frame>,
    /// How the sound loops by default, if it does.
    pub default_loop_behavior: Option<LoopBehavior>,
}

impl StaticSound {
    /// Creates a new [`StaticSound`] from raw sample data.
    pub fn from_frames(sample_rate: u32, frames: Vec<Frame>, settings: StaticSoundSettings) -> (r:
        StaticSound)
        requires
            sample_rate >= 1,
        ensures
            r.sample_rate == sample_rate,
            r.frames@ == frames@,
            r.duration == spec_duration_nanos(frames@.len() as int, sample_rate as int),
            r.default_loop_behavior == settings.default_loop_behavior,
    {
        let d: u128 = frames.len() as u128 * NANOS_PER_SEC as u128 / sample_rate as u128;
        let duration: u64 = if d > u64::MAX as u128 {
            u64::MAX
        } else {
            d as u64
        };
        StaticSound {
            sample_rate,
            duration,
            frames,
            default_loop_behavior: settings.default_loop_behavior,
        }
    }

    /// Fetches the stored frame at `index`, or silence when `index` lies
    /// outside the stored data.
    fn frame_or_silence_at(&self, index: u128) -> (r: Frame)
        ensures
            r == frame_or_silence(self.frames@, index as int),
    {
        if index < self.frames.len() as u128 {
            self.frames[index as usize]
        } else {
            Frame { left: 0, right: 0 }
        }
    }
}

impl Sound for StaticSound {
    open spec fn spec_duration(&self) -> u64 {
        self.duration
    }

    open spec fn spec_default_loop_behavior(&self) -> Option<LoopBehavior> {
        self.default_loop_behavior
    }

    open spec fn spec_frame_at(&self, position: u64) -> Frame {
        spec_static_frame_at(self.frames@, self.sample_rate, position)
    }

    fn duration(&mut self) -> (d: u64)
        ensures
            *final(self) == *old(self),
            d == old(self).spec_duration(),
    {
        self.duration
    }

    fn default_loop_behavior(&mut self) -> (b: Option<LoopBehavior>)
        ensures
            *final(self) == *old(self),
            b == old(self).spec_default_loop_behavior(),
    {
        self.default_loop_behavior
    }

    fn frame_at_position(&mut self, position: u64) -> (f: Frame)
        ensures
            *final(self) == *old(self),
            f == old(self).spec_frame_at(position),
    {
        proof {
            assert((self.sample_rate as int) * (position as int) <= 0x1_0000_0000_0000_0000_0000_0000int)
                by (nonlinear_arith)
                requires
                    0 <= self.sample_rate <= 0x1_0000_0000int,
                    0 <= position <= 0x1_0000_0000_0000_0000int,
            ;
        }
        let num: u128 = self.sample_rate as u128 * position as u128;
        let idx: u128 = num / NANOS_PER_SEC as u128;
        let frac: i64 = ((num % NANOS_PER_SEC as u128) * FIXED_ONE as u128 / NANOS_PER_SEC as u128)
            as i64;
        let previous = if idx == 0 {
            Frame { left: 0, right: 0 }
        } else {
            self.frame_or_silence_at(idx - 1)
        };
        let current = self.frame_or_silence_at(idx);
        let next_1 = self.frame_or_silence_at(idx + 1);
        let next_2 = self.frame_or_silence_at(idx + 2);
        interpolate_frame(previous, current, next_1, next_2, frac)
    }

    fn report_playback_info(&mut self, _playback_info: PlaybackInfo) {
    }
}


/// Why loading a sound from an encoded file failed. Decoding itself is an
/// external collaborator: the engine only receives a finished frame
/// sequence or one of these failures.
pub enum FromFileError {
    /// Reading the file failed.
    IoError(std::io::Error),
    /// The decoder rejected the file.
    SymphoniaError(symphonia::core::errors::Error),
    /// The file does not contain an audio track.
    NoAudio,
    /// The audio changes sample rate partway through.
    VariableSampleRate,
    /// The audio is neither mono nor stereo.
    UnsupportedChannelConfiguration,
}

impl FromFileError {
    /// A human-readable description of the failure.
    pub fn message(&self) -> (r: String)
        ensures
            self matches FromFileError::NoAudio ==> r@ =~= "The file does not contain any audio"@,
            self matches FromFileError::VariableSampleRate ==> r@
                =~= "The audio has multiple sample rates, which is not supported by StaticSounds"@,
            self matches FromFileError::UnsupportedChannelConfiguration ==> r@
                =~= "Only mono and stereo audio is supported"@,
    {
        match self {
            FromFileError::IoError(error) => crate::backing::io_error_message(error),
            FromFileError::SymphoniaError(error) => crate::backing::symphonia_error_message(error),
            FromFileError::NoAudio => "The file does not contain any audio".to_owned(),
            FromFileError::VariableSampleRate => {
                "The audio has multiple sample rates, which is not supported by StaticSounds".to_owned()
            },
            FromFileError::UnsupportedChannelConfiguration => {
                "Only mono and stereo audio is supported".to_owned()
            },
        }
    }
}

impl From<std::io::Error> for FromFileError {
    /// Wraps an input failure.
    fn from(v: std::io::Error) -> (r: FromFileError) {
        FromFileError::IoError(v)
    }
}

impl vstd::std_specs::convert::FromSpecImpl<std::io::Error> for FromFileError {
    open spec fn obeys_from_spec() -> bool {
        true
    }

    open spec fn from_spec(v: std::io::Error) -> FromFileError {
        FromFileError::IoError(v)
    }
}

impl From<symphonia::core::errors::Error> for FromFileError {
    /// Wraps a decoder failure.
    fn from(v: symphonia::core::errors::Error) -> (r: FromFileError) {
        FromFileError::SymphoniaError(v)
    }
}

impl vstd::std_specs::convert::FromSpecImpl<symphonia::core::errors::Error> for FromFileError {
    open spec fn from_spec(v: symphonia::core::errors::Error) -> FromFileError {
        FromFileError::SymphoniaError(v)
    }

    open spec fn obeys_from_spec() -> bool {
        true
    }
}

} // verus!
