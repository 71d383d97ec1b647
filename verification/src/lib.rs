//! A real-time audio mixing engine core.
//!
//! Sounds play through [`sound::player::SoundPlayer`]s stored in a slotted
//! arena; a control thread reserves arena slots and sends commands, while the
//! processing thread advances players once per block, mixes their output into
//! tracks, and sweeps stopped players into a reclamation queue so that their
//! memory is freed off the real-time path.
//!
//! Audio samples are fixed-point: the amplitude 1 is [`frame::FIXED_ONE`].
//! Times (positions, durations, block steps) are integer nanoseconds.

mod backing;

pub mod effect;
pub mod frame;
pub mod manager;
pub mod sound;
pub mod track;
pub mod util;
pub mod value;

pub use frame::Frame;
pub use sound::LoopBehavior;
