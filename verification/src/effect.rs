//! Stateful, per-sample signal-processing effects.

pub mod delay;
pub mod filter;
