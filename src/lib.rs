//! Numeric core of a software synthesizer: the integer and structural logic
//! behind parameter curves, envelopes and pitch-bend streams.
pub mod common;
pub mod pitchbend;
pub mod envelope;
pub mod ease;
pub mod params;
