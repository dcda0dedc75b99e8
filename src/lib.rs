//! Control logic of a polyphonic additive + FM synthesizer: the command
//! language of its console, the ADSR stage machine of each note, the pool of
//! voices keyed by note number, and the on/off switches of the harmonic bank.
//!
//! The per-sample signal chain works on floating-point values and is driven
//! by the application around this library, which asks the library for every
//! decision that does not depend on a sample value.

pub mod command;
pub mod envelope;
pub mod pool;
pub mod harmonics;
