//! Verified core of a social-force crowd simulation: the configuration and
//! output codecs, the scene's bookkeeping and the tick sequencer.

pub mod configuration;
pub mod output;
pub mod scalar;
pub mod simulation;
pub mod utils;
