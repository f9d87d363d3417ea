//! The portable aHash hasher together with the property checks and the
//! runner decisions that exercise it.

pub mod operations;
pub mod fallback_hash;
pub mod random_state;
pub mod text;
pub mod etna;
pub mod json;
pub mod runner;
pub mod zero_inputs;
