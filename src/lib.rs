//! Native bridge between a host application and a shielded-pool wallet:
//! request parsing, seed-phrase generation, the ordered derivation pipeline
//! and the normalisation of every outcome into a single host-visible text.
use vstd::prelude::*;

pub mod text;
pub mod error;
pub mod request;
pub mod mnemonic;
pub mod wallet;
pub mod outcome;

pub use mnemonic::{generate_seed_phrase, generate_seed_phrase_24};
pub use wallet::{Action, Derivation, Event};

verus! {

/// Debug-log hook of the host platform. Builds without a platform log write nothing.
pub fn log_debug(_tag: &str, _msg: &str) {
}

} // verus!
