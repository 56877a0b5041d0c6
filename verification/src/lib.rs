//! Verified core of the Vivado-on-macOS orchestrator.
use vstd::prelude::*;

pub mod text;
pub mod progress;
pub mod log;
pub mod util;
pub mod setup;
pub mod assets;
pub mod deps;
pub mod docker;
pub mod services;
pub mod cli;
pub mod flows;

verus! {
} // verus!
