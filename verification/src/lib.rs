//! The verified core of the RamSleuth desktop dashboard.
use vstd::prelude::*;

pub mod bench;
pub mod calendar;
pub mod card;
pub mod error;
pub mod export;
pub mod first_run;
pub mod graph;
pub mod header;
pub mod history;
pub mod model;
pub mod png_io;
pub mod settings;
pub mod shell;
pub mod status;
pub mod style;
pub mod telemetry;
pub mod text;

verus! {

} // verus!
