//! Finds split RAR archive sets in a directory tree, drives their extraction
//! and reports progress events to an output sink.
use vstd::prelude::*;

pub mod orchestrator;
pub mod output;
pub mod progress;
pub mod rarfiles;

verus! {

} // verus!
