//! A fan-in processing core: many sources feed one processing step, whose
//! results go to one sink. The decisions of a run (what to poll, process,
//! send, flush or report, and when to stop) are made by `runner::Runner`.

use vstd::prelude::*;

pub mod laws;
pub mod proc_res;
pub mod runner;
pub mod tally;

verus! {

/// A handle type kept for callers of the pipeline; it carries no state.
pub struct Handle;

} // verus!
