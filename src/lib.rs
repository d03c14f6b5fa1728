//! Lifecycle supervision for a bundled background worker process: a slot that
//! hands the worker's handle out at most once to whichever shutdown trigger
//! fires first, and the formatting of the worker's output for the host's logs.
use vstd::prelude::*;

pub mod commands;
pub mod relay;
pub mod supervisor;
pub mod text;

verus! {

} // verus!
