//! Measures the throughput of an operation run concurrently by a number of
//! worker threads. Step machines for the workers and the coordinator keep each
//! worker's setup and teardown out of the timed window with four rendezvous
//! points: after setup, after the start time is taken, after the last operation,
//! and after the stop time is taken. The throughput is the exact ratio of the
//! operations performed to the length of that window.

use vstd::prelude::*;

pub mod cli_args;
pub mod engine;
pub mod measure;
pub mod operation;
pub mod rng;

verus! {

} // verus!
