use vstd::prelude::*;
use crate::engine::RunConfig;

verus! {

/// A throughput figure as an exact ratio: `ops` operations over `elapsed_nanos`
/// nanoseconds, that is `ops * 10^9 / elapsed_nanos` operations per second.
#[derive(Debug, Clone, Copy, PartialEq, Eq, Structural)]
pub struct Throughput {
    pub ops: u64,
    pub elapsed_nanos: u128,
}

/// With the operation count held fixed, a longer timed window never gives a
/// higher throughput: `ops / longer <= ops / shorter`, stated without division.
pub proof fn lemma_throughput_non_increasing(ops: nat, shorter: nat, longer: nat)
    requires
        0 < shorter <= longer,
    ensures
        ops * shorter <= ops * longer,
{
    assert(ops * shorter <= ops * longer) by (nonlinear_arith)
        requires
            shorter <= longer,
    ;
}

/// When the window is longer than `num_ops * delay`, the throughput of
/// `thread_count * num_ops` operations is below `thread_count / delay`:
/// `(thread_count * num_ops) / elapsed < thread_count / delay`, stated without
/// division.
pub proof fn lemma_throughput_below_delay_bound(
    thread_count: nat,
    num_ops: nat,
    delay: nat,
    elapsed: nat,
)
    requires
        thread_count > 0,
        elapsed > num_ops * delay,
    ensures
        (thread_count * num_ops) * delay < thread_count * elapsed,
{
    assert((thread_count * num_ops) * delay < thread_count * elapsed) by (nonlinear_arith)
        requires
            thread_count > 0,
            elapsed > num_ops * delay,
    ;
}

/// Why a run produced no throughput figure.
#[derive(Debug, Clone, Copy, PartialEq, Eq, Structural)]
pub enum RunError {
    /// A worker did not finish: its setup, execute or teardown failed.
    WorkerFailed,
    /// The stop time reads earlier than the start time.
    ClockWentBackwards,
    /// The timed window has no length.
    EmptyWindow,
}

/// Every worker of the run reported success.
pub open spec fn all_workers_ok(c: RunConfig, ok: Seq<bool>) -> bool {
    ok.len() == c.thread_count && forall|i: int| 0 <= i < ok.len() ==> ok[i]
}

/// What a run reports, from how its workers ended and the clock readings taken
/// at the start and at the stop of the timed window (in nanoseconds).
pub open spec fn run_outcome(c: RunConfig, ok: Seq<bool>, start: nat, stop: nat) -> Result<
    Throughput,
    RunError,
> {
    if !all_workers_ok(c, ok) {
        Err(RunError::WorkerFailed)
    } else if stop < start {
        Err(RunError::ClockWentBackwards)
    } else if stop == start {
        Err(RunError::EmptyWindow)
    } else {
        Ok(
            Throughput {
                ops: (c.thread_count * c.num_ops) as u64,
                elapsed_nanos: (stop - start) as u128,
            },
        )
    }
}

/// Turns the end of a run into its throughput. `workers_ok` holds, for each
/// worker, whether it ran to the end; a single failure fails the whole run.
pub fn finish_run(c: &RunConfig, workers_ok: &Vec<bool>, start_nanos: u128, stop_nanos: u128) -> (r:
    Result<Throughput, RunError>)
    ensures
        r == run_outcome(*c, workers_ok@, start_nanos as nat, stop_nanos as nat),
{
    if workers_ok.len() != c.thread_count as usize {
        return Err(RunError::WorkerFailed);
    }
    let mut i: usize = 0;
    while i < workers_ok.len()
        invariant
            0 <= i <= workers_ok@.len(),
            forall|j: int| 0 <= j < i ==> workers_ok@[j],
        decreases workers_ok@.len() - i,
    {
        if !workers_ok[i] {
            return Err(RunError::WorkerFailed);
        }
        i = i + 1;
    }
    if stop_nanos < start_nanos {
        return Err(RunError::ClockWentBackwards);
    }
    if stop_nanos == start_nanos {
        return Err(RunError::EmptyWindow);
    }
    Ok(Throughput { ops: c.total_ops(), elapsed_nanos: stop_nanos - start_nanos })
}

/// A run in which any worker failed ends in an error, and reports no throughput.
pub proof fn lemma_failed_worker_fails_run(c: RunConfig, ok: Seq<bool>, start: nat, stop: nat, i: int)
    requires
        0 <= i < ok.len(),
        !ok[i],
    ensures
        run_outcome(c, ok, start, stop) == Err::<Throughput, RunError>(RunError::WorkerFailed),
{
}

} // verus!
