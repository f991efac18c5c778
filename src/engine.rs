use vstd::prelude::*;

verus! {

/// A run of the benchmark: how many workers, and how many operations each performs.
pub struct RunConfig {
    pub thread_count: u32,
    pub num_ops: u32,
}

/// Why a run configuration was rejected.
#[derive(Debug, Clone, Copy, PartialEq, Eq, Structural)]
pub enum ConfigError {
    NoThreads,
    NoOperations,
}

impl RunConfig {
    pub open spec fn wf(self) -> bool {
        self.thread_count >= 1 && self.num_ops >= 1
    }

    /// Accepts a configuration with at least one thread and at least one operation per thread.
    pub fn new(thread_count: u32, num_ops: u32) -> (r: Result<RunConfig, ConfigError>)
        ensures
            thread_count == 0 ==> r == Err::<RunConfig, ConfigError>(ConfigError::NoThreads),
            thread_count >= 1 && num_ops == 0 ==> r == Err::<RunConfig, ConfigError>(
                ConfigError::NoOperations,
            ),
            thread_count >= 1 && num_ops >= 1 ==> r is Ok && r->Ok_0.thread_count == thread_count
                && r->Ok_0.num_ops == num_ops,
            r is Ok ==> r->Ok_0.wf(),
    {
        if thread_count == 0 {
            Err(ConfigError::NoThreads)
        } else if num_ops == 0 {
            Err(ConfigError::NoOperations)
        } else {
            Ok(RunConfig { thread_count, num_ops })
        }
    }

    /// Operations performed over all workers.
    pub fn total_ops(&self) -> (r: u64)
        ensures
            r == self.thread_count as int * self.num_ops as int,
    {
        assert(self.thread_count as int * self.num_ops as int <= u32::MAX as int * u32::MAX as int)
            by (nonlinear_arith);
        self.thread_count as u64 * self.num_ops as u64
    }

    /// Parties at each rendezvous: every worker and the coordinator.
    pub fn party_count(&self) -> (r: u64)
        ensures
            r == self.thread_count as int + 1,
    {
        self.thread_count as u64 + 1
    }
}

/// The rendezvous points of a run.
#[derive(Debug, Clone, Copy, PartialEq, Eq, Structural)]
pub enum Rendezvous {
    /// Released once every worker has finished its setup.
    Start,
    /// Released right after the coordinator has taken the start time.
    Timer,
    /// Released once every worker has finished its operations.
    End,
    /// Released right after the coordinator has taken the stop time; only then
    /// may a worker tear its state down.
    Release,
}

/// What a worker does next.
#[derive(Debug, Clone, Copy, PartialEq, Eq, Structural)]
pub enum WorkerStep {
    Setup,
    Wait(Rendezvous),
    Execute,
    Teardown,
    Finished,
}

/// Number of steps in the life of a worker that performs `num_ops` operations.
pub open spec fn worker_trace_len(num_ops: nat) -> int {
    num_ops as int + 6
}

/// The step at position `i` in the life of a worker that performs `num_ops` operations.
pub open spec fn worker_step_at(num_ops: nat, i: int) -> WorkerStep {
    if i == 0 {
        WorkerStep::Setup
    } else if i == 1 {
        WorkerStep::Wait(Rendezvous::Start)
    } else if i == 2 {
        WorkerStep::Wait(Rendezvous::Timer)
    } else if 3 <= i < 3 + num_ops {
        WorkerStep::Execute
    } else if i == 3 + num_ops {
        WorkerStep::Wait(Rendezvous::End)
    } else if i == 4 + num_ops {
        WorkerStep::Wait(Rendezvous::Release)
    } else if i == 5 + num_ops {
        WorkerStep::Teardown
    } else {
        WorkerStep::Finished
    }
}

/// How many of the first `upto` steps of a worker's life are `step`.
pub open spec fn count_steps(num_ops: nat, step: WorkerStep, upto: int) -> nat
    decreases upto,
{
    if upto <= 0 {
        0
    } else {
        count_steps(num_ops, step, upto - 1) + if worker_step_at(num_ops, upto - 1) == step {
            1nat
        } else {
            0nat
        }
    }
}

/// The life of one worker thread, one step at a time.
pub struct Worker {
    num_ops: u32,
    pos: u64,
    setups: u64,
    executes: u64,
    teardowns: u64,
}

impl Worker {
    pub closed spec fn spec_num_ops(self) -> nat {
        self.num_ops as nat
    }

    /// Steps taken so far.
    pub closed spec fn spec_pos(self) -> int {
        self.pos as int
    }

    pub closed spec fn spec_setups(self) -> nat {
        self.setups as nat
    }

    pub closed spec fn spec_executes(self) -> nat {
        self.executes as nat
    }

    pub closed spec fn spec_teardowns(self) -> nat {
        self.teardowns as nat
    }

    /// The counters agree with the steps taken.
    pub open spec fn wf(self) -> bool {
        &&& 0 <= self.spec_pos() <= worker_trace_len(self.spec_num_ops())
        &&& self.spec_setups() == count_steps(
            self.spec_num_ops(),
            WorkerStep::Setup,
            self.spec_pos(),
        )
        &&& self.spec_executes() == count_steps(
            self.spec_num_ops(),
            WorkerStep::Execute,
            self.spec_pos(),
        )
        &&& self.spec_teardowns() == count_steps(
            self.spec_num_ops(),
            WorkerStep::Teardown,
            self.spec_pos(),
        )
    }

    pub open spec fn spec_finished(self) -> bool {
        self.spec_pos() == worker_trace_len(self.spec_num_ops())
    }

    pub fn new(num_ops: u32) -> (r: Worker)
        ensures
            r.wf(),
            r.spec_num_ops() == num_ops,
            r.spec_pos() == 0,
    {
        Worker { num_ops, pos: 0, setups: 0, executes: 0, teardowns: 0 }
    }

    /// The step to perform now.
    pub fn next_step(&self) -> (r: WorkerStep)
        requires
            self.wf(),
        ensures
            r == worker_step_at(self.spec_num_ops(), self.spec_pos()),
    {
        let n = self.num_ops as u64;
        if self.pos == 0 {
            WorkerStep::Setup
        } else if self.pos == 1 {
            WorkerStep::Wait(Rendezvous::Start)
        } else if self.pos == 2 {
            WorkerStep::Wait(Rendezvous::Timer)
        } else if self.pos < 3 + n {
            WorkerStep::Execute
        } else if self.pos == 3 + n {
            WorkerStep::Wait(Rendezvous::End)
        } else if self.pos == 4 + n {
            WorkerStep::Wait(Rendezvous::Release)
        } else if self.pos == 5 + n {
            WorkerStep::Teardown
        } else {
            WorkerStep::Finished
        }
    }

    pub fn is_finished(&self) -> (r: bool)
        requires
            self.wf(),
        ensures
            r == self.spec_finished(),
    {
        self.pos == self.num_ops as u64 + 6
    }

    /// Records that the current step was performed.
    pub fn advance(&mut self)
        requires
            old(self).wf(),
            !old(self).spec_finished(),
        ensures
            final(self).wf(),
            final(self).spec_num_ops() == old(self).spec_num_ops(),
            final(self).spec_pos() == old(self).spec_pos() + 1,
    {
        let step = self.next_step();
        proof {
            lemma_count_bounded(self.spec_num_ops(), WorkerStep::Setup, self.spec_pos());
            lemma_count_bounded(self.spec_num_ops(), WorkerStep::Execute, self.spec_pos());
            lemma_count_bounded(self.spec_num_ops(), WorkerStep::Teardown, self.spec_pos());
        }
        match step {
            WorkerStep::Setup => {
                self.setups = self.setups + 1;
            },
            WorkerStep::Execute => {
                self.executes = self.executes + 1;
            },
            WorkerStep::Teardown => {
                self.teardowns = self.teardowns + 1;
            },
            _ => {},
        }
        self.pos = self.pos + 1;
    }

    /// Setup calls performed so far.
    pub fn setups(&self) -> (r: u64)
        ensures
            r == self.spec_setups(),
    {
        self.setups
    }

    /// Execute calls performed so far.
    pub fn executes(&self) -> (r: u64)
        ensures
            r == self.spec_executes(),
    {
        self.executes
    }

    /// Teardown calls performed so far.
    pub fn teardowns(&self) -> (r: u64)
        ensures
            r == self.spec_teardowns(),
    {
        self.teardowns
    }
}

/// A count of steps never exceeds the number of steps counted.
proof fn lemma_count_bounded(num_ops: nat, step: WorkerStep, upto: int)
    ensures
        count_steps(num_ops, step, upto) <= if upto < 0 {
            0
        } else {
            upto
        },
    decreases upto,
{
    if upto > 0 {
        lemma_count_bounded(num_ops, step, upto - 1);
    }
}


proof fn lemma_count_execute(num_ops: nat, upto: int)
    requires
        0 <= upto,
    ensures
        count_steps(num_ops, WorkerStep::Execute, upto) == if upto <= 3 {
            0
        } else if upto <= 3 + num_ops {
            upto - 3
        } else {
            num_ops as int
        },
    decreases upto,
{
    if upto > 0 {
        lemma_count_execute(num_ops, upto - 1);
    }
}

proof fn lemma_count_setup(num_ops: nat, upto: int)
    requires
        0 <= upto,
    ensures
        count_steps(num_ops, WorkerStep::Setup, upto) == if upto == 0 {
            0int
        } else {
            1int
        },
    decreases upto,
{
    if upto > 0 {
        lemma_count_setup(num_ops, upto - 1);
    }
}

proof fn lemma_count_teardown(num_ops: nat, upto: int)
    requires
        0 <= upto,
    ensures
        count_steps(num_ops, WorkerStep::Teardown, upto) == if upto <= 5 + num_ops {
            0int
        } else {
            1int
        },
    decreases upto,
{
    if upto > 0 {
        lemma_count_teardown(num_ops, upto - 1);
    }
}

/// A worker that has run to the end has called setup once, execute exactly
/// `num_ops` times and teardown once; on its own thread setup comes before every
/// execute, and every execute before teardown.
pub proof fn lemma_finished_worker(w: Worker)
    requires
        w.wf(),
        w.spec_finished(),
    ensures
        w.spec_setups() == 1,
        w.spec_executes() == w.spec_num_ops(),
        w.spec_teardowns() == 1,
        worker_step_at(w.spec_num_ops(), 0) == WorkerStep::Setup,
        worker_step_at(w.spec_num_ops(), 5 + w.spec_num_ops() as int) == WorkerStep::Teardown,
        forall|i: int|
            worker_step_at(w.spec_num_ops(), i) == WorkerStep::Execute ==> 0 < i < 5
                + w.spec_num_ops(),
{
    lemma_count_setup(w.spec_num_ops(), w.spec_pos());
    lemma_count_execute(w.spec_num_ops(), w.spec_pos());
    lemma_count_teardown(w.spec_num_ops(), w.spec_pos());
}

/// Execute calls made by a group of workers.
pub open spec fn total_executes(ws: Seq<Worker>) -> nat
    decreases ws.len(),
{
    if ws.len() == 0 {
        0
    } else {
        total_executes(ws.drop_last()) + ws.last().spec_executes()
    }
}

/// Every worker of a configuration has run to the end.
pub open spec fn run_complete(c: RunConfig, ws: Seq<Worker>) -> bool {
    &&& c.wf()
    &&& ws.len() == c.thread_count
    &&& forall|i: int|
        0 <= i < ws.len() ==> {
            &&& ws[i].wf()
            &&& ws[i].spec_finished()
            &&& ws[i].spec_num_ops() == c.num_ops
        }
}

proof fn lemma_total_executes(ws: Seq<Worker>, n: nat)
    requires
        forall|i: int| 0 <= i < ws.len() ==> ws[i].spec_executes() == n,
    ensures
        total_executes(ws) == ws.len() * n,
    decreases ws.len(),
{
    if ws.len() > 0 {
        lemma_total_executes(ws.drop_last(), n);
        assert(total_executes(ws) == (ws.len() - 1) * n + n);
        assert((ws.len() - 1) * n + n == ws.len() * n) by (nonlinear_arith);
    }
}

/// A complete run performs exactly `thread_count * num_ops` execute calls.
pub proof fn lemma_complete_run_calls(c: RunConfig, ws: Seq<Worker>)
    requires
        run_complete(c, ws),
    ensures
        total_executes(ws) == c.thread_count * c.num_ops,
{
    assert forall|i: int| 0 <= i < ws.len() implies ws[i].spec_executes() == c.num_ops by {
        lemma_finished_worker(ws[i]);
    }
    lemma_total_executes(ws, c.num_ops as nat);
}

/// Two complete runs of one configuration perform the same number of execute
/// calls, however their threads were scheduled.
pub proof fn lemma_call_count_repeatable(c: RunConfig, first: Seq<Worker>, second: Seq<Worker>)
    requires
        run_complete(c, first),
        run_complete(c, second),
    ensures
        total_executes(first) == total_executes(second),
        total_executes(first) == c.thread_count * c.num_ops,
{
    lemma_complete_run_calls(c, first);
    lemma_complete_run_calls(c, second);
}


/// What the coordinating thread does next.
#[derive(Debug, Clone, Copy, PartialEq, Eq, Structural)]
pub enum CoordinatorStep {
    Wait(Rendezvous),
    RecordStart,
    RecordStop,
    Join,
    Finished,
}

/// Number of steps in the life of the coordinator.
pub open spec fn coordinator_trace_len() -> int {
    7
}

/// The step at position `i` in the life of the coordinator.
pub open spec fn coordinator_step_at(i: int) -> CoordinatorStep {
    if i == 0 {
        CoordinatorStep::Wait(Rendezvous::Start)
    } else if i == 1 {
        CoordinatorStep::RecordStart
    } else if i == 2 {
        CoordinatorStep::Wait(Rendezvous::Timer)
    } else if i == 3 {
        CoordinatorStep::Wait(Rendezvous::End)
    } else if i == 4 {
        CoordinatorStep::RecordStop
    } else if i == 5 {
        CoordinatorStep::Wait(Rendezvous::Release)
    } else if i == 6 {
        CoordinatorStep::Join
    } else {
        CoordinatorStep::Finished
    }
}

/// The life of the coordinating thread, one step at a time.
pub struct Coordinator {
    pos: u64,
}

impl Coordinator {
    /// Steps taken so far.
    pub closed spec fn spec_pos(self) -> int {
        self.pos as int
    }

    pub open spec fn wf(self) -> bool {
        0 <= self.spec_pos() <= coordinator_trace_len()
    }

    pub fn new() -> (r: Coordinator)
        ensures
            r.wf(),
            r.spec_pos() == 0,
    {
        Coordinator { pos: 0 }
    }

    /// The step to perform now.
    pub fn next_step(&self) -> (r: CoordinatorStep)
        requires
            self.wf(),
        ensures
            r == coordinator_step_at(self.spec_pos()),
    {
        if self.pos == 0 {
            CoordinatorStep::Wait(Rendezvous::Start)
        } else if self.pos == 1 {
            CoordinatorStep::RecordStart
        } else if self.pos == 2 {
            CoordinatorStep::Wait(Rendezvous::Timer)
        } else if self.pos == 3 {
            CoordinatorStep::Wait(Rendezvous::End)
        } else if self.pos == 4 {
            CoordinatorStep::RecordStop
        } else if self.pos == 5 {
            CoordinatorStep::Wait(Rendezvous::Release)
        } else if self.pos == 6 {
            CoordinatorStep::Join
        } else {
            CoordinatorStep::Finished
        }
    }

    /// Records that the current step was performed.
    pub fn advance(&mut self)
        requires
            old(self).wf(),
            old(self).spec_pos() < coordinator_trace_len(),
        ensures
            final(self).wf(),
            final(self).spec_pos() == old(self).spec_pos() + 1,
    {
        self.pos = self.pos + 1;
    }
}

/// The clock readings at which each step of a life happened are strictly increasing.
pub open spec fn increasing(t: Seq<int>) -> bool {
    forall|i: int, j: int| 0 <= i < j < t.len() ==> t[i] < t[j]
}

/// When each rendezvous was released, read off the coordinator's own waits.
pub open spec fn release_time(ct: Seq<int>, r: Rendezvous) -> int {
    match r {
        Rendezvous::Start => ct[0],
        Rendezvous::Timer => ct[2],
        Rendezvous::End => ct[3],
        Rendezvous::Release => ct[5],
    }
}

/// `ct` gives a clock reading for each step of the coordinator.
pub open spec fn coordinator_schedule(ct: Seq<int>) -> bool {
    ct.len() == coordinator_trace_len() && increasing(ct)
}

/// `wt` gives a clock reading for each step of a worker that performs `num_ops`
/// operations; every party leaves a rendezvous at the instant it is released.
pub open spec fn worker_schedule(num_ops: nat, wt: Seq<int>, ct: Seq<int>) -> bool {
    &&& wt.len() == worker_trace_len(num_ops)
    &&& increasing(wt)
    &&& forall|i: int|
        0 <= i < wt.len() ==> (#[trigger] worker_step_at(num_ops, i) matches WorkerStep::Wait(r)
            ==> wt[i] == release_time(ct, r))
}

/// No setup or teardown call falls in the timed window: every worker's setup
/// happens before the start time is taken, every execute call lies strictly
/// between the start and the stop time, and teardown begins only after the stop
/// time has been taken.
pub proof fn lemma_timed_window(num_ops: nat, wt: Seq<int>, ct: Seq<int>)
    requires
        coordinator_schedule(ct),
        worker_schedule(num_ops, wt, ct),
    ensures
        wt[0] < ct[1],
        forall|i: int|
            0 <= i < wt.len() && worker_step_at(num_ops, i) == WorkerStep::Execute ==> ct[1]
                < wt[i] < ct[4],
        wt[5 + num_ops as int] > ct[4],
{
    assert(worker_step_at(num_ops, 1) == WorkerStep::Wait(Rendezvous::Start));
    assert(worker_step_at(num_ops, 2) == WorkerStep::Wait(Rendezvous::Timer));
    assert(worker_step_at(num_ops, 3 + num_ops as int) == WorkerStep::Wait(Rendezvous::End));
    assert(worker_step_at(num_ops, 4 + num_ops as int) == WorkerStep::Wait(Rendezvous::Release));
    assert(wt[0] < wt[1]);
    assert(ct[0] < ct[1]);
    assert forall|i: int|
        0 <= i < wt.len() && worker_step_at(num_ops, i) == WorkerStep::Execute implies ct[1]
            < wt[i] < ct[4] by {
        assert(wt[2] < wt[i]);
        assert(wt[i] < wt[3 + num_ops as int]);
        assert(ct[1] < ct[2]);
        assert(ct[3] < ct[4]);
    }
    assert(wt[4 + num_ops as int] < wt[5 + num_ops as int]);
    assert(ct[4] < ct[5]);
}

/// Each execute call of the worker lasts at least `delay`: the worker's next step
/// starts no sooner than `delay` after the call started.
pub open spec fn executes_last_at_least(num_ops: nat, wt: Seq<int>, delay: nat) -> bool {
    forall|i: int|
        0 <= i && i + 1 < wt.len() && #[trigger] worker_step_at(num_ops, i) == WorkerStep::Execute
            ==> wt[i + 1] - wt[i] >= delay
}

proof fn lemma_executes_span(num_ops: nat, wt: Seq<int>, delay: nat, k: nat)
    requires
        wt.len() == worker_trace_len(num_ops),
        executes_last_at_least(num_ops, wt, delay),
        k <= num_ops,
    ensures
        wt[3 + k as int] - wt[3] >= k * delay,
    decreases k,
{
    if k > 0 {
        let km: nat = (k - 1) as nat;
        lemma_executes_span(num_ops, wt, delay, km);
        assert(worker_step_at(num_ops, 3 + km as int) == WorkerStep::Execute);
        assert(wt[3 + km as int + 1] - wt[3 + km as int] >= delay);
        assert(km * delay + delay == k * delay) by (nonlinear_arith)
            requires
                km + 1 == k,
        ;
        assert(3 + km as int + 1 == 3 + k as int);
    } else {
        assert(k * delay == 0) by (nonlinear_arith)
            requires
                k == 0,
        ;
    }
}

/// Where every execute call of a worker lasts at least `delay`, the timed window
/// is longer than `num_ops * delay`; so a run's throughput is below
/// `thread_count / delay`, and it cannot rise as the per-call delay grows.
pub proof fn lemma_window_covers_delays(num_ops: nat, wt: Seq<int>, ct: Seq<int>, delay: nat)
    requires
        coordinator_schedule(ct),
        worker_schedule(num_ops, wt, ct),
        executes_last_at_least(num_ops, wt, delay),
    ensures
        ct[4] - ct[1] > num_ops * delay,
{
    lemma_executes_span(num_ops, wt, delay, num_ops);
    assert(worker_step_at(num_ops, 2) == WorkerStep::Wait(Rendezvous::Timer));
    assert(worker_step_at(num_ops, 3 + num_ops as int) == WorkerStep::Wait(Rendezvous::End));
    assert(wt[2] < wt[3]);
    assert(ct[1] < ct[2]);
    assert(ct[3] < ct[4]);
}

/// Representative operations run before a measurement, so that lazy
/// initialisation, cold caches and a low clock speed stay out of the timed window.
pub const WARM_UP_CRYPTO_OPS: u32 = 100;

/// Counts the warm-up operations still to perform.
pub struct WarmUp {
    done: u32,
}

impl WarmUp {
    /// Operations performed so far.
    pub closed spec fn spec_done(self) -> nat {
        self.done as nat
    }

    pub open spec fn wf(self) -> bool {
        self.spec_done() <= WARM_UP_CRYPTO_OPS
    }

    pub fn new() -> (r: WarmUp)
        ensures
            r.wf(),
            r.spec_done() == 0,
    {
        WarmUp { done: 0 }
    }

    /// Whether every warm-up operation has been performed.
    pub fn is_done(&self) -> (r: bool)
        requires
            self.wf(),
        ensures
            r == (self.spec_done() == WARM_UP_CRYPTO_OPS),
    {
        self.done == WARM_UP_CRYPTO_OPS
    }

    /// Records that one more operation was performed.
    pub fn advance(&mut self)
        requires
            old(self).wf(),
            old(self).spec_done() < WARM_UP_CRYPTO_OPS,
        ensures
            final(self).wf(),
            final(self).spec_done() == old(self).spec_done() + 1,
    {
        self.done = self.done + 1;
    }

    /// Operations performed so far.
    pub fn done(&self) -> (r: u32)
        ensures
            r == self.spec_done(),
    {
        self.done
    }
}

} // verus!
