//! Bookkeeping of the isolate thread pool.
//!
//! The pool owns a stack of idle workers and a counting semaphore with one
//! permit per worker. A submission first takes a permit, then pops the most
//! recently released worker; on the way out it pushes the worker back and only
//! then gives the permit up. The embedding program waits on its own blocking
//! primitives and reports what happened as a [`RunEvent`]; every decision and
//! every change of the stack and of the permit count is made here.

use crate::isolate::IsolateConfig;
use vstd::prelude::*;
use vstd::seq_lib::*;
use vstd::set_lib::*;

verus! {

/// Why a submission failed for good.
#[derive(Copy, Clone, Debug, PartialEq, Eq, Structural)]
pub enum PoolError {
    /// A permit was granted although every worker is checked out.
    NoThread,
    /// A worker was asked for, or a permit given up, without a permit being held.
    NotAdmitted,
    /// A worker was handed back that the pool had not checked out.
    NotLeased,
    /// The worker's job queue is closed.
    WorkerGone,
    /// The job was terminated: its reply slot closed without a value.
    JobTerminated,
}

impl PoolError {
    /// True for the failures that mean the pool's own state can no longer be trusted.
    pub fn is_corruption(&self) -> (r: bool)
        ensures
            r == !(*self is JobTerminated),
    {
        match self {
            PoolError::JobTerminated => false,
            _ => true,
        }
    }
}

/// Mathematical state of a pool.
pub struct PoolView {
    /// Number of workers the pool was built with.
    pub size: nat,
    /// Idle workers, the most recently released one last.
    pub idle: Seq<usize>,
    /// Permits nobody holds.
    pub permits: nat,
    /// Permits held by submissions that hold no worker.
    pub admitted: nat,
}

impl PoolView {
    /// The bookkeeping is consistent: every idle worker backs exactly one
    /// permit that is free or held without a worker.
    pub open spec fn wf(self) -> bool {
        &&& self.idle.len() == self.permits + self.admitted
        &&& self.idle.len() <= self.size
        &&& self.idle.no_duplicates()
        &&& forall|i: int| 0 <= i < self.idle.len() ==> #[trigger] self.idle[i] < self.size
    }

    /// Number of workers that are checked out.
    pub open spec fn leased(self) -> nat {
        (self.size - self.idle.len()) as nat
    }

    /// Worker `w` is checked out.
    pub open spec fn is_leased(self, w: usize) -> bool {
        w < self.size && !self.idle.contains(w)
    }

    /// State of a fresh pool of `size` workers.
    pub open spec fn fresh(size: nat) -> PoolView {
        PoolView { size, idle: Seq::new(size, |i: int| i as usize), permits: size, admitted: 0 }
    }

    /// State after a free permit was taken.
    pub open spec fn acquire(self) -> PoolView {
        PoolView { permits: (self.permits - 1) as nat, admitted: self.admitted + 1, ..self }
    }

    /// State after a permit holder popped the top of the stack.
    pub open spec fn take(self) -> PoolView {
        PoolView { idle: self.idle.drop_last(), admitted: (self.admitted - 1) as nat, ..self }
    }

    /// State after worker `w` was pushed back.
    pub open spec fn give_back(self, w: usize) -> PoolView {
        PoolView { idle: self.idle.push(w), admitted: self.admitted + 1, ..self }
    }

    /// State after a permit held without a worker was given up.
    pub open spec fn release(self) -> PoolView {
        PoolView { permits: self.permits + 1, admitted: (self.admitted - 1) as nat, ..self }
    }
}

/// A stack without repeats over `0..size` that misses `w` is not full.
proof fn lemma_stack_has_room(idle: Seq<usize>, size: nat, w: usize)
    requires
        idle.no_duplicates(),
        forall|i: int| 0 <= i < idle.len() ==> #[trigger] idle[i] < size,
        w < size,
        !idle.contains(w),
    ensures
        idle.len() < size,
{
    let ints = idle.map_values(|x: usize| x as int);
    assert(ints.no_duplicates()) by {
        assert forall|i: int, j: int| 0 <= i < ints.len() && 0 <= j < ints.len() && i != j implies ints[i] != ints[j] by {
            assert(idle[i] != idle[j]);
        }
    }
    ints.unique_seq_to_set();
    let rest = set_int_range(0, size as int).remove(w as int);
    lemma_int_range(0, size as int);
    assert(ints.to_set().subset_of(rest)) by {
        assert forall|x: int| ints.to_set().contains(x) implies rest.contains(x) by {
            let i = choose|i: int| 0 <= i < ints.len() && ints[i] == x;
            assert(idle[i] < size);
            assert(idle.contains(idle[i]));
        }
    }
    lemma_len_subset(ints.to_set(), rest);
}

/// The idle stack and the permit count of one pool.
pub struct IsolateThreadPool {
    config: IsolateConfig,
    size: usize,
    threads: Vec<usize>,
    permits: usize,
    admitted: usize,
}

impl View for IsolateThreadPool {
    type V = PoolView;

    closed spec fn view(&self) -> PoolView {
        PoolView {
            size: self.size as nat,
            idle: self.threads@,
            permits: self.permits as nat,
            admitted: self.admitted as nat,
        }
    }
}

impl IsolateThreadPool {
    /// The settings every worker of this pool was started with.
    pub closed spec fn spec_config(&self) -> IsolateConfig {
        self.config
    }

    /// A pool whose `size` workers, numbered from `0`, are all idle and whose
    /// permits are all free. Worker `size - 1` is on top of the stack.
    pub fn new(size: usize, config: IsolateConfig) -> (pool: IsolateThreadPool)
        ensures
            pool@ == PoolView::fresh(size as nat),
            pool@.wf(),
            pool.spec_config() == config,
    {
        let mut threads: Vec<usize> = Vec::new();
        let mut next: usize = 0;
        while next < size
            invariant
                next <= size,
                threads@ == Seq::new(next as nat, |i: int| i as usize),
            decreases size - next,
        {
            threads.push(next);
            next = next + 1;
            assert(threads@ =~= Seq::new(next as nat, |i: int| i as usize));
        }
        IsolateThreadPool { config, size, threads, permits: size, admitted: 0 }
    }

    /// The settings every worker of this pool was started with.
    pub fn config(&self) -> (c: &IsolateConfig)
        ensures
            *c == self.spec_config(),
    {
        &self.config
    }

    /// Number of workers the pool was built with.
    pub fn size(&self) -> (n: usize)
        ensures
            n == self@.size,
    {
        self.size
    }

    /// Number of workers on the idle stack.
    pub fn idle_threads(&self) -> (n: usize)
        ensures
            n == self@.idle.len(),
    {
        self.threads.len()
    }

    /// Number of free permits.
    pub fn available_permits(&self) -> (n: usize)
        ensures
            n == self@.permits,
    {
        self.permits
    }

    /// Takes a free permit if there is one and says whether it did.
    pub fn acquire_permit(&mut self) -> (granted: bool)
        requires
            old(self)@.wf(),
        ensures
            granted == (old(self)@.permits > 0),
            granted ==> final(self)@ == old(self)@.acquire(),
            !granted ==> final(self)@ == old(self)@,
            final(self)@.wf(),
            final(self).spec_config() == old(self).spec_config(),
    {
        if self.permits > 0 {
            self.permits = self.permits - 1;
            self.admitted = self.admitted + 1;
            true
        } else {
            false
        }
    }

    /// Pops the most recently released worker for a submission that holds a
    /// permit. A held permit always finds a worker: the only failure is to
    /// ask without one.
    pub fn take_thread(&mut self) -> (r: Result<usize, PoolError>)
        requires
            old(self)@.wf(),
        ensures
            r is Ok == (old(self)@.admitted > 0),
            r matches Ok(w) ==> w == old(self)@.idle.last() && final(self)@ == old(self)@.take()
                && final(self)@.is_leased(w),
            r matches Err(e) ==> e == PoolError::NotAdmitted && final(self)@ == old(self)@,
            final(self)@.wf(),
            final(self).spec_config() == old(self).spec_config(),
    {
        if self.admitted == 0 {
            return Err(PoolError::NotAdmitted);
        }
        let ghost before = self.threads@;
        match self.threads.pop() {
            Some(w) => {
                self.admitted = self.admitted - 1;
                proof {
                    assert(before[before.len() - 1] == w);
                    assert(forall|i: int| 0 <= i < self.threads@.len() ==> self.threads@[i] == before[i]);
                    assert(!self.threads@.contains(w)) by {
                        if self.threads@.contains(w) {
                            let i = choose|i: int| 0 <= i < self.threads@.len() && self.threads@[i] == w;
                            assert(before[i] == before[before.len() - 1]);
                        }
                    }
                }
                Ok(w)
            },
            // A held permit always has an idle worker behind it.
            None => Err(PoolError::NotAdmitted),
        }
    }

    /// Says whether worker `w` is on the idle stack.
    fn is_idle(&self, w: usize) -> (r: bool)
        ensures
            r == self@.idle.contains(w),
    {
        let mut i: usize = 0;
        while i < self.threads.len()
            invariant
                i <= self.threads@.len(),
                forall|j: int| 0 <= j < i ==> self.threads@[j] != w,
            decreases self.threads@.len() - i,
        {
            if self.threads[i] == w {
                return true;
            }
            i = i + 1;
        }
        false
    }

    /// Pushes worker `w` back on the stack; its permit stays held. Fails, and
    /// changes nothing, when `w` is not a checked-out worker of this pool.
    pub fn return_thread(&mut self, w: usize) -> (r: Result<(), PoolError>)
        requires
            old(self)@.wf(),
        ensures
            r is Ok == old(self)@.is_leased(w),
            r is Ok ==> final(self)@ == old(self)@.give_back(w),
            r matches Err(e) ==> e == PoolError::NotLeased && final(self)@ == old(self)@,
            final(self)@.wf(),
            final(self).spec_config() == old(self).spec_config(),
    {
        if w >= self.size || self.is_idle(w) {
            return Err(PoolError::NotLeased);
        }
        proof {
            lemma_stack_has_room(self.threads@, self.size as nat, w);
        }
        let ghost before = self.threads@;
        self.threads.push(w);
        self.admitted = self.admitted + 1;
        proof {
            assert forall|i: int, j: int|
                0 <= i < self.threads@.len() && 0 <= j < self.threads@.len() && i != j implies self.threads@[i]
                != self.threads@[j] by {
                if i < before.len() {
                    assert(before.contains(before[i]));
                }
                if j < before.len() {
                    assert(before.contains(before[j]));
                }
            }
        }
        Ok(())
    }

    /// Gives up a permit that is held without a worker.
    pub fn release_permit(&mut self) -> (r: Result<(), PoolError>)
        requires
            old(self)@.wf(),
        ensures
            r is Ok == (old(self)@.admitted > 0),
            r is Ok ==> final(self)@ == old(self)@.release(),
            r matches Err(e) ==> e == PoolError::NotAdmitted && final(self)@ == old(self)@,
            final(self)@.wf(),
            final(self).spec_config() == old(self).spec_config(),
    {
        if self.admitted == 0 {
            return Err(PoolError::NotAdmitted);
        }
        self.admitted = self.admitted - 1;
        self.permits = self.permits + 1;
        Ok(())
    }
}

/// Where one submission stands.
#[derive(Copy, Clone, Debug, PartialEq, Eq, Structural)]
pub enum RunPhase {
    /// Waiting for a permit; holds nothing.
    Queued,
    /// Holds a permit and a worker; the job is being put on the worker's queue.
    Dispatching { worker: usize },
    /// Holds a permit and a worker; the job is queued or running and the
    /// reply is awaited.
    Awaiting { worker: usize },
    /// Resolved, failed or cancelled; holds nothing.
    Done,
}

impl RunPhase {
    /// The submission holds a permit and a worker.
    pub open spec fn holds_thread(self) -> bool {
        self is Dispatching || self is Awaiting
    }

    /// The worker the submission holds, if it holds one.
    pub open spec fn thread(self) -> usize {
        match self {
            RunPhase::Dispatching { worker } => worker,
            RunPhase::Awaiting { worker } => worker,
            _ => 0,
        }
    }
}

/// What the embedding program observed for one submission.
#[derive(Copy, Clone, Debug, PartialEq, Eq, Structural)]
pub enum RunEvent {
    /// The wait for a permit is over.
    PermitGranted,
    /// The job was put on the worker's queue.
    JobSent,
    /// The worker's queue is closed.
    SendFailed,
    /// The job's return value arrived.
    Replied,
    /// The reply slot closed without a value.
    ReplyDropped,
    /// The caller gave the submission up.
    Cancelled,
}

/// What the embedding program has to do next for one submission.
#[derive(Copy, Clone, Debug, PartialEq, Eq, Structural)]
pub enum RunAction {
    /// Put the job on this worker's queue.
    Dispatch { worker: usize },
    /// Wait for the reply of the job running on this worker.
    AwaitReply { worker: usize },
    /// Hand the job's return value to the caller.
    Resolve,
    /// Stop with a fatal error.
    Fail { error: PoolError },
    /// Nothing: the submission was cancelled and holds nothing any more.
    Discard,
    /// Nothing: the event does not apply to the submission as it stands.
    Ignore,
}

/// What one submission holds of a pool. It is neither `Clone` nor buildable
/// with a worker inside: a worker enters it only by being popped.
#[derive(Debug)]
pub struct ThreadGuard {
    phase: RunPhase,
}

impl View for ThreadGuard {
    type V = RunPhase;

    closed spec fn view(&self) -> RunPhase {
        self.phase
    }
}

impl ThreadGuard {
    /// A submission that waits for its permit.
    pub fn new() -> (guard: ThreadGuard)
        ensures
            guard@ == RunPhase::Queued,
    {
        ThreadGuard { phase: RunPhase::Queued }
    }

    /// Where the submission stands.
    pub fn phase(&self) -> (p: RunPhase)
        ensures
            p == self@,
    {
        self.phase
    }
}

/// Leaving with worker `w`: the worker goes back on the stack first, the
/// permit is given up second, and `action` is what remains to be done. A
/// worker the pool never checked out is refused and nothing changes.
pub open spec fn leave_spec(pool: PoolView, w: usize, action: RunAction) -> (PoolView, RunPhase, RunAction) {
    if pool.is_leased(w) {
        (pool.give_back(w).release(), RunPhase::Done, action)
    } else {
        (pool, RunPhase::Done, RunAction::Fail { error: PoolError::NotLeased })
    }
}

/// The pool, the submission and the action that follow from `event`.
pub open spec fn run_spec(pool: PoolView, phase: RunPhase, event: RunEvent) -> (PoolView, RunPhase, RunAction) {
    match (phase, event) {
        (RunPhase::Queued, RunEvent::PermitGranted) => {
            if pool.permits > 0 {
                let w = pool.idle.last();
                (pool.acquire().take(), RunPhase::Dispatching { worker: w }, RunAction::Dispatch { worker: w })
            } else {
                (pool, RunPhase::Done, RunAction::Fail { error: PoolError::NoThread })
            }
        },
        (RunPhase::Queued, RunEvent::Cancelled) => (pool, RunPhase::Done, RunAction::Discard),
        (RunPhase::Dispatching { worker }, RunEvent::JobSent) => (
            pool,
            RunPhase::Awaiting { worker },
            RunAction::AwaitReply { worker },
        ),
        (RunPhase::Dispatching { worker }, RunEvent::SendFailed) => leave_spec(
            pool,
            worker,
            RunAction::Fail { error: PoolError::WorkerGone },
        ),
        (RunPhase::Dispatching { worker }, RunEvent::Cancelled) => leave_spec(pool, worker, RunAction::Discard),
        (RunPhase::Awaiting { worker }, RunEvent::Replied) => leave_spec(pool, worker, RunAction::Resolve),
        (RunPhase::Awaiting { worker }, RunEvent::ReplyDropped) => leave_spec(
            pool,
            worker,
            RunAction::Fail { error: PoolError::JobTerminated },
        ),
        (RunPhase::Awaiting { worker }, RunEvent::Cancelled) => leave_spec(pool, worker, RunAction::Discard),
        _ => (pool, phase, RunAction::Ignore),
    }
}

impl IsolateThreadPool {
    /// Hands the worker of a leaving submission back and gives its permit up,
    /// in that order.
    fn leave(&mut self, guard: &mut ThreadGuard, w: usize, action: RunAction) -> (r: RunAction)
        requires
            old(self)@.wf(),
        ensures
            (final(self)@, final(guard)@, r) == leave_spec(old(self)@, w, action),
            final(self)@.wf(),
            final(self).spec_config() == old(self).spec_config(),
    {
        guard.phase = RunPhase::Done;
        match self.return_thread(w) {
            Ok(()) => match self.release_permit() {
                Ok(()) => action,
                Err(e) => RunAction::Fail { error: e },
            },
            Err(e) => RunAction::Fail { error: e },
        }
    }

    /// Advances one submission by one observed event and says what to do
    /// next. On a granted permit the submission is given the most recently
    /// released worker; whenever it leaves (reply, failure or cancellation)
    /// its worker is back on the stack before its permit is free again.
    pub fn run(&mut self, guard: &mut ThreadGuard, event: RunEvent) -> (action: RunAction)
        requires
            old(self)@.wf(),
        ensures
            (final(self)@, final(guard)@, action) == run_spec(old(self)@, old(guard)@, event),
            final(self)@.wf(),
            final(self).spec_config() == old(self).spec_config(),
    {
        match (guard.phase, event) {
            (RunPhase::Queued, RunEvent::PermitGranted) => {
                if self.acquire_permit() {
                    match self.take_thread() {
                        Ok(w) => {
                            guard.phase = RunPhase::Dispatching { worker: w };
                            RunAction::Dispatch { worker: w }
                        },
                        Err(e) => {
                            guard.phase = RunPhase::Done;
                            RunAction::Fail { error: e }
                        },
                    }
                } else {
                    guard.phase = RunPhase::Done;
                    RunAction::Fail { error: PoolError::NoThread }
                }
            },
            (RunPhase::Queued, RunEvent::Cancelled) => {
                guard.phase = RunPhase::Done;
                RunAction::Discard
            },
            (RunPhase::Dispatching { worker }, RunEvent::JobSent) => {
                guard.phase = RunPhase::Awaiting { worker };
                RunAction::AwaitReply { worker }
            },
            (RunPhase::Dispatching { worker }, RunEvent::SendFailed) => self.leave(
                guard,
                worker,
                RunAction::Fail { error: PoolError::WorkerGone },
            ),
            (RunPhase::Dispatching { worker }, RunEvent::Cancelled) => self.leave(guard, worker, RunAction::Discard),
            (RunPhase::Awaiting { worker }, RunEvent::Replied) => self.leave(guard, worker, RunAction::Resolve),
            (RunPhase::Awaiting { worker }, RunEvent::ReplyDropped) => self.leave(
                guard,
                worker,
                RunAction::Fail { error: PoolError::JobTerminated },
            ),
            (RunPhase::Awaiting { worker }, RunEvent::Cancelled) => self.leave(guard, worker, RunAction::Discard),
            _ => RunAction::Ignore,
        }
    }
}


/// Number of submissions that hold a worker.
pub open spec fn in_flight(calls: Seq<RunPhase>) -> nat
    decreases calls.len(),
{
    if calls.len() == 0 {
        0
    } else {
        in_flight(calls.drop_last()) + if calls.last().holds_thread() {
            1nat
        } else {
            0nat
        }
    }
}

/// A pool and the submissions made to it agree: every permit that is not
/// free is held by exactly one submission together with a checked-out
/// worker of its own.
pub open spec fn consistent(pool: PoolView, calls: Seq<RunPhase>) -> bool {
    &&& pool.wf()
    &&& pool.admitted == 0
    &&& pool.permits + in_flight(calls) == pool.size
    &&& forall|i: int| 0 <= i < calls.len() && (#[trigger] calls[i]).holds_thread() ==> pool.is_leased(calls[i].thread())
    &&& forall|i: int, j: int|
        0 <= i < calls.len() && 0 <= j < calls.len() && i != j && (#[trigger] calls[i]).holds_thread() && (
        #[trigger] calls[j]).holds_thread() ==> calls[i].thread() != calls[j].thread()
}

/// One step of the whole: submission `step.0` observes event `step.1`.
/// A step that names no submission changes nothing.
pub open spec fn step_spec(pool: PoolView, calls: Seq<RunPhase>, step: (int, RunEvent)) -> (PoolView, Seq<RunPhase>) {
    if 0 <= step.0 < calls.len() {
        let next = run_spec(pool, calls[step.0], step.1);
        (next.0, calls.update(step.0, next.1))
    } else {
        (pool, calls)
    }
}

/// The pool and the submissions after a sequence of steps.
pub open spec fn steps_spec(pool: PoolView, calls: Seq<RunPhase>, steps: Seq<(int, RunEvent)>) -> (
    PoolView,
    Seq<RunPhase>,
)
    decreases steps.len(),
{
    if steps.len() == 0 {
        (pool, calls)
    } else {
        let before = steps_spec(pool, calls, steps.drop_last());
        step_spec(before.0, before.1, steps.last())
    }
}

proof fn lemma_in_flight_update(calls: Seq<RunPhase>, i: int, p: RunPhase)
    requires
        0 <= i < calls.len(),
    ensures
        in_flight(calls.update(i, p)) + (if calls[i].holds_thread() {
            1nat
        } else {
            0nat
        }) == in_flight(calls) + (if p.holds_thread() {
            1nat
        } else {
            0nat
        }),
    decreases calls.len(),
{
    if i == calls.len() - 1 {
        assert(calls.update(i, p).drop_last() =~= calls.drop_last());
    } else {
        lemma_in_flight_update(calls.drop_last(), i, p);
        assert(calls.update(i, p).drop_last() =~= calls.drop_last().update(i, p));
    }
}

proof fn lemma_in_flight_none(calls: Seq<RunPhase>)
    requires
        forall|i: int| 0 <= i < calls.len() ==> !(#[trigger] calls[i]).holds_thread(),
    ensures
        in_flight(calls) == 0,
    decreases calls.len(),
{
    if calls.len() > 0 {
        lemma_in_flight_none(calls.drop_last());
    }
}

proof fn lemma_in_flight_some(calls: Seq<RunPhase>, i: int)
    requires
        0 <= i < calls.len(),
        calls[i].holds_thread(),
    ensures
        in_flight(calls) > 0,
    decreases calls.len(),
{
    if i < calls.len() - 1 {
        lemma_in_flight_some(calls.drop_last(), i);
    }
}

/// A fresh pool is consistent with any number of submissions that all still
/// wait for their permit.
pub proof fn lemma_fresh_consistent(size: nat, calls: Seq<RunPhase>)
    requires
        size <= usize::MAX,
        forall|i: int| 0 <= i < calls.len() ==> #[trigger] calls[i] == RunPhase::Queued,
    ensures
        consistent(PoolView::fresh(size), calls),
{
    lemma_in_flight_none(calls);
}

/// Every step keeps pool and submissions consistent, and in a consistent
/// whole no step ever fails for a worker or a permit the pool does not know.
pub proof fn lemma_step_consistent(pool: PoolView, calls: Seq<RunPhase>, step: (int, RunEvent))
    requires
        consistent(pool, calls),
    ensures
        consistent(step_spec(pool, calls, step).0, step_spec(pool, calls, step).1),
        step_spec(pool, calls, step).0.size == pool.size,
        step_spec(pool, calls, step).1.len() == calls.len(),
        0 <= step.0 < calls.len() ==> run_spec(pool, calls[step.0], step.1).2 != (RunAction::Fail {
            error: PoolError::NotLeased,
        }) && run_spec(pool, calls[step.0], step.1).2 != (RunAction::Fail { error: PoolError::NotAdmitted }),
{
    if 0 <= step.0 < calls.len() {
        let i = step.0;
        let next = run_spec(pool, calls[i], step.1);
        let after = calls.update(i, next.1);
        lemma_in_flight_update(calls, i, next.1);
        if calls[i].holds_thread() {
            lemma_in_flight_some(calls, i);
            let w = calls[i].thread();
            assert(pool.is_leased(w));
            if !next.1.holds_thread() {
                lemma_stack_has_room(pool.idle, pool.size, w);
                let back = pool.give_back(w).release();
                assert(next.0 == back);
                assert(back.idle.no_duplicates()) by {
                    assert forall|a: int, b: int|
                        0 <= a < back.idle.len() && 0 <= b < back.idle.len() && a != b implies back.idle[a]
                        != back.idle[b] by {
                        if a < pool.idle.len() {
                            assert(pool.idle.contains(pool.idle[a]));
                        }
                        if b < pool.idle.len() {
                            assert(pool.idle.contains(pool.idle[b]));
                        }
                    }
                }
                assert forall|j: int| 0 <= j < after.len() && (#[trigger] after[j]).holds_thread() implies back.is_leased(
                    after[j].thread(),
                ) by {
                    assert(j != i);
                    assert(calls[j].holds_thread());
                    assert(pool.is_leased(calls[j].thread()));
                    if back.idle.contains(after[j].thread()) {
                        let k = choose|k: int| 0 <= k < back.idle.len() && back.idle[k] == after[j].thread();
                        if k < pool.idle.len() {
                            assert(pool.idle.contains(pool.idle[k]));
                        }
                    }
                }
            }
        } else if next.1.holds_thread() {
            let w = pool.idle.last();
            let taken = pool.acquire().take();
            assert(next.0 == taken);
            assert(pool.idle.contains(w));
            assert(!taken.idle.contains(w)) by {
                if taken.idle.contains(w) {
                    let k = choose|k: int| 0 <= k < taken.idle.len() && taken.idle[k] == w;
                    assert(pool.idle[k] == pool.idle[pool.idle.len() - 1]);
                }
            }
            assert forall|j: int| 0 <= j < after.len() && (#[trigger] after[j]).holds_thread() implies taken.is_leased(
                after[j].thread(),
            ) by {
                if j != i {
                    assert(calls[j].holds_thread());
                    assert(pool.is_leased(calls[j].thread()));
                    if taken.idle.contains(after[j].thread()) {
                        let k = choose|k: int| 0 <= k < taken.idle.len() && taken.idle[k] == after[j].thread();
                        assert(pool.idle.contains(pool.idle[k]));
                    }
                }
            }
            assert forall|a: int, b: int|
                0 <= a < after.len() && 0 <= b < after.len() && a != b && (#[trigger] after[a]).holds_thread() && (
                #[trigger] after[b]).holds_thread() implies after[a].thread() != after[b].thread() by {
                if a == i {
                    assert(calls[b].holds_thread());
                    assert(pool.is_leased(calls[b].thread()));
                } else if b == i {
                    assert(calls[a].holds_thread());
                    assert(pool.is_leased(calls[a].thread()));
                } else {
                    assert(calls[a].holds_thread() && calls[b].holds_thread());
                }
            }
        }
    }
}

/// Consistency survives every sequence of steps.
pub proof fn lemma_steps_consistent(pool: PoolView, calls: Seq<RunPhase>, steps: Seq<(int, RunEvent)>)
    requires
        consistent(pool, calls),
    ensures
        consistent(steps_spec(pool, calls, steps).0, steps_spec(pool, calls, steps).1),
        steps_spec(pool, calls, steps).0.size == pool.size,
        steps_spec(pool, calls, steps).1.len() == calls.len(),
    decreases steps.len(),
{
    if steps.len() > 0 {
        lemma_steps_consistent(pool, calls, steps.drop_last());
        let before = steps_spec(pool, calls, steps.drop_last());
        lemma_step_consistent(before.0, before.1, steps.last());
    }
}

/// Admission bound: whatever the submissions to a pool of `size` workers
/// have observed so far, at most `size` of them hold a worker, and the
/// workers they hold are all different.
pub proof fn lemma_admission_bound(size: nat, calls: Seq<RunPhase>, steps: Seq<(int, RunEvent)>)
    requires
        size <= usize::MAX,
        forall|i: int| 0 <= i < calls.len() ==> #[trigger] calls[i] == RunPhase::Queued,
    ensures
        in_flight(steps_spec(PoolView::fresh(size), calls, steps).1) <= size,
        in_flight(steps_spec(PoolView::fresh(size), calls, steps).1) == steps_spec(
            PoolView::fresh(size),
            calls,
            steps,
        ).0.leased(),
        ({
            let now = steps_spec(PoolView::fresh(size), calls, steps).1;
            forall|i: int, j: int|
                0 <= i < now.len() && 0 <= j < now.len() && i != j && (#[trigger] now[i]).holds_thread() && (
                #[trigger] now[j]).holds_thread() ==> now[i].thread() != now[j].thread()
        }),
{
    lemma_fresh_consistent(size, calls);
    lemma_steps_consistent(PoolView::fresh(size), calls, steps);
}

/// Worker conservation: once no submission holds a worker any more, however
/// each of them ended, all `size` workers are back on the stack and all
/// `size` permits are free.
pub proof fn lemma_worker_conservation(size: nat, calls: Seq<RunPhase>, steps: Seq<(int, RunEvent)>)
    requires
        size <= usize::MAX,
        forall|i: int| 0 <= i < calls.len() ==> #[trigger] calls[i] == RunPhase::Queued,
        ({
            let now = steps_spec(PoolView::fresh(size), calls, steps).1;
            forall|i: int| 0 <= i < now.len() ==> !(#[trigger] now[i]).holds_thread()
        }),
    ensures
        steps_spec(PoolView::fresh(size), calls, steps).0.idle.len() == size,
        steps_spec(PoolView::fresh(size), calls, steps).0.permits == size,
        steps_spec(PoolView::fresh(size), calls, steps).0.admitted == 0,
{
    lemma_fresh_consistent(size, calls);
    lemma_steps_consistent(PoolView::fresh(size), calls, steps);
    lemma_in_flight_none(steps_spec(PoolView::fresh(size), calls, steps).1);
}

/// Cancellation safety: a submission that is given up, wherever it stands,
/// ends holding nothing. If it held a worker, that worker is on top of the
/// stack again and its permit is free again; if it held none, the pool is
/// untouched. Either way the whole stays consistent, so no permit is lost.
pub proof fn lemma_cancel_releases(pool: PoolView, calls: Seq<RunPhase>, i: int)
    requires
        consistent(pool, calls),
        0 <= i < calls.len(),
    ensures
        ({
            let after = step_spec(pool, calls, (i, RunEvent::Cancelled));
            &&& consistent(after.0, after.1)
            &&& !after.1[i].holds_thread()
            &&& calls[i].holds_thread() ==> after.0.permits == pool.permits + 1 && after.0.idle == pool.idle.push(
                calls[i].thread(),
            ) && after.1[i] == RunPhase::Done
            &&& !calls[i].holds_thread() ==> after.0 == pool
        }),
{
    lemma_step_consistent(pool, calls, (i, RunEvent::Cancelled));
}

/// A free permit always finds an idle worker: whenever the account is
/// consistent and a permit is free, the stack is not empty, and the
/// submission that is granted the permit is given the top of the stack.
pub proof fn lemma_permit_finds_worker(pool: PoolView)
    requires
        pool.wf(),
        pool.permits > 0,
    ensures
        pool.idle.len() > 0,
        run_spec(pool, RunPhase::Queued, RunEvent::PermitGranted).2 == (RunAction::Dispatch {
            worker: pool.idle.last(),
        }),
        run_spec(pool, RunPhase::Queued, RunEvent::PermitGranted).0.wf(),
{
}

/// The worker a submission leaves with is the one the next admitted
/// submission is given.
pub proof fn lemma_last_released_first_reused(pool: PoolView, w: usize)
    requires
        pool.wf(),
        pool.is_leased(w),
    ensures
        run_spec(pool.give_back(w).release(), RunPhase::Queued, RunEvent::PermitGranted).2 == (RunAction::Dispatch {
            worker: w,
        }),
{
}

} // verus!
