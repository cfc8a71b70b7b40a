//! Life cycle of one engine worker.
//!
//! A worker is a dedicated thread that owns one engine instance and serves a
//! serial queue of jobs. The thread performs the engine calls and the
//! blocking receive; this module decides, from what the thread reports, which
//! phase the worker is in, what it has to do next and which generation it has
//! reached.

use crate::isolate::IsolateConfig;
use crate::isolate::IsolateGeneration;
use vstd::prelude::*;

verus! {

/// Capacity of a worker's job queue: one job at a time, for backpressure.
pub const JOB_QUEUE_CAPACITY: usize = 1;

/// Phase of a worker.
#[derive(Copy, Clone, Debug, PartialEq, Eq, Structural)]
pub enum WorkerPhase {
    /// The engine is being created and the runtime library compiled.
    Starting,
    /// Waiting for a job.
    Ready,
    /// Running a job.
    Busy,
    /// The job queue is closed; the worker is winding down.
    Draining,
    /// The worker has stopped.
    Exited,
}

/// What the worker thread observed.
#[derive(Copy, Clone, Debug, PartialEq, Eq, Structural)]
pub enum WorkerEvent {
    /// The engine is live and the runtime library is compiled.
    EngineReady,
    /// A job arrived on the queue.
    JobReceived,
    /// The job returned.
    JobReturned,
    /// The job was stopped by the engine's termination signal.
    JobTerminated,
    /// The job queue is closed.
    QueueClosed,
    /// Winding down is finished.
    Drained,
}

impl WorkerEvent {
    /// The event ends the job that is running.
    pub open spec fn ends_job(self) -> bool {
        self is JobReturned || self is JobTerminated
    }

    /// How a job ended, told from whether the engine is terminating its
    /// execution when the job comes back: a job that comes back under a
    /// termination signal was terminated, any other returned.
    pub fn job_ended(terminating: bool) -> (event: WorkerEvent)
        ensures
            event == if terminating {
                WorkerEvent::JobTerminated
            } else {
                WorkerEvent::JobReturned
            },
    {
        if terminating {
            WorkerEvent::JobTerminated
        } else {
            WorkerEvent::JobReturned
        }
    }
}

/// What is sent through the reply slot of a job that came back with
/// `value`: the value, unless the job was terminated. A terminated job
/// sends nothing, so that its reply slot closes without a value and the
/// caller sees a termination instead of a result.
pub fn job_reply<R>(value: R, terminating: bool) -> (reply: Option<R>)
    ensures
        reply == if terminating {
            None
        } else {
            Some(value)
        },
{
    if terminating {
        None
    } else {
        Some(value)
    }
}

/// What the worker thread has to do next. Each action stands for the steps
/// that [`WorkerAction::steps`] lists, in their order.
#[derive(Copy, Clone, Debug, PartialEq, Eq, Structural)]
pub enum WorkerAction {
    /// Bring the engine up.
    Boot { max_memory_bytes: usize },
    /// Make the worker known as ready and wait for a job.
    Announce,
    /// Prepare a fresh context and run the job in it, under the heap cap.
    RunJob { max_memory_bytes: usize },
    /// Leave the finished job behind, at generation `generation`, and wait
    /// for the next one.
    Recycle { generation: IsolateGeneration, max_memory_bytes: usize },
    /// Wind down.
    Drain,
    /// Leave the thread.
    Exit,
    /// Stop serving: the generation counter cannot advance any further.
    Retire,
    /// Nothing: the event does not apply in this phase.
    Ignore,
}

/// One thing the worker thread does to its engine, its queue or its
/// callers.
#[derive(Copy, Clone, Debug, PartialEq, Eq, Structural)]
pub enum WorkerStep {
    /// Create the engine instance with this heap cap.
    CreateEngine { max_memory_bytes: usize },
    /// Compile the runtime library in a fresh context scope and keep a
    /// persistent handle to its context-independent script.
    CompileRuntime,
    /// Attach the generation counter to an engine-local slot.
    AttachGeneration,
    /// Signal that initialization succeeded.
    SignalInit,
    /// Wait, blocking, for the next job.
    AwaitJob,
    /// Open a fresh context scope.
    OpenContext,
    /// Set `global` on the global object of the context to that object.
    BindGlobal,
    /// Bind the runtime library's script to the context and run it.
    RunRuntime,
    /// Register the near-heap-limit callback for this heap cap: when the
    /// heap comes near the cap, the callback asks for the execution to be
    /// terminated.
    AddHeapLimitCallback { max_memory_bytes: usize },
    /// Invoke the job with the context scope.
    InvokeJob,
    /// Take the lock of the generation counter, advance it to `to`, and
    /// release the lock.
    AdvanceGeneration { to: IsolateGeneration },
    /// Clear a pending termination signal on the engine.
    CancelTermination,
    /// Run the clean-up hook that clears the instance-local slots.
    CleanupSlots,
    /// Deregister the near-heap-limit callback registered for this heap cap.
    RemoveHeapLimitCallback { max_memory_bytes: usize },
    /// Let go of the engine.
    ReleaseEngine,
    /// Return from the thread's function.
    LeaveThread,
}

impl WorkerAction {
    /// The steps of the action, in the order in which they are taken.
    pub open spec fn steps_spec(self) -> Seq<WorkerStep> {
        match self {
            WorkerAction::Boot { max_memory_bytes } => seq![
                WorkerStep::CreateEngine { max_memory_bytes },
                WorkerStep::CompileRuntime,
            ],
            WorkerAction::Announce => seq![
                WorkerStep::AttachGeneration,
                WorkerStep::SignalInit,
                WorkerStep::AwaitJob,
            ],
            WorkerAction::RunJob { max_memory_bytes } => seq![
                WorkerStep::OpenContext,
                WorkerStep::BindGlobal,
                WorkerStep::RunRuntime,
                WorkerStep::AddHeapLimitCallback { max_memory_bytes },
                WorkerStep::InvokeJob,
            ],
            WorkerAction::Recycle { generation, max_memory_bytes } => seq![
                WorkerStep::AdvanceGeneration { to: generation },
                WorkerStep::CancelTermination,
                WorkerStep::CleanupSlots,
                WorkerStep::RemoveHeapLimitCallback { max_memory_bytes },
                WorkerStep::AwaitJob,
            ],
            WorkerAction::Drain => seq![WorkerStep::ReleaseEngine],
            WorkerAction::Exit => seq![WorkerStep::LeaveThread],
            WorkerAction::Retire => seq![WorkerStep::ReleaseEngine, WorkerStep::LeaveThread],
            WorkerAction::Ignore => Seq::empty(),
        }
    }

    /// The steps of the action, in the order in which they are taken.
    pub fn steps(&self) -> (steps: Vec<WorkerStep>)
        ensures
            steps@ == self.steps_spec(),
    {
        let mut steps: Vec<WorkerStep> = Vec::new();
        match *self {
            WorkerAction::Boot { max_memory_bytes } => {
                steps.push(WorkerStep::CreateEngine { max_memory_bytes });
                steps.push(WorkerStep::CompileRuntime);
            },
            WorkerAction::Announce => {
                steps.push(WorkerStep::AttachGeneration);
                steps.push(WorkerStep::SignalInit);
                steps.push(WorkerStep::AwaitJob);
            },
            WorkerAction::RunJob { max_memory_bytes } => {
                steps.push(WorkerStep::OpenContext);
                steps.push(WorkerStep::BindGlobal);
                steps.push(WorkerStep::RunRuntime);
                steps.push(WorkerStep::AddHeapLimitCallback { max_memory_bytes });
                steps.push(WorkerStep::InvokeJob);
            },
            WorkerAction::Recycle { generation, max_memory_bytes } => {
                steps.push(WorkerStep::AdvanceGeneration { to: generation });
                steps.push(WorkerStep::CancelTermination);
                steps.push(WorkerStep::CleanupSlots);
                steps.push(WorkerStep::RemoveHeapLimitCallback { max_memory_bytes });
                steps.push(WorkerStep::AwaitJob);
            },
            WorkerAction::Drain => {
                steps.push(WorkerStep::ReleaseEngine);
            },
            WorkerAction::Exit => {
                steps.push(WorkerStep::LeaveThread);
            },
            WorkerAction::Retire => {
                steps.push(WorkerStep::ReleaseEngine);
                steps.push(WorkerStep::LeaveThread);
            },
            WorkerAction::Ignore => {},
        }
        assert(steps@ =~= self.steps_spec());
        steps
    }
}

/// Mathematical state of a worker.
pub struct WorkerView {
    pub phase: WorkerPhase,
    pub generation: IsolateGeneration,
    pub max_memory_bytes: usize,
}

/// The worker and the action that follow from `event`.
pub open spec fn worker_spec(w: WorkerView, event: WorkerEvent) -> (WorkerView, WorkerAction) {
    match (w.phase, event) {
        (WorkerPhase::Starting, WorkerEvent::EngineReady) => (
            WorkerView { phase: WorkerPhase::Ready, ..w },
            WorkerAction::Announce,
        ),
        (WorkerPhase::Ready, WorkerEvent::JobReceived) => (
            WorkerView { phase: WorkerPhase::Busy, ..w },
            WorkerAction::RunJob { max_memory_bytes: w.max_memory_bytes },
        ),
        (WorkerPhase::Ready, WorkerEvent::QueueClosed) => (
            WorkerView { phase: WorkerPhase::Draining, ..w },
            WorkerAction::Drain,
        ),
        (WorkerPhase::Draining, WorkerEvent::Drained) => (
            WorkerView { phase: WorkerPhase::Exited, ..w },
            WorkerAction::Exit,
        ),
        (WorkerPhase::Busy, WorkerEvent::JobReturned) => finish_spec(w),
        (WorkerPhase::Busy, WorkerEvent::JobTerminated) => finish_spec(w),
        _ => (w, WorkerAction::Ignore),
    }
}

/// The worker after its running job ended, however it ended: one
/// generation further and ready again, unless the counter is exhausted.
pub open spec fn finish_spec(w: WorkerView) -> (WorkerView, WorkerAction) {
    if w.generation.0 < u64::MAX {
        let generation = IsolateGeneration((w.generation.0 + 1) as u64);
        (
            WorkerView { phase: WorkerPhase::Ready, generation, ..w },
            WorkerAction::Recycle { generation, max_memory_bytes: w.max_memory_bytes },
        )
    } else {
        (WorkerView { phase: WorkerPhase::Exited, ..w }, WorkerAction::Retire)
    }
}

/// State of one worker, kept by its thread.
#[derive(Debug)]
pub struct IsolateThread {
    config: IsolateConfig,
    phase: WorkerPhase,
    generation: IsolateGeneration,
}

impl View for IsolateThread {
    type V = WorkerView;

    closed spec fn view(&self) -> WorkerView {
        WorkerView {
            phase: self.phase,
            generation: self.generation,
            max_memory_bytes: self.config.max_memory_bytes,
        }
    }
}

impl IsolateThread {
    /// A worker that is starting: its engine is to be created with the heap
    /// cap of `config`, and it has finished no job.
    pub fn new(config: IsolateConfig) -> (th: IsolateThread)
        ensures
            th@ == (WorkerView {
                phase: WorkerPhase::Starting,
                generation: IsolateGeneration(0),
                max_memory_bytes: config.max_memory_bytes,
            }),
    {
        IsolateThread { config, phase: WorkerPhase::Starting, generation: IsolateGeneration(0) }
    }

    /// What a starting worker does first: it brings its engine up, with the
    /// heap cap of its settings.
    pub fn boot(&self) -> (action: WorkerAction)
        ensures
            action == (WorkerAction::Boot { max_memory_bytes: self@.max_memory_bytes }),
    {
        WorkerAction::Boot { max_memory_bytes: self.config.max_memory_bytes }
    }

    /// The worker's phase.
    pub fn phase(&self) -> (p: WorkerPhase)
        ensures
            p == self@.phase,
    {
        self.phase
    }

    /// Number of jobs the worker has finished.
    pub fn generation(&self) -> (g: IsolateGeneration)
        ensures
            g == self@.generation,
    {
        self.generation
    }

    /// Heap cap of the worker's engine, in bytes.
    pub fn max_memory_bytes(&self) -> (n: usize)
        ensures
            n == self@.max_memory_bytes,
    {
        self.config.max_memory_bytes
    }
}

/// Advances a worker by one observed event and says what its thread has to
/// do next. A job is accepted only by a worker that is ready, and the end of
/// a job, by return or by termination, advances the generation by exactly
/// one before the worker is ready again.
pub fn isolate_worker(th: &mut IsolateThread, event: WorkerEvent) -> (action: WorkerAction)
    ensures
        (final(th)@, action) == worker_spec(old(th)@, event),
{
    match (th.phase, event) {
        (WorkerPhase::Starting, WorkerEvent::EngineReady) => {
            th.phase = WorkerPhase::Ready;
            WorkerAction::Announce
        },
        (WorkerPhase::Ready, WorkerEvent::JobReceived) => {
            th.phase = WorkerPhase::Busy;
            WorkerAction::RunJob { max_memory_bytes: th.config.max_memory_bytes }
        },
        (WorkerPhase::Ready, WorkerEvent::QueueClosed) => {
            th.phase = WorkerPhase::Draining;
            WorkerAction::Drain
        },
        (WorkerPhase::Draining, WorkerEvent::Drained) => {
            th.phase = WorkerPhase::Exited;
            WorkerAction::Exit
        },
        (WorkerPhase::Busy, WorkerEvent::JobReturned) | (WorkerPhase::Busy, WorkerEvent::JobTerminated) => {
            match th.generation.next() {
                Some(generation) => {
                    th.generation = generation;
                    th.phase = WorkerPhase::Ready;
                    WorkerAction::Recycle { generation, max_memory_bytes: th.config.max_memory_bytes }
                },
                None => {
                    th.phase = WorkerPhase::Exited;
                    WorkerAction::Retire
                },
            }
        },
        _ => WorkerAction::Ignore,
    }
}

/// The worker after a sequence of events.
pub open spec fn worker_after(w: WorkerView, events: Seq<WorkerEvent>) -> WorkerView
    decreases events.len(),
{
    if events.len() == 0 {
        w
    } else {
        worker_spec(worker_after(w, events.drop_last()), events.last()).0
    }
}

/// Number of jobs the worker started while it saw `events`.
pub open spec fn jobs_started(w: WorkerView, events: Seq<WorkerEvent>) -> nat
    decreases events.len(),
{
    if events.len() == 0 {
        0
    } else {
        jobs_started(w, events.drop_last()) + if worker_spec(
            worker_after(w, events.drop_last()),
            events.last(),
        ).1 is RunJob {
            1nat
        } else {
            0nat
        }
    }
}

/// Number of jobs whose end the worker took note of while it saw `events`.
pub open spec fn jobs_finished(w: WorkerView, events: Seq<WorkerEvent>) -> nat
    decreases events.len(),
{
    if events.len() == 0 {
        0
    } else {
        jobs_finished(w, events.drop_last()) + if worker_after(w, events.drop_last()).phase is Busy
            && events.last().ends_job() {
            1nat
        } else {
            0nat
        }
    }
}

/// Number of jobs after which the worker became ready again while it saw `events`.
pub open spec fn jobs_recycled(w: WorkerView, events: Seq<WorkerEvent>) -> nat
    decreases events.len(),
{
    if events.len() == 0 {
        0
    } else {
        jobs_recycled(w, events.drop_last()) + if worker_spec(
            worker_after(w, events.drop_last()),
            events.last(),
        ).1 is Recycle {
            1nat
        } else {
            0nat
        }
    }
}

/// Serial per worker: a worker that was not busy to begin with has, at every
/// moment, started exactly as many jobs as have ended, plus the one it is
/// busy with. It therefore never starts a job before the one before it has
/// returned or been terminated.
pub proof fn lemma_serial_jobs(w: WorkerView, events: Seq<WorkerEvent>)
    requires
        !(w.phase is Busy),
    ensures
        jobs_started(w, events) == jobs_finished(w, events) + if worker_after(w, events).phase is Busy {
            1nat
        } else {
            0nat
        },
    decreases events.len(),
{
    if events.len() > 0 {
        lemma_serial_jobs(w, events.drop_last());
    }
}

/// A job is started only by a worker that is ready, and the worker is busy
/// from then until that job ends.
pub proof fn lemma_job_needs_ready_worker(w: WorkerView, event: WorkerEvent)
    ensures
        worker_spec(w, event).1 is RunJob <==> w.phase is Ready && event is JobReceived,
        worker_spec(w, event).1 is RunJob ==> worker_spec(w, event).0.phase is Busy,
        w.phase is Busy && !event.ends_job() ==> worker_spec(w, event).0 == w,
{
}

/// Generation monotonicity: the generation never decreases, and it stands
/// exactly as many above where it began as jobs have ended with the worker
/// ready again.
pub proof fn lemma_generation_counts_jobs(w: WorkerView, events: Seq<WorkerEvent>)
    ensures
        worker_after(w, events).generation.0 == w.generation.0 + jobs_recycled(w, events),
        worker_after(w, events).max_memory_bytes == w.max_memory_bytes,
    decreases events.len(),
{
    if events.len() > 0 {
        lemma_generation_counts_jobs(w, events.drop_last());
    }
}

/// The end of a job, by return or by termination alike, advances the
/// generation by exactly one unless the counter is exhausted; no other event
/// changes it.
pub proof fn lemma_generation_step(w: WorkerView, event: WorkerEvent)
    ensures
        w.phase is Busy && event.ends_job() && w.generation.0 < u64::MAX ==> worker_spec(w, event).0.generation.0
            == w.generation.0 + 1,
        !(w.phase is Busy && event.ends_job()) ==> worker_spec(w, event).0.generation == w.generation,
        worker_spec(w, event).0.generation.0 >= w.generation.0,
{
}

/// Every job finds its context prepared by the same steps in the same
/// order, whatever the worker has done before and whichever worker it is;
/// workers with the same heap cap do the very same for every job.
pub proof fn lemma_same_glue_for_every_job(a: WorkerView, b: WorkerView)
    requires
        a.phase is Ready,
        b.phase is Ready,
    ensures
        a.max_memory_bytes == b.max_memory_bytes ==> worker_spec(a, WorkerEvent::JobReceived).1 == worker_spec(
            b,
            WorkerEvent::JobReceived,
        ).1,
        worker_spec(a, WorkerEvent::JobReceived).1.steps_spec().take(3) == worker_spec(
            b,
            WorkerEvent::JobReceived,
        ).1.steps_spec().take(3),
        worker_spec(a, WorkerEvent::JobReceived).1.steps_spec() == seq![
            WorkerStep::OpenContext,
            WorkerStep::BindGlobal,
            WorkerStep::RunRuntime,
            WorkerStep::AddHeapLimitCallback { max_memory_bytes: a.max_memory_bytes },
            WorkerStep::InvokeJob,
        ],
{
    let of_a = worker_spec(a, WorkerEvent::JobReceived).1.steps_spec();
    let of_b = worker_spec(b, WorkerEvent::JobReceived).1.steps_spec();
    assert(of_a.take(3) =~= of_b.take(3));
}

/// Every job runs under the heap cap of its worker: the near-heap-limit
/// callback is registered for the cap right before the job is invoked, and
/// the callback registered for the same cap is deregistered once the job
/// has ended, by return or by termination.
pub proof fn lemma_heap_cap_around_every_job(w: WorkerView, end: WorkerEvent)
    requires
        w.phase is Ready,
        end.ends_job(),
        w.generation.0 < u64::MAX,
    ensures
        ({
            let started = worker_spec(w, WorkerEvent::JobReceived);
            let ended = worker_spec(started.0, end);
            &&& started.1.steps_spec()[3] == (WorkerStep::AddHeapLimitCallback { max_memory_bytes: w.max_memory_bytes })
            &&& started.1.steps_spec()[4] == WorkerStep::InvokeJob
            &&& ended.1.steps_spec()[3] == (WorkerStep::RemoveHeapLimitCallback {
                max_memory_bytes: w.max_memory_bytes,
            })
        }),
{
}

/// The runtime library is compiled when the engine is brought up and never
/// again: no event makes a worker compile it.
pub proof fn lemma_runtime_compiled_once(w: WorkerView, event: WorkerEvent)
    ensures
        !worker_spec(w, event).1.steps_spec().contains(WorkerStep::CompileRuntime),
        !worker_spec(w, event).1.steps_spec().contains(WorkerStep::CreateEngine { max_memory_bytes: w.max_memory_bytes }),
{
    let steps = worker_spec(w, event).1.steps_spec();
    assert forall|i: int| 0 <= i < steps.len() implies steps[i] != WorkerStep::CompileRuntime && !(steps[i] is CreateEngine) by {}
}

/// After a job, the generation is advanced before anything else is cleaned
/// up, and it is advanced to exactly one more than it was.
pub proof fn lemma_generation_first_after_job(w: WorkerView, event: WorkerEvent)
    requires
        w.phase is Busy,
        event.ends_job(),
        w.generation.0 < u64::MAX,
    ensures
        worker_spec(w, event).1.steps_spec()[0] == (WorkerStep::AdvanceGeneration {
            to: IsolateGeneration((w.generation.0 + 1) as u64),
        }),
{
}

/// The generation after a longer run of events is never below the one
/// after a prefix of it.
pub proof fn lemma_generation_monotonic(w: WorkerView, events: Seq<WorkerEvent>, n: int)
    requires
        0 <= n <= events.len(),
    ensures
        worker_after(w, events.take(n)).generation.0 <= worker_after(w, events).generation.0,
    decreases events.len() - n,
{
    if n == events.len() {
        assert(events.take(n) =~= events);
    } else {
        lemma_generation_monotonic(w, events, n + 1);
        assert(events.take(n + 1).drop_last() =~= events.take(n));
        lemma_generation_step(worker_after(w, events.take(n)), events[n]);
    }
}

} // verus!
