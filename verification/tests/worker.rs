use isolate_core::isolate::IsolateConfig;
use isolate_core::isolate::IsolateGeneration;
use isolate_core::isolate::IsolateGenerationBox;
use isolate_core::worker::isolate_worker;
use isolate_core::worker::job_reply;
use isolate_core::worker::IsolateThread;
use isolate_core::worker::WorkerAction;
use isolate_core::worker::WorkerEvent;
use isolate_core::worker::WorkerPhase;
use isolate_core::worker::WorkerStep;
use isolate_core::worker::JOB_QUEUE_CAPACITY;

const SIXTEEN_MIB: usize = 16 * 1024 * 1024;

fn ready_worker() -> IsolateThread {
    let mut th = IsolateThread::new(IsolateConfig {
        max_memory_bytes: SIXTEEN_MIB,
    });
    assert_eq!(
        isolate_worker(&mut th, WorkerEvent::EngineReady),
        WorkerAction::Announce
    );
    th
}

#[test]
fn job_queue_holds_one_job() {
    assert_eq!(JOB_QUEUE_CAPACITY, 1);
}

#[test]
fn new_worker_is_starting_at_generation_zero() {
    let th = IsolateThread::new(IsolateConfig {
        max_memory_bytes: SIXTEEN_MIB,
    });
    assert_eq!(th.phase(), WorkerPhase::Starting);
    assert_eq!(th.generation(), IsolateGeneration(0));
    assert_eq!(th.max_memory_bytes(), SIXTEEN_MIB);
}

#[test]
fn worker_is_ready_once_its_engine_is() {
    let mut th = IsolateThread::new(IsolateConfig {
        max_memory_bytes: SIXTEEN_MIB,
    });
    assert_eq!(
        isolate_worker(&mut th, WorkerEvent::JobReceived),
        WorkerAction::Ignore
    );
    assert_eq!(th.phase(), WorkerPhase::Starting);
    assert_eq!(
        isolate_worker(&mut th, WorkerEvent::EngineReady),
        WorkerAction::Announce
    );
    assert_eq!(th.phase(), WorkerPhase::Ready);
}

#[test]
fn returned_job_advances_generation_by_one() {
    let mut th = ready_worker();
    assert_eq!(
        isolate_worker(&mut th, WorkerEvent::JobReceived),
        WorkerAction::RunJob {
            max_memory_bytes: SIXTEEN_MIB
        }
    );
    assert_eq!(th.phase(), WorkerPhase::Busy);
    assert_eq!(th.generation(), IsolateGeneration(0));
    assert_eq!(
        isolate_worker(&mut th, WorkerEvent::JobReturned),
        WorkerAction::Recycle {
            generation: IsolateGeneration(1),
            max_memory_bytes: SIXTEEN_MIB
        }
    );
    assert_eq!(th.phase(), WorkerPhase::Ready);
    assert_eq!(th.generation(), IsolateGeneration(1));
}

#[test]
fn heap_cap_terminated_job_then_next_job_succeeds() {
    let mut th = ready_worker();
    let shared = IsolateGenerationBox::new();

    assert_eq!(
        isolate_worker(&mut th, WorkerEvent::JobReceived),
        WorkerAction::RunJob {
            max_memory_bytes: SIXTEEN_MIB
        }
    );
    let after_terminated = isolate_worker(&mut th, WorkerEvent::JobTerminated);
    assert_eq!(
        after_terminated,
        WorkerAction::Recycle {
            generation: IsolateGeneration(1),
            max_memory_bytes: SIXTEEN_MIB
        }
    );
    assert_eq!(shared.advance(), Ok(IsolateGeneration(1)));
    assert_eq!(th.phase(), WorkerPhase::Ready);

    assert_eq!(
        isolate_worker(&mut th, WorkerEvent::JobReceived),
        WorkerAction::RunJob {
            max_memory_bytes: SIXTEEN_MIB
        }
    );
    let after_returned = isolate_worker(&mut th, WorkerEvent::JobReturned);
    assert_eq!(
        after_returned,
        WorkerAction::Recycle {
            generation: IsolateGeneration(2),
            max_memory_bytes: SIXTEEN_MIB
        }
    );
    assert_eq!(shared.advance(), Ok(IsolateGeneration(2)));
    assert_eq!(th.generation(), IsolateGeneration(2));
    assert_eq!(shared.current(), Ok(th.generation()));
}

#[test]
fn busy_worker_takes_no_second_job() {
    let mut th = ready_worker();
    isolate_worker(&mut th, WorkerEvent::JobReceived);
    assert_eq!(
        isolate_worker(&mut th, WorkerEvent::JobReceived),
        WorkerAction::Ignore
    );
    assert_eq!(th.phase(), WorkerPhase::Busy);
    assert_eq!(
        isolate_worker(&mut th, WorkerEvent::QueueClosed),
        WorkerAction::Ignore
    );
    assert_eq!(th.phase(), WorkerPhase::Busy);
    assert_eq!(th.generation(), IsolateGeneration(0));
}

#[test]
fn generation_counts_finished_jobs() {
    let mut th = ready_worker();
    let mut finished: u64 = 0;
    while finished < 25 {
        assert_eq!(
            isolate_worker(&mut th, WorkerEvent::JobReceived),
            WorkerAction::RunJob {
            max_memory_bytes: SIXTEEN_MIB
        }
        );
        let event = if finished % 3 == 0 {
            WorkerEvent::JobTerminated
        } else {
            WorkerEvent::JobReturned
        };
        isolate_worker(&mut th, event);
        finished += 1;
        assert_eq!(th.generation(), IsolateGeneration(finished));
    }
}

#[test]
fn job_end_without_a_job_changes_nothing() {
    let mut th = ready_worker();
    assert_eq!(
        isolate_worker(&mut th, WorkerEvent::JobReturned),
        WorkerAction::Ignore
    );
    assert_eq!(
        isolate_worker(&mut th, WorkerEvent::JobTerminated),
        WorkerAction::Ignore
    );
    assert_eq!(th.generation(), IsolateGeneration(0));
    assert_eq!(th.phase(), WorkerPhase::Ready);
}

#[test]
fn closed_queue_drains_then_exits() {
    let mut th = ready_worker();
    assert_eq!(
        isolate_worker(&mut th, WorkerEvent::QueueClosed),
        WorkerAction::Drain
    );
    assert_eq!(th.phase(), WorkerPhase::Draining);
    assert_eq!(
        isolate_worker(&mut th, WorkerEvent::JobReceived),
        WorkerAction::Ignore
    );
    assert_eq!(
        isolate_worker(&mut th, WorkerEvent::Drained),
        WorkerAction::Exit
    );
    assert_eq!(th.phase(), WorkerPhase::Exited);
    assert_eq!(
        isolate_worker(&mut th, WorkerEvent::EngineReady),
        WorkerAction::Ignore
    );
    assert_eq!(th.phase(), WorkerPhase::Exited);
}

#[test]
fn starting_worker_boots_its_engine_with_the_heap_cap() {
    let th = IsolateThread::new(IsolateConfig {
        max_memory_bytes: SIXTEEN_MIB,
    });
    assert_eq!(
        th.boot(),
        WorkerAction::Boot {
            max_memory_bytes: SIXTEEN_MIB
        }
    );
    assert_eq!(
        th.boot().steps(),
        vec![
            WorkerStep::CreateEngine {
                max_memory_bytes: SIXTEEN_MIB
            },
            WorkerStep::CompileRuntime,
        ]
    );
}

#[test]
fn ready_is_signalled_after_the_generation_is_attached() {
    assert_eq!(
        WorkerAction::Announce.steps(),
        vec![
            WorkerStep::AttachGeneration,
            WorkerStep::SignalInit,
            WorkerStep::AwaitJob,
        ]
    );
}

#[test]
fn every_job_gets_the_same_glue() {
    let mut fresh = ready_worker();
    let mut seasoned = ready_worker();
    isolate_worker(&mut seasoned, WorkerEvent::JobReceived);
    isolate_worker(&mut seasoned, WorkerEvent::JobTerminated);
    let first = isolate_worker(&mut fresh, WorkerEvent::JobReceived);
    let later = isolate_worker(&mut seasoned, WorkerEvent::JobReceived);
    assert_eq!(first, later);
    assert_eq!(
        first.steps(),
        vec![
            WorkerStep::OpenContext,
            WorkerStep::BindGlobal,
            WorkerStep::RunRuntime,
            WorkerStep::AddHeapLimitCallback {
                max_memory_bytes: SIXTEEN_MIB
            },
            WorkerStep::InvokeJob,
        ]
    );
}

#[test]
fn after_a_job_the_generation_moves_first() {
    let mut th = ready_worker();
    isolate_worker(&mut th, WorkerEvent::JobReceived);
    let action = isolate_worker(&mut th, WorkerEvent::JobReturned);
    assert_eq!(
        action.steps(),
        vec![
            WorkerStep::AdvanceGeneration {
                to: IsolateGeneration(1)
            },
            WorkerStep::CancelTermination,
            WorkerStep::CleanupSlots,
            WorkerStep::RemoveHeapLimitCallback {
                max_memory_bytes: SIXTEEN_MIB
            },
            WorkerStep::AwaitJob,
        ]
    );
}

#[test]
fn winding_down_lets_go_of_the_engine_then_leaves() {
    assert_eq!(WorkerAction::Drain.steps(), vec![WorkerStep::ReleaseEngine]);
    assert_eq!(WorkerAction::Exit.steps(), vec![WorkerStep::LeaveThread]);
    assert_eq!(
        WorkerAction::Retire.steps(),
        vec![WorkerStep::ReleaseEngine, WorkerStep::LeaveThread]
    );
    assert_eq!(WorkerAction::Ignore.steps(), vec![]);
}

#[test]
fn job_that_comes_back_under_termination_was_terminated() {
    assert_eq!(WorkerEvent::job_ended(true), WorkerEvent::JobTerminated);
    assert_eq!(WorkerEvent::job_ended(false), WorkerEvent::JobReturned);
}

#[test]
fn terminated_job_sends_no_reply() {
    assert_eq!(job_reply(7, false), Some(7));
    assert_eq!(job_reply(7, true), None);
    assert_eq!(job_reply("value".to_string(), true), None);
}

#[test]
fn heap_cap_job_that_overruns_is_terminated_and_the_worker_goes_on() {
    let mut th = ready_worker();
    let started = isolate_worker(&mut th, WorkerEvent::JobReceived);
    assert!(started.steps().contains(&WorkerStep::AddHeapLimitCallback {
        max_memory_bytes: SIXTEEN_MIB
    }));
    let terminating = true;
    assert_eq!(job_reply(0u8, terminating), None);
    let ended = isolate_worker(&mut th, WorkerEvent::job_ended(terminating));
    assert!(ended.steps().contains(&WorkerStep::CancelTermination));
    assert!(ended
        .steps()
        .contains(&WorkerStep::RemoveHeapLimitCallback {
            max_memory_bytes: SIXTEEN_MIB
        }));
    assert_eq!(th.phase(), WorkerPhase::Ready);
    assert_eq!(th.generation(), IsolateGeneration(1));
    isolate_worker(&mut th, WorkerEvent::JobReceived);
    assert_eq!(job_reply(5u8, false), Some(5));
    isolate_worker(&mut th, WorkerEvent::job_ended(false));
    assert_eq!(th.generation(), IsolateGeneration(2));
}
