use std::sync::{Arc, Mutex};
use dual_executor::{Action, ExecutorError, Phase, Recv, ResultChannel, Task, TaskCell, Event, AsyncExecutor, WORKER_THREADS};

#[test]
fn immediate_value_is_delivered() {
    let mut t: Task<u32> = Task::new();
    assert_eq!(t.wake(), Action::Submit);
    assert!(t.start_job());
    assert_eq!(t.finish_poll(Some(7)), Action::Deliver);
    assert_eq!(t.phase(), Phase::Completed);
    assert_eq!(t.outcome(), Recv::Ready(Some(7)));
    assert_eq!(t.outcome(), Recv::Ready(None));
}

#[test]
fn never_completing_task_is_cancelled_without_reaching_cpu_step() {
    let mut t: Task<u32> = Task::new();
    let mut reached_cpu_step: u32 = 0;
    assert_eq!(t.wake(), Action::Submit);
    assert!(t.start_job());
    // the computation awaits forever: its poll step is never ready
    assert_eq!(t.finish_poll(None), Action::Idle);
    assert_eq!(t.phase(), Phase::Waiting);
    t.cancel();
    assert_eq!(t.phase(), Phase::Cancelled);
    // a late wake-up submits nothing and a stale job polls nothing
    assert_eq!(t.wake(), Action::Idle);
    if t.start_job() {
        reached_cpu_step += 1;
    }
    assert_eq!(reached_cpu_step, 0);
}

#[test]
fn pending_task_outcome_is_pending() {
    let mut t: Task<u32> = Task::new();
    assert_eq!(t.outcome(), Recv::Pending);
    t.wake();
    t.start_job();
    assert_eq!(t.finish_poll(None), Action::Idle);
    assert_eq!(t.outcome(), Recv::Pending);
}

#[test]
fn wake_during_poll_is_coalesced_into_one_resubmission() {
    let mut c = TaskCell::new();
    assert_eq!(c.phase(), Phase::Created);
    assert_eq!(c.handle(Event::Wake), Action::Submit);
    assert_eq!(c.handle(Event::Wake), Action::Idle);
    assert_eq!(c.handle(Event::RunJob), Action::Poll);
    assert_eq!(c.phase(), Phase::Polling);
    assert_eq!(c.handle(Event::Wake), Action::Idle);
    assert_eq!(c.handle(Event::Wake), Action::Idle);
    assert_eq!(c.handle(Event::PollDone(false)), Action::Submit);
    assert_eq!(c.phase(), Phase::Scheduled);
    assert_eq!(c.handle(Event::RunJob), Action::Poll);
    assert_eq!(c.handle(Event::PollDone(false)), Action::Idle);
    assert_eq!(c.phase(), Phase::Waiting);
    assert_eq!(c.handle(Event::Wake), Action::Submit);
}

#[test]
fn second_job_while_polling_polls_nothing() {
    let mut c = TaskCell::new();
    c.handle(Event::Wake);
    assert_eq!(c.handle(Event::RunJob), Action::Poll);
    assert_eq!(c.handle(Event::RunJob), Action::Idle);
    assert_eq!(c.phase(), Phase::Polling);
}

#[test]
fn cancel_during_poll_discards_the_value() {
    let mut t: Task<u32> = Task::new();
    t.wake();
    assert!(t.start_job());
    t.wake();
    t.cancel();
    assert_eq!(t.finish_poll(Some(3)), Action::Discard);
    assert_eq!(t.phase(), Phase::Cancelled);
    assert_eq!(t.wake(), Action::Idle);
}

#[test]
fn queued_job_after_cancel_is_a_no_op() {
    let mut c = TaskCell::new();
    assert_eq!(c.handle(Event::Wake), Action::Submit);
    assert_eq!(c.handle(Event::Cancel), Action::Idle);
    assert_eq!(c.handle(Event::RunJob), Action::Idle);
    assert_eq!(c.handle(Event::PollDone(true)), Action::Idle);
    assert_eq!(c.phase(), Phase::Cancelled);
}

#[test]
fn dropping_a_completed_task_changes_nothing() {
    let mut t: Task<u32> = Task::new();
    t.wake();
    t.start_job();
    t.finish_poll(Some(9));
    t.cancel();
    assert_eq!(t.phase(), Phase::Completed);
    t.cancel();
    assert_eq!(t.phase(), Phase::Completed);
    assert_eq!(t.wake(), Action::Idle);
    assert!(!t.start_job());
}

#[test]
fn failed_computation_yields_none() {
    let mut t: Task<u32> = Task::new();
    t.wake();
    assert!(t.start_job());
    t.fail();
    assert_eq!(t.phase(), Phase::Cancelled);
    assert_eq!(t.outcome(), Recv::Ready(None));
    assert_eq!(t.wake(), Action::Idle);
}

#[test]
fn channel_accepts_one_value() {
    let mut ch: ResultChannel<u32> = ResultChannel::new();
    assert_eq!(ch.send(1), Ok(()));
    assert_eq!(ch.send(2), Err(2));
    assert_eq!(ch.receive(), Recv::Ready(Some(1)));
    assert_eq!(ch.receive(), Recv::Ready(None));
}

#[test]
fn send_after_receiver_dropped_is_a_no_op() {
    let mut ch: ResultChannel<u32> = ResultChannel::new();
    ch.close_receiver();
    assert_eq!(ch.send(5), Err(5));
    assert_eq!(ch.receive(), Recv::Ready(None));
}

#[test]
fn receiver_dropped_after_send_drops_the_value() {
    let mut ch: ResultChannel<String> = ResultChannel::new();
    assert_eq!(ch.send(String::from("v")), Ok(()));
    ch.close_receiver();
    assert_eq!(ch.receive(), Recv::Ready(None));
}

#[test]
fn closed_sender_resolves_to_none() {
    let mut ch: ResultChannel<u32> = ResultChannel::new();
    assert_eq!(ch.receive(), Recv::Pending);
    ch.close_sender();
    assert_eq!(ch.receive(), Recv::Ready(None));
}

#[test]
fn executor_outside_a_reactor_is_a_configuration_error() {
    match AsyncExecutor::new() {
        Err(e) => assert_eq!(e, ExecutorError::NoReactor),
        Ok(_) => panic!("constructed outside a reactor"),
    }
}

#[test]
fn executor_inside_a_reactor_has_a_fixed_pool() {
    let rt = tokio::runtime::Builder::new_multi_thread()
        .worker_threads(2)
        .build()
        .unwrap();
    let ex = rt.block_on(async { AsyncExecutor::new() }).unwrap();
    assert_eq!(ex.worker_threads(), WORKER_THREADS);
    assert_eq!(ex.worker_threads(), 8);
    assert_eq!(ex.pool().current_num_threads(), 8);
}

#[test]
fn blocking_steps_run_in_parallel_on_the_pool() {
    let rt = tokio::runtime::Builder::new_multi_thread()
        .worker_threads(2)
        .build()
        .unwrap();
    let ex = rt.block_on(async { AsyncExecutor::new() }).unwrap();
    let (tx, rx) = std::sync::mpsc::channel();
    let mut tasks = Vec::new();
    let start = std::time::Instant::now();
    for i in 0..100u32 {
        let task: Arc<Mutex<Task<u32>>> = Arc::new(Mutex::new(Task::new()));
        assert_eq!(task.lock().unwrap().wake(), Action::Submit);
        let job = task.clone();
        let tx = tx.clone();
        ex.pool().spawn(move || {
            if !job.lock().unwrap().start_job() {
                return;
            }
            // a blocking step: the worker thread waits 50 ms for nothing
            let (_keep, idle) = std::sync::mpsc::channel::<()>();
            let _ = idle.recv_timeout(std::time::Duration::from_millis(50));
            assert_eq!(job.lock().unwrap().finish_poll(Some(i)), Action::Deliver);
            tx.send(()).unwrap();
        });
        tasks.push(task);
    }
    for _ in 0..100 {
        rx.recv().unwrap();
    }
    let elapsed = start.elapsed();
    // 13 rounds of 50 ms on 8 workers; serial execution would take 5000 ms
    assert!(elapsed >= std::time::Duration::from_millis(650));
    assert!(elapsed < std::time::Duration::from_millis(1300));
    for (i, task) in tasks.iter().enumerate() {
        assert_eq!(task.lock().unwrap().outcome(), Recv::Ready(Some(i as u32)));
    }
}

#[test]
fn executor_can_be_built_twice_on_one_thread() {
    let rt = tokio::runtime::Builder::new_current_thread().build().unwrap();
    let first = rt.block_on(async { AsyncExecutor::new() });
    let second = rt.block_on(async { AsyncExecutor::new() });
    assert!(first.is_ok());
    assert!(second.is_ok());
}

#[test]
fn require_reactor_maps_the_lookup() {
    match AsyncExecutor::require_reactor(tokio::runtime::Handle::try_current()) {
        Err(e) => assert_eq!(e, ExecutorError::NoReactor),
        Ok(_) => panic!("no reactor runs on a test thread"),
    }
    let rt = tokio::runtime::Builder::new_current_thread().build().unwrap();
    assert!(AsyncExecutor::require_reactor(Ok(rt.handle().clone())).is_ok());
}

#[test]
fn failure_after_wake_during_poll_leaves_no_job() {
    let mut t: Task<u32> = Task::new();
    t.wake();
    assert!(t.start_job());
    assert_eq!(t.wake(), Action::Idle);
    t.fail();
    assert_eq!(t.phase(), Phase::Cancelled);
    assert!(t.is_settled());
    assert!(!t.start_job());
    assert_eq!(t.outcome(), Recv::Ready(None));
}

#[test]
fn failed_event_on_a_cell() {
    let mut c = TaskCell::new();
    assert_eq!(c.handle(Event::Failed), Action::Idle);
    assert_eq!(c.phase(), Phase::Created);
    c.handle(Event::Wake);
    c.handle(Event::RunJob);
    c.handle(Event::Wake);
    assert_eq!(c.handle(Event::Failed), Action::Idle);
    assert_eq!(c.phase(), Phase::Cancelled);
    assert_eq!(c.handle(Event::RunJob), Action::Idle);
    assert_eq!(c.handle(Event::Wake), Action::Idle);
}

#[test]
fn settled_only_after_completion_or_cancellation() {
    let mut t: Task<u32> = Task::new();
    assert!(!t.is_settled());
    t.wake();
    assert!(!t.is_settled());
    t.start_job();
    assert!(!t.is_settled());
    t.finish_poll(Some(1));
    assert!(t.is_settled());
    let mut u: Task<u32> = Task::new();
    u.cancel();
    assert!(u.is_settled());
}

#[test]
fn executor_from_parts_keeps_the_pool_size() {
    let rt = tokio::runtime::Builder::new_multi_thread()
        .worker_threads(1)
        .build()
        .unwrap();
    let pool = rayon::ThreadPoolBuilder::new().num_threads(3).build();
    let ex = AsyncExecutor::from_parts(rt.handle().clone(), pool, 3).unwrap();
    assert_eq!(ex.worker_threads(), 3);
    assert_eq!(ex.pool().current_num_threads(), 3);
    assert_eq!(ex.reactor().runtime_flavor(), tokio::runtime::RuntimeFlavor::MultiThread);
}
