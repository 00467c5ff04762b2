use mygoroutine::arch::x86_64::Context;
use mygoroutine::common::{Task, TaskId, TaskIdGenerator, TaskState, Worker};
use mygoroutine::runtime::timer::{
    begin_idle, current_task_id, end_idle, go, gopark, goready, gosched, poll_plan, should_terminate,
    should_poll, sleep, task_finished, PollPlan, TimerEntry, TimerHeap,
};
use mygoroutine::scheduler::{GlobalQueue, Wakeup};

fn entry(wake_time: u64, id: u64) -> TimerEntry {
    TimerEntry { wake_time, task_id: TaskId(id) }
}

#[test]
fn timer_heap_fires_due_timers_in_order() {
    let mut h = TimerHeap::new();
    assert!(!h.has_timers());
    h.push(entry(300, 3));
    h.push(entry(100, 1));
    h.push(entry(200, 2));
    h.push(entry(100, 4));
    assert_eq!(h.next_wake(), Some(100));
    let (fired, next) = h.check_timers(200);
    assert_eq!(fired, vec![TaskId(1), TaskId(4), TaskId(2)]);
    assert_eq!(next, Some(300));
    let (fired, next) = h.check_timers(299);
    assert!(fired.is_empty());
    assert_eq!(next, Some(300));
    let (fired, next) = h.check_timers(300);
    assert_eq!(fired, vec![TaskId(3)]);
    assert_eq!(next, None);
    assert!(!h.has_timers());
}

#[test]
fn sleep_parks_and_wakes_at_deadline() {
    let mut ids = TaskIdGenerator::new();
    let mut w = Worker::new();
    let mut h = TimerHeap::new();
    let mut q = GlobalQueue::new();
    w.current_task = Some(Task::new(Context::default(), Vec::new(), &mut ids));
    sleep(&mut w, &mut q, &mut h, 1_000, 500);
    assert_eq!(w.current_task.as_ref().unwrap().state, TaskState::Waiting);
    assert_eq!(h.next_wake(), Some(1_500));
    assert!(h.check_timers(1_499).0.is_empty());
    assert_eq!(h.check_timers(1_500).0, vec![TaskId(0)]);
}

#[test]
fn sleeping_task_round_trip_through_queue() {
    let mut ids = TaskIdGenerator::new();
    let mut q = GlobalQueue::new();
    let mut h = TimerHeap::new();
    let mut w = Worker::new();
    go(&mut q, &mut ids, Context::default(), Vec::new());
    w.current_task = q.take_runnable();
    let id = current_task_id(&w);
    sleep(&mut w, &mut q, &mut h, 0, 10);
    mygoroutine::scheduler::after_switch(&mut w, &mut q);
    assert!(q.runnable_is_empty());
    let (fired, _) = h.check_timers(10);
    assert_eq!(fired, vec![id]);
    for t in fired {
        goready(&mut q, t);
    }
    let t = q.take_runnable().unwrap();
    assert_eq!((t.id, t.state), (id, TaskState::Running));
}

#[test]
fn poll_plan_timeouts() {
    assert!(matches!(poll_plan(None, 0, false), PollPlan::Finish));
    assert!(matches!(poll_plan(None, 0, true), PollPlan::Wait { timeout_ms: 100, network: true }));
    assert!(matches!(poll_plan(Some(5), 10, false), PollPlan::Wait { timeout_ms: 0, network: false }));
    assert!(matches!(
        poll_plan(Some(10 + 42_500_000), 10, true),
        PollPlan::Wait { timeout_ms: 42, network: true }
    ));
    assert!(matches!(
        poll_plan(Some(5_000_000_000), 0, false),
        PollPlan::Wait { timeout_ms: 100, network: false }
    ));
}

#[test]
fn timer_termination_needs_everything_idle() {
    let mut q = GlobalQueue::new();
    q.register_worker();
    assert!(!should_terminate(&q, false, false));
    q.enter_idle();
    assert!(should_terminate(&q, false, false));
    assert!(!should_terminate(&q, true, false));
    assert!(!should_terminate(&q, false, true));
}

#[test]
fn timer_idle_worker_terminates_or_waits() {
    let mut q = GlobalQueue::new();
    q.register_worker();
    q.register_worker();
    assert!(!begin_idle(&mut q, false, false));
    assert_eq!(q.idle_workers(), 1);
    assert!(begin_idle(&mut q, false, false));
    assert_eq!((q.idle_workers(), q.all_workers()), (2, 1));
    assert!(matches!(end_idle(&mut q, false, false), Wakeup::Terminate));
    assert_eq!((q.idle_workers(), q.all_workers()), (1, 0));
}

#[test]
fn timer_woken_worker_runs_next_task() {
    let mut ids = TaskIdGenerator::new();
    let mut q = GlobalQueue::new();
    q.register_worker();
    q.register_worker();
    assert!(!begin_idle(&mut q, false, true));
    assert!(go(&mut q, &mut ids, Context::default(), Vec::new()));
    match end_idle(&mut q, false, true) {
        Wakeup::Run(t) => assert_eq!((t.id, t.state), (TaskId(0), TaskState::Running)),
        _ => panic!("expected a task"),
    }
    q.enter_idle();
    assert!(matches!(end_idle(&mut q, false, true), Wakeup::Spurious));
}

#[test]
fn timer_task_state_changes() {
    let mut ids = TaskIdGenerator::new();
    let mut w = Worker::new();
    w.current_task = Some(Task::new(Context::default(), Vec::new(), &mut ids));
    gosched(&mut w);
    gopark(&mut w);
    assert_eq!(w.current_task.as_ref().unwrap().state, TaskState::Waiting);
    task_finished(&mut w);
    assert_eq!(w.current_task.as_ref().unwrap().state, TaskState::Dead);
}

#[test]
fn sleep_past_clock_range_saturates() {
    let mut ids = TaskIdGenerator::new();
    let mut w = Worker::new();
    let mut h = TimerHeap::new();
    let mut q = GlobalQueue::new();
    w.current_task = Some(Task::new(Context::default(), Vec::new(), &mut ids));
    sleep(&mut w, &mut q, &mut h, 10, u64::MAX);
    assert_eq!(h.next_wake(), Some(u64::MAX));
}

#[test]
fn poller_runs_only_with_waiters() {
    assert!(!should_poll(false, false));
    assert!(should_poll(true, false));
    assert!(should_poll(false, true));
}

#[test]
fn gosched_keeps_task_running_and_requeues_it() {
    let mut ids = TaskIdGenerator::new();
    let mut q = GlobalQueue::new();
    let mut w = Worker::new();
    go(&mut q, &mut ids, Context::default(), Vec::new());
    go(&mut q, &mut ids, Context::default(), Vec::new());
    w.start(q.take_runnable().unwrap());
    gosched(&mut w);
    assert_eq!(w.current_task.as_ref().unwrap().state, TaskState::Running);
    mygoroutine::scheduler::after_switch(&mut w, &mut q);
    assert_eq!(q.take_runnable().unwrap().id, TaskId(1));
    let t = q.take_runnable().unwrap();
    assert_eq!((t.id, t.state), (TaskId(0), TaskState::Running));
}

#[test]
fn timer_firing_before_park_is_filed_is_not_lost() {
    let mut ids = TaskIdGenerator::new();
    let mut q = GlobalQueue::new();
    let mut h = TimerHeap::new();
    let mut w = Worker::new();
    go(&mut q, &mut ids, Context::default(), Vec::new());
    w.start(q.take_runnable().unwrap());
    sleep(&mut w, &mut q, &mut h, 0, 5);
    // the poller fires the timer before the worker files the park
    for id in h.check_timers(5).0 {
        goready(&mut q, id);
    }
    mygoroutine::scheduler::after_switch(&mut w, &mut q);
    assert!(q.waiting_is_empty());
    assert_eq!(q.take_runnable().unwrap().id, TaskId(0));
}
