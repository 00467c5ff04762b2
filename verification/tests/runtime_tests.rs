use mygoroutine::arch::x86_64::Context;
use mygoroutine::common::{TaskId, TaskIdGenerator, TaskState, Worker};
use mygoroutine::scheduler::{GlobalQueue, Wakeup};
use mygoroutine::{mn, mn_poll, n1};
use mygoroutine::runtime::{poll, spawn};

#[test]
fn n1_round_robin() {
    let mut ids = TaskIdGenerator::new();
    let mut w = n1::Worker::new();
    n1::go(&mut w, &mut ids, Context::default(), Vec::new());
    n1::go(&mut w, &mut ids, Context::default(), Vec::new());
    assert!(w.run_next());
    n1::gosched(&mut w);
    w.after_switch();
    assert!(w.run_next());
    assert_eq!(w.current_task.as_ref().unwrap().id, TaskId(1));
    w.task_finished();
    w.after_switch();
    assert!(w.run_next());
    assert_eq!(w.current_task.as_ref().unwrap().id, TaskId(0));
    w.task_finished();
    w.after_switch();
    assert!(!w.run_next());
}

#[test]
fn mn_empty_queue_shuts_down() {
    let mut ids = TaskIdGenerator::new();
    let mut q = mn::GlobalQueue::new();
    let mut w = Worker::new();
    mn::go(&mut q, &mut ids, Context::default(), Vec::new());
    w.current_task = q.next_task();
    assert!(w.current_task.is_some() && !q.shutdown);
    mn::after_switch(&mut w, &mut q);
    w.current_task = q.next_task();
    mn::task_finished(&mut w);
    mn::after_switch(&mut w, &mut q);
    assert!(q.next_task().is_none());
    assert!(q.shutdown);
}

#[test]
fn poll_termination_counts_other_workers() {
    let mut q = GlobalQueue::new();
    q.register_worker();
    q.register_worker();
    assert!(!poll::should_terminate(&q, false));
    q.enter_idle();
    assert!(poll::should_terminate(&q, false));
    assert!(!poll::should_terminate(&q, true));
    assert!(poll::retire_if_done(&mut q, false));
    assert_eq!(q.all_workers(), 1);
}

#[test]
fn poll_park_and_ready() {
    let mut ids = TaskIdGenerator::new();
    let mut q = GlobalQueue::new();
    let mut w = Worker::new();
    assert!(!poll::go(&mut q, &mut ids, Context::default(), Vec::new()));
    w.current_task = q.take_runnable();
    let id = poll::current_task_id(&w);
    poll::gopark(&mut w);
    mygoroutine::scheduler::after_switch(&mut w, &mut q);
    assert!(q.runnable_is_empty() && !q.waiting_is_empty());
    poll::goready(&mut q, id);
    assert_eq!(q.take_runnable().unwrap().id, id);
}

#[test]
fn mn_poll_park_and_ready() {
    let mut ids = TaskIdGenerator::new();
    let mut q = GlobalQueue::new();
    let mut w = Worker::new();
    mn_poll::go(&mut q, &mut ids, Context::default(), Vec::new());
    w.current_task = q.take_runnable();
    mn_poll::gosched(&mut w);
    let id: mn_poll::TaskId = mn_poll::current_task_id(&w);
    mn_poll::gopark(&mut w);
    mygoroutine::scheduler::after_switch(&mut w, &mut q);
    q.register_worker();
    q.enter_idle();
    assert!(mn_poll::goready(&mut q, id));
    match mn_poll::end_idle(&mut q, false) {
        Wakeup::Run(t) => assert_eq!((t.id, t.state), (id, TaskState::Running)),
        _ => panic!("expected the woken task"),
    }
}

#[test]
fn spawn_idle_worker_shuts_down_when_done() {
    let mut q = GlobalQueue::new();
    q.register_worker();
    q.register_worker();
    assert!(!spawn::retire_if_done(&mut q));
    q.enter_idle();
    q.enter_idle();
    assert!(matches!(spawn::end_idle(&mut q), Wakeup::Terminate));
    assert_eq!(q.all_workers(), 1);
}

#[test]
fn spawn_yield_requeues() {
    let mut ids = TaskIdGenerator::new();
    let mut q = GlobalQueue::new();
    let mut w = Worker::new();
    spawn::go(&mut q, &mut ids, Context::default(), Vec::new());
    spawn::go(&mut q, &mut ids, Context::default(), Vec::new());
    w.current_task = q.take_runnable();
    spawn::gosched(&mut w);
    mygoroutine::scheduler::after_switch(&mut w, &mut q);
    assert_eq!(q.take_runnable().unwrap().id, TaskId(1));
    let t = q.take_runnable().unwrap();
    assert_eq!(t.id, TaskId(0));
    w.current_task = Some(t);
    spawn::task_finished(&mut w);
    mygoroutine::scheduler::after_switch(&mut w, &mut q);
    assert!(q.runnable_is_empty());
}

#[test]
fn poll_timeout_only_with_network_waiters() {
    assert_eq!(poll::poll_timeout(true), Some(poll::POLL_TIMEOUT_MS));
    assert_eq!(poll::poll_timeout(false), None);
    assert_eq!(mn_poll::poll_timeout(true), Some(100));
}

#[test]
fn mn_gosched_requeues() {
    let mut ids = TaskIdGenerator::new();
    let mut q = mn::GlobalQueue::new();
    let mut w = Worker::new();
    mn::go(&mut q, &mut ids, Context::default(), Vec::new());
    w.start(q.next_task().unwrap());
    mn::gosched(&mut w);
    mn::after_switch(&mut w, &mut q);
    assert_eq!(q.next_task().unwrap().id, TaskId(0));
}
