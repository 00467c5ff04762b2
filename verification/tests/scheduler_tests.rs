use mygoroutine::arch::x86_64::Context;
use mygoroutine::common::{Task, TaskId, TaskIdGenerator, TaskState, Worker};
use mygoroutine::scheduler::{after_switch, GlobalQueue};

fn task(id: u64, state: TaskState) -> Task {
    Task { id: TaskId(id), context: Context::default(), stack: Vec::new(), state }
}

#[test]
fn queue_is_fifo() {
    let mut q = GlobalQueue::new();
    assert!(!q.push_task(task(1, TaskState::Runnable)));
    q.push_task(task(2, TaskState::Runnable));
    q.push_task(task(3, TaskState::Runnable));
    let a = q.take_runnable().unwrap();
    assert_eq!((a.id, a.state), (TaskId(1), TaskState::Running));
    assert_eq!(q.take_runnable().unwrap().id, TaskId(2));
    assert_eq!(q.take_runnable().unwrap().id, TaskId(3));
    assert!(q.take_runnable().is_none());
    assert!(q.runnable_is_empty());
}

#[test]
fn park_then_ready_round_trip() {
    let mut q = GlobalQueue::new();
    q.push_task(task(1, TaskState::Runnable));
    let t = task(9, TaskState::Waiting);
    q.reschedule(t);
    assert!(!q.waiting_is_empty());
    assert!(!q.goready(TaskId(9)));
    assert!(q.waiting_is_empty());
    assert_eq!(q.take_runnable().unwrap().id, TaskId(1));
    let back = q.take_runnable().unwrap();
    assert_eq!((back.id, back.state), (TaskId(9), TaskState::Running));
}

#[test]
fn goready_wakes_a_parked_task_once() {
    let mut q = GlobalQueue::new();
    q.reschedule(task(4, TaskState::Waiting));
    q.goready(TaskId(4));
    q.goready(TaskId(77));
    assert!(q.take_runnable().is_some());
    assert!(q.take_runnable().is_none());
}

#[test]
fn early_wakeup_is_not_lost() {
    let mut q = GlobalQueue::new();
    // the task announced its park and registered as a waiter; it is woken
    // before its park is filed
    q.prepare_park(TaskId(5));
    assert!(!q.goready(TaskId(5)));
    assert!(q.runnable_is_empty());
    q.reschedule(task(5, TaskState::Waiting));
    assert!(q.waiting_is_empty());
    let t = q.take_runnable().unwrap();
    assert_eq!((t.id, t.state), (TaskId(5), TaskState::Running));
    // the recorded wake-up was used up: the next park waits
    q.reschedule(task(5, TaskState::Waiting));
    assert!(q.runnable_is_empty());
    assert!(!q.waiting_is_empty());
}

#[test]
fn stale_goready_does_not_cancel_a_later_park() {
    let mut q = GlobalQueue::new();
    q.reschedule(task(6, TaskState::Waiting));
    q.goready(TaskId(6));
    // a second wake-up while the task is already runnable is ignored
    q.goready(TaskId(6));
    let t = q.take_runnable().unwrap();
    assert_eq!(t.id, TaskId(6));
    // the task runs and parks again (announcing it): it waits
    q.prepare_park(TaskId(6));
    q.reschedule(task(6, TaskState::Waiting));
    assert!(q.runnable_is_empty());
    assert!(!q.waiting_is_empty());
    // a wake-up for a running task that announced no park is ignored too
    q.goready(TaskId(9));
    q.reschedule(task(9, TaskState::Waiting));
    assert!(q.runnable_is_empty());
}

#[test]
fn yield_or_finish_uses_up_an_announced_park() {
    let mut q = GlobalQueue::new();
    q.prepare_park(TaskId(6));
    q.goready(TaskId(6));
    q.reschedule(task(6, TaskState::Running));
    q.take_runnable().unwrap();
    q.reschedule(task(6, TaskState::Waiting));
    assert!(q.runnable_is_empty());
    q.prepare_park(TaskId(8));
    q.goready(TaskId(8));
    q.reschedule(task(8, TaskState::Dead));
    q.reschedule(task(8, TaskState::Waiting));
    assert!(q.take_runnable().is_none());
}

#[test]
fn reschedule_files_by_state() {
    let mut q = GlobalQueue::new();
    q.reschedule(task(1, TaskState::Dead));
    assert!(q.runnable_is_empty() && q.waiting_is_empty());
    q.reschedule(task(2, TaskState::Running));
    let t = q.take_runnable().unwrap();
    assert_eq!(t.id, TaskId(2));
    q.reschedule(task(3, TaskState::Waiting));
    assert!(q.runnable_is_empty());
    assert!(!q.waiting_is_empty());
}

#[test]
fn ready_all_counts_notifications() {
    let mut q = GlobalQueue::new();
    q.reschedule(task(1, TaskState::Waiting));
    q.reschedule(task(2, TaskState::Waiting));
    assert_eq!(q.ready_all(&vec![2, 5, 1]), 0);
    assert_eq!(q.take_runnable().unwrap().id, TaskId(2));
    assert_eq!(q.take_runnable().unwrap().id, TaskId(1));
    let mut q = GlobalQueue::new();
    q.register_worker();
    q.enter_idle();
    q.reschedule(task(1, TaskState::Waiting));
    q.reschedule(task(2, TaskState::Waiting));
    assert_eq!(q.ready_all(&vec![1, 1, 2, 3]), 2);
}

#[test]
fn enter_blocking_spawns_only_when_work_waits() {
    let mut q = GlobalQueue::new();
    q.reserve_worker_ids(4);
    assert_eq!(q.enter_blocking(), None);
    q.push_task(task(1, TaskState::Runnable));
    assert_eq!(q.enter_blocking(), Some(4));
    assert_eq!(q.next_worker_id(), 5);
    q.register_worker();
    q.enter_idle();
    assert_eq!(q.enter_blocking(), None);
}

#[test]
fn worker_counters() {
    let mut q = GlobalQueue::new();
    q.register_worker();
    q.register_worker();
    q.enter_idle();
    assert_eq!((q.all_workers(), q.idle_workers()), (2, 1));
    q.leave_idle();
    q.retire_worker();
    assert_eq!((q.all_workers(), q.idle_workers()), (1, 0));
    assert_eq!(q.alloc_worker_id(), 0);
    assert_eq!(q.alloc_worker_id(), 1);
}

#[test]
fn after_switch_takes_the_task_off_the_worker() {
    let mut q = GlobalQueue::new();
    let mut w = Worker::new();
    let mut ids = TaskIdGenerator::new();
    w.current_task = Some(Task::new(Context::default(), Vec::new(), &mut ids));
    after_switch(&mut w, &mut q);
    assert!(w.current_task.is_none());
    assert_eq!(q.take_runnable().unwrap().id, TaskId(0));
    after_switch(&mut w, &mut q);
    assert!(q.runnable_is_empty());
}

#[test]
fn task_ids_stay_distinct_through_lifecycle() {
    let mut ids = TaskIdGenerator::new();
    let mut q = GlobalQueue::new();
    for _ in 0..3 {
        mygoroutine::scheduler::spawn_task(&mut q, &mut ids, Context::default(), Vec::new());
    }
    let mut running = q.take_runnable().unwrap();
    running.state = TaskState::Waiting;
    q.reschedule(running);
    q.goready(TaskId(0));
    let mut seen = Vec::new();
    while let Some(t) = q.take_runnable() {
        assert!(!seen.contains(&t.id));
        seen.push(t.id);
    }
    assert_eq!(seen, vec![TaskId(1), TaskId(2), TaskId(0)]);
}
