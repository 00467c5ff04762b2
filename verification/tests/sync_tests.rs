use mygoroutine::common::TaskId;
use mygoroutine::scheduler::GlobalQueue;
use mygoroutine::sync::{AddError, WaitGroup};

#[test]
fn wait_on_zero_returns_immediately() {
    let mut q = GlobalQueue::new();
    let mut wg = WaitGroup::new();
    assert!(!wg.wait(&mut q, TaskId(1)));
    assert_eq!(wg.add(0), Ok(vec![]));
}

#[test]
fn done_to_zero_wakes_all_waiters_in_order() {
    let mut q = GlobalQueue::new();
    let mut wg = WaitGroup::new();
    assert_eq!(wg.add(2), Ok(vec![]));
    assert!(wg.wait(&mut q, TaskId(7)));
    assert!(wg.wait(&mut q, TaskId(3)));
    assert_eq!(wg.done(), Ok(vec![]));
    assert_eq!(wg.counter(), 1);
    assert_eq!(wg.done(), Ok(vec![TaskId(7), TaskId(3)]));
    assert_eq!(wg.counter(), 0);
    assert_eq!(wg.add(1), Ok(vec![]));
    assert_eq!(wg.add(-1), Ok(vec![]));
}

#[test]
fn add_accumulates() {
    let mut q = GlobalQueue::new();
    let mut wg = WaitGroup::new();
    wg.add(5).unwrap();
    wg.add(-2).unwrap();
    assert_eq!(wg.counter(), 3);
    assert!(wg.wait(&mut q, TaskId(1)));
    assert_eq!(wg.add(-3), Ok(vec![TaskId(1)]));
}

#[test]
fn negative_counter_is_refused_and_wakes_no_one() {
    let mut q = GlobalQueue::new();
    let mut wg = WaitGroup::new();
    assert_eq!(wg.done(), Err(AddError::Negative));
    wg.add(1).unwrap();
    assert!(wg.wait(&mut q, TaskId(4)));
    assert_eq!(wg.add(-2), Err(AddError::Negative));
    assert_eq!(wg.counter(), 1);
    assert_eq!(wg.done(), Ok(vec![TaskId(4)]));
}

#[test]
fn counter_overflow_is_refused() {
    let mut q = GlobalQueue::new();
    let mut wg = WaitGroup::new();
    wg.add(i32::MAX).unwrap();
    assert_eq!(wg.add(1), Err(AddError::Overflow));
    assert_eq!(wg.counter(), i32::MAX);
}

#[test]
fn release_before_park_is_not_lost() {
    let mut q = GlobalQueue::new();
    let mut wg = WaitGroup::new();
    wg.add(1).unwrap();
    assert!(wg.wait(&mut q, TaskId(2)));
    for id in wg.done().unwrap() {
        q.goready(id);
    }
    // the waiter's park is filed only now
    q.reschedule(mygoroutine::common::Task {
        id: TaskId(2),
        context: mygoroutine::context::Context::default(),
        stack: Vec::new(),
        state: mygoroutine::common::TaskState::Waiting,
    });
    assert!(q.waiting_is_empty());
    assert_eq!(q.take_runnable().unwrap().id, TaskId(2));
}
