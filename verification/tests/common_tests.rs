use mygoroutine::arch::x86_64::Context;
use mygoroutine::common::{
    aligned_stack_top, prepare_stack, Task, TaskId, TaskIdGenerator, TaskState, Worker, STACK_SIZE,
};

#[test]
fn task_ids_are_consecutive() {
    let mut ids = TaskIdGenerator::new();
    let a = TaskId::new(&mut ids);
    let b = TaskId::new(&mut ids);
    let c = TaskId::new(&mut ids);
    assert_eq!(a.as_u64(), 0);
    assert_eq!(b.as_u64(), 1);
    assert_eq!(c.as_u64(), 2);
    assert_ne!(a, b);
    assert_eq!(ids.next, 3);
}

#[test]
fn task_id_generator_wraps() {
    let mut ids = TaskIdGenerator { next: u64::MAX };
    assert_eq!(TaskId::new(&mut ids).as_u64(), u64::MAX);
    assert_eq!(ids.next, 0);
}

#[test]
fn task_id_round_trip() {
    assert_eq!(TaskId::from_u64(42).as_u64(), 42);
    assert_eq!(TaskId::from_u64(7), TaskId(7));
}

#[test]
fn stack_top_is_aligned_end() {
    assert_eq!(aligned_stack_top(0x1000), 0x1000 + STACK_SIZE);
    assert_eq!(aligned_stack_top(0x1003), 0x1000 + STACK_SIZE);
    assert_eq!(aligned_stack_top(0x100f), 0x1000 + STACK_SIZE);
    assert_eq!(aligned_stack_top(0x1010), 0x1010 + STACK_SIZE);
}

#[test]
fn prepare_stack_gives_zeroed_aligned_stack() {
    let (stack, top) = prepare_stack();
    assert_eq!(stack.len(), STACK_SIZE);
    assert!(stack.iter().all(|b| *b == 0));
    assert_eq!(top % 16, 0);
    let base = stack.as_ptr() as usize;
    assert!(top <= base + STACK_SIZE && top + 15 >= base + STACK_SIZE);
}

#[test]
fn context_new_layout() {
    let c = Context::new(0x8000, 0xdead);
    assert_eq!(c.rsp, 0x8000 - 16);
    assert_eq!(c.r15, 0xdead);
    assert_eq!((c.rbp, c.rbx, c.r12, c.r13, c.r14), (0, 0, 0, 0, 0));
    assert_eq!((c.rsp + 8) % 16, 8);
    assert_eq!(Context::default(), Context { rsp: 0, rbp: 0, rbx: 0, r12: 0, r13: 0, r14: 0, r15: 0 });
}

#[test]
fn task_new_is_runnable_with_fresh_id() {
    let mut ids = TaskIdGenerator { next: 5 };
    let t = Task::new(Context::new(64, 1), vec![1, 2, 3], &mut ids);
    assert_eq!(t.id, TaskId(5));
    assert_eq!(t.state, TaskState::Runnable);
    assert_eq!(t.stack, vec![1, 2, 3]);
    assert_eq!(t.context.r15, 1);
    assert_eq!(ids.next, 6);
}

#[test]
fn worker_current_task_state() {
    let mut w = Worker::new();
    assert!(w.current_task.is_none());
    let mut ids = TaskIdGenerator::new();
    w.current_task = Some(Task::new(Context::default(), Vec::new(), &mut ids));
    assert_eq!(w.current_id(), TaskId(0));
    w.set_current_state(TaskState::Waiting);
    assert_eq!(w.current_task.as_ref().unwrap().state, TaskState::Waiting);
}

#[test]
fn worker_start_sets_running_task() {
    let mut ids = TaskIdGenerator::new();
    let mut w = Worker::new();
    w.start(Task::new(Context::default(), Vec::new(), &mut ids));
    assert_eq!(w.current_id(), TaskId(0));
}
