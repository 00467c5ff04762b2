//! N:1 green thread runtime: one worker runs every task, round robin.

use vstd::prelude::*;

verus! {

use crate::arch::x86_64::{Context, zero_context};
use crate::common::{Task, TaskId, TaskIdGenerator, TaskState, next_raw_id};
use std::collections::VecDeque;

/// N:1 green thread worker
pub struct Worker {
    /// Queue of runnable tasks
    pub tasks: VecDeque<Task>,
    /// Context to return to when a task yields
    pub context: Context,
    /// Currently running task
    pub current_task: Option<Task>,
}

impl Worker {
    pub fn new() -> (w: Self)
        ensures
            w.tasks@ == Seq::<Task>::empty(),
            w.context == zero_context(),
            w.current_task.is_none(),
    {
        Worker { tasks: VecDeque::new(), context: Context::default(), current_task: None }
    }

    /// Makes the task at the front of the queue the running one. Returns
    /// `false`, changing nothing, when the queue is empty: the runtime is
    /// then done.
    pub fn run_next(&mut self) -> (started: bool)
        ensures
            started == (old(self).tasks@.len() > 0),
            final(self).context == old(self).context,
            started ==> final(self).current_task == Some(old(self).tasks@[0])
                && final(self).tasks@ == old(self).tasks@.drop_first(),
            !started ==> final(self).current_task == old(self).current_task
                && final(self).tasks@ == old(self).tasks@,
    {
        match self.tasks.pop_front() {
            Some(t) => {
                self.current_task = Some(t);
                true
            },
            None => false,
        }
    }

    /// After the running task has switched back: a finished task is
    /// dropped, a task that yielded goes back to the tail of the queue.
    pub fn after_switch(&mut self)
        ensures
            final(self).current_task.is_none(),
            final(self).context == old(self).context,
            old(self).current_task matches Some(t) ==> if t.state == TaskState::Dead {
                final(self).tasks@ == old(self).tasks@
            } else {
                final(self).tasks@ == old(self).tasks@.push(t)
            },
            old(self).current_task.is_none() ==> final(self).tasks@ == old(self).tasks@,
    {
        match self.current_task.take() {
            Some(t) => {
                if t.state != TaskState::Dead {
                    self.tasks.push_back(t);
                }
            },
            None => {},
        }
    }

    /// Marks the running task finished.
    pub fn task_finished(&mut self)
        requires
            old(self).current_task.is_some(),
        ensures
            final(self).context == old(self).context,
            final(self).tasks@ == old(self).tasks@,
            final(self).current_task == Some(
                old(self).current_task.unwrap().with_state(TaskState::Dead),
            ),
    {
        match &mut self.current_task {
            Some(t) => {
                t.state = TaskState::Dead;
            },
            None => {},
        }
    }
}

/// Spawn a new green thread: a task with the given initial context and stack
/// and a fresh identifier joins the tail of the worker's queue. Can be called
/// before the runtime starts or from a running task.
pub fn go(worker: &mut Worker, ids: &mut TaskIdGenerator, context: Context, stack: Vec<u8>)
    ensures
        final(ids).next == next_raw_id(old(ids).next),
        final(worker).context == old(worker).context,
        final(worker).current_task == old(worker).current_task,
        final(worker).tasks@ == old(worker).tasks@.push(
            Task { id: TaskId(old(ids).next), context, stack, state: TaskState::Runnable },
        ),
{
    let task = Task::new(context, stack, ids);
    worker.tasks.push_back(task);
}

/// Yield execution to another green thread: the running task is marked
/// `Running` (not finished), so that when it has switched back to the
/// worker, `after_switch` puts it at the tail of the queue. There must be a
/// running task.
pub fn gosched(worker: &mut Worker)
    requires
        old(worker).current_task.is_some(),
    ensures
        final(worker).context == old(worker).context,
        final(worker).tasks@ == old(worker).tasks@,
        final(worker).current_task == Some(
            old(worker).current_task.unwrap().with_state(TaskState::Running),
        ),
{
    match &mut worker.current_task {
        Some(t) => {
            t.state = TaskState::Running;
        },
        None => {},
    }
}

} // verus!
