//! M:N green thread runtime, in its basic form: a fixed set of workers
//! shares one queue, and the runtime winds down as soon as a worker finds
//! the queue empty.

use vstd::prelude::*;

verus! {

use crate::arch::x86_64::Context;
use crate::common::{Task, TaskId, TaskIdGenerator, TaskState, Worker, next_raw_id};
use std::collections::VecDeque;

/// Global task queue shared by all workers
pub struct GlobalQueue {
    /// Queue of runnable tasks
    pub tasks: VecDeque<Task>,
    /// Flag to signal shutdown
    pub shutdown: bool,
}

impl GlobalQueue {
    pub fn new() -> (q: Self)
        ensures
            q.tasks@ == Seq::<Task>::empty(),
            !q.shutdown,
    {
        GlobalQueue { tasks: VecDeque::new(), shutdown: false }
    }

    /// The next task to run, from the front of the queue. A worker that
    /// finds the queue empty raises the shutdown flag and stops.
    pub fn next_task(&mut self) -> (t: Option<Task>)
        ensures
            old(self).tasks@.len() > 0 ==> t == Some(old(self).tasks@[0])
                && final(self).tasks@ == old(self).tasks@.drop_first()
                && final(self).shutdown == old(self).shutdown,
            old(self).tasks@.len() == 0 ==> t.is_none() && final(self).tasks@ == old(self).tasks@
                && final(self).shutdown,
    {
        match self.tasks.pop_front() {
            Some(t) => Some(t),
            None => {
                self.shutdown = true;
                None
            },
        }
    }

    /// Files a task that switched back to the worker: a finished task is
    /// dropped, any other goes back to the tail of the queue.
    pub fn reschedule(&mut self, t: Task)
        ensures
            final(self).shutdown == old(self).shutdown,
            t.state == TaskState::Dead ==> final(self).tasks@ == old(self).tasks@,
            t.state != TaskState::Dead ==> final(self).tasks@ == old(self).tasks@.push(t),
    {
        if t.state != TaskState::Dead {
            self.tasks.push_back(t);
        }
    }
}

/// After the running task has switched back: takes it off the worker and
/// files it (see [`GlobalQueue::reschedule`]).
pub fn after_switch(worker: &mut Worker, queue: &mut GlobalQueue)
    ensures
        final(worker).current_task.is_none(),
        final(worker).context == old(worker).context,
        final(queue).shutdown == old(queue).shutdown,
        old(worker).current_task matches Some(t) ==> if t.state == TaskState::Dead {
            final(queue).tasks@ == old(queue).tasks@
        } else {
            final(queue).tasks@ == old(queue).tasks@.push(t)
        },
        old(worker).current_task.is_none() ==> final(queue).tasks@ == old(queue).tasks@,
{
    match worker.current_task.take() {
        Some(t) => queue.reschedule(t),
        None => {},
    }
}

/// Marks the current task finished; the worker drops it when it switches
/// back.
pub fn task_finished(worker: &mut Worker)
    requires
        old(worker).current_task.is_some(),
    ensures
        final(worker).context == old(worker).context,
        final(worker).current_task == Some(
            old(worker).current_task.unwrap().with_state(TaskState::Dead),
        ),
{
    crate::scheduler::finish(worker);
}

/// Spawn a new green thread: a task with the given initial context and stack
/// and a fresh identifier joins the tail of the queue.
pub fn go(queue: &mut GlobalQueue, ids: &mut TaskIdGenerator, context: Context, stack: Vec<u8>)
    ensures
        final(ids).next == next_raw_id(old(ids).next),
        final(queue).shutdown == old(queue).shutdown,
        final(queue).tasks@ == old(queue).tasks@.push(
            Task { id: TaskId(old(ids).next), context, stack, state: TaskState::Runnable },
        ),
{
    let task = Task::new(context, stack, ids);
    queue.tasks.push_back(task);
}

/// Yield execution to another green thread: the running task is marked
/// `Running` (not finished), so that when it has switched back to the
/// worker, `after_switch` puts it at the tail of the queue. There must be a
/// running task.
pub fn gosched(worker: &mut Worker)
    requires
        old(worker).current_task.is_some(),
    ensures
        final(worker).context == old(worker).context,
        final(worker).current_task == Some(
            old(worker).current_task.unwrap().with_state(TaskState::Running),
        ),
{
    worker.set_current_state(TaskState::Running);
}


/// No identifier occurs twice in `s`.
pub open spec fn distinct_ids(s: Seq<Task>) -> bool {
    forall|i: int, j: int| 0 <= i < j < s.len() ==> #[trigger] s[i].id != #[trigger] s[j].id
}

/// No identifier occurs in both `a` and `b`.
pub open spec fn disjoint_ids(a: Seq<Task>, b: Seq<Task>) -> bool {
    forall|i: int, j: int| 0 <= i < a.len() && 0 <= j < b.len() ==> #[trigger] a[i].id != #[trigger] b[j].id
}

/// Every unfinished task is in exactly one place: once in the queue
/// `tasks`, or as the running task of exactly one worker (`running` lists
/// the workers' running tasks).
pub open spec fn placed_once(tasks: Seq<Task>, running: Seq<Task>) -> bool {
    distinct_ids(tasks) && distinct_ids(running) && disjoint_ids(tasks, running)
}

/// A worker taking the front task keeps every task in exactly one place.
pub proof fn law_placed_once_take(tasks: Seq<Task>, running: Seq<Task>)
    requires
        placed_once(tasks, running),
        tasks.len() > 0,
    ensures
        placed_once(tasks.drop_first(), running.push(tasks[0])),
{
    let t2 = tasks.drop_first();
    let r2 = running.push(tasks[0]);
    assert forall|i: int, j: int| 0 <= i < j < t2.len() implies #[trigger] t2[i].id != #[trigger] t2[j].id by {
        assert(t2[i] == tasks[i + 1] && t2[j] == tasks[j + 1]);
    }
    assert forall|i: int, j: int| 0 <= i < j < r2.len() implies #[trigger] r2[i].id != #[trigger] r2[j].id by {
        assert(r2[i] == running[i]);
        if j < running.len() {
            assert(r2[j] == running[j]);
        } else {
            assert(tasks[0].id != running[i].id);
        }
    }
    assert forall|i: int, j: int| 0 <= i < t2.len() && 0 <= j < r2.len() implies #[trigger] t2[i].id
        != #[trigger] r2[j].id by {
        assert(t2[i] == tasks[i + 1]);
        if j < running.len() {
            assert(r2[j] == running[j]);
        } else {
            assert(tasks[0].id != tasks[i + 1].id);
        }
    }
}

/// A worker filing the task it ran keeps every task in exactly one place: a
/// finished task is gone for good; any other goes back to the tail of the
/// queue, once.
pub proof fn law_placed_once_file(tasks: Seq<Task>, running: Seq<Task>, k: int)
    requires
        placed_once(tasks, running),
        0 <= k < running.len(),
    ensures
        running[k].state == TaskState::Dead ==> placed_once(tasks, running.remove(k)),
        running[k].state != TaskState::Dead ==> placed_once(tasks.push(running[k]), running.remove(k)),
{
    let r2 = running.remove(k);
    let t = running[k];
    assert forall|i: int, j: int| 0 <= i < j < r2.len() implies #[trigger] r2[i].id != #[trigger] r2[j].id by {
        let i0 = if i < k { i } else { i + 1 };
        let j0 = if j < k { j } else { j + 1 };
        assert(r2[i] == running[i0] && r2[j] == running[j0]);
    }
    assert forall|i: int, j: int| 0 <= i < tasks.len() && 0 <= j < r2.len() implies #[trigger] tasks[i].id
        != #[trigger] r2[j].id by {
        let j0 = if j < k { j } else { j + 1 };
        assert(r2[j] == running[j0]);
    }
    let t2 = tasks.push(t);
    assert forall|i: int, j: int| 0 <= i < j < t2.len() implies #[trigger] t2[i].id != #[trigger] t2[j].id by {
        assert(t2[i] == tasks[i]);
        if j < tasks.len() {
            assert(t2[j] == tasks[j]);
        } else {
            assert(tasks[i].id != running[k].id);
        }
    }
    assert forall|i: int, j: int| 0 <= i < t2.len() && 0 <= j < r2.len() implies #[trigger] t2[i].id
        != #[trigger] r2[j].id by {
        let j0 = if j < k { j } else { j + 1 };
        assert(r2[j] == running[j0]);
        if i < tasks.len() {
            assert(t2[i] == tasks[i]);
        } else {
            assert(running[k].id != running[j0].id);
        }
    }
}

/// A new task whose identifier is held nowhere keeps every task in exactly
/// one place.
pub proof fn law_placed_once_spawn(tasks: Seq<Task>, running: Seq<Task>, t: Task)
    requires
        placed_once(tasks, running),
        forall|i: int| 0 <= i < tasks.len() ==> #[trigger] tasks[i].id != t.id,
        forall|i: int| 0 <= i < running.len() ==> #[trigger] running[i].id != t.id,
    ensures
        placed_once(tasks.push(t), running),
{
    let t2 = tasks.push(t);
    assert forall|i: int, j: int| 0 <= i < j < t2.len() implies #[trigger] t2[i].id != #[trigger] t2[j].id by {
        assert(t2[i] == tasks[i]);
        if j < tasks.len() {
            assert(t2[j] == tasks[j]);
        }
    }
    assert forall|i: int, j: int| 0 <= i < t2.len() && 0 <= j < running.len() implies #[trigger] t2[i].id
        != #[trigger] running[j].id by {
        if i < tasks.len() {
            assert(t2[i] == tasks[i]);
        }
    }
}

} // verus!
