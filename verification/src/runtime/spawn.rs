//! M:N runtime with dynamic worker spawning.
//!
//! When a task enters a blocking operation (like file I/O), the runtime
//! starts a new worker if runnable tasks would otherwise wait.

use vstd::prelude::*;

verus! {

use crate::arch::x86_64::Context;
use crate::common::{Task, TaskId, TaskIdGenerator, TaskState, Worker};
use crate::scheduler::{GlobalQueue, QueueView, Wakeup};

/// The condition under which the runtime shuts down, as checked by a worker
/// that is not itself idle: nothing runnable and every other worker idle.
pub open spec fn terminates(q: QueueView) -> bool {
    q.runnable.len() == 0 && q.idle_workers == q.all_workers - 1
}

/// Check if the runtime should terminate (see [`terminates`]).
pub fn should_terminate(queue: &GlobalQueue) -> (b: bool)
    requires
        queue@.all_workers > 0,
    ensures
        b == terminates(queue@),
{
    queue.runnable_is_empty() && queue.idle_workers() == queue.all_workers() - 1
}

/// A worker that found nothing runnable shuts down if the runtime is done:
/// it stops being counted among the workers and `true` is returned.
pub fn retire_if_done(queue: &mut GlobalQueue) -> (terminate: bool)
    requires
        old(queue)@.all_workers > 0,
    ensures
        terminate == terminates(old(queue)@),
        terminate ==> final(queue)@ == (QueueView {
            all_workers: (old(queue)@.all_workers - 1) as usize,
            ..old(queue)@
        }),
        !terminate ==> final(queue)@ == old(queue)@,
{
    if should_terminate(queue) {
        queue.retire_worker();
        true
    } else {
        false
    }
}

/// A worker woken from idle: it shuts down if the runtime is done, and
/// otherwise takes the next runnable task, if any.
pub fn end_idle(queue: &mut GlobalQueue) -> (w: Wakeup)
    requires
        old(queue)@.wf(),
        old(queue)@.idle_workers > 0,
        old(queue)@.all_workers > 0,
    ensures
        final(queue)@.wf(),
        ({
            let woke = QueueView { idle_workers: (old(queue)@.idle_workers - 1) as usize, ..old(queue)@ };
            if terminates(woke) {
                &&& w is Terminate
                &&& final(queue)@ == (QueueView { all_workers: (woke.all_workers - 1) as usize, ..woke })
            } else if woke.runnable.len() > 0 {
                &&& w == Wakeup::Run(woke.runnable[0].with_state(TaskState::Running))
                &&& final(queue)@ == (QueueView { runnable: woke.runnable.drop_first(), ..woke })
            } else {
                &&& w is Spurious
                &&& final(queue)@ == woke
            }
        }),
{
    queue.leave_idle();
    if retire_if_done(queue) {
        Wakeup::Terminate
    } else {
        match queue.take_runnable() {
            Some(t) => Wakeup::Run(t),
            None => Wakeup::Spurious,
        }
    }
}

/// Marks the current task finished; the scheduler drops it when it switches
/// back.
pub fn task_finished(worker: &mut Worker)
    requires
        old(worker).current_task.is_some(),
    ensures
        final(worker).context == old(worker).context,
        final(worker).current_task == Some(
            old(worker).current_task.unwrap().with_state(TaskState::Dead),
        ),
{
    crate::scheduler::finish(worker);
}

/// Spawn a new green thread: a runnable task with the given initial context
/// and stack and a fresh identifier joins the tail of the runnable queue.
/// Returns whether an idle worker should be woken.
pub fn go(queue: &mut GlobalQueue, ids: &mut TaskIdGenerator, context: Context, stack: Vec<u8>) -> (notify: bool)
    requires
        old(queue)@.wf(),
    ensures
        final(queue)@.wf(),
        final(ids).next == crate::common::next_raw_id(old(ids).next),
        final(queue)@ == old(queue)@.push_task(
            Task { id: TaskId(old(ids).next), context, stack, state: TaskState::Runnable },
        ),
        notify == (old(queue)@.idle_workers > 0),
{
    crate::scheduler::spawn_task(queue, ids, context, stack)
}

/// Yield execution to another green thread: the running task stays in
/// state `Running`, so that when it has switched to the scheduler,
/// filing it (`after_switch`) puts it, marked runnable, at the tail of the
/// runnable queue (see `scheduler::law_fifo`). There must be a running task.
pub fn gosched(worker: &mut Worker)
    requires
        old(worker).current_task.is_some(),
    ensures
        final(worker).context == old(worker).context,
        final(worker).current_task == Some(
            old(worker).current_task.unwrap().with_state(TaskState::Running),
        ),
{
    worker.set_current_state(TaskState::Running);
}


/// The idle count never exceeds the worker count. Each step keeps
/// `idle_workers <= all_workers`: a worker that finds the runtime done
/// retires with `idle_workers == all_workers - 1`, so the counts end equal;
/// a worker that is not idle (so `idle_workers < all_workers`) going idle
/// stays within the bound; and a worker woken from idle that then retires
/// does so from `idle_workers == all_workers - 1` as well.
pub proof fn law_idle_workers_bounded(q: QueueView)
    requires
        q.idle_workers <= q.all_workers,
        q.all_workers > 0,
    ensures
        terminates(q) ==> q.idle_workers <= q.all_workers - 1,
        q.idle_workers < q.all_workers ==> q.idle_workers + 1 <= q.all_workers,
        q.idle_workers > 0 ==> ({
            let woke = QueueView { idle_workers: (q.idle_workers - 1) as usize, ..q };
            &&& woke.idle_workers <= woke.all_workers
            &&& terminates(woke) ==> woke.idle_workers <= woke.all_workers - 1
        }),
{
}


/// The runtime never shuts down while a task is runnable or another worker
/// is not idle; and it does shut down when neither holds.
pub proof fn law_terminates_exactly_when_idle(q: QueueView)
    ensures
        q.runnable.len() > 0 ==> !terminates(q),
        q.idle_workers + 1 != q.all_workers ==> !terminates(q),
        q.runnable.len() == 0 && q.idle_workers + 1 == q.all_workers ==> terminates(q),
{
}

} // verus!
