//! M:N runtime with network polling.
//!
//! Extends the basic M:N runtime with `gopark`/`goready` for cooperative
//! waiting, a network poller, and workers that sleep when idle instead of
//! terminating.

use vstd::prelude::*;

verus! {

use crate::arch::x86_64::Context;
use crate::common::{Task, TaskId, TaskIdGenerator, TaskState, Worker};
use crate::scheduler::{GlobalQueue, QueueView, Wakeup};

/// How long the poller waits in the kernel for network events.
pub const POLL_TIMEOUT_MS: i32 = 100;

/// The poller's wait: `POLL_TIMEOUT_MS` when a task waits on the network;
/// none when no task does (the poller then stops at once and reports that
/// it did not poll).
pub fn poll_timeout(has_net_waiters: bool) -> (t: Option<i32>)
    ensures
        has_net_waiters ==> t == Some(POLL_TIMEOUT_MS),
        !has_net_waiters ==> t.is_none(),
{
    if has_net_waiters {
        Some(POLL_TIMEOUT_MS)
    } else {
        None
    }
}

/// The condition under which the runtime shuts down, as checked by a worker
/// that is not itself idle: nothing runnable, nothing parked, no task
/// waiting on the network, and every other worker idle.
pub open spec fn terminates(q: QueueView, has_net_waiters: bool) -> bool {
    &&& q.runnable.len() == 0
    &&& q.waiting.dom().len() == 0
    &&& !has_net_waiters
    &&& q.idle_workers == q.all_workers - 1
}

/// Check if the runtime should terminate (see [`terminates`]).
pub fn should_terminate(queue: &GlobalQueue, has_net_waiters: bool) -> (b: bool)
    requires
        queue@.all_workers > 0,
    ensures
        b == terminates(queue@, has_net_waiters),
{
    queue.runnable_is_empty() && queue.waiting_is_empty() && !has_net_waiters
        && queue.idle_workers() == queue.all_workers() - 1
}

/// A worker that found nothing runnable shuts down if the runtime is done:
/// it stops being counted among the workers and `true` is returned (the
/// other workers are then woken so that they shut down too).
pub fn retire_if_done(queue: &mut GlobalQueue, has_net_waiters: bool) -> (terminate: bool)
    requires
        old(queue)@.all_workers > 0,
    ensures
        terminate == terminates(old(queue)@, has_net_waiters),
        terminate ==> final(queue)@ == (QueueView {
            all_workers: (old(queue)@.all_workers - 1) as usize,
            ..old(queue)@
        }),
        !terminate ==> final(queue)@ == old(queue)@,
{
    if should_terminate(queue, has_net_waiters) {
        queue.retire_worker();
        true
    } else {
        false
    }
}

/// A worker woken from idle: it shuts down if the runtime is done, and
/// otherwise takes the next runnable task, if any.
pub fn end_idle(queue: &mut GlobalQueue, has_net_waiters: bool) -> (w: Wakeup)
    requires
        old(queue)@.wf(),
        old(queue)@.idle_workers > 0,
        old(queue)@.all_workers > 0,
    ensures
        final(queue)@.wf(),
        ({
            let woke = QueueView { idle_workers: (old(queue)@.idle_workers - 1) as usize, ..old(queue)@ };
            if terminates(woke, has_net_waiters) {
                &&& w is Terminate
                &&& final(queue)@ == (QueueView { all_workers: (woke.all_workers - 1) as usize, ..woke })
            } else if woke.runnable.len() > 0 {
                &&& w == Wakeup::Run(woke.runnable[0].with_state(TaskState::Running))
                &&& final(queue)@ == (QueueView { runnable: woke.runnable.drop_first(), ..woke })
            } else {
                &&& w is Spurious
                &&& final(queue)@ == woke
            }
        }),
{
    queue.leave_idle();
    if retire_if_done(queue, has_net_waiters) {
        Wakeup::Terminate
    } else {
        match queue.take_runnable() {
            Some(t) => Wakeup::Run(t),
            None => Wakeup::Spurious,
        }
    }
}

/// Park the current task (move to waiting state). The worker then switches
/// to the scheduler, which moves the task to the waiting set; it is woken by
/// `goready` of its identifier.
pub fn gopark(worker: &mut Worker)
    requires
        old(worker).current_task.is_some(),
    ensures
        final(worker).context == old(worker).context,
        final(worker).current_task == Some(
            old(worker).current_task.unwrap().with_state(TaskState::Waiting),
        ),
{
    crate::scheduler::park(worker);
}

/// Marks the current task finished; the scheduler drops it when it switches
/// back.
pub fn task_finished(worker: &mut Worker)
    requires
        old(worker).current_task.is_some(),
    ensures
        final(worker).context == old(worker).context,
        final(worker).current_task == Some(
            old(worker).current_task.unwrap().with_state(TaskState::Dead),
        ),
{
    crate::scheduler::finish(worker);
}

/// Wake up a parked task (move back to runnable state); a task that has not
/// parked yet has the wake-up recorded, and its park then returns at once
/// (see `QueueView::goready`). Returns whether an idle worker should be
/// woken.
pub fn goready(queue: &mut GlobalQueue, task_id: TaskId) -> (notify: bool)
    requires
        old(queue)@.wf(),
    ensures
        final(queue)@.wf(),
        final(queue)@ == old(queue)@.goready(task_id.0),
        notify == (old(queue)@.waiting.contains_key(task_id.0) && old(queue)@.idle_workers > 0),
{
    queue.goready(task_id)
}

/// The running task `id` announces a park (before it registers with a
/// waker such as the network poller): a `goready` that reaches it before
/// its park is filed is then recorded and cancels that park.
pub fn prepare_park(queue: &mut GlobalQueue, id: TaskId)
    requires
        old(queue)@.wf(),
    ensures
        final(queue)@.wf(),
        final(queue)@ == old(queue)@.prepare_park(id.0),
{
    queue.prepare_park(id);
}

/// Get the current task's ID
pub fn current_task_id(worker: &Worker) -> (id: TaskId)
    requires
        worker.current_task.is_some(),
    ensures
        id == worker.current_task.unwrap().id,
{
    worker.current_id()
}

/// Spawn a new green thread: a runnable task with the given initial context
/// and stack and a fresh identifier joins the tail of the runnable queue.
/// Returns whether an idle worker should be woken.
pub fn go(queue: &mut GlobalQueue, ids: &mut TaskIdGenerator, context: Context, stack: Vec<u8>) -> (notify: bool)
    requires
        old(queue)@.wf(),
    ensures
        final(queue)@.wf(),
        final(ids).next == crate::common::next_raw_id(old(ids).next),
        final(queue)@ == old(queue)@.push_task(
            Task { id: TaskId(old(ids).next), context, stack, state: TaskState::Runnable },
        ),
        notify == (old(queue)@.idle_workers > 0),
{
    crate::scheduler::spawn_task(queue, ids, context, stack)
}

/// Yield execution to another green thread: the running task stays in
/// state `Running`, so that when it has switched to the scheduler,
/// filing it (`after_switch`) puts it, marked runnable, at the tail of the
/// runnable queue (see `scheduler::law_fifo`). There must be a running task.
pub fn gosched(worker: &mut Worker)
    requires
        old(worker).current_task.is_some(),
    ensures
        final(worker).context == old(worker).context,
        final(worker).current_task == Some(
            old(worker).current_task.unwrap().with_state(TaskState::Running),
        ),
{
    worker.set_current_state(TaskState::Running);
}


/// The idle count never exceeds the worker count. Each step keeps
/// `idle_workers <= all_workers`: a worker that finds the runtime done
/// retires with `idle_workers == all_workers - 1`, so the counts end equal;
/// a worker that is not idle (so `idle_workers < all_workers`) going idle
/// stays within the bound; and a worker woken from idle that then retires
/// does so from `idle_workers == all_workers - 1` as well.
pub proof fn law_idle_workers_bounded(q: QueueView, has_net_waiters: bool)
    requires
        q.idle_workers <= q.all_workers,
        q.all_workers > 0,
    ensures
        terminates(q, has_net_waiters) ==> q.idle_workers <= q.all_workers - 1,
        q.idle_workers < q.all_workers ==> q.idle_workers + 1 <= q.all_workers,
        q.idle_workers > 0 ==> ({
            let woke = QueueView { idle_workers: (q.idle_workers - 1) as usize, ..q };
            &&& woke.idle_workers <= woke.all_workers
            &&& terminates(woke, has_net_waiters) ==> woke.idle_workers <= woke.all_workers - 1
        }),
{
}


/// The runtime never shuts down while there is anything left to do: a
/// runnable task, a parked task, a task waiting on the network, or another
/// worker that is not idle; and it does shut down when there is none.
pub proof fn law_terminates_exactly_when_idle(q: QueueView, has_net_waiters: bool)
    ensures
        q.runnable.len() > 0 ==> !terminates(q, has_net_waiters),
        q.waiting.dom().len() > 0 ==> !terminates(q, has_net_waiters),
        has_net_waiters ==> !terminates(q, has_net_waiters),
        q.idle_workers + 1 != q.all_workers ==> !terminates(q, has_net_waiters),
        q.runnable.len() == 0 && q.waiting.dom().len() == 0 && !has_net_waiters && q.idle_workers
            + 1 == q.all_workers ==> terminates(q, has_net_waiters),
{
}

} // verus!
