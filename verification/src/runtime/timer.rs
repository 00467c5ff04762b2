//! M:N runtime with network polling and timers.
//!
//! Extends the polling runtime with a timer heap for `sleep`, whose next
//! deadline bounds how long the poller waits.

use vstd::prelude::*;

verus! {

use crate::arch::x86_64::Context;
use crate::common::{Task, TaskId, TaskIdGenerator, TaskState, Worker};
use crate::scheduler::{GlobalQueue, QueueView, Wakeup};

broadcast use vstd::seq_lib::to_multiset_insert;

/// Entry in the timer heap: the task to wake and when (in nanoseconds on
/// the runtime's monotonic clock).
#[derive(Clone, Copy, Debug, PartialEq, Eq, Structural)]
pub struct TimerEntry {
    pub wake_time: u64,
    pub task_id: TaskId,
}

/// Wake times never decrease from front to back.
pub open spec fn sorted_by_wake(s: Seq<TimerEntry>) -> bool {
    forall|i: int, j: int| 0 <= i <= j < s.len() ==> s[i].wake_time <= s[j].wake_time
}

/// How many entries at the front of `s` are due at `now`.
pub open spec fn expired_count(s: Seq<TimerEntry>, now: u64) -> nat
    decreases s.len(),
{
    if s.len() == 0 {
        0
    } else if s[0].wake_time <= now {
        1 + expired_count(s.drop_first(), now)
    } else {
        0
    }
}

/// In a sorted sequence, exactly the first `expired_count` entries are due.
pub proof fn lemma_expired_prefix(s: Seq<TimerEntry>, now: u64)
    requires
        sorted_by_wake(s),
    ensures
        expired_count(s, now) <= s.len(),
        forall|i: int| 0 <= i < expired_count(s, now) ==> #[trigger] s[i].wake_time <= now,
        forall|i: int| expired_count(s, now) <= i < s.len() ==> #[trigger] s[i].wake_time > now,
    decreases s.len(),
{
    if s.len() > 0 {
        let t = s.drop_first();
        assert(sorted_by_wake(t)) by {
            assert forall|i: int, j: int| 0 <= i <= j < t.len() implies t[i].wake_time
                <= t[j].wake_time by {
                assert(t[i] == s[i + 1] && t[j] == s[j + 1]);
            }
        }
        lemma_expired_prefix(t, now);
        if s[0].wake_time <= now {
            assert forall|i: int| 0 <= i < expired_count(s, now) implies #[trigger] s[i].wake_time
                <= now by {
                if i > 0 {
                    assert(s[i] == t[i - 1]);
                }
            }
            assert forall|i: int| expired_count(s, now) <= i < s.len() implies #[trigger] s[i].wake_time
                > now by {
                assert(s[i] == t[i - 1]);
            }
        }
    }
}

/// `new` is `old` with `e` inserted after every entry due no later than
/// `e` and before every entry due later.
pub open spec fn inserted_in_order(old: Seq<TimerEntry>, new: Seq<TimerEntry>, e: TimerEntry) -> bool {
    exists|p: int|
        0 <= p <= old.len() && new == old.insert(p, e) && (forall|i: int|
            0 <= i < p ==> old[i].wake_time <= e.wake_time) && (forall|i: int|
            p <= i < old.len() ==> old[i].wake_time > e.wake_time)
}

/// The identifiers of the tasks of `s`, in order.
pub open spec fn task_ids(s: Seq<TimerEntry>) -> Seq<TaskId> {
    s.map_values(|e: TimerEntry| e.task_id)
}

/// Pending timers, earliest first. It plays the part of a min-heap: the
/// front entry has the earliest wake time.
pub struct TimerHeap {
    entries: Vec<TimerEntry>,
}

impl View for TimerHeap {
    type V = Seq<TimerEntry>;

    closed spec fn view(&self) -> Seq<TimerEntry> {
        self.entries@
    }
}

impl TimerHeap {
    pub open spec fn wf(&self) -> bool {
        sorted_by_wake(self@)
    }

    pub fn new() -> (h: Self)
        ensures
            h.wf(),
            h@ == Seq::<TimerEntry>::empty(),
    {
        TimerHeap { entries: Vec::new() }
    }

    /// Adds a timer. Timers with equal wake times keep the order in which
    /// they were added.
    pub fn push(&mut self, e: TimerEntry)
        requires
            old(self).wf(),
        ensures
            final(self).wf(),
            inserted_in_order(old(self)@, final(self)@, e),
            final(self)@.to_multiset() == old(self)@.to_multiset().insert(e),
    {
        let mut p: usize = 0;
        while p < self.entries.len() && self.entries[p].wake_time <= e.wake_time
            invariant
                0 <= p <= self.entries.len(),
                forall|i: int| 0 <= i < p ==> self@[i].wake_time <= e.wake_time,
            decreases self.entries.len() - p,
        {
            p = p + 1;
        }
        let ghost old_entries = self@;
        proof {
            if p < old_entries.len() {
                assert forall|i: int| p <= i < old_entries.len() implies old_entries[i].wake_time
                    > e.wake_time by {
                    assert(old_entries[p as int].wake_time <= old_entries[i].wake_time);
                }
            }
        }
        self.entries.insert(p, e);
        proof {
            let s = self@;
            assert(0 <= p <= old_entries.len() && s == old_entries.insert(p as int, e));
            assert(s == old_entries.insert(p as int, e));
            assert forall|i: int, j: int| 0 <= i <= j < s.len() implies s[i].wake_time
                <= s[j].wake_time by {
                if i < p && j < p {
                    assert(s[i] == old_entries[i] && s[j] == old_entries[j]);
                } else if i < p && j == p {
                } else if i < p {
                    assert(s[i] == old_entries[i] && s[j] == old_entries[j - 1]);
                } else if i == p && j == p {
                } else if i == p {
                    assert(s[j] == old_entries[j - 1]);
                } else {
                    assert(s[i] == old_entries[i - 1] && s[j] == old_entries[j - 1]);
                }
            }
        }
    }

    /// Whether any timer is pending.
    pub fn has_timers(&self) -> (b: bool)
        ensures
            b == (self@.len() > 0),
    {
        self.entries.len() > 0
    }

    /// The earliest wake time, if any timer is pending.
    pub fn next_wake(&self) -> (w: Option<u64>)
        requires
            self.wf(),
        ensures
            self@.len() == 0 ==> w.is_none(),
            self@.len() > 0 ==> w == Some(self@[0].wake_time),
            w matches Some(t) ==> forall|i: int| 0 <= i < self@.len() ==> t <= #[trigger] self@[i].wake_time,
    {
        if self.entries.len() == 0 {
            None
        } else {
            Some(self.entries[0].wake_time)
        }
    }

    /// Removes the timers due at `now`. Returns the tasks to wake, earliest
    /// first, and the next wake time among the timers left.
    pub fn check_timers(&mut self, now: u64) -> (r: (Vec<TaskId>, Option<u64>))
        requires
            old(self).wf(),
        ensures
            final(self).wf(),
            final(self)@ == old(self)@.skip(expired_count(old(self)@, now) as int),
            r.0@ == task_ids(old(self)@.take(expired_count(old(self)@, now) as int)),
            forall|i: int| 0 <= i < final(self)@.len() ==> #[trigger] final(self)@[i].wake_time > now,
            final(self)@.len() == 0 ==> r.1.is_none(),
            final(self)@.len() > 0 ==> r.1 == Some(final(self)@[0].wake_time),
    {
        proof {
            lemma_expired_prefix(self@, now);
        }
        let ghost old_entries = self@;
        let ghost k = expired_count(old_entries, now) as int;
        let mut fired: Vec<TaskId> = Vec::new();
        let mut n: usize = 0;
        while n < self.entries.len() && self.entries[n].wake_time <= now
            invariant
                self@ == old_entries,
                0 <= n <= k,
                k <= old_entries.len(),
                forall|i: int| 0 <= i < k ==> #[trigger] old_entries[i].wake_time <= now,
                forall|i: int| k <= i < old_entries.len() ==> #[trigger] old_entries[i].wake_time > now,
                fired@ == task_ids(old_entries.take(n as int)),
            decreases self.entries.len() - n,
        {
            fired.push(self.entries[n].task_id);
            proof {
                assert(old_entries.take(n as int + 1) =~= old_entries.take(n as int).push(
                    old_entries[n as int],
                ));
                assert(task_ids(old_entries.take(n as int + 1)) =~= task_ids(
                    old_entries.take(n as int),
                ).push(old_entries[n as int].task_id));
            }
            n = n + 1;
        }
        assert(n == k);
        let rest = self.entries.split_off(n);
        self.entries = rest;
        proof {
            assert(self@ =~= old_entries.skip(k));
            assert forall|i: int, j: int| 0 <= i <= j < self@.len() implies self@[i].wake_time
                <= self@[j].wake_time by {
                assert(self@[i] == old_entries[i + k] && self@[j] == old_entries[j + k]);
            }
            assert forall|i: int| 0 <= i < self@.len() implies #[trigger] self@[i].wake_time > now by {
                assert(self@[i] == old_entries[i + k]);
            }
        }
        let next = self.next_wake();
        (fired, next)
    }
}

/// The condition under which the runtime shuts down: nothing runnable,
/// nothing parked, no task waiting on the network or on a timer, and every
/// worker idle.
pub open spec fn terminates(q: QueueView, has_net_waiters: bool, has_timers: bool) -> bool {
    &&& q.runnable.len() == 0
    &&& q.waiting.dom().len() == 0
    &&& !has_net_waiters
    &&& !has_timers
    &&& q.idle_workers == q.all_workers
}

/// Check if the runtime should terminate (see [`terminates`]).
pub fn should_terminate(queue: &GlobalQueue, has_net_waiters: bool, has_timers: bool) -> (b: bool)
    ensures
        b == terminates(queue@, has_net_waiters, has_timers),
{
    queue.runnable_is_empty() && queue.waiting_is_empty() && !has_net_waiters && !has_timers
        && queue.idle_workers() == queue.all_workers()
}

/// A worker with nothing to run goes idle. If that leaves the runtime with
/// nothing to do, the worker shuts down instead of sleeping: it is no longer
/// counted among the workers, and `true` is returned (the other workers are
/// then woken so that they shut down too).
pub fn begin_idle(queue: &mut GlobalQueue, has_net_waiters: bool, has_timers: bool) -> (terminate: bool)
    requires
        old(queue)@.idle_workers < usize::MAX,
        old(queue)@.all_workers > 0,
    ensures
        ({
            let idled = QueueView { idle_workers: (old(queue)@.idle_workers + 1) as usize, ..old(queue)@ };
            &&& terminate == terminates(idled, has_net_waiters, has_timers)
            &&& terminate ==> final(queue)@ == (QueueView { all_workers: (idled.all_workers - 1) as usize, ..idled })
            &&& !terminate ==> final(queue)@ == idled
        }),
{
    queue.enter_idle();
    if should_terminate(queue, has_net_waiters, has_timers) {
        queue.retire_worker();
        true
    } else {
        false
    }
}

/// A worker woken from idle: it shuts down if the runtime is done, and
/// otherwise takes the next runnable task, if any.
pub fn end_idle(queue: &mut GlobalQueue, has_net_waiters: bool, has_timers: bool) -> (w: Wakeup)
    requires
        old(queue)@.wf(),
        old(queue)@.idle_workers > 0,
        old(queue)@.all_workers > 0,
    ensures
        final(queue)@.wf(),
        ({
            let woke = QueueView { idle_workers: (old(queue)@.idle_workers - 1) as usize, ..old(queue)@ };
            if terminates(woke, has_net_waiters, has_timers) {
                &&& w is Terminate
                &&& final(queue)@ == (QueueView { all_workers: (woke.all_workers - 1) as usize, ..woke })
            } else if woke.runnable.len() > 0 {
                &&& w == Wakeup::Run(woke.runnable[0].with_state(TaskState::Running))
                &&& final(queue)@ == (QueueView { runnable: woke.runnable.drop_first(), ..woke })
            } else {
                &&& w is Spurious
                &&& final(queue)@ == woke
            }
        }),
{
    queue.leave_idle();
    if should_terminate(queue, has_net_waiters, has_timers) {
        queue.retire_worker();
        Wakeup::Terminate
    } else {
        match queue.take_runnable() {
            Some(t) => Wakeup::Run(t),
            None => Wakeup::Spurious,
        }
    }
}

/// What the poller does after firing the due timers.
pub enum PollPlan {
    /// Nothing is left to wait for: stop polling (the caller then checks
    /// for termination)
    Finish,
    /// Wait up to `timeout_ms`: in the kernel poller if `network`, else by
    /// sleeping
    Wait { timeout_ms: i32, network: bool },
}

/// The poller's wait: until the next timer is due, at most 100 ms; 100 ms
/// when only the network is waited on; no wait at all when nothing is.
pub fn poll_plan(next_wake: Option<u64>, now: u64, has_net_waiters: bool) -> (plan: PollPlan)
    ensures
        match next_wake {
            Some(w) => plan == PollPlan::Wait {
                timeout_ms: if w <= now {
                    0
                } else if (w - now) / 1_000_000 < 100 {
                    ((w - now) / 1_000_000) as i32
                } else {
                    100
                },
                network: has_net_waiters,
            },
            None => if has_net_waiters {
                plan == PollPlan::Wait { timeout_ms: 100, network: true }
            } else {
                plan is Finish
            },
        },
        plan matches PollPlan::Wait { timeout_ms, .. } ==> 0 <= timeout_ms <= 100,
{
    match next_wake {
        Some(w) => {
            let timeout_ms: i32 = if w <= now {
                0
            } else {
                let ms = (w - now) / 1_000_000;
                if ms < 100 {
                    ms as i32
                } else {
                    100
                }
            };
            PollPlan::Wait { timeout_ms, network: has_net_waiters }
        },
        None => {
            if has_net_waiters {
                PollPlan::Wait { timeout_ms: 100, network: true }
            } else {
                PollPlan::Finish
            }
        },
    }
}

/// Park the current task (move to waiting state). The worker then switches
/// to the scheduler, which moves the task to the waiting set; it is woken by
/// `goready` of its identifier.
pub fn gopark(worker: &mut Worker)
    requires
        old(worker).current_task.is_some(),
    ensures
        final(worker).context == old(worker).context,
        final(worker).current_task == Some(
            old(worker).current_task.unwrap().with_state(TaskState::Waiting),
        ),
{
    crate::scheduler::park(worker);
}

/// Marks the current task finished; the scheduler drops it when it switches
/// back.
pub fn task_finished(worker: &mut Worker)
    requires
        old(worker).current_task.is_some(),
    ensures
        final(worker).context == old(worker).context,
        final(worker).current_task == Some(
            old(worker).current_task.unwrap().with_state(TaskState::Dead),
        ),
{
    crate::scheduler::finish(worker);
}

/// The wake time of a sleep of `duration` nanoseconds from `now`; a sum
/// past the clock's range is held at its end (`u64::MAX` nanoseconds, some
/// 584 years), a time no run reaches.
pub open spec fn deadline(now: u64, duration: u64) -> u64 {
    if now + duration <= u64::MAX {
        (now + duration) as u64
    } else {
        u64::MAX
    }
}

/// Whether the poller has anything to wait for: a task waiting on the
/// network or a pending timer. If not, it stops at once and reports that it
/// did not poll.
pub fn should_poll(has_net_waiters: bool, has_timers: bool) -> (b: bool)
    ensures
        b == (has_net_waiters || has_timers),
{
    has_net_waiters || has_timers
}

/// Sleep for `duration` nanoseconds from `now`: announces the current task's
/// park (so that a timer firing before the park is filed is not lost), adds
/// a timer for it and parks it; the poller wakes it once the timer is due.
pub fn sleep(worker: &mut Worker, queue: &mut GlobalQueue, timers: &mut TimerHeap, now: u64, duration: u64)
    requires
        old(worker).current_task.is_some(),
        old(queue)@.wf(),
        old(timers).wf(),
    ensures
        final(queue)@.wf(),
        final(queue)@ == old(queue)@.prepare_park(old(worker).current_task.unwrap().id.0),
        final(timers).wf(),
        inserted_in_order(
            old(timers)@,
            final(timers)@,
            TimerEntry {
                wake_time: deadline(now, duration),
                task_id: old(worker).current_task.unwrap().id,
            },
        ),
        final(timers)@.to_multiset() == old(timers)@.to_multiset().insert(
            TimerEntry {
                wake_time: deadline(now, duration),
                task_id: old(worker).current_task.unwrap().id,
            },
        ),
        final(worker).context == old(worker).context,
        final(worker).current_task == Some(
            old(worker).current_task.unwrap().with_state(TaskState::Waiting),
        ),
{
    let wake_time = now.saturating_add(duration);
    let task_id = worker.current_id();
    queue.prepare_park(task_id);
    timers.push(TimerEntry { wake_time, task_id });
    gopark(worker);
}

/// Wake up a parked task (move back to runnable state); a task that has not
/// parked yet has the wake-up recorded, and its park then returns at once
/// (see `QueueView::goready`). Returns whether an idle worker should be
/// woken.
pub fn goready(queue: &mut GlobalQueue, task_id: TaskId) -> (notify: bool)
    requires
        old(queue)@.wf(),
    ensures
        final(queue)@.wf(),
        final(queue)@ == old(queue)@.goready(task_id.0),
        notify == (old(queue)@.waiting.contains_key(task_id.0) && old(queue)@.idle_workers > 0),
{
    queue.goready(task_id)
}

/// The running task `id` announces a park (before it registers with a
/// waker such as the network poller): a `goready` that reaches it before
/// its park is filed is then recorded and cancels that park.
pub fn prepare_park(queue: &mut GlobalQueue, id: TaskId)
    requires
        old(queue)@.wf(),
    ensures
        final(queue)@.wf(),
        final(queue)@ == old(queue)@.prepare_park(id.0),
{
    queue.prepare_park(id);
}

/// Get the current task's ID
pub fn current_task_id(worker: &Worker) -> (id: TaskId)
    requires
        worker.current_task.is_some(),
    ensures
        id == worker.current_task.unwrap().id,
{
    worker.current_id()
}

/// Spawn a new green thread: a runnable task with the given initial context
/// and stack and a fresh identifier joins the tail of the runnable queue.
/// Returns whether an idle worker should be woken.
pub fn go(queue: &mut GlobalQueue, ids: &mut TaskIdGenerator, context: Context, stack: Vec<u8>) -> (notify: bool)
    requires
        old(queue)@.wf(),
    ensures
        final(queue)@.wf(),
        final(ids).next == crate::common::next_raw_id(old(ids).next),
        final(queue)@ == old(queue)@.push_task(
            Task { id: TaskId(old(ids).next), context, stack, state: TaskState::Runnable },
        ),
        notify == (old(queue)@.idle_workers > 0),
{
    crate::scheduler::spawn_task(queue, ids, context, stack)
}

/// Yield execution to another green thread: the running task stays in
/// state `Running`, so that when it has switched to the scheduler,
/// filing it (`after_switch`) puts it, marked runnable, at the tail of the
/// runnable queue (see `scheduler::law_fifo`). There must be a running task.
pub fn gosched(worker: &mut Worker)
    requires
        old(worker).current_task.is_some(),
    ensures
        final(worker).context == old(worker).context,
        final(worker).current_task == Some(
            old(worker).current_task.unwrap().with_state(TaskState::Running),
        ),
{
    worker.set_current_state(TaskState::Running);
}


/// Due timers fire, and only they: among the pending timers, `check_timers`
/// at `now` removes exactly those whose wake time is not after `now`.
pub proof fn law_timer_fires_exactly_due(s: Seq<TimerEntry>, now: u64, e: TimerEntry)
    requires
        sorted_by_wake(s),
        s.contains(e),
    ensures
        s.take(expired_count(s, now) as int).contains(e) <== e.wake_time <= now,
        s.skip(expired_count(s, now) as int).contains(e) <== e.wake_time > now,
        e.wake_time <= now ==> !s.skip(expired_count(s, now) as int).contains(e),
        e.wake_time > now ==> !s.take(expired_count(s, now) as int).contains(e),
{
    lemma_expired_prefix(s, now);
    let k = expired_count(s, now) as int;
    let i = choose|i: int| 0 <= i < s.len() && s[i] == e;
    if e.wake_time <= now {
        assert(i < k);
        assert(s.take(k)[i] == e);
        if s.skip(k).contains(e) {
            let j = choose|j: int| 0 <= j < s.skip(k).len() && s.skip(k)[j] == e;
            assert(s[j + k] == e);
        }
    } else {
        assert(i >= k);
        assert(s.skip(k)[i - k] == e);
        if s.take(k).contains(e) {
            let j = choose|j: int| 0 <= j < s.take(k).len() && s.take(k)[j] == e;
            assert(s[j] == e);
        }
    }
}

/// A sleeping task wakes when its time has come and not before: after
/// `sleep` added entry `e`, `check_timers` at `now` fires `e` exactly when
/// `now` has reached its wake time.
pub proof fn law_sleep_wakes_at_deadline(old: Seq<TimerEntry>, new: Seq<TimerEntry>, e: TimerEntry, now: u64)
    requires
        sorted_by_wake(old),
        sorted_by_wake(new),
        inserted_in_order(old, new, e),
    ensures
        new.take(expired_count(new, now) as int).contains(e) <==> e.wake_time <= now,
{
    let p = choose|p: int|
        0 <= p <= old.len() && new == old.insert(p, e) && (forall|i: int|
            0 <= i < p ==> old[i].wake_time <= e.wake_time) && (forall|i: int|
            p <= i < old.len() ==> old[i].wake_time > e.wake_time);
    assert(new[p] == e);
    assert(new.contains(e));
    law_timer_fires_exactly_due(new, now, e);
}

/// The next wake time is the earliest pending one.
pub proof fn law_next_wake_is_earliest(s: Seq<TimerEntry>)
    requires
        sorted_by_wake(s),
        s.len() > 0,
    ensures
        forall|i: int| 0 <= i < s.len() ==> s[0].wake_time <= #[trigger] s[i].wake_time,
{
}

/// A worker shuts down only when the runtime has nothing left to do: no
/// runnable or parked task, and no network or timer waiter.
pub proof fn law_terminate_only_when_idle(q: QueueView, has_net_waiters: bool, has_timers: bool)
    requires
        terminates(q, has_net_waiters, has_timers),
    ensures
        q.runnable.len() == 0,
        q.waiting.dom().len() == 0,
        !has_net_waiters && !has_timers,
        q.idle_workers == q.all_workers,
{
}


/// Every removed timer yields its task: `check_timers` returns one
/// identifier per timer it removes, in the same order, each the removed
/// timer's task.
pub proof fn law_fired_ids_match_removed_timers(s: Seq<TimerEntry>)
    ensures
        task_ids(s).len() == s.len(),
        forall|i: int| 0 <= i < s.len() ==> #[trigger] task_ids(s)[i] == s[i].task_id,
{
}

/// A sleep is due exactly `duration` after `now` whenever that time is on
/// the clock; only a sum past the clock's end is held at the end.
pub proof fn law_deadline_is_now_plus_duration(now: u64, duration: u64)
    ensures
        now + duration <= u64::MAX ==> deadline(now, duration) == now + duration,
        now + duration > u64::MAX ==> deadline(now, duration) == u64::MAX,
        deadline(now, duration) >= now,
{
}

/// The runtime never shuts down while there is anything left to do: a
/// runnable task, a parked task, a task waiting on the network or a timer,
/// or a worker that is not idle; and it does shut down when there is none.
pub proof fn law_terminates_exactly_when_idle(q: QueueView, has_net_waiters: bool, has_timers: bool)
    ensures
        q.runnable.len() > 0 ==> !terminates(q, has_net_waiters, has_timers),
        q.waiting.dom().len() > 0 ==> !terminates(q, has_net_waiters, has_timers),
        has_net_waiters ==> !terminates(q, has_net_waiters, has_timers),
        has_timers ==> !terminates(q, has_net_waiters, has_timers),
        q.idle_workers != q.all_workers ==> !terminates(q, has_net_waiters, has_timers),
        q.runnable.len() == 0 && q.waiting.dom().len() == 0 && !has_net_waiters && !has_timers
            && q.idle_workers == q.all_workers ==> terminates(q, has_net_waiters, has_timers),
{
}


/// Adding a timer in order keeps the heap ordered by wake time and adds
/// exactly that timer: one more entry, the same entries plus the new one.
pub proof fn law_insert_in_order(old: Seq<TimerEntry>, new: Seq<TimerEntry>, e: TimerEntry)
    requires
        sorted_by_wake(old),
        inserted_in_order(old, new, e),
    ensures
        new.len() == old.len() + 1,
        new.to_multiset() == old.to_multiset().insert(e),
        forall|i: int, j: int| 0 <= i <= j < new.len() ==> new[i].wake_time <= new[j].wake_time,
{
    let p = choose|p: int|
        0 <= p <= old.len() && new == old.insert(p, e) && (forall|i: int|
            0 <= i < p ==> old[i].wake_time <= e.wake_time) && (forall|i: int|
            p <= i < old.len() ==> old[i].wake_time > e.wake_time);
    vstd::seq_lib::to_multiset_insert(old, p, e);
    assert forall|i: int, j: int| 0 <= i <= j < new.len() implies new[i].wake_time
        <= new[j].wake_time by {
        if i < p && j < p {
            assert(new[i] == old[i] && new[j] == old[j]);
        } else if i < p && j == p {
        } else if i < p {
            assert(new[i] == old[i] && new[j] == old[j - 1]);
        } else if i == p && j == p {
        } else if i == p {
            assert(new[j] == old[j - 1]);
        } else {
            assert(new[i] == old[i - 1] && new[j] == old[j - 1]);
        }
    }
}

} // verus!
