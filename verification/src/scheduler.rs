//! The global run queue shared by the workers of the M:N runtimes.
//!
//! A task is in exactly one place: the runnable queue (state `Runnable`),
//! the waiting set (state `Waiting`, keyed by its identifier), or a worker
//! (state `Running`). Workers take tasks from the front of the runnable
//! queue, and a task that yields goes back to its tail.
//!
//! A task parks in two steps: it marks itself waiting, then switches to the
//! scheduler, which files it in the waiting set. A task that makes itself
//! known to a waker (registers with a wait group, adds a timer, waits on a
//! descriptor) first announces the park (`prepare_park`). A `goready` that
//! reaches an announced task before its park is filed is not lost: it is
//! recorded, and the park files the task straight back as runnable. A
//! `goready` of any other task that is not parked (one already runnable, one
//! running without an announced park, or an unknown one) changes nothing.

use vstd::prelude::*;

verus! {

use crate::arch::x86_64::Context;
use crate::common::{Task, TaskId, TaskIdGenerator, TaskState, Worker, next_raw_id};
use std::collections::{HashMap, HashSet, VecDeque};

broadcast use vstd::std_specs::hash::group_hash_axioms;

/// The abstract state of a [`GlobalQueue`].
#[verifier::ext_equal]
pub struct QueueView {
    /// Runnable tasks, front first
    pub runnable: Seq<Task>,
    /// Parked tasks by identifier
    pub waiting: Map<u64, Task>,
    /// Running tasks that announced a park not yet filed
    pub parking: Set<u64>,
    /// Announced tasks woken before their park was filed: that park is
    /// cancelled
    pub pre_ready: Set<u64>,
    /// Number of idle workers (waiting on the condition variable)
    pub idle_workers: usize,
    /// Total number of workers
    pub all_workers: usize,
    /// Next worker ID to assign
    pub next_worker_id: usize,
}

impl QueueView {
    /// Runnable tasks are marked runnable; each parked task is marked waiting
    /// and filed under its own identifier; a wake-up is recorded only for a
    /// task that announced a park and is not parked.
    pub open spec fn wf(self) -> bool {
        &&& forall|i: int| 0 <= i < self.runnable.len() ==> #[trigger] self.runnable[i].state
            == TaskState::Runnable
        &&& forall|k: u64| #[trigger]
            self.waiting.contains_key(k) ==> self.waiting[k].id.0 == k && self.waiting[k].state
                == TaskState::Waiting
        &&& forall|k: u64| #[trigger]
            self.pre_ready.contains(k) ==> self.parking.contains(k) && !self.waiting.contains_key(k)
    }

    /// The queue after a new runnable task is appended.
    pub open spec fn push_task(self, t: Task) -> QueueView {
        QueueView { runnable: self.runnable.push(t), ..self }
    }

    /// The queue after task `id` announces that it is about to park.
    pub open spec fn prepare_park(self, id: u64) -> QueueView {
        QueueView { parking: self.parking.insert(id), ..self }
    }

    /// The queue after `goready(id)`: the parked task `id` is made runnable
    /// again; if task `id` announced a park that is not filed yet, the
    /// wake-up is recorded for that park; otherwise nothing changes.
    pub open spec fn goready(self, id: u64) -> QueueView {
        if self.waiting.contains_key(id) {
            QueueView {
                runnable: self.runnable.push(self.waiting[id].with_state(TaskState::Runnable)),
                waiting: self.waiting.remove(id),
                ..self
            }
        } else if self.parking.contains(id) {
            QueueView { pre_ready: self.pre_ready.insert(id), ..self }
        } else {
            self
        }
    }

    /// The queue after `goready` of each identifier of `ids`, in order.
    pub open spec fn goready_all(self, ids: Seq<u64>) -> QueueView
        decreases ids.len(),
    {
        if ids.len() == 0 {
            self
        } else {
            self.goready_all(ids.drop_last()).goready(ids.last())
        }
    }

    /// Where a task that has switched back to the scheduler goes: a finished
    /// task is dropped; a parked task joins the waiting set, unless it was
    /// woken before it parked, in which case it goes back to the tail of the
    /// runnable queue; any other task (one that yielded) goes back to the
    /// tail of the runnable queue. The task's announced park and any wake-up
    /// recorded for it are used up by this switch, whichever it is.
    pub open spec fn reschedule(self, t: Task) -> QueueView {
        let id = t.id.0;
        let done = QueueView {
            parking: self.parking.remove(id),
            pre_ready: self.pre_ready.remove(id),
            ..self
        };
        match t.state {
            TaskState::Dead => done,
            TaskState::Waiting => if self.pre_ready.contains(id) {
                QueueView { runnable: self.runnable.push(t.with_state(TaskState::Runnable)), ..done }
            } else {
                QueueView { waiting: self.waiting.insert(id, t), ..done }
            },
            _ => QueueView { runnable: self.runnable.push(t.with_state(TaskState::Runnable)), ..done },
        }
    }

    /// No task identifier occurs twice: runnable tasks have distinct
    /// identifiers, none of which is parked.
    pub open spec fn ids_distinct(self) -> bool {
        &&& forall|i: int, j: int|
            0 <= i < j < self.runnable.len() ==> #[trigger] self.runnable[i].id != #[trigger] self.runnable[j].id
        &&& forall|i: int|
            0 <= i < self.runnable.len() ==> !self.waiting.contains_key(#[trigger] self.runnable[i].id.0)
    }

    /// Whether a task with identifier `id` is runnable or parked.
    pub open spec fn holds_id(self, id: u64) -> bool {
        ||| self.waiting.contains_key(id)
        ||| exists|i: int| 0 <= i < self.runnable.len() && #[trigger] self.runnable[i].id.0 == id
    }

    /// Every identifier held is below `n`.
    pub open spec fn ids_below(self, n: u64) -> bool {
        &&& forall|i: int| 0 <= i < self.runnable.len() ==> #[trigger] self.runnable[i].id.0 < n
        &&& forall|k: u64| #[trigger] self.waiting.contains_key(k) ==> k < n
    }

    /// Whether a worker about to block in a system call should start a new
    /// worker: there is runnable work and no idle worker to take it.
    pub open spec fn should_spawn(self) -> bool {
        self.runnable.len() > 0 && self.idle_workers == 0
    }
}

/// What a worker finds when it wakes up on the condition variable.
pub enum Wakeup {
    /// The runtime is done: the worker shuts down
    Terminate,
    /// A task to run
    Run(Task),
    /// Nothing to do yet
    Spurious,
}

/// Global task queue shared by all workers
pub struct GlobalQueue {
    runnable: VecDeque<Task>,
    waiting: HashMap<u64, Task>,
    parking: HashSet<u64>,
    pre_ready: HashSet<u64>,
    idle_workers: usize,
    all_workers: usize,
    next_worker_id: usize,
}

impl View for GlobalQueue {
    type V = QueueView;

    closed spec fn view(&self) -> QueueView {
        QueueView {
            runnable: self.runnable@,
            waiting: self.waiting@,
            parking: self.parking@,
            pre_ready: self.pre_ready@,
            idle_workers: self.idle_workers,
            all_workers: self.all_workers,
            next_worker_id: self.next_worker_id,
        }
    }
}

impl GlobalQueue {
    /// An empty queue with no workers.
    pub fn new() -> (q: Self)
        ensures
            q@.wf(),
            q@.runnable == Seq::<Task>::empty(),
            q@.waiting == Map::<u64, Task>::empty(),
            q@.parking == Set::<u64>::empty(),
            q@.pre_ready == Set::<u64>::empty(),
            q@.idle_workers == 0,
            q@.all_workers == 0,
            q@.next_worker_id == 0,
    {
        GlobalQueue {
            runnable: VecDeque::new(),
            waiting: HashMap::new(),
            parking: HashSet::new(),
            pre_ready: HashSet::new(),
            idle_workers: 0,
            all_workers: 0,
            next_worker_id: 0,
        }
    }

    pub fn idle_workers(&self) -> (n: usize)
        ensures
            n == self@.idle_workers,
    {
        self.idle_workers
    }

    pub fn all_workers(&self) -> (n: usize)
        ensures
            n == self@.all_workers,
    {
        self.all_workers
    }

    pub fn next_worker_id(&self) -> (n: usize)
        ensures
            n == self@.next_worker_id,
    {
        self.next_worker_id
    }

    /// Whether no task is runnable.
    pub fn runnable_is_empty(&self) -> (b: bool)
        ensures
            b == (self@.runnable.len() == 0),
    {
        self.runnable.len() == 0
    }

    /// Whether no task is parked.
    pub fn waiting_is_empty(&self) -> (b: bool)
        ensures
            b == (self@.waiting.dom().len() == 0),
    {
        proof {
            assert(self.waiting@.dom().finite());
            if self.waiting@.dom().len() == 0 {
                assert(self.waiting@.dom() =~= Set::<u64>::empty());
            } else {
                if self.waiting@.is_empty() {
                    assert(self.waiting@.dom() =~= Set::<u64>::empty());
                }
            }
        }
        self.waiting.is_empty()
    }

    /// Counts a new worker.
    pub fn register_worker(&mut self)
        requires
            old(self)@.all_workers < usize::MAX,
        ensures
            final(self)@ == (QueueView { all_workers: (old(self)@.all_workers + 1) as usize, ..old(self)@ }),
    {
        self.all_workers = self.all_workers + 1;
    }

    /// Forgets a worker that shuts down.
    pub fn retire_worker(&mut self)
        requires
            old(self)@.all_workers > 0,
        ensures
            final(self)@ == (QueueView { all_workers: (old(self)@.all_workers - 1) as usize, ..old(self)@ }),
    {
        self.all_workers = self.all_workers - 1;
    }

    /// Counts a worker that goes to sleep on the condition variable.
    pub fn enter_idle(&mut self)
        requires
            old(self)@.idle_workers < usize::MAX,
        ensures
            final(self)@ == (QueueView { idle_workers: (old(self)@.idle_workers + 1) as usize, ..old(self)@ }),
    {
        self.idle_workers = self.idle_workers + 1;
    }

    /// Counts a worker that woke up.
    pub fn leave_idle(&mut self)
        requires
            old(self)@.idle_workers > 0,
        ensures
            final(self)@ == (QueueView { idle_workers: (old(self)@.idle_workers - 1) as usize, ..old(self)@ }),
    {
        self.idle_workers = self.idle_workers - 1;
    }

    /// Numbers the dynamically spawned workers after the `n` initial ones.
    pub fn reserve_worker_ids(&mut self, n: usize)
        ensures
            final(self)@ == (QueueView { next_worker_id: n, ..old(self)@ }),
    {
        self.next_worker_id = n;
    }

    /// Takes the identifier for a new worker thread.
    pub fn alloc_worker_id(&mut self) -> (id: usize)
        requires
            old(self)@.next_worker_id < usize::MAX,
        ensures
            id == old(self)@.next_worker_id,
            final(self)@ == (QueueView { next_worker_id: (id + 1) as usize, ..old(self)@ }),
    {
        let id = self.next_worker_id;
        self.next_worker_id = id + 1;
        id
    }

    /// Task `id` announces a park: a `goready` that reaches it before the
    /// park is filed is then recorded, not dropped.
    pub fn prepare_park(&mut self, id: TaskId)
        requires
            old(self)@.wf(),
        ensures
            final(self)@.wf(),
            final(self)@ == old(self)@.prepare_park(id.0),
    {
        self.parking.insert(id.0);
        proof {
            assert(self@ =~= old(self)@.prepare_park(id.0));
        }
    }

    /// Takes the task at the front of the runnable queue and marks it running.
    pub fn take_runnable(&mut self) -> (r: Option<Task>)
        requires
            old(self)@.wf(),
        ensures
            final(self)@.wf(),
            old(self)@.runnable.len() == 0 ==> r.is_none() && final(self)@ == old(self)@,
            old(self)@.runnable.len() > 0 ==> r == Some(old(self)@.runnable[0].with_state(TaskState::Running))
                && final(self)@ == (QueueView { runnable: old(self)@.runnable.drop_first(), ..old(self)@ }),
    {
        match self.runnable.pop_front() {
            Some(mut t) => {
                t.state = TaskState::Running;
                Some(t)
            },
            None => None,
        }
    }

    /// Appends a new runnable task. Returns whether an idle worker should be
    /// woken to run it.
    pub fn push_task(&mut self, t: Task) -> (notify: bool)
        requires
            old(self)@.wf(),
            t.state == TaskState::Runnable,
        ensures
            final(self)@.wf(),
            final(self)@ == old(self)@.push_task(t),
            notify == (old(self)@.idle_workers > 0),
    {
        let ghost t0 = t;
        self.runnable.push_back(t);
        proof {
            assert(self@ =~= old(self)@.push_task(t0));
        }
        self.idle_workers > 0
    }

    /// Files a task that has switched back to the scheduler (see
    /// [`QueueView::reschedule`]).
    pub fn reschedule(&mut self, t: Task)
        requires
            old(self)@.wf(),
        ensures
            final(self)@.wf(),
            final(self)@ == old(self)@.reschedule(t),
    {
        let ghost t0 = t;
        let mut t = t;
        let id = t.id.0;
        self.parking.remove(&id);
        let woken_early = self.pre_ready.remove(&id);
        match t.state {
            TaskState::Dead => {},
            TaskState::Waiting => {
                if woken_early {
                    t.state = TaskState::Runnable;
                    self.runnable.push_back(t);
                } else {
                    self.waiting.insert(id, t);
                }
            },
            _ => {
                t.state = TaskState::Runnable;
                self.runnable.push_back(t);
            },
        }
        proof {
            assert(self@ =~= old(self)@.reschedule(t0));
        }
    }

    /// Moves the parked task `task_id` back to the runnable queue, or, if it
    /// announced a park not filed yet, records the wake-up (see
    /// [`QueueView::goready`]).
    /// Returns whether an idle worker should be woken.
    pub fn goready(&mut self, task_id: TaskId) -> (notify: bool)
        requires
            old(self)@.wf(),
        ensures
            final(self)@.wf(),
            final(self)@ == old(self)@.goready(task_id.0),
            notify == (old(self)@.waiting.contains_key(task_id.0) && old(self)@.idle_workers > 0),
    {
        let notify = match self.waiting.remove(&task_id.0) {
            Some(mut t) => {
                t.state = TaskState::Runnable;
                self.runnable.push_back(t);
                self.idle_workers > 0
            },
            None => {
                if self.parking.contains(&task_id.0) {
                    self.pre_ready.insert(task_id.0);
                }
                false
            },
        };
        proof {
            assert(self@ =~= old(self)@.goready(task_id.0));
        }
        notify
    }

    /// `goready` of each identifier of `ids`, in order. Returns how many idle
    /// workers should be woken: one per task made runnable, if any worker is
    /// idle.
    pub fn ready_all(&mut self, ids: &Vec<u64>) -> (notify: usize)
        requires
            old(self)@.wf(),
        ensures
            final(self)@.wf(),
            final(self)@ == old(self)@.goready_all(ids@),
            notify == if old(self)@.idle_workers > 0 {
                final(self)@.runnable.len() - old(self)@.runnable.len()
            } else {
                0
            },
    {
        let mut notify: usize = 0;
        let mut i: usize = 0;
        while i < ids.len()
            invariant
                0 <= i <= ids.len(),
                self@.wf(),
                self@ == old(self)@.goready_all(ids@.take(i as int)),
                self@.idle_workers == old(self)@.idle_workers,
                old(self)@.runnable.len() <= self@.runnable.len() <= old(self)@.runnable.len() + i,
                notify == if old(self)@.idle_workers > 0 {
                    self@.runnable.len() - old(self)@.runnable.len()
                } else {
                    0
                },
            decreases ids.len() - i,
        {
            proof {
                assert(ids@.take(i as int + 1).drop_last() =~= ids@.take(i as int));
            }
            let woke = self.goready(TaskId(ids[i]));
            if woke {
                notify = notify + 1;
            }
            i = i + 1;
        }
        proof {
            assert(ids@.take(ids.len() as int) =~= ids@);
        }
        notify
    }

    /// The decision made before a task enters a blocking operation: if
    /// runnable tasks wait and no worker is idle to take them, a new worker
    /// is started; its identifier is returned.
    pub fn enter_blocking(&mut self) -> (spawn: Option<usize>)
        requires
            old(self)@.should_spawn() ==> old(self)@.next_worker_id < usize::MAX,
        ensures
            old(self)@.should_spawn() ==> spawn == Some(old(self)@.next_worker_id) && final(self)@
                == (QueueView { next_worker_id: (old(self)@.next_worker_id + 1) as usize, ..old(self)@ }),
            !old(self)@.should_spawn() ==> spawn.is_none() && final(self)@ == old(self)@,
    {
        if self.runnable.len() > 0 && self.idle_workers == 0 {
            Some(self.alloc_worker_id())
        } else {
            None
        }
    }
}

/// After the running task has switched back to the scheduler: takes it off
/// the worker and files it (see [`QueueView::reschedule`]).
pub fn after_switch(worker: &mut Worker, queue: &mut GlobalQueue)
    requires
        old(queue)@.wf(),
    ensures
        final(queue)@.wf(),
        final(worker).current_task.is_none(),
        final(worker).context == old(worker).context,
        old(worker).current_task matches Some(t) ==> final(queue)@ == old(queue)@.reschedule(t),
        old(worker).current_task.is_none() ==> final(queue)@ == old(queue)@,
{
    match worker.current_task.take() {
        Some(t) => queue.reschedule(t),
        None => {},
    }
}

/// Parks the running task: marks it waiting, so that the scheduler moves it
/// to the waiting set when it switches back.
pub fn park(worker: &mut Worker)
    requires
        old(worker).current_task.is_some(),
    ensures
        final(worker).context == old(worker).context,
        final(worker).current_task == Some(
            old(worker).current_task.unwrap().with_state(TaskState::Waiting),
        ),
{
    worker.set_current_state(TaskState::Waiting);
}

/// Marks the running task finished; the scheduler drops it when it switches
/// back.
pub fn finish(worker: &mut Worker)
    requires
        old(worker).current_task.is_some(),
    ensures
        final(worker).context == old(worker).context,
        final(worker).current_task == Some(
            old(worker).current_task.unwrap().with_state(TaskState::Dead),
        ),
{
    worker.set_current_state(TaskState::Dead);
}

/// Creates a runnable task with a fresh identifier and appends it to the
/// runnable queue. Returns whether an idle worker should be woken.
pub fn spawn_task(queue: &mut GlobalQueue, ids: &mut TaskIdGenerator, context: Context, stack: Vec<u8>) -> (notify: bool)
    requires
        old(queue)@.wf(),
    ensures
        final(queue)@.wf(),
        final(ids).next == next_raw_id(old(ids).next),
        final(queue)@ == old(queue)@.push_task(
            Task { id: TaskId(old(ids).next), context, stack, state: TaskState::Runnable },
        ),
        notify == (old(queue)@.idle_workers > 0),
{
    let task = Task::new(context, stack, ids);
    queue.push_task(task)
}


/// A parked task comes back: once a task that parked (with no wake-up
/// recorded for it) has been filed by the scheduler, `goready` of its
/// identifier puts it, marked runnable, at the tail of the runnable queue,
/// and it is no longer waiting.
pub proof fn law_park_then_ready(q: QueueView, t: Task)
    requires
        q.wf(),
        t.state == TaskState::Waiting,
        !q.pre_ready.contains(t.id.0),
    ensures
        q.reschedule(t).waiting.contains_key(t.id.0),
        q.reschedule(t).runnable == q.runnable,
        q.reschedule(t).goready(t.id.0).runnable == q.runnable.push(
            t.with_state(TaskState::Runnable),
        ),
        !q.reschedule(t).goready(t.id.0).waiting.contains_key(t.id.0),
        q.reschedule(t).goready(t.id.0).wf(),
{
    law_queue_operations_keep_wf(q, t, t.id.0, Seq::empty());
    law_queue_operations_keep_wf(q.reschedule(t), t, t.id.0, Seq::empty());
}

/// A task that parks switches back as waiting and is filed in the waiting
/// set, unless a `goready` reached it after it announced the park: a
/// wake-up from before the announcement (for instance one aimed at the task
/// while it was still runnable) never cancels a park.
pub proof fn law_park_files_waiting(q: QueueView, t: Task, id: u64)
    requires
        q.wf(),
        t.state == TaskState::Waiting,
        !q.parking.contains(t.id.0),
    ensures
        q.goready(id).prepare_park(t.id.0).reschedule(t).waiting == q.goready(id).waiting.insert(
            t.id.0,
            t,
        ),
        q.goready(id).prepare_park(t.id.0).reschedule(t).runnable == q.goready(id).runnable,
{
    if id == t.id.0 && !q.waiting.contains_key(id) {
        assert(q.goready(id) == q);
    }
    assert(!q.goready(id).pre_ready.contains(t.id.0));
}

/// A wake-up is not lost when it comes before the park: if `goready` of a
/// task arrives after the task announced its park (after it registered as a
/// waiter) but before the park is filed, the park files it straight back at
/// the tail of the runnable queue; it never enters the waiting set, and the
/// announcement and the recorded wake-up are used up.
pub proof fn law_early_wakeup_not_lost(q: QueueView, t: Task)
    requires
        q.wf(),
        t.state == TaskState::Waiting,
        !q.waiting.contains_key(t.id.0),
    ensures
        q.prepare_park(t.id.0).goready(t.id.0).reschedule(t).runnable == q.runnable.push(
            t.with_state(TaskState::Runnable),
        ),
        q.prepare_park(t.id.0).goready(t.id.0).reschedule(t).waiting == q.waiting,
        q.prepare_park(t.id.0).goready(t.id.0).reschedule(t).parking == q.parking.remove(t.id.0),
        q.prepare_park(t.id.0).goready(t.id.0).reschedule(t).pre_ready == q.pre_ready.remove(
            t.id.0,
        ),
        q.prepare_park(t.id.0).goready(t.id.0).reschedule(t).wf(),
{
    let id = t.id.0;
    let a = q.prepare_park(id);
    law_queue_operations_keep_wf(q, t, id, Seq::empty());
    law_queue_operations_keep_wf(a, t, id, Seq::empty());
    law_queue_operations_keep_wf(a.goready(id), t, id, Seq::empty());
    assert(a.goready(id).reschedule(t).parking =~= q.parking.remove(id));
    assert(a.goready(id).reschedule(t).pre_ready =~= q.pre_ready.remove(id));
}

/// `goready` wakes the parked task, records the wake-up of a task that
/// announced its park, and otherwise changes nothing (a task already
/// runnable, a running task with no announced park, or an unknown one).
pub proof fn law_goready_wakes_or_records(q: QueueView, id: u64)
    ensures
        q.waiting.contains_key(id) ==> q.goready(id).runnable.len() == q.runnable.len() + 1
            && q.goready(id).runnable.last() == q.waiting[id].with_state(TaskState::Runnable)
            && q.goready(id).waiting == q.waiting.remove(id) && q.goready(id).pre_ready
            == q.pre_ready,
        !q.waiting.contains_key(id) && q.parking.contains(id) ==> q.goready(id).runnable
            == q.runnable && q.goready(id).waiting == q.waiting && q.goready(id).pre_ready
            == q.pre_ready.insert(id),
        !q.waiting.contains_key(id) && !q.parking.contains(id) ==> q.goready(id) == q,
{
}

/// A parked task leaves the waiting set only through `goready` of its own
/// identifier: appending a task, taking the front task, filing another
/// task, and waking another identifier all keep it parked, unchanged.
pub proof fn law_parked_until_goready(q: QueueView, k: u64, t: Task, id: u64)
    requires
        q.wf(),
        q.waiting.contains_key(k),
        t.id.0 != k,
        id != k,
    ensures
        q.push_task(t).waiting.contains_key(k) && q.push_task(t).waiting[k] == q.waiting[k],
        (QueueView { runnable: q.runnable.drop_first(), ..q }).waiting == q.waiting,
        q.reschedule(t).waiting.contains_key(k) && q.reschedule(t).waiting[k] == q.waiting[k],
        q.goready(id).waiting.contains_key(k) && q.goready(id).waiting[k] == q.waiting[k],
{
}

/// Every operation on the queue keeps it well formed.
pub proof fn law_queue_operations_keep_wf(q: QueueView, t: Task, id: u64, ids: Seq<u64>)
    requires
        q.wf(),
    ensures
        t.state == TaskState::Runnable ==> q.push_task(t).wf(),
        q.prepare_park(id).wf(),
        q.reschedule(t).wf(),
        q.goready(id).wf(),
        q.goready_all(ids).wf(),
    decreases ids.len(),
{
    let g = q.goready(id);
    assert forall|k: u64| #[trigger] g.pre_ready.contains(k) implies g.parking.contains(k)
        && !g.waiting.contains_key(k) by {
        if k != id {
            assert(q.pre_ready.contains(k));
        }
    }
    let r = q.reschedule(t);
    assert forall|k: u64| #[trigger] r.pre_ready.contains(k) implies r.parking.contains(k)
        && !r.waiting.contains_key(k) by {
        assert(q.pre_ready.contains(k));
    }
    let a = q.prepare_park(id);
    assert forall|k: u64| #[trigger] a.pre_ready.contains(k) implies a.parking.contains(k)
        && !a.waiting.contains_key(k) by {
        assert(q.pre_ready.contains(k));
    }
    if ids.len() > 0 {
        law_queue_operations_keep_wf(q, t, id, ids.drop_last());
        law_queue_operations_keep_wf(q.goready_all(ids.drop_last()), t, ids.last(), Seq::empty());
    }
}

/// First in, first out: a task made runnable runs after every task that was
/// runnable before it; a task that yields goes behind them, so with
/// `t1, ..., tm` runnable, a task yielding now is resumed after `tm` and
/// before any task queued later.
pub proof fn law_fifo(q: QueueView, t: Task)
    requires
        t.state == TaskState::Running || t.state == TaskState::Runnable,
    ensures
        q.push_task(t).runnable.len() == q.runnable.len() + 1,
        q.push_task(t).runnable.last() == t,
        q.push_task(t).runnable.take(q.runnable.len() as int) == q.runnable,
        q.reschedule(t).runnable.len() == q.runnable.len() + 1,
        q.reschedule(t).runnable[q.runnable.len() as int] == t.with_state(TaskState::Runnable),
        q.reschedule(t).runnable.take(q.runnable.len() as int) == q.runnable,
        q.reschedule(t).waiting == q.waiting,
{
    assert(q.push_task(t).runnable.take(q.runnable.len() as int) =~= q.runnable);
    assert(q.reschedule(t).runnable.take(q.runnable.len() as int) =~= q.runnable);
}

/// A finished task disappears: filing it leaves the runnable queue and the
/// waiting set as they were.
pub proof fn law_dead_task_dropped(q: QueueView, t: Task)
    requires
        t.state == TaskState::Dead,
    ensures
        q.reschedule(t).runnable == q.runnable,
        q.reschedule(t).waiting == q.waiting,
{
}

#[verifier::spinoff_prover]
proof fn lemma_push_fresh_keeps_distinct(q: QueueView, x: Task, g: QueueView)
    requires
        q.ids_distinct(),
        !q.holds_id(x.id.0),
        g.runnable == q.runnable.push(x),
        g.waiting == q.waiting,
    ensures
        g.ids_distinct(),
{
    let r = g.runnable;
    assert forall|i: int, j: int| 0 <= i < j < r.len() implies #[trigger] r[i].id != #[trigger] r[j].id by {
        if j == r.len() - 1 {
            assert(r[i] == q.runnable[i]);
            if r[i].id == x.id {
                assert(q.runnable[i].id.0 == x.id.0);
            }
        } else {
            assert(r[i] == q.runnable[i] && r[j] == q.runnable[j]);
        }
    }
    assert forall|i: int| 0 <= i < r.len() implies !g.waiting.contains_key(#[trigger] r[i].id.0) by {
        if i < r.len() - 1 {
            assert(r[i] == q.runnable[i]);
        } else {
            assert(r[i] == x);
        }
    }
}

/// Identifiers stay unique: a task with a fresh identifier (one at or above
/// every identifier held) joins without a clash, and the next identifier is
/// again fresh.
#[verifier::spinoff_prover]
pub proof fn law_fresh_task_keeps_ids_distinct(q: QueueView, t: Task)
    requires
        q.ids_distinct(),
        q.ids_below(t.id.0),
        t.id.0 < u64::MAX,
    ensures
        q.push_task(t).ids_distinct(),
        q.push_task(t).ids_below((t.id.0 + 1) as u64),
{
    if q.holds_id(t.id.0) {
        if !q.waiting.contains_key(t.id.0) {
            let i = choose|i: int| 0 <= i < q.runnable.len() && #[trigger] q.runnable[i].id.0 == t.id.0;
            assert(q.runnable[i].id.0 < t.id.0);
        }
    }
    lemma_push_fresh_keeps_distinct(q, t, q.push_task(t));
    let r = q.push_task(t).runnable;
    assert forall|i: int| 0 <= i < r.len() implies #[trigger] r[i].id.0 < t.id.0 + 1 by {
        if i < r.len() - 1 {
            assert(r[i] == q.runnable[i]);
        } else {
            assert(r[i] == t);
        }
    }
}

/// Waking keeps identifiers unique: a woken task leaves the waiting set as
/// it joins the runnable queue, so it occurs there exactly once, at the
/// tail.
#[verifier::spinoff_prover]
pub proof fn law_goready_keeps_ids_distinct(q: QueueView, id: u64)
    requires
        q.wf(),
        q.ids_distinct(),
    ensures
        q.goready(id).ids_distinct(),
        q.waiting.contains_key(id) ==> q.goready(id).runnable.last().id.0 == id,
        forall|n: u64| q.ids_below(n) ==> #[trigger] q.goready(id).ids_below(n),
{
    if q.waiting.contains_key(id) {
        let g = q.goready(id);
        let r = g.runnable;
        assert(q.waiting[id].id.0 == id);
        assert forall|i: int, j: int| 0 <= i < j < r.len() implies #[trigger] r[i].id != #[trigger] r[j].id by {
            if j == r.len() - 1 {
                assert(r[i] == q.runnable[i]);
                assert(r[j].id.0 == id);
            } else {
                assert(r[i] == q.runnable[i] && r[j] == q.runnable[j]);
            }
        }
        assert forall|i: int| 0 <= i < r.len() implies !g.waiting.contains_key(#[trigger] r[i].id.0) by {
            if i < r.len() - 1 {
                assert(r[i] == q.runnable[i]);
            } else {
                assert(r[i].id.0 == id && !g.waiting.contains_key(id));
            }
        }
        assert forall|n: u64| q.ids_below(n) implies #[trigger] g.ids_below(n) by {
            assert forall|i: int| 0 <= i < r.len() implies #[trigger] r[i].id.0 < n by {
                if i < r.len() - 1 {
                    assert(r[i] == q.runnable[i]);
                } else {
                    assert(r[i].id.0 == id && q.waiting.contains_key(id));
                }
            }
        }
    }
}

/// Filing a task whose identifier the queue does not hold (the task that was
/// running) keeps identifiers unique.
pub proof fn law_reschedule_keeps_ids_distinct(q: QueueView, t: Task)
    requires
        q.ids_distinct(),
        !q.holds_id(t.id.0),
    ensures
        q.reschedule(t).ids_distinct(),
{
    let g = q.reschedule(t);
    let r = g.runnable;
    if t.state == TaskState::Waiting && !q.pre_ready.contains(t.id.0) {
        assert forall|i: int| 0 <= i < r.len() implies !g.waiting.contains_key(#[trigger] r[i].id.0) by {
            if r[i].id.0 == t.id.0 {
                assert(q.runnable[i].id.0 == t.id.0);
            }
        }
    } else if t.state != TaskState::Dead {
        lemma_push_fresh_keeps_distinct(q, t.with_state(TaskState::Runnable), g);
    }
}

/// Taking the front task to run keeps identifiers unique, and the queue then
/// no longer holds the running task's identifier, so it can be filed again
/// when it switches back (see [`law_reschedule_keeps_ids_distinct`]).
pub proof fn law_take_releases_id(q: QueueView)
    requires
        q.ids_distinct(),
        q.runnable.len() > 0,
    ensures
        (QueueView { runnable: q.runnable.drop_first(), ..q }).ids_distinct(),
        !(QueueView { runnable: q.runnable.drop_first(), ..q }).holds_id(q.runnable[0].id.0),
{
    let g = QueueView { runnable: q.runnable.drop_first(), ..q };
    let r = g.runnable;
    assert forall|i: int, j: int| 0 <= i < j < r.len() implies #[trigger] r[i].id != #[trigger] r[j].id by {
        assert(r[i] == q.runnable[i + 1] && r[j] == q.runnable[j + 1]);
    }
    assert forall|i: int| 0 <= i < r.len() implies !g.waiting.contains_key(#[trigger] r[i].id.0) by {
        assert(r[i] == q.runnable[i + 1]);
    }
    if g.holds_id(q.runnable[0].id.0) {
        if !g.waiting.contains_key(q.runnable[0].id.0) {
            let i = choose|i: int| 0 <= i < r.len() && #[trigger] r[i].id.0 == q.runnable[0].id.0;
            assert(r[i] == q.runnable[i + 1]);
            assert(q.runnable[0].id != q.runnable[i + 1].id);
        }
    }
}


/// Every unfinished task is in exactly one place: the runnable queue, the
/// waiting set, or (as the running task) one worker, given by `running`,
/// the tasks the workers are running. No identifier occurs twice among them.
pub open spec fn placed_once(q: QueueView, running: Seq<Task>) -> bool {
    &&& q.ids_distinct()
    &&& forall|i: int, j: int|
        0 <= i < j < running.len() ==> #[trigger] running[i].id != #[trigger] running[j].id
    &&& forall|i: int| 0 <= i < running.len() ==> !q.holds_id(#[trigger] running[i].id.0)
}

/// A worker taking the front task keeps every task in exactly one place: the
/// task moves from the queue to that worker.
pub proof fn law_placed_once_take(q: QueueView, running: Seq<Task>)
    requires
        placed_once(q, running),
        q.runnable.len() > 0,
    ensures
        placed_once(
            QueueView { runnable: q.runnable.drop_first(), ..q },
            running.push(q.runnable[0].with_state(TaskState::Running)),
        ),
{
    let g = QueueView { runnable: q.runnable.drop_first(), ..q };
    let r2 = running.push(q.runnable[0].with_state(TaskState::Running));
    law_take_releases_id(q);
    assert(q.holds_id(q.runnable[0].id.0));
    assert forall|i: int, j: int| 0 <= i < j < r2.len() implies #[trigger] r2[i].id != #[trigger] r2[j].id by {
        if j == r2.len() - 1 {
            assert(r2[i] == running[i]);
        } else {
            assert(r2[i] == running[i] && r2[j] == running[j]);
        }
    }
    assert forall|i: int| 0 <= i < r2.len() implies !g.holds_id(#[trigger] r2[i].id.0) by {
        if i < r2.len() - 1 {
            assert(r2[i] == running[i]);
            assert(!q.holds_id(running[i].id.0));
            if g.holds_id(running[i].id.0) && !g.waiting.contains_key(running[i].id.0) {
                let k = choose|k: int| 0 <= k < g.runnable.len() && #[trigger] g.runnable[k].id.0
                    == running[i].id.0;
                assert(q.runnable[k + 1] == g.runnable[k]);
            }
        }
    }
}

/// A worker filing the task it ran keeps every task in exactly one place:
/// the task leaves the worker and goes to the runnable queue or the waiting
/// set, or is dropped if it finished.
pub proof fn law_placed_once_file(q: QueueView, running: Seq<Task>, i: int)
    requires
        placed_once(q, running),
        0 <= i < running.len(),
    ensures
        placed_once(q.reschedule(running[i]), running.remove(i)),
{
    let t = running[i];
    let g = q.reschedule(t);
    let r2 = running.remove(i);
    law_reschedule_keeps_ids_distinct(q, t);
    assert forall|a: int, b: int| 0 <= a < b < r2.len() implies #[trigger] r2[a].id != #[trigger] r2[b].id by {
        let a0 = if a < i { a } else { a + 1 };
        let b0 = if b < i { b } else { b + 1 };
        assert(r2[a] == running[a0] && r2[b] == running[b0]);
    }
    assert forall|a: int| 0 <= a < r2.len() implies !g.holds_id(#[trigger] r2[a].id.0) by {
        let a0 = if a < i { a } else { a + 1 };
        assert(r2[a] == running[a0]);
        assert(running[a0].id != t.id);
        assert(!q.holds_id(running[a0].id.0));
        if g.holds_id(r2[a].id.0) {
            if !g.waiting.contains_key(r2[a].id.0) {
                let k = choose|k: int| 0 <= k < g.runnable.len() && #[trigger] g.runnable[k].id.0
                    == r2[a].id.0;
                if k < q.runnable.len() {
                    assert(g.runnable[k] == q.runnable[k]);
                }
            }
        }
    }
}

/// Waking keeps every task in exactly one place.
pub proof fn law_placed_once_goready(q: QueueView, running: Seq<Task>, id: u64)
    requires
        q.wf(),
        placed_once(q, running),
    ensures
        placed_once(q.goready(id), running),
{
    let g = q.goready(id);
    law_goready_keeps_ids_distinct(q, id);
    assert forall|a: int| 0 <= a < running.len() implies !g.holds_id(#[trigger] running[a].id.0) by {
        assert(!q.holds_id(running[a].id.0));
        if q.waiting.contains_key(id) && g.holds_id(running[a].id.0) {
            if !g.waiting.contains_key(running[a].id.0) {
                let k = choose|k: int| 0 <= k < g.runnable.len() && #[trigger] g.runnable[k].id.0
                    == running[a].id.0;
                if k < q.runnable.len() {
                    assert(g.runnable[k] == q.runnable[k]);
                } else {
                    assert(q.waiting[id].id.0 == id);
                }
            }
        }
    }
}

/// A new task with an identifier held nowhere keeps every task in exactly
/// one place.
pub proof fn law_placed_once_spawn(q: QueueView, running: Seq<Task>, t: Task)
    requires
        placed_once(q, running),
        !q.holds_id(t.id.0),
        forall|i: int| 0 <= i < running.len() ==> #[trigger] running[i].id != t.id,
    ensures
        placed_once(q.push_task(t), running),
{
    let g = q.push_task(t);
    lemma_push_fresh_keeps_distinct(q, t, g);
    assert forall|a: int| 0 <= a < running.len() implies !g.holds_id(#[trigger] running[a].id.0) by {
        assert(!q.holds_id(running[a].id.0));
        if g.holds_id(running[a].id.0) && !g.waiting.contains_key(running[a].id.0) {
            let k = choose|k: int| 0 <= k < g.runnable.len() && #[trigger] g.runnable[k].id.0
                == running[a].id.0;
            if k < q.runnable.len() {
                assert(g.runnable[k] == q.runnable[k]);
            }
        }
    }
}

/// The queue after `m` worker identifiers have been allocated
/// (`alloc_worker_id`, directly or through `enter_blocking`). The `i`-th
/// allocation hands out `after_allocs(i).next_worker_id`.
pub open spec fn after_allocs(q: QueueView, m: nat) -> QueueView
    decreases m,
{
    if m == 0 {
        q
    } else {
        let p = after_allocs(q, (m - 1) as nat);
        QueueView { next_worker_id: (p.next_worker_id + 1) as usize, ..p }
    }
}

/// Worker identifiers are handed out consecutively: after the initial
/// workers `0 .. k` (`reserve_worker_ids(k)`), the workers started later get
/// `k, k + 1, ...` in order, so no two workers share an identifier.
pub proof fn law_worker_ids_consecutive(q: QueueView, m: nat)
    requires
        q.next_worker_id + m <= usize::MAX,
    ensures
        forall|i: nat| i <= m ==> #[trigger] after_allocs(q, i).next_worker_id == q.next_worker_id + i,
        forall|i: nat, j: nat|
            i < j <= m ==> #[trigger] after_allocs(q, i).next_worker_id != #[trigger] after_allocs(
                q,
                j,
            ).next_worker_id,
    decreases m,
{
    if m > 0 {
        law_worker_ids_consecutive(q, (m - 1) as nat);
    }
    assert forall|i: nat| i <= m implies #[trigger] after_allocs(q, i).next_worker_id
        == q.next_worker_id + i by {
        if i == m && m > 0 {
            assert(after_allocs(q, (m - 1) as nat).next_worker_id == q.next_worker_id + m - 1);
        }
    }
}


/// How many workers of `ws` are idle (`true`).
pub open spec fn count_idle(ws: Seq<bool>) -> nat
    decreases ws.len(),
{
    if ws.len() == 0 {
        0
    } else {
        count_idle(ws.drop_last()) + if ws.last() {
            1nat
        } else {
            0nat
        }
    }
}

proof fn lemma_count_idle_bounded(ws: Seq<bool>)
    ensures
        count_idle(ws) <= ws.len(),
    decreases ws.len(),
{
    if ws.len() > 0 {
        lemma_count_idle_bounded(ws.drop_last());
    }
}

proof fn lemma_count_idle_update(ws: Seq<bool>, i: int, b: bool)
    requires
        0 <= i < ws.len(),
    ensures
        count_idle(ws.update(i, b)) + (if ws[i] { 1int } else { 0int }) == count_idle(ws) + (if b {
            1int
        } else {
            0int
        }),
    decreases ws.len(),
{
    let u = ws.update(i, b);
    if i < ws.len() - 1 {
        assert(u.drop_last() =~= ws.drop_last().update(i, b));
        lemma_count_idle_update(ws.drop_last(), i, b);
    } else {
        assert(u.drop_last() =~= ws.drop_last());
    }
}

proof fn lemma_count_idle_remove(ws: Seq<bool>, i: int)
    requires
        0 <= i < ws.len(),
    ensures
        count_idle(ws.remove(i)) + (if ws[i] { 1int } else { 0int }) == count_idle(ws),
    decreases ws.len(),
{
    let r = ws.remove(i);
    if i == ws.len() - 1 {
        assert(r =~= ws.drop_last());
    } else {
        assert(r.drop_last() =~= ws.drop_last().remove(i));
        assert(r.last() == ws.last());
        lemma_count_idle_remove(ws.drop_last(), i);
    }
}

/// The queue's worker counts agree with the workers `ws` (one entry per
/// worker, `true` when it sleeps on the condition variable).
pub open spec fn idle_accounted(q: QueueView, ws: Seq<bool>) -> bool {
    q.idle_workers == count_idle(ws) && q.all_workers == ws.len()
}

/// Idle workers never exceed workers. While the counts agree with the
/// workers, `idle_workers <= all_workers`; and every step keeps them in
/// agreement when it is taken by the worker it concerns: a new worker
/// registers (not idle), a worker that is not idle goes idle, an idle
/// worker wakes, a worker that is not idle retires. (The timer runtime's
/// worker that finds the runtime done on its way to idle retires while
/// counted idle, which is not such a step: there the counts part.)
pub proof fn law_idle_accounting(q: QueueView, ws: Seq<bool>, i: int)
    requires
        idle_accounted(q, ws),
    ensures
        q.idle_workers <= q.all_workers,
        q.all_workers < usize::MAX ==> idle_accounted(
            QueueView { all_workers: (q.all_workers + 1) as usize, ..q },
            ws.push(false),
        ),
        0 <= i < ws.len() && !ws[i] ==> idle_accounted(
            QueueView { idle_workers: (q.idle_workers + 1) as usize, ..q },
            ws.update(i, true),
        ),
        0 <= i < ws.len() && ws[i] ==> idle_accounted(
            QueueView { idle_workers: (q.idle_workers - 1) as usize, ..q },
            ws.update(i, false),
        ),
        0 <= i < ws.len() && !ws[i] ==> idle_accounted(
            QueueView { all_workers: (q.all_workers - 1) as usize, ..q },
            ws.remove(i),
        ),
{
    lemma_count_idle_bounded(ws);
    assert(ws.push(false).drop_last() =~= ws);
    if 0 <= i < ws.len() {
        lemma_count_idle_update(ws, i, true);
        lemma_count_idle_update(ws, i, false);
        lemma_count_idle_remove(ws, i);
        if !ws[i] {
            lemma_count_idle_bounded(ws.update(i, true));
        }
    }
}


/// A blocking call starts a worker exactly when runnable tasks would
/// otherwise wait: some task is runnable and no worker is idle, whatever the
/// number of workers.
pub proof fn law_spawn_when_work_waits(q: QueueView)
    ensures
        q.runnable.len() > 0 && q.idle_workers == 0 ==> q.should_spawn(),
        q.runnable.len() == 0 ==> !q.should_spawn(),
        q.idle_workers > 0 ==> !q.should_spawn(),
{
}

/// Appending a task adds exactly that task at the tail and changes nothing
/// else; announcing a park only adds the task to the announced ones.
pub proof fn law_push_and_announce(q: QueueView, t: Task, id: u64)
    ensures
        q.push_task(t).runnable == q.runnable.push(t),
        q.push_task(t).waiting == q.waiting && q.push_task(t).parking == q.parking
            && q.push_task(t).pre_ready == q.pre_ready,
        q.push_task(t).idle_workers == q.idle_workers && q.push_task(t).all_workers
            == q.all_workers && q.push_task(t).next_worker_id == q.next_worker_id,
        q.prepare_park(id).parking == q.parking.insert(id),
        q.prepare_park(id).runnable == q.runnable && q.prepare_park(id).waiting == q.waiting
            && q.prepare_park(id).pre_ready == q.pre_ready,
{
}

/// Where a task that switched back goes, case by case: a finished task is
/// dropped; a parking task woken since it announced the park goes to the
/// tail of the runnable queue, marked runnable; any other parking task is
/// filed in the waiting set under its identifier; a yielding task goes to
/// the tail of the runnable queue, marked runnable. Its announcement and
/// recorded wake-up are cleared, and the worker counts do not change.
pub proof fn law_reschedule_cases(q: QueueView, t: Task)
    ensures
        t.state == TaskState::Dead ==> q.reschedule(t).runnable == q.runnable
            && q.reschedule(t).waiting == q.waiting,
        t.state == TaskState::Waiting && q.pre_ready.contains(t.id.0) ==> q.reschedule(t).runnable
            == q.runnable.push(t.with_state(TaskState::Runnable)) && q.reschedule(t).waiting
            == q.waiting,
        t.state == TaskState::Waiting && !q.pre_ready.contains(t.id.0) ==> q.reschedule(t).runnable
            == q.runnable && q.reschedule(t).waiting == q.waiting.insert(t.id.0, t),
        (t.state == TaskState::Running || t.state == TaskState::Runnable) ==> q.reschedule(t).runnable
            == q.runnable.push(t.with_state(TaskState::Runnable)) && q.reschedule(t).waiting
            == q.waiting,
        q.reschedule(t).parking == q.parking.remove(t.id.0),
        q.reschedule(t).pre_ready == q.pre_ready.remove(t.id.0),
        q.reschedule(t).idle_workers == q.idle_workers && q.reschedule(t).all_workers
            == q.all_workers && q.reschedule(t).next_worker_id == q.next_worker_id,
{
}

/// Waking several identifiers is waking them one after another, in order.
pub proof fn law_goready_all_in_order(q: QueueView, ids: Seq<u64>, id: u64)
    ensures
        q.goready_all(Seq::empty()) == q,
        q.goready_all(ids.push(id)) == q.goready_all(ids).goready(id),
{
    assert(ids.push(id).drop_last() =~= ids);
}

/// Counting idle workers: none among no workers, and one more for each
/// idle worker added.
pub proof fn law_count_idle(ws: Seq<bool>, b: bool)
    ensures
        count_idle(Seq::empty()) == 0,
        count_idle(ws.push(b)) == count_idle(ws) + if b {
            1nat
        } else {
            0nat
        },
        count_idle(ws) <= ws.len(),
{
    assert(ws.push(b).drop_last() =~= ws);
    lemma_count_idle_bounded(ws);
}

} // verus!
