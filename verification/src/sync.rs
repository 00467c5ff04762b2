//! Synchronization primitives built on gopark/goready.
//!
//! `WaitGroup` is a counting semaphore for waiting on a group of tasks to
//! finish, as Go's `sync.WaitGroup`: `wait` parks the calling task until the
//! counter reaches zero, and the `add` that brings it to zero wakes every
//! parked waiter.

use vstd::prelude::*;

verus! {

use crate::common::TaskId;
use crate::scheduler::GlobalQueue;

/// The abstract state of a [`WaitGroup`].
#[verifier::ext_equal]
pub struct WaitGroupView {
    pub counter: int,
    /// Parked waiters, in the order in which they called `wait`
    pub waiters: Seq<TaskId>,
}

impl WaitGroupView {
    /// The state after `add(delta)`: the counter moves by `delta`; when it
    /// reaches zero with waiters parked, they are all released.
    pub open spec fn add(self, delta: int) -> WaitGroupView {
        let c = self.counter + delta;
        if c == 0 && self.waiters.len() > 0 {
            WaitGroupView { counter: c, waiters: Seq::empty() }
        } else {
            WaitGroupView { counter: c, waiters: self.waiters }
        }
    }

    /// The tasks that `add(delta)` wakes.
    pub open spec fn woken_by_add(self, delta: int) -> Seq<TaskId> {
        if self.counter + delta == 0 && self.waiters.len() > 0 {
            self.waiters
        } else {
            Seq::empty()
        }
    }

    /// The state after `wait` by task `id`: it registers as a waiter unless
    /// the counter is already zero.
    pub open spec fn wait(self, id: TaskId) -> WaitGroupView {
        if self.counter == 0 {
            self
        } else {
            WaitGroupView { counter: self.counter, waiters: self.waiters.push(id) }
        }
    }
}

/// Why `add` refused a change of the counter.
#[derive(Clone, Copy, Debug, PartialEq, Eq, Structural)]
pub enum AddError {
    /// The counter would go negative
    Negative,
    /// The counter would exceed `i32::MAX`
    Overflow,
}

/// A counting semaphore for waiting on a group of tasks to finish.
///
/// - `add(delta)` adjusts the internal counter.
/// - `done()` decrements the counter by 1 (equivalent to `add(-1)`).
/// - `wait()` parks the calling task until the counter reaches zero.
/// - When the counter hits zero, all parked waiters are woken.
pub struct WaitGroup {
    counter: i32,
    waiters: Vec<TaskId>,
}

impl View for WaitGroup {
    type V = WaitGroupView;

    closed spec fn view(&self) -> WaitGroupView {
        WaitGroupView { counter: self.counter as int, waiters: self.waiters@ }
    }
}

impl WaitGroup {
    /// The counter is never negative.
    pub open spec fn wf(&self) -> bool {
        self@.counter >= 0
    }

    /// Create a new WaitGroup with counter 0.
    pub fn new() -> (wg: Self)
        ensures
            wg.wf(),
            wg@ == (WaitGroupView { counter: 0, waiters: Seq::empty() }),
    {
        WaitGroup { counter: 0, waiters: Vec::new() }
    }

    /// The current counter.
    pub fn counter(&self) -> (c: i32)
        ensures
            c == self@.counter,
    {
        self.counter
    }

    /// Add delta to the counter. If the counter reaches zero, all waiters
    /// are released: they are returned, in the order they started waiting,
    /// for the caller to wake.
    ///
    /// Fails, changing nothing and releasing no one, if the counter would
    /// go negative (`Negative`: the caller panics, as Go does) or past
    /// `i32::MAX` (`Overflow`).
    pub fn add(&mut self, delta: i32) -> (r: Result<Vec<TaskId>, AddError>)
        requires
            old(self).wf(),
        ensures
            final(self).wf(),
            old(self)@.counter + delta > i32::MAX ==> r == Err::<Vec<TaskId>, AddError>(AddError::Overflow)
                && final(self)@ == old(self)@,
            old(self)@.counter + delta < 0 ==> r == Err::<Vec<TaskId>, AddError>(AddError::Negative)
                && final(self)@ == old(self)@,
            0 <= old(self)@.counter + delta <= i32::MAX ==> (r matches Ok(wake) && wake@
                == old(self)@.woken_by_add(delta as int) && final(self)@ == old(self)@.add(
                delta as int,
            )),
    {
        let c: i64 = self.counter as i64 + delta as i64;
        if c > i32::MAX as i64 {
            return Err(AddError::Overflow);
        }
        if c < 0 {
            return Err(AddError::Negative);
        }
        self.counter = c as i32;
        if self.counter == 0 && self.waiters.len() > 0 {
            let mut woken: Vec<TaskId> = Vec::new();
            std::mem::swap(&mut woken, &mut self.waiters);
            Ok(woken)
        } else {
            Ok(Vec::new())
        }
    }

    /// Decrement the counter by 1. Equivalent to `add(-1)`: fails with
    /// `Negative`, changing nothing, when the counter is zero.
    pub fn done(&mut self) -> (r: Result<Vec<TaskId>, AddError>)
        requires
            old(self).wf(),
        ensures
            final(self).wf(),
            old(self)@.counter == 0 ==> r == Err::<Vec<TaskId>, AddError>(AddError::Negative)
                && final(self)@ == old(self)@,
            old(self)@.counter >= 1 ==> (r matches Ok(wake) && wake@ == old(self)@.woken_by_add(-1)
                && final(self)@ == old(self)@.add(-1)),
    {
        self.add(-1)
    }

    /// Called by task `current` to wait for the counter to reach zero.
    /// Returns immediately (`false`) if the counter is already zero;
    /// otherwise announces the task's park to `queue` (so that a release
    /// that comes before the park is not lost), registers `current` as a
    /// waiter and returns `true`: the task must then park until it is woken.
    pub fn wait(&mut self, queue: &mut GlobalQueue, current: TaskId) -> (must_park: bool)
        requires
            old(self).wf(),
            old(queue)@.wf(),
        ensures
            final(self).wf(),
            final(queue)@.wf(),
            final(self)@ == old(self)@.wait(current),
            must_park == (old(self)@.counter != 0),
            must_park ==> final(queue)@ == old(queue)@.prepare_park(current.0),
            !must_park ==> final(queue)@ == old(queue)@,
    {
        if self.counter == 0 {
            return false;
        }
        queue.prepare_park(current);
        self.waiters.push(current);
        true
    }
}


/// Every parked waiter is released by the `add` that brings the counter to
/// zero, and none stays parked afterwards.
pub proof fn law_waiters_released_at_zero(v: WaitGroupView, delta: int, id: TaskId)
    requires
        v.waiters.contains(id),
        v.counter + delta == 0,
    ensures
        v.woken_by_add(delta).contains(id),
        v.add(delta).waiters.len() == 0,
{
}

/// A waiter is never released while the counter is not zero.
pub proof fn law_no_release_before_zero(v: WaitGroupView, delta: int)
    requires
        v.counter + delta != 0,
    ensures
        v.woken_by_add(delta).len() == 0,
        v.add(delta).waiters == v.waiters,
{
}

/// `wait` on a group whose counter is zero returns at once and changes
/// nothing; otherwise the caller is queued behind earlier waiters.
pub proof fn law_wait(v: WaitGroupView, id: TaskId)
    ensures
        v.counter == 0 ==> v.wait(id) == v,
        v.counter != 0 ==> v.wait(id).waiters == v.waiters.push(id),
        v.wait(id).counter == v.counter,
{
}

/// Adds accumulate: the counter after `add(a)` then `add(b)` is that after
/// `add(a + b)`.
pub proof fn law_adds_accumulate(v: WaitGroupView, a: int, b: int)
    ensures
        v.add(a).add(b).counter == v.add(a + b).counter,
{
}

/// The counter never goes negative: an `add` that would take it below zero
/// is refused, and every accepted `add` leaves it at zero or above.
pub proof fn law_counter_never_negative(v: WaitGroupView, delta: int)
    requires
        v.counter >= 0,
        v.counter + delta >= 0,
    ensures
        v.add(delta).counter >= 0,
{
}


/// What `add` does to the state: the counter moves by exactly `delta`;
/// reaching zero releases every waiter, in the order they started waiting,
/// and leaves none; otherwise the waiters stay as they are and no one is
/// released.
pub proof fn law_add_effect(v: WaitGroupView, delta: int)
    ensures
        v.add(delta).counter == v.counter + delta,
        v.counter + delta == 0 ==> v.woken_by_add(delta) == v.waiters && v.add(delta).waiters
            == Seq::<TaskId>::empty(),
        v.counter + delta != 0 ==> v.woken_by_add(delta) == Seq::<TaskId>::empty() && v.add(
            delta,
        ).waiters == v.waiters,
{
}

} // verus!
