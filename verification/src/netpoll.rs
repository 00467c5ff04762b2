//! Readiness bookkeeping of the network poller.
//!
//! The kernel interface (epoll on Linux, kqueue on the BSDs) is driven by
//! the program; this module records which task waits on which file
//! descriptor and turns the descriptors the kernel reports ready into the
//! tasks to wake.

use vstd::prelude::*;

verus! {

use std::collections::HashMap;

broadcast use vstd::std_specs::hash::group_hash_axioms;

/// The tasks woken for the descriptors `fds` reported ready, in order:
/// each descriptor that a task waits on yields that task; the others are
/// skipped.
pub open spec fn ready_ids(waiting: Map<i32, u64>, fds: Seq<i32>) -> Seq<u64>
    decreases fds.len(),
{
    if fds.len() == 0 {
        Seq::empty()
    } else {
        let rest = ready_ids(waiting, fds.drop_last());
        if waiting.contains_key(fds.last()) {
            rest.push(waiting[fds.last()])
        } else {
            rest
        }
    }
}

/// Network poller: the kernel poll descriptor and, per registered file
/// descriptor, the task waiting on it.
pub struct NetPoller {
    poll_fd: i32,
    /// Map from fd to waiting task_id
    waiting_fds: HashMap<i32, u64>,
}

impl View for NetPoller {
    type V = Map<i32, u64>;

    closed spec fn view(&self) -> Map<i32, u64> {
        self.waiting_fds@
    }
}

impl NetPoller {
    pub closed spec fn spec_poll_fd(&self) -> i32 {
        self.poll_fd
    }

    /// A poller over the kernel poll descriptor `poll_fd` (which creation
    /// must have succeeded: a negative descriptor is a failure).
    pub fn new(poll_fd: i32) -> (p: Self)
        requires
            poll_fd >= 0,
        ensures
            p@ == Map::<i32, u64>::empty(),
            p.spec_poll_fd() == poll_fd,
    {
        NetPoller { poll_fd, waiting_fds: HashMap::new() }
    }

    pub fn poll_fd(&self) -> (fd: i32)
        ensures
            fd == self.spec_poll_fd(),
    {
        self.poll_fd
    }

    /// Records that `task_id` waits for `fd` to become readable (once the
    /// kernel has accepted the registration).
    pub fn register_read(&mut self, fd: i32, task_id: u64)
        ensures
            final(self)@ == old(self)@.insert(fd, task_id),
            final(self).spec_poll_fd() == old(self).spec_poll_fd(),
    {
        self.waiting_fds.insert(fd, task_id);
    }

    /// Forgets the waiter on `fd`.
    pub fn unregister(&mut self, fd: i32)
        ensures
            final(self)@ == old(self)@.remove(fd),
            final(self).spec_poll_fd() == old(self).spec_poll_fd(),
    {
        self.waiting_fds.remove(&fd);
    }

    /// The tasks to wake for the descriptors `ready_fds` that the kernel
    /// reported ready, in the order reported.
    pub fn poll(&self, ready_fds: &Vec<i32>) -> (ids: Vec<u64>)
        ensures
            ids@ == ready_ids(self@, ready_fds@),
    {
        let mut ids: Vec<u64> = Vec::new();
        let mut i: usize = 0;
        while i < ready_fds.len()
            invariant
                0 <= i <= ready_fds.len(),
                ids@ == ready_ids(self@, ready_fds@.take(i as int)),
            decreases ready_fds.len() - i,
        {
            proof {
                assert(ready_fds@.take(i as int + 1).drop_last() =~= ready_fds@.take(i as int));
            }
            let fd = ready_fds[i];
            match self.waiting_fds.get(&fd) {
                Some(id) => {
                    ids.push(*id);
                },
                None => {},
            }
            i = i + 1;
        }
        proof {
            assert(ready_fds@.take(ready_fds.len() as int) =~= ready_fds@);
        }
        ids
    }

    /// Check if there are any fds being waited on.
    pub fn has_waiters(&self) -> (b: bool)
        ensures
            b == (self@.dom().len() > 0),
    {
        proof {
            assert(self.waiting_fds@.dom().finite());
            if self.waiting_fds@.dom().len() == 0 {
                assert(self.waiting_fds@.dom() =~= Set::<i32>::empty());
            }
            if self.waiting_fds@.is_empty() {
                assert(self.waiting_fds@.dom() =~= Set::<i32>::empty());
            }
        }
        !self.waiting_fds.is_empty()
    }
}


/// A registered waiter is woken by its descriptor: after `register_read(fd,
/// id)`, a report of `fd` alone wakes exactly `id`; after `unregister(fd)`
/// it wakes nothing.
pub proof fn law_register_then_ready(m: Map<i32, u64>, fd: i32, id: u64)
    ensures
        ready_ids(m.insert(fd, id), seq![fd]) == seq![id],
        ready_ids(m.insert(fd, id).remove(fd), seq![fd]) == Seq::<u64>::empty(),
{
    let m1 = m.insert(fd, id);
    let m2 = m1.remove(fd);
    assert(seq![fd].drop_last() =~= Seq::<i32>::empty());
    assert(seq![fd].last() == fd);
    assert(ready_ids(m1, Seq::<i32>::empty()) == Seq::<u64>::empty());
    assert(ready_ids(m2, Seq::<i32>::empty()) == Seq::<u64>::empty());
    assert(ready_ids(m1, seq![fd]) =~= Seq::<u64>::empty().push(id));
    assert(!m2.contains_key(fd));
}

/// Reports of descriptors nobody waits on wake nothing.
pub proof fn law_unregistered_fds_wake_nothing(m: Map<i32, u64>, fds: Seq<i32>)
    requires
        forall|i: int| 0 <= i < fds.len() ==> !m.contains_key(#[trigger] fds[i]),
    ensures
        ready_ids(m, fds) == Seq::<u64>::empty(),
    decreases fds.len(),
{
    if fds.len() > 0 {
        law_unregistered_fds_wake_nothing(m, fds.drop_last());
    }
}

/// The kqueue wait for a timeout of `timeout_ms` milliseconds, as whole
/// seconds and the nanoseconds beyond them (both truncated toward zero, so
/// they carry the sign of `timeout_ms`).
pub fn kqueue_timeout(timeout_ms: i32) -> (r: (i64, i64))
    ensures
        r.0 * 1000 + r.1 / 1_000_000 == timeout_ms,
        r.1 % 1_000_000 == 0,
        timeout_ms >= 0 ==> 0 <= r.1 < 1_000_000_000 && r.0 == timeout_ms / 1000,
        timeout_ms < 0 ==> -1_000_000_000 < r.1 <= 0,
{
    let secs = timeout_ms / 1000;
    let rem = timeout_ms % 1000;
    (secs as i64, (rem as i64) * 1_000_000)
}


/// Each reported descriptor that a task waits on yields that task, wherever
/// it comes in the report, and each other descriptor yields nothing: the
/// tasks to wake grow by one task per descriptor that has a waiter, in the
/// order reported.
pub proof fn law_ready_ids_one_per_waited_fd(m: Map<i32, u64>, fds: Seq<i32>, fd: i32)
    ensures
        ready_ids(m, Seq::empty()) == Seq::<u64>::empty(),
        m.contains_key(fd) ==> ready_ids(m, fds.push(fd)) == ready_ids(m, fds).push(m[fd]),
        !m.contains_key(fd) ==> ready_ids(m, fds.push(fd)) == ready_ids(m, fds),
        ready_ids(m, fds).len() <= fds.len(),
        (forall|i: int| 0 <= i < fds.len() ==> m.contains_key(#[trigger] fds[i])) ==> ready_ids(
            m,
            fds,
        ).len() == fds.len(),
    decreases fds.len(),
{
    assert(fds.push(fd).drop_last() =~= fds);
    if fds.len() > 0 {
        law_ready_ids_one_per_waited_fd(m, fds.drop_last(), fds.last());
        if forall|i: int| 0 <= i < fds.len() ==> m.contains_key(#[trigger] fds[i]) {
            assert forall|i: int| 0 <= i < fds.drop_last().len() implies m.contains_key(
                #[trigger] fds.drop_last()[i],
            ) by {
                assert(fds.drop_last()[i] == fds[i]);
            }
            assert(m.contains_key(fds[fds.len() - 1]));
        }
    }
}

} // verus!
