//! The task model shared by all runtimes.

use vstd::prelude::*;

verus! {

use crate::arch::x86_64::{Context, zero_context};

/// Stack size for each green thread (64KB)
pub const STACK_SIZE: usize = 65536;

/// `x` rounded down to a multiple of 16.
pub open spec fn align_down_16(x: int) -> int {
    x - x % 16
}

/// The address of the first byte of `stack`'s buffer.
///
/// Calls `Vec::as_ptr` and takes the pointer's address. The contract
/// claims only what every allocation satisfies: the buffer's bytes lie
/// inside the address space, so the address of its end does not wrap.
/// Which address the allocator chose is not stated.
#[verifier::external_body]
fn stack_base_address(stack: &Vec<u8>) -> (addr: usize)
    ensures
        addr + stack@.len() <= usize::MAX,
{
    stack.as_ptr() as usize
}

/// The aligned top of a stack whose buffer starts at `base`: the end of the
/// buffer rounded down to 16 bytes, as the ABI requires.
pub fn aligned_stack_top(base: usize) -> (top: usize)
    requires
        base + STACK_SIZE <= usize::MAX,
    ensures
        top == align_down_16(base + STACK_SIZE),
        top % 16 == 0,
        base + STACK_SIZE - 15 <= top <= base + STACK_SIZE,
{
    let end = base + STACK_SIZE;
    assert(end & !0xFusize == end - end % 16) by (bit_vector);
    end & !0xF
}

/// Prepare a stack for a new task.
/// Returns (stack, aligned_stack_top).
pub fn prepare_stack() -> (r: (Vec<u8>, usize))
    ensures
        r.0@.len() == STACK_SIZE,
        forall|i: int| 0 <= i < STACK_SIZE ==> r.0@[i] == 0u8,
        r.1 % 16 == 0,
        STACK_SIZE - 15 <= r.1,
{
    let stack = vec![0u8; STACK_SIZE];
    let base = stack_base_address(&stack);
    let top = aligned_stack_top(base);
    (stack, top)
}

/// Unique identifier for each task.
#[derive(Clone, Copy, Debug, PartialEq, Eq, Hash, Structural)]
pub struct TaskId(pub u64);

/// Hands out task identifiers in increasing order, wrapping on overflow
/// (the behaviour of an atomic `fetch_add`).
#[derive(Debug)]
pub struct TaskIdGenerator {
    pub next: u64,
}

/// The identifier that follows `n` (wrapping at `u64::MAX`).
pub open spec fn next_raw_id(n: u64) -> u64 {
    if n == u64::MAX { 0 } else { (n + 1) as u64 }
}

impl TaskIdGenerator {
    /// A generator whose first identifier is 0.
    pub fn new() -> (g: Self)
        ensures
            g.next == 0,
    {
        TaskIdGenerator { next: 0 }
    }
}

impl TaskId {
    /// Takes the next identifier from `ids`.
    pub fn new(ids: &mut TaskIdGenerator) -> (id: Self)
        ensures
            id.0 == old(ids).next,
            final(ids).next == next_raw_id(old(ids).next),
    {
        let id = ids.next;
        ids.next = ids.next.wrapping_add(1);
        TaskId(id)
    }

    pub fn as_u64(self) -> (r: u64)
        ensures
            r == self.0,
    {
        self.0
    }

    pub fn from_u64(id: u64) -> (r: Self)
        ensures
            r.0 == id,
    {
        TaskId(id)
    }
}

/// Task state (similar to Go's goroutine status)
#[derive(Clone, Copy, Debug, PartialEq, Eq, Structural)]
pub enum TaskState {
    /// In the runnable queue, waiting to be scheduled
    Runnable,
    /// Currently running on a worker
    Running,
    /// Waiting for I/O or other event (not in any queue)
    Waiting,
    /// Task has finished execution (like Go's _Gdead)
    Dead,
}

/// A green thread task
#[derive(Debug)]
pub struct Task {
    pub id: TaskId,
    pub context: Context,
    /// The task's stack, kept alive for as long as the task exists
    pub stack: Vec<u8>,
    pub state: TaskState,
}

impl Task {
    /// A runnable task with a fresh identifier from `ids`.
    pub fn new(context: Context, stack: Vec<u8>, ids: &mut TaskIdGenerator) -> (t: Self)
        ensures
            t.id.0 == old(ids).next,
            final(ids).next == next_raw_id(old(ids).next),
            t.context == context,
            t.stack == stack,
            t.state == TaskState::Runnable,
    {
        Task { id: TaskId::new(ids), context, stack, state: TaskState::Runnable }
    }

    /// The same task in state `s`.
    pub open spec fn with_state(self, s: TaskState) -> Task {
        Task { state: s, ..self }
    }
}

/// Per-thread worker state: the scheduler's own context, to which a running
/// task switches back, and the task the worker is running.
#[derive(Debug)]
pub struct Worker {
    /// Context to return to when a task yields
    pub context: Context,
    /// Currently running task
    pub current_task: Option<Task>,
}

impl Worker {
    pub fn new() -> (w: Self)
        ensures
            w.context == zero_context(),
            w.current_task.is_none(),
    {
        Worker { context: Context::default(), current_task: None }
    }

    /// Makes `t` the running task.
    pub fn start(&mut self, t: Task)
        ensures
            final(self).context == old(self).context,
            final(self).current_task == Some(t),
    {
        self.current_task = Some(t);
    }

    /// The identifier of the running task.
    pub fn current_id(&self) -> (id: TaskId)
        requires
            self.current_task.is_some(),
        ensures
            id == self.current_task.unwrap().id,
    {
        match &self.current_task {
            Some(t) => t.id,
            None => TaskId(0),
        }
    }

    /// Gives the running task state `s`; nothing else changes.
    pub fn set_current_state(&mut self, s: TaskState)
        requires
            old(self).current_task.is_some(),
        ensures
            final(self).context == old(self).context,
            final(self).current_task == Some(old(self).current_task.unwrap().with_state(s)),
    {
        match &mut self.current_task {
            Some(t) => {
                t.state = s;
            },
            None => {},
        }
    }
}


/// Successive identifiers differ: a generator never hands out the same
/// identifier twice in a row, and identifiers round-trip through `u64`.
pub proof fn law_task_ids(n: u64, x: u64)
    ensures
        next_raw_id(n) != n,
        TaskId(x).0 == x,
{
}


/// The generator's next identifier after `k` identifiers have been taken
/// from `n`.
pub open spec fn advance(n: u64, k: nat) -> u64
    decreases k,
{
    if k == 0 {
        n
    } else {
        next_raw_id(advance(n, (k - 1) as nat))
    }
}

/// Identifiers are handed out in increasing order and never repeat before
/// the counter wraps: starting from `n`, the `i`-th identifier taken is
/// `n + i`, so any two taken before the wrap differ, the earlier one being
/// smaller.
pub proof fn law_ids_increase_until_wrap(n: u64, k: nat)
    requires
        n + k <= u64::MAX,
    ensures
        forall|i: nat| i <= k ==> #[trigger] advance(n, i) == n + i,
        forall|i: nat, j: nat| i < j <= k ==> #[trigger] advance(n, i) < #[trigger] advance(n, j),
    decreases k,
{
    if k > 0 {
        law_ids_increase_until_wrap(n, (k - 1) as nat);
    }
    assert forall|i: nat| i <= k implies #[trigger] advance(n, i) == n + i by {
        if i == k && k > 0 {
            assert(advance(n, (k - 1) as nat) == n + k - 1);
        }
    }
}


/// The identifier after `n` is `n + 1`, wrapping to 0 after `u64::MAX`.
pub proof fn law_next_raw_id(n: u64)
    ensures
        n < u64::MAX ==> next_raw_id(n) == n + 1,
        n == u64::MAX ==> next_raw_id(n) == 0,
{
}

/// Changing a task's state changes nothing else.
pub proof fn law_with_state(t: Task, s: TaskState)
    ensures
        t.with_state(s).state == s,
        t.with_state(s).id == t.id,
        t.with_state(s).context == t.context,
        t.with_state(s).stack == t.stack,
{
}

} // verus!
