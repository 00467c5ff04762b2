//! The saved register set of the x86_64 System V ABI.

use vstd::prelude::*;

verus! {

/// Saved CPU context for context switching: the callee-saved registers of
/// the x86_64 System V ABI, in the order the switch routine stores them.
#[derive(Clone, Copy, Debug, PartialEq, Eq, Structural)]
pub struct Context {
    /// Stack pointer
    pub rsp: u64,
    /// Frame pointer
    pub rbp: u64,
    /// General purpose (callee-saved)
    pub rbx: u64,
    pub r12: u64,
    pub r13: u64,
    pub r14: u64,
    pub r15: u64,
}

/// The all-zero register set.
pub open spec fn zero_context() -> Context {
    Context { rsp: 0, rbp: 0, rbx: 0, r12: 0, r13: 0, r14: 0, r15: 0 }
}

impl Default for Context {
    fn default() -> (c: Self)
        ensures
            c == zero_context(),
    {
        Context { rsp: 0, rbp: 0, rbx: 0, r12: 0, r13: 0, r14: 0, r15: 0 }
    }
}

impl Context {
    /// The initial context of a task whose stack ends at `stack_top`.
    ///
    /// The first switch into the context executes `ret`, which pops the word
    /// stored at `rsp`: the caller stores the entry point's address there
    /// (at `stack_top - 16`). After that `ret` the stack pointer is
    /// `stack_top - 8`, which is `16n + 8` as the ABI expects on function
    /// entry when `stack_top` is 16-byte aligned. The closure pointer travels
    /// in `r15`; every other register starts at zero.
    pub fn new(stack_top: usize, closure_ptr: u64) -> (c: Self)
        requires
            stack_top >= 16,
        ensures
            c.rsp == stack_top - 16,
            c.r15 == closure_ptr,
            c.rbp == 0 && c.rbx == 0 && c.r12 == 0 && c.r13 == 0 && c.r14 == 0,
            stack_top % 16 == 0 ==> c.rsp % 16 == 0 && (c.rsp + 8) % 16 == 8,
    {
        let initial_rsp = stack_top - 16;
        Context { rsp: initial_rsp as u64, r15: closure_ptr, ..Default::default() }
    }
}

} // verus!
