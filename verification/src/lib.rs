//! Green-thread runtimes in the style of Go's goroutine scheduler.
//!
//! This crate holds the scheduling logic of several small runtimes: the task
//! model, the run queues and waiting sets, termination detection, timers,
//! readiness bookkeeping for the network poller and a wait group. The machine
//! level parts (stack switching, threads, locks and system calls) live with the
//! program that drives these state machines.

pub mod arch;
pub mod common;
pub mod context;
pub mod mn;
pub mod mn_poll;
pub mod n1;
pub mod netpoll;
pub mod runtime;
pub mod scheduler;
pub mod sync;
