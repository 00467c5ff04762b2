//! M:N runtimes built on the shared run queue.

pub mod poll;
pub mod spawn;
pub mod timer;
