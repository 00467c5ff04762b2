//! The register state saved and restored by a context switch.

pub use crate::arch::x86_64::Context;
