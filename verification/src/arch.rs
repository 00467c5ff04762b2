//! Architecture-specific register state.

pub mod x86_64;

pub use x86_64::Context;
