//! Event tracing for a small teaching kernel: a global event counter,
//! process-switch and trap records, bounded histories of them, a unified
//! chronological history, the round-robin task scheduler and the trap
//! dispatcher's decisions, and the text that the kernel prints for each.

pub mod event;
pub mod event_log;
pub mod fmt;
pub mod kernel;
pub mod switch_log;
pub mod task;
pub mod trap;
pub mod trap_log;

