//! The cooperative concurrency runtime: task bookkeeping, the FIFO
//! executors, and the scancode stream that bridges interrupt-context
//! production to task-context consumption.
//!
//! Concurrency here means interleaving of hardware interrupts with
//! cooperative suspension on a single hardware thread, never parallel
//! execution.  A task's suspended computation — a pinned future — is
//! driven by the unverified runtime glue; the kernel's own decisions
//! about it (which task to poll next, what a poll outcome means for
//! the queues, when the processor may idle) are taken here.

pub mod executor;
pub mod keyboard;
pub mod simple_executor;
pub mod task;
