//! Core of a small cooperative operating-system kernel: physical frame
//! allocation, four-level page-table walking and mapping, an interrupt
//! vector table with a stack-switching double-fault path, a FIFO task
//! executor with waker-driven re-queueing, and a bounded scancode queue
//! bridging interrupt-context producers to a task-context consumer.
//!
//! Hardware access (control registers, the descriptor-table load, the
//! halt instruction) is out of scope: the kernel state that those
//! instructions act on is held here as explicit data, so that every
//! decision the kernel makes about it is stated and checked.

use vstd::prelude::*;

pub mod interrupts;
pub mod memory;
pub mod paging;
pub mod task;

pub use memory::BootInfoFrameAllocator;
pub use memory::EmptyFrameAllocator;
pub use memory::FrameAllocator;
pub use memory::MemoryRegion;
pub use memory::PhysFrame;
pub use paging::MemorySpace;
pub use paging::Page;
pub use paging::create_example_mapping;
pub use paging::establish_virtual_memory;
pub use interrupts::init_idt;
pub use task::executor::Executor;
pub use task::keyboard::ScancodeStream;
pub use task::keyboard::add_scancode;
pub use task::keyboard::add_scancodes;
pub use task::simple_executor::SimpleExecutor;
pub use task::task::Task;
pub use task::task::TaskPoll;

verus! {

/// Size in bytes of one physical frame and of one virtual page.
pub const FRAME_SIZE: u64 = 4096;

} // verus!
