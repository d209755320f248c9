//! The trap-and-memory core of a small x86-64 kernel that boots from UEFI.
//!
//! The library holds what the kernel decides and computes: the frames that a
//! memory map yields, the offset mapping, the heap window and its allocator,
//! the descriptor table and the trap table with their handlers, the bridge to
//! the interrupt controllers, and the mutex that masks interrupts while it is
//! held. What touches the machine itself (ports, control registers, the
//! tables of the processor) is done by the kernel image around it, which asks
//! the library what to do and reports what happened.

pub mod addr;
pub mod allocator;
pub mod boot;
pub mod cpu;
pub mod frame_laws;
pub mod gdt;
pub mod interrupts;
pub mod keyboard;
pub mod memory;
pub mod pic;
pub mod print;
pub mod qemu;
pub mod terminal;
pub mod uninterruptible_mutex;
