//! A verified model of a `crt0`-style process runtime: process entry and
//! exit sequencing, self-relocation for static position-independent
//! executables, thread lifecycle with manual TLS layout, and the
//! signal-return trampoline facade.
//!
//! Everything that must touch the kernel (system calls, the thread-pointer
//! register, raw memory) is out of reach of verification; this crate states
//! and proves the decision logic that drives those operations: which
//! relocations to apply and where, how a thread's memory region is laid out,
//! when a thread's memory may be freed, and in which order destructors run.

pub mod arith;
pub mod dtors;
pub mod elf;
pub mod layout;
pub mod lifecycle;
pub mod mem;
pub mod program;
pub mod relocate;
pub mod signal;
pub mod sys;
pub mod thread;
