//! Core of a single-core, cooperatively scheduled teaching kernel: per-task
//! address-space management (mmap / munmap / sbrk), a per-CPU scheduler that
//! owns the current task, and the process-control and introspection syscalls
//! built on them.

pub mod config;
pub mod mm;
pub mod task;
pub mod processor;
pub mod syscall;
