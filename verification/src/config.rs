//! Kernel configuration constants: page geometry, the user-addressable
//! window, and the syscall numbering used by the per-task counters.

use vstd::prelude::*;

verus! {

/// Size of one page of the virtual address space, in bytes.
pub const PAGE_SIZE: usize = 4096;

/// Number of pages in the user-addressable window that this core manages.
pub const NUM_PAGES: usize = 256;

/// One past the last user-addressable byte: the user window is
/// `[0, USER_SPACE_SIZE)`.
pub const USER_SPACE_SIZE: usize = NUM_PAGES * PAGE_SIZE;

/// Number of distinct syscall ids a task's invocation-count table covers.
pub const MAX_SYSCALL_NUM: usize = 500;

/// One past the largest task id this core hands out; spawning fails as a
/// resource error once the well reaches it.
pub const PID_LIMIT: usize = 2147483647;

/// Syscall id of `exit`.
pub const SYSCALL_EXIT: usize = 93;

/// Syscall id of `yield`.
pub const SYSCALL_YIELD: usize = 124;

/// Syscall id of `get_time`.
pub const SYSCALL_GET_TIME: usize = 169;

/// Syscall id of `sbrk`.
pub const SYSCALL_SBRK: usize = 214;

/// Syscall id of `munmap`.
pub const SYSCALL_MUNMAP: usize = 215;

/// Syscall id of `mmap`.
pub const SYSCALL_MMAP: usize = 222;

/// Syscall id of `spawn`.
pub const SYSCALL_SPAWN: usize = 400;

/// Syscall id of `task_info`.
pub const SYSCALL_TASK_INFO: usize = 410;

} // verus!
