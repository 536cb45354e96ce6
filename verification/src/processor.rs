//! The per-CPU scheduler state: the processor owning the single current-task
//! slot and the idle control flow, the kernel state it lives in, and the
//! scheduling protocol (run loop step and the return path to idle).
//!
//! A kernel usually keeps this state in a process-wide singleton behind an
//! exclusive-access cell; here the scheduler is an explicitly constructed
//! object, and Rust's `&mut` discipline plays the cell's role: a re-entrant
//! acquisition is a compile error instead of a runtime fault.

use vstd::prelude::*;

use crate::config::{PID_LIMIT, USER_SPACE_SIZE};
use crate::mm::{mmap_post, unmap_post, MapPermission, VirtAddr};
use crate::task::{
    spec_image_valid, TaskContext, TaskControlBlock, TaskStatus, TrapContext,
};

verus! {

/// Per-CPU scheduler state: the task currently executing on this core, and
/// the saved control flow of the scheduling loop itself.
pub struct Processor {
    pub current: Option<TaskControlBlock>,
    pub idle_task_cx: TaskContext,
}

impl Processor {
    /// An empty processor: no current task, a zeroed idle context.
    pub fn new() -> (p: Processor)
        ensures
            p.current is None,
            p.idle_task_cx == (TaskContext { ra: 0, sp: 0 }),
    {
        Processor { current: None, idle_task_cx: TaskContext::zero_init() }
    }

    /// Moves the current task out, leaving the slot empty: used when the task
    /// is being suspended or removed for good.
    pub fn take_current(&mut self) -> (r: Option<TaskControlBlock>)
        ensures
            r == old(self).current,
            final(self).current is None,
            final(self).idle_task_cx == old(self).idle_task_cx,
    {
        self.current.take()
    }

    /// Borrows the current task for read or in-place use.
    pub fn current(&self) -> (r: Option<&TaskControlBlock>)
        ensures
            r is Some <==> self.current is Some,
            r is Some ==> *r.unwrap() == self.current.unwrap(),
    {
        self.current.as_ref()
    }

    /// Range-state query on the current task's address space.
    pub fn is_mapped(&self, start_va: VirtAddr, end_va: VirtAddr, mapped: bool) -> (r: bool)
        requires
            self.current is Some,
            self.current.unwrap().wf(),
            start_va.0 <= end_va.0 <= USER_SPACE_SIZE,
        ensures
            r == self.current.unwrap().space.range_state(
                start_va.spec_floor(),
                end_va.spec_ceil(),
                mapped,
            ),
    {
        match &self.current {
            Some(t) => t.is_mapped(start_va, end_va, mapped),
            None => vstd::pervasive::unreached(),
        }
    }

    /// Maps a fresh range in the current task's address space.
    pub fn mmap(&mut self, start_va: VirtAddr, end_va: VirtAddr, permission: MapPermission)
        requires
            old(self).current is Some,
            old(self).current.unwrap().wf(),
            start_va.0 <= end_va.0 <= USER_SPACE_SIZE,
            old(self).current.unwrap().space.range_state(
                start_va.spec_floor(),
                end_va.spec_ceil(),
                false,
            ),
        ensures
            final(self).current is Some,
            final(self).current.unwrap().wf(),
            final(self).current.unwrap().same_except_space(old(self).current.unwrap()),
            mmap_post(
                old(self).current.unwrap().space,
                final(self).current.unwrap().space,
                start_va.spec_floor(),
                end_va.spec_ceil(),
                permission.bits,
            ),
            final(self).idle_task_cx == old(self).idle_task_cx,
    {
        match &mut self.current {
            Some(t) => t.mmap(start_va, end_va, permission),
            None => {},
        }
    }

    /// Unmaps a fully mapped range from the current task's address space.
    pub fn unmap(&mut self, start_va: VirtAddr, end_va: VirtAddr)
        requires
            old(self).current is Some,
            old(self).current.unwrap().wf(),
            start_va.0 <= end_va.0 <= USER_SPACE_SIZE,
            old(self).current.unwrap().space.range_state(
                start_va.spec_floor(),
                end_va.spec_ceil(),
                true,
            ),
        ensures
            final(self).current is Some,
            final(self).current.unwrap().wf(),
            final(self).current.unwrap().same_except_space(old(self).current.unwrap()),
            unmap_post(
                old(self).current.unwrap().space,
                final(self).current.unwrap().space,
                start_va.spec_floor(),
                end_va.spec_ceil(),
            ),
            final(self).idle_task_cx == old(self).idle_task_cx,
    {
        match &mut self.current {
            Some(t) => t.unmap(start_va, end_va),
            None => {},
        }
    }

    /// Status of the current task.
    pub fn status(&self) -> (r: TaskStatus)
        requires
            self.current is Some,
        ensures
            r == self.current.unwrap().status,
    {
        match &self.current {
            Some(t) => t.status(),
            None => vstd::pervasive::unreached(),
        }
    }

    /// Records one syscall invocation in the current task's table.
    pub fn increase_syscall(&mut self, syscall_id: usize)
        requires
            old(self).current is Some,
            old(self).current.unwrap().wf(),
            syscall_id < crate::config::MAX_SYSCALL_NUM,
            old(self).current.unwrap().syscall_times@[syscall_id as int] < u32::MAX,
        ensures
            final(self).current is Some,
            final(self).current.unwrap().wf(),
            final(self).current.unwrap().syscall_times@ == old(self).current.unwrap().syscall_times@.update(
                syscall_id as int,
                (old(self).current.unwrap().syscall_times@[syscall_id as int] + 1) as u32,
            ),
            final(self).current.unwrap().pid == old(self).current.unwrap().pid,
            final(self).current.unwrap().status == old(self).current.unwrap().status,
            final(self).current.unwrap().task_cx == old(self).current.unwrap().task_cx,
            final(self).current.unwrap().trap_cx == old(self).current.unwrap().trap_cx,
            final(self).current.unwrap().space == old(self).current.unwrap().space,
            final(self).current.unwrap().running_us == old(self).current.unwrap().running_us,
            final(self).current.unwrap().user_token == old(self).current.unwrap().user_token,
            final(self).current.unwrap().exit_code == old(self).current.unwrap().exit_code,
            final(self).idle_task_cx == old(self).idle_task_cx,
    {
        match &mut self.current {
            Some(t) => t.increase_syscall(syscall_id),
            None => {},
        }
    }

    /// A copy of the current task's syscall-invocation table.
    pub fn current_syscall(&self) -> (r: Vec<u32>)
        requires
            self.current is Some,
        ensures
            r@ == self.current.unwrap().syscall_times@,
    {
        match &self.current {
            Some(t) => t.current_syscall(),
            None => vstd::pervasive::unreached(),
        }
    }

    /// Builds a child task of the current task from an executable image:
    /// a fresh Ready task under `pid` when the image is valid, nothing
    /// otherwise. The caller registers the child with the ready queue.
    pub fn spwan(&self, data: &[u8], pid: usize) -> (r: Option<TaskControlBlock>)
        requires
            self.current is Some,
        ensures
            r is Some <==> spec_image_valid(data@),
            r is Some ==> ({
                let c = r.unwrap();
                &&& c.wf()
                &&& c.pid == pid
                &&& c.status == TaskStatus::Ready
                &&& c.running_us == 0
                &&& forall|j: int|
                    0 <= j < crate::config::MAX_SYSCALL_NUM ==> #[trigger] c.syscall_times@[j] == 0
                &&& forall|v: int| 0 <= v < c.space.pages@.len() ==> !(#[trigger] c.space.page_mapped(v))
            }),
    {
        match &self.current {
            Some(_parent) => {
                if crate::task::image_valid(data) {
                    Some(TaskControlBlock::new(pid, 0, USER_SPACE_SIZE))
                } else {
                    None
                }
            },
            None => vstd::pervasive::unreached(),
        }
    }
}

/// The whole scheduling state of one core: its processor, the ready queue of
/// runnable tasks, the record of exited tasks, the task-id well, and the
/// monotonic clock the introspection syscalls read.
pub struct Kernel {
    pub processor: Processor,
    pub ready_queue: Vec<TaskControlBlock>,
    pub exited: Vec<TaskControlBlock>,
    pub next_pid: usize,
    pub clock_us: usize,
}

impl Kernel {
    /// A task occupies the current slot.
    pub open spec fn has_cur(self) -> bool {
        self.processor.current is Some
    }

    /// The task in the current slot.
    pub open spec fn cur(self) -> TaskControlBlock {
        self.processor.current.unwrap()
    }

    /// Well-formedness: every task anywhere in the kernel is well formed; a
    /// task holds the current slot exactly while it is Running; the record of
    /// exited tasks holds Exited tasks only — an exited task can never stand
    /// in the ready queue's place again; and the task-id well has not
    /// overflowed its range.
    pub open spec fn wf(self) -> bool {
        &&& (self.processor.current is Some ==> self.processor.current.unwrap().wf())
        &&& (self.processor.current is Some ==> self.processor.current.unwrap().status
            == TaskStatus::Running)
        &&& forall|i: int| 0 <= i < self.ready_queue@.len() ==> (#[trigger] self.ready_queue@[i]).wf()
        &&& forall|i: int| 0 <= i < self.exited@.len() ==> (#[trigger] self.exited@[i]).wf()
        &&& forall|i: int|
            0 <= i < self.exited@.len() ==> (#[trigger] self.exited@[i]).status
                == TaskStatus::Exited
        &&& self.next_pid <= PID_LIMIT
    }

    /// Everything agrees but the current slot's occupant.
    pub open spec fn same_except_cur(self, other: Kernel) -> bool {
        &&& self.ready_queue@ == other.ready_queue@
        &&& self.exited@ == other.exited@
        &&& self.next_pid == other.next_pid
        &&& self.clock_us == other.clock_us
        &&& self.processor.idle_task_cx == other.processor.idle_task_cx
    }

    /// A fresh kernel: empty processor, empty queues, the clock at zero.
    pub fn new() -> (k: Kernel)
        ensures
            k.wf(),
            !k.has_cur(),
            k.ready_queue@.len() == 0,
            k.exited@.len() == 0,
            k.next_pid == 1,
            k.clock_us == 0,
    {
        Kernel {
            processor: Processor::new(),
            ready_queue: Vec::new(),
            exited: Vec::new(),
            next_pid: 1,
            clock_us: 0,
        }
    }

    /// Registers a task with the ready queue: the entry point through which
    /// the external task-creation facility hands tasks to this core.
    pub fn add_task(&mut self, task: TaskControlBlock)
        requires
            old(self).wf(),
            task.wf(),
        ensures
            final(self).wf(),
            final(self).ready_queue@ == old(self).ready_queue@.push(task),
            final(self).processor == old(self).processor,
            final(self).exited@ == old(self).exited@,
            final(self).next_pid == old(self).next_pid,
            final(self).clock_us == old(self).clock_us,
    {
        self.ready_queue.push(task);
    }

    /// The front of the ready queue, removed; nothing when no task is ready.
    pub fn fetch_task(&mut self) -> (r: Option<TaskControlBlock>)
        requires
            old(self).wf(),
        ensures
            final(self).wf(),
            r is Some <==> old(self).ready_queue@.len() > 0,
            r is Some ==> r.unwrap() == old(self).ready_queue@[0] && final(self).ready_queue@ == old(
                self,
            ).ready_queue@.skip(1),
            r is None ==> *final(self) == *old(self),
            final(self).processor == old(self).processor,
            final(self).exited@ == old(self).exited@,
            final(self).next_pid == old(self).next_pid,
            final(self).clock_us == old(self).clock_us,
    {
        if self.ready_queue.len() == 0 {
            None
        } else {
            let t = self.ready_queue.remove(0);
            proof {
                assert(final(self).ready_queue@ =~= old(self).ready_queue@.skip(1));
            }
            Some(t)
        }
    }
}

/// One decision of the scheduling loop: fetch the front of the ready queue,
/// mark it Running and hand it the core. Returns whether a task was installed
/// — control is then the task's until it comes back through `schedule`.
/// With no runnable work it reports that instead of spinning.
pub fn run_tasks(k: &mut Kernel) -> (r: bool)
    requires
        old(k).wf(),
        !old(k).has_cur(),
    ensures
        final(k).wf(),
        r <==> old(k).ready_queue@.len() > 0,
        !r ==> *final(k) == *old(k),
        r ==> ({
            let head = old(k).ready_queue@[0];
            &&& final(k).has_cur()
            &&& final(k).cur().status == TaskStatus::Running
            &&& final(k).cur().pid == head.pid
            &&& final(k).cur().task_cx == head.task_cx
            &&& final(k).cur().trap_cx == head.trap_cx
            &&& final(k).cur().space == head.space
            &&& final(k).cur().syscall_times == head.syscall_times
            &&& final(k).cur().running_us == head.running_us
            &&& final(k).cur().user_token == head.user_token
            &&& final(k).cur().exit_code == head.exit_code
            &&& final(k).ready_queue@ == old(k).ready_queue@.skip(1)
            &&& final(k).exited@ == old(k).exited@
            &&& final(k).next_pid == old(k).next_pid
            &&& final(k).clock_us == old(k).clock_us
            &&& final(k).processor.idle_task_cx == old(k).processor.idle_task_cx
        }),
{
    let fetched = k.fetch_task();
    match fetched {
        Some(mut task) => {
            // The switch primitive would now save the idle flow and resume the
            // task's saved context; both records are opaque and pass through
            // unchanged. The processor owns the task for the whole time its
            // code runs.
            task.status = TaskStatus::Running;
            k.processor.current = Some(task);
            true
        },
        None => false,
    }
}

/// Moves the current task out of the processor, leaving the slot empty.
pub fn take_current_task(k: &mut Kernel) -> (r: Option<TaskControlBlock>)
    ensures
        r == old(k).processor.current,
        final(k).processor.current is None,
        final(k).same_except_cur(*old(k)),
{
    k.processor.take_current()
}

/// Borrows the current task.
pub fn current_task(k: &Kernel) -> (r: Option<&TaskControlBlock>)
    ensures
        r is Some <==> k.has_cur(),
        r is Some ==> *r.unwrap() == k.cur(),
{
    k.processor.current()
}

/// The return path to the scheduling loop, taken at the end of every suspend
/// or exit: the suspending flow's record is saved through
/// `switched_task_cx` and the idle flow resumes. The processor's ownership of
/// the task — and every other guard — must already be released, which the
/// precondition captures; the transfer itself leaves no trace in kernel
/// state, since the two context records are opaque to this model.
pub fn schedule(k: &mut Kernel, switched_task_cx: &mut TaskContext)
    requires
        old(k).processor.current is None,
    ensures
        *final(k) == *old(k),
        *final(switched_task_cx) == *old(switched_task_cx),
{
    let _idle_task_cx = &mut k.processor.idle_task_cx;
}

/// Builds a child of the current task from an executable image and enqueues
/// it Ready. Returns the child's task id; a malformed image or an exhausted
/// task-id well is reported as a negative result and changes nothing.
pub fn current_task_spwan(k: &mut Kernel, data: &[u8]) -> (r: isize)
    requires
        old(k).wf(),
        old(k).has_cur(),
    ensures
        final(k).wf(),
        r == -1 || r >= 0,
        (r == -1 <==> !spec_image_valid(data@) || old(k).next_pid == PID_LIMIT),
        r == -1 ==> *final(k) == *old(k),
        r >= 0 ==> ({
            let c = final(k).ready_queue@.last();
            &&& r == old(k).next_pid as isize
            &&& final(k).next_pid == old(k).next_pid + 1
            &&& final(k).ready_queue@ == old(k).ready_queue@.push(c)
            &&& c.wf()
            &&& c.pid == old(k).next_pid
            &&& c.status == TaskStatus::Ready
            &&& c.running_us == 0
            &&& forall|j: int|
                0 <= j < crate::config::MAX_SYSCALL_NUM ==> #[trigger] c.syscall_times@[j] == 0
            &&& forall|v: int| 0 <= v < c.space.pages@.len() ==> !(#[trigger] c.space.page_mapped(v))
            &&& final(k).processor == old(k).processor
            &&& final(k).exited@ == old(k).exited@
            &&& final(k).clock_us == old(k).clock_us
        }),
{
    if k.next_pid == PID_LIMIT {
        return -1;
    }
    let pid = k.next_pid;
    let child = k.processor.spwan(data, pid);
    match child {
        Some(c) => {
            k.ready_queue.push(c);
            k.next_pid = pid + 1;
            pid as isize
        },
        None => -1,
    }
}

/// Range-state query on the current task's address space.
pub fn current_is_mapped(k: &Kernel, start_va: VirtAddr, end_va: VirtAddr, mapped: bool) -> (r:
    bool)
    requires
        k.wf(),
        k.has_cur(),
        start_va.0 <= end_va.0 <= USER_SPACE_SIZE,
    ensures
        r == k.cur().space.range_state(start_va.spec_floor(), end_va.spec_ceil(), mapped),
{
    k.processor.is_mapped(start_va, end_va, mapped)
}

/// Maps a fresh range in the current task's address space.
pub fn current_mmap(k: &mut Kernel, start_va: VirtAddr, end_va: VirtAddr, permission: MapPermission)
    requires
        old(k).wf(),
        old(k).has_cur(),
        start_va.0 <= end_va.0 <= USER_SPACE_SIZE,
        old(k).cur().space.range_state(start_va.spec_floor(), end_va.spec_ceil(), false),
    ensures
        final(k).wf(),
        final(k).has_cur(),
        final(k).cur().same_except_space(old(k).cur()),
        mmap_post(
            old(k).cur().space,
            final(k).cur().space,
            start_va.spec_floor(),
            end_va.spec_ceil(),
            permission.bits,
        ),
        final(k).same_except_cur(*old(k)),
{
    k.processor.mmap(start_va, end_va, permission);
}

/// Unmaps a fully mapped range from the current task's address space.
pub fn current_unmap(k: &mut Kernel, start_va: VirtAddr, end_va: VirtAddr)
    requires
        old(k).wf(),
        old(k).has_cur(),
        start_va.0 <= end_va.0 <= USER_SPACE_SIZE,
        old(k).cur().space.range_state(start_va.spec_floor(), end_va.spec_ceil(), true),
    ensures
        final(k).wf(),
        final(k).has_cur(),
        final(k).cur().same_except_space(old(k).cur()),
        unmap_post(
            old(k).cur().space,
            final(k).cur().space,
            start_va.spec_floor(),
            end_va.spec_ceil(),
        ),
        final(k).same_except_cur(*old(k)),
{
    k.processor.unmap(start_va, end_va);
}

/// The current task's address-space token.
pub fn current_user_token(k: &Kernel) -> (r: usize)
    requires
        k.has_cur(),
    ensures
        r == k.cur().user_token,
{
    match k.processor.current() {
        Some(task) => task.get_user_token(),
        None => vstd::pervasive::unreached(),
    }
}

/// The current task's status.
pub fn current_task_status(k: &Kernel) -> (r: TaskStatus)
    requires
        k.has_cur(),
    ensures
        r == k.cur().status,
{
    k.processor.status()
}

/// Records one syscall invocation against the current task.
pub fn current_task_increase_syscall(k: &mut Kernel, syscall_id: usize)
    requires
        old(k).wf(),
        old(k).has_cur(),
        syscall_id < crate::config::MAX_SYSCALL_NUM,
        old(k).cur().syscall_times@[syscall_id as int] < u32::MAX,
    ensures
        final(k).wf(),
        final(k).has_cur(),
        final(k).cur().syscall_times@ == old(k).cur().syscall_times@.update(
            syscall_id as int,
            (old(k).cur().syscall_times@[syscall_id as int] + 1) as u32,
        ),
        final(k).cur().pid == old(k).cur().pid,
        final(k).cur().status == old(k).cur().status,
        final(k).cur().task_cx == old(k).cur().task_cx,
        final(k).cur().trap_cx == old(k).cur().trap_cx,
        final(k).cur().space == old(k).cur().space,
        final(k).cur().running_us == old(k).cur().running_us,
        final(k).cur().user_token == old(k).cur().user_token,
        final(k).cur().exit_code == old(k).cur().exit_code,
        final(k).same_except_cur(*old(k)),
{
    k.processor.increase_syscall(syscall_id);
}

/// A copy of the current task's syscall-invocation table.
pub fn current_task_syscall(k: &Kernel) -> (r: Vec<u32>)
    requires
        k.has_cur(),
    ensures
        r@ == k.cur().syscall_times@,
{
    k.processor.current_syscall()
}

/// Mutable access to the current task's saved trap frame.
pub fn current_trap_cx(k: &mut Kernel) -> (r: &mut TrapContext)
    requires
        old(k).has_cur(),
    ensures
        *r == old(k).cur().trap_cx,
        final(k).has_cur(),
        final(k).cur().trap_cx == *final(r),
        final(k).cur().pid == old(k).cur().pid,
        final(k).cur().status == old(k).cur().status,
        final(k).cur().task_cx == old(k).cur().task_cx,
        final(k).cur().space == old(k).cur().space,
        final(k).cur().syscall_times == old(k).cur().syscall_times,
        final(k).cur().running_us == old(k).cur().running_us,
        final(k).cur().user_token == old(k).cur().user_token,
        final(k).cur().exit_code == old(k).cur().exit_code,
        final(k).same_except_cur(*old(k)),
{
    match &mut k.processor.current {
        Some(task) => task.get_trap_cx(),
        None => vstd::pervasive::unreached(),
    }
}

/// Microseconds since boot, from the monotonic clock.
pub fn get_time_us(k: &Kernel) -> (r: usize)
    ensures
        r == k.clock_us,
{
    k.clock_us
}

/// Milliseconds since boot, from the monotonic clock.
pub fn get_time_ms(k: &Kernel) -> (r: usize)
    ensures
        r == k.clock_us / 1000,
{
    k.clock_us / 1000
}

/// Lets real time pass: the clock only ever moves forward, and time that
/// passes while a task holds the core is charged to that task's cumulative
/// running time.
pub fn advance_clock(k: &mut Kernel, delta_us: usize)
    requires
        old(k).clock_us + delta_us <= usize::MAX,
        old(k).has_cur() ==> old(k).cur().running_us + delta_us <= usize::MAX,
    ensures
        final(k).clock_us == old(k).clock_us + delta_us,
        final(k).has_cur() == old(k).has_cur(),
        old(k).has_cur() ==> ({
            &&& final(k).cur().running_us == old(k).cur().running_us + delta_us
            &&& final(k).cur().pid == old(k).cur().pid
            &&& final(k).cur().status == old(k).cur().status
            &&& final(k).cur().task_cx == old(k).cur().task_cx
            &&& final(k).cur().trap_cx == old(k).cur().trap_cx
            &&& final(k).cur().space == old(k).cur().space
            &&& final(k).cur().syscall_times == old(k).cur().syscall_times
            &&& final(k).cur().user_token == old(k).cur().user_token
            &&& final(k).cur().exit_code == old(k).cur().exit_code
        }),
        !old(k).has_cur() ==> final(k).processor == old(k).processor,
        final(k).processor.idle_task_cx == old(k).processor.idle_task_cx,
        final(k).ready_queue@ == old(k).ready_queue@,
        final(k).exited@ == old(k).exited@,
        final(k).next_pid == old(k).next_pid,
{
    k.clock_us = k.clock_us + delta_us;
    match &mut k.processor.current {
        Some(task) => {
            task.running_us = task.running_us + delta_us;
        },
        None => {},
    }
}

} // verus!
