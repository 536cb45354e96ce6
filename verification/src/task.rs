//! Per-task state: the task control block with its status, saved contexts,
//! address space and syscall-invocation counters, together with the tally law
//! for those counters.

use vstd::prelude::*;

use crate::config::{MAX_SYSCALL_NUM, USER_SPACE_SIZE};
use crate::mm::{AddressSpace, MapPermission, VirtAddr};

verus! {

/// Where a task stands in its life cycle. The set is open for extension
/// (a blocked state would join it); this core only ever produces these three.
#[derive(Clone, Copy, PartialEq, Eq, Structural, Debug)]
pub enum TaskStatus {
    Ready,
    Running,
    Exited,
}

/// Saved control-flow state of a suspended flow (stack pointer and return
/// point). The switch machinery passes these records through; nothing ever
/// inspects one.
#[derive(Clone, Copy, PartialEq, Eq, Structural, Debug)]
pub struct TaskContext {
    pub ra: usize,
    pub sp: usize,
}

impl TaskContext {
    /// The all-zero context a fresh task and a fresh processor start from.
    pub fn zero_init() -> (r: TaskContext)
        ensures
            r.ra == 0,
            r.sp == 0,
    {
        TaskContext { ra: 0, sp: 0 }
    }
}

/// The saved user-mode register frame captured on trap entry; mutable only
/// while the task is not executing in user mode.
#[derive(Clone, Copy, PartialEq, Eq, Structural, Debug)]
pub struct TrapContext {
    pub sepc: usize,
    pub sp: usize,
}

/// A valid executable image: it carries the executable-format magic bytes.
pub open spec fn spec_image_valid(data: Seq<u8>) -> bool {
    data.len() >= 4 && data[0] == 0x7f && data[1] == 0x45 && data[2] == 0x4c && data[3] == 0x46
}

/// Whether `data` starts with the executable-format magic bytes.
pub fn image_valid(data: &[u8]) -> (r: bool)
    ensures
        r == spec_image_valid(data@),
{
    data.len() >= 4 && data[0] == 0x7f && data[1] == 0x45 && data[2] == 0x4c && data[3] == 0x46
}

/// Task Control Block: the kernel's record of one task.
pub struct TaskControlBlock {
    pub pid: usize,
    pub status: TaskStatus,
    pub task_cx: TaskContext,
    pub trap_cx: TrapContext,
    pub space: AddressSpace,
    pub syscall_times: Vec<u32>,
    pub running_us: usize,
    pub user_token: usize,
    pub exit_code: i32,
}

impl TaskControlBlock {
    /// Well-formedness: a full counter table and a well-formed address space.
    pub open spec fn wf(self) -> bool {
        &&& self.syscall_times@.len() == MAX_SYSCALL_NUM
        &&& self.space.wf()
    }

    /// Everything but the address space agrees between the two blocks.
    pub open spec fn same_except_space(self, other: TaskControlBlock) -> bool {
        &&& self.pid == other.pid
        &&& self.status == other.status
        &&& self.task_cx == other.task_cx
        &&& self.trap_cx == other.trap_cx
        &&& self.syscall_times == other.syscall_times
        &&& self.running_us == other.running_us
        &&& self.user_token == other.user_token
        &&& self.exit_code == other.exit_code
    }

    /// A fresh Ready task: zeroed contexts, zeroed counters, an empty address
    /// space. The address-space token is the task id, which here names the
    /// task's page table.
    pub fn new(pid: usize, heap_base: usize, heap_limit: usize) -> (t: TaskControlBlock)
        requires
            heap_base <= heap_limit <= USER_SPACE_SIZE,
        ensures
            t.wf(),
            t.pid == pid,
            t.status == TaskStatus::Ready,
            t.user_token == pid,
            t.exit_code == 0,
            t.running_us == 0,
            forall|j: int| 0 <= j < MAX_SYSCALL_NUM ==> #[trigger] t.syscall_times@[j] == 0,
            forall|v: int| 0 <= v < t.space.pages@.len() ==> !(#[trigger] t.space.page_mapped(v)),
            t.space.heap_base == heap_base,
            t.space.brk == heap_base,
            t.space.heap_limit == heap_limit,
    {
        let mut syscall_times: Vec<u32> = Vec::new();
        let mut i: usize = 0;
        while i < MAX_SYSCALL_NUM
            invariant
                i <= MAX_SYSCALL_NUM,
                syscall_times@.len() == i,
                forall|j: int| 0 <= j < i ==> #[trigger] syscall_times@[j] == 0,
            decreases MAX_SYSCALL_NUM - i,
        {
            syscall_times.push(0);
            i += 1;
        }
        TaskControlBlock {
            pid,
            status: TaskStatus::Ready,
            task_cx: TaskContext::zero_init(),
            trap_cx: TrapContext { sepc: 0, sp: 0 },
            space: AddressSpace::new(heap_base, heap_limit),
            syscall_times,
            running_us: 0,
            user_token: pid,
            exit_code: 0,
        }
    }

    /// The task's current status.
    pub fn status(&self) -> (r: TaskStatus)
        ensures
            r == self.status,
    {
        self.status
    }

    /// The task's address-space token.
    pub fn get_user_token(&self) -> (r: usize)
        ensures
            r == self.user_token,
    {
        self.user_token
    }

    /// Records one invocation of syscall `syscall_id`: that slot of the table
    /// grows by one; no other state changes.
    pub fn increase_syscall(&mut self, syscall_id: usize)
        requires
            old(self).wf(),
            syscall_id < MAX_SYSCALL_NUM,
            old(self).syscall_times@[syscall_id as int] < u32::MAX,
        ensures
            final(self).wf(),
            final(self).syscall_times@ == old(self).syscall_times@.update(
                syscall_id as int,
                (old(self).syscall_times@[syscall_id as int] + 1) as u32,
            ),
            final(self).pid == old(self).pid,
            final(self).status == old(self).status,
            final(self).task_cx == old(self).task_cx,
            final(self).trap_cx == old(self).trap_cx,
            final(self).space == old(self).space,
            final(self).running_us == old(self).running_us,
            final(self).user_token == old(self).user_token,
            final(self).exit_code == old(self).exit_code,
    {
        let c = self.syscall_times[syscall_id];
        self.syscall_times[syscall_id] = c + 1;
    }

    /// A copy of the task's syscall-invocation table.
    pub fn current_syscall(&self) -> (r: Vec<u32>)
        ensures
            r@ == self.syscall_times@,
    {
        let mut r: Vec<u32> = Vec::new();
        let mut i: usize = 0;
        while i < self.syscall_times.len()
            invariant
                i <= self.syscall_times@.len(),
                r@.len() == i,
                forall|j: int| 0 <= j < i ==> #[trigger] r@[j] == self.syscall_times@[j],
            decreases self.syscall_times@.len() - i,
        {
            r.push(self.syscall_times[i]);
            i += 1;
        }
        proof {
            assert(r@ =~= self.syscall_times@);
        }
        r
    }

    /// Whether every page (`mapped` true) or no page (`mapped` false) of the
    /// range is mapped in the task's own address space.
    pub fn is_mapped(&self, start_va: VirtAddr, end_va: VirtAddr, mapped: bool) -> (r: bool)
        requires
            self.wf(),
            start_va.0 <= end_va.0 <= USER_SPACE_SIZE,
        ensures
            r == self.space.range_state(start_va.spec_floor(), end_va.spec_ceil(), mapped),
    {
        self.space.is_mapped(start_va, end_va, mapped)
    }

    /// Maps `[start_va, end_va)` fresh in the task's own address space.
    pub fn mmap(&mut self, start_va: VirtAddr, end_va: VirtAddr, permission: MapPermission)
        requires
            old(self).wf(),
            start_va.0 <= end_va.0 <= USER_SPACE_SIZE,
            old(self).space.range_state(start_va.spec_floor(), end_va.spec_ceil(), false),
        ensures
            final(self).wf(),
            final(self).same_except_space(*old(self)),
            crate::mm::mmap_post(
                old(self).space,
                final(self).space,
                start_va.spec_floor(),
                end_va.spec_ceil(),
                permission.bits,
            ),
    {
        self.space.mmap(start_va, end_va, permission);
    }

    /// Unmaps `[start_va, end_va)` from the task's own address space.
    pub fn unmap(&mut self, start_va: VirtAddr, end_va: VirtAddr)
        requires
            old(self).wf(),
            start_va.0 <= end_va.0 <= USER_SPACE_SIZE,
            old(self).space.range_state(start_va.spec_floor(), end_va.spec_ceil(), true),
        ensures
            final(self).wf(),
            final(self).same_except_space(*old(self)),
            crate::mm::unmap_post(
                old(self).space,
                final(self).space,
                start_va.spec_floor(),
                end_va.spec_ceil(),
            ),
    {
        self.space.unmap(start_va, end_va);
    }

    /// Mutable access to the saved trap frame, for installing the resumption
    /// state of a task that is not executing in user mode.
    pub fn get_trap_cx(&mut self) -> (r: &mut TrapContext)
        ensures
            *r == old(self).trap_cx,
            final(self).trap_cx == *final(r),
            final(self).pid == old(self).pid,
            final(self).status == old(self).status,
            final(self).task_cx == old(self).task_cx,
            final(self).space == old(self).space,
            final(self).syscall_times == old(self).syscall_times,
            final(self).running_us == old(self).running_us,
            final(self).user_token == old(self).user_token,
            final(self).exit_code == old(self).exit_code,
    {
        &mut self.trap_cx
    }
}

/// How often `id` occurs in a record of issued syscalls.
pub open spec fn occurrences(ids: Seq<usize>, id: usize) -> nat
    decreases ids.len(),
{
    if ids.len() == 0 {
        0
    } else {
        occurrences(ids.drop_last(), id) + if ids.last() == id {
            1nat
        } else {
            0nat
        }
    }
}

/// The counter table `base` after recording each syscall of `ids` in turn.
pub open spec fn counts_after(base: Seq<int>, ids: Seq<usize>) -> Seq<int>
    decreases ids.len(),
{
    if ids.len() == 0 {
        base
    } else {
        let b = counts_after(base, ids.drop_last());
        b.update(ids.last() as int, b[ids.last() as int] + 1)
    }
}

/// The counter table as unbounded integers.
pub open spec fn counts_as_ints(s: Seq<u32>) -> Seq<int> {
    s.map_values(|x: u32| x as int)
}

/// The tally law behind the per-task syscall counters: after any record of
/// issued syscalls, each slot of the table holds its starting value plus
/// exactly the number of times that syscall id was issued — so a slot of a
/// zeroed table reads k after k recordings of its id and 0 if its id was
/// never issued.
pub proof fn lemma_syscall_tally(base: Seq<int>, ids: Seq<usize>, id: usize)
    requires
        id < base.len(),
        forall|j: int| 0 <= j < ids.len() ==> #[trigger] ids[j] < base.len(),
    ensures
        counts_after(base, ids).len() == base.len(),
        counts_after(base, ids)[id as int] == base[id as int] + occurrences(ids, id),
    decreases ids.len(),
{
    if ids.len() > 0 {
        lemma_syscall_tally(base, ids.drop_last(), id);
        assert(ids[ids.len() - 1] < base.len());
        if ids.last() != id {
            lemma_syscall_tally(base, ids.drop_last(), ids.last());
        }
    }
}

/// One recorded invocation is one step of the tally law: the updated table of
/// `increase_syscall` reads as `counts_after` of the single-entry record.
pub proof fn lemma_increment_is_one_step(pre: Seq<u32>, post: Seq<u32>, id: usize)
    requires
        id < pre.len(),
        pre[id as int] < u32::MAX,
        post == pre.update(id as int, (pre[id as int] + 1) as u32),
    ensures
        counts_as_ints(post) == counts_after(counts_as_ints(pre), seq![id]),
{
    let base = counts_as_ints(pre);
    let lhs = counts_as_ints(post);
    let rhs = counts_after(base, seq![id]);
    assert(seq![id].drop_last() =~= Seq::<usize>::empty());
    assert(counts_after(base, seq![id].drop_last()) == base);
    assert(seq![id].last() == id);
    assert(rhs == base.update(id as int, base[id as int] + 1));
    assert(lhs.len() == rhs.len());
    assert forall|j: int| 0 <= j < rhs.len() implies lhs[j] == rhs[j] by {
        assert(lhs[j] == post[j] as int);
        if j == id {
            assert(post[j] == (pre[id as int] + 1) as u32);
        } else {
            assert(post[j] == pre[j]);
        }
    }
    assert(lhs =~= rhs);
}

} // verus!
