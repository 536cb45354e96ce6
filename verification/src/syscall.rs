//! Process-management syscalls: exit, yield, sbrk, spawn, mmap, munmap, and
//! the two introspection calls whose fixed-layout records are byte-copied
//! into user memory that may straddle page boundaries.

use vstd::prelude::*;

use crate::config::{MAX_SYSCALL_NUM, USER_SPACE_SIZE};
use crate::mm::{mmap_ok, mmap_post, munmap_ok, perm_from_port, port_valid, spec_perm_from_port,
    unmap_post, VirtAddr};
use crate::processor::{
    current_is_mapped, current_mmap, current_task_spwan, current_unmap, get_time_us, schedule,
    take_current_task, Kernel,
};
use crate::task::TaskStatus;

verus! {

/// Wall-clock reading: seconds and the microseconds within the second.
/// Copied raw into user memory, so the field order and widths are the wire
/// format: two little-endian machine words.
#[derive(Clone, Copy, PartialEq, Eq, Structural, Debug)]
pub struct TimeVal {
    pub sec: usize,
    pub usec: usize,
}

/// Task information
pub struct TaskInfo {
    /// Task status in it's life cycle
    pub status: TaskStatus,
    /// The numbers of syscall called by task
    pub syscall_times: Vec<u32>,
    /// Total running time of task
    pub time: usize,
}

/// Byte width of the encoded `TimeVal` record.
pub const TIME_VAL_BYTES: usize = 16;

/// Byte width of the encoded `TaskInfo` record: one tag byte, the counter
/// table, one machine word of milliseconds.
pub const TASK_INFO_BYTES: usize = 1 + 4 * MAX_SYSCALL_NUM + 8;

/// Eight little-endian bytes of a 64-bit value.
pub open spec fn u64_le_bytes(v: u64) -> Seq<u8> {
    seq![
        (v & 0xff) as u8,
        ((v >> 8) & 0xff) as u8,
        ((v >> 16) & 0xff) as u8,
        ((v >> 24) & 0xff) as u8,
        ((v >> 32) & 0xff) as u8,
        ((v >> 40) & 0xff) as u8,
        ((v >> 48) & 0xff) as u8,
        ((v >> 56) & 0xff) as u8,
    ]
}

/// A machine word as eight little-endian bytes.
pub open spec fn usize_le_bytes(v: usize) -> Seq<u8> {
    u64_le_bytes(v as u64)
}

/// A counter as four little-endian bytes.
pub open spec fn u32_le_bytes(v: u32) -> Seq<u8> {
    seq![(v & 0xff) as u8, ((v >> 8) & 0xff) as u8, ((v >> 16) & 0xff) as u8, ((v >> 24)
        & 0xff) as u8]
}

/// The byte layout of a `TimeVal` record: seconds, then microseconds.
pub open spec fn time_val_bytes(sec: usize, usec: usize) -> Seq<u8> {
    usize_le_bytes(sec) + usize_le_bytes(usec)
}

/// The tag byte of a task status.
pub open spec fn status_code(st: TaskStatus) -> u8 {
    match st {
        TaskStatus::Ready => 0,
        TaskStatus::Running => 1,
        TaskStatus::Exited => 2,
    }
}

/// The counter table as bytes: each entry in turn, little-endian.
pub open spec fn counts_bytes(counts: Seq<u32>) -> Seq<u8>
    decreases counts.len(),
{
    if counts.len() == 0 {
        Seq::empty()
    } else {
        counts_bytes(counts.drop_last()) + u32_le_bytes(counts.last())
    }
}

/// The byte layout of a `TaskInfo` record: the status tag, the counter table,
/// the cumulative running time in milliseconds.
pub open spec fn task_info_bytes(status: TaskStatus, counts: Seq<u32>, time: usize) -> Seq<u8> {
    seq![status_code(status)] + counts_bytes(counts) + usize_le_bytes(time)
}

/// The counter table encodes to four bytes per entry.
pub proof fn lemma_counts_bytes_len(counts: Seq<u32>)
    ensures
        counts_bytes(counts).len() == 4 * counts.len(),
    decreases counts.len(),
{
    if counts.len() > 0 {
        lemma_counts_bytes_len(counts.drop_last());
    }
}

/// Appends a machine word to the buffer, little-endian.
fn push_usize_le(out: &mut Vec<u8>, v: usize)
    ensures
        final(out)@ == old(out)@ + usize_le_bytes(v),
{
    let x = v as u64;
    out.push((x & 0xff) as u8);
    out.push(((x >> 8) & 0xff) as u8);
    out.push(((x >> 16) & 0xff) as u8);
    out.push(((x >> 24) & 0xff) as u8);
    out.push(((x >> 32) & 0xff) as u8);
    out.push(((x >> 40) & 0xff) as u8);
    out.push(((x >> 48) & 0xff) as u8);
    out.push(((x >> 56) & 0xff) as u8);
    proof {
        assert(out@ =~= old(out)@ + usize_le_bytes(v));
    }
}

/// Appends a counter to the buffer, little-endian.
fn push_u32_le(out: &mut Vec<u8>, v: u32)
    ensures
        final(out)@ == old(out)@ + u32_le_bytes(v),
{
    out.push((v & 0xff) as u8);
    out.push(((v >> 8) & 0xff) as u8);
    out.push(((v >> 16) & 0xff) as u8);
    out.push(((v >> 24) & 0xff) as u8);
    proof {
        assert(out@ =~= old(out)@ + u32_le_bytes(v));
    }
}

/// The exact bytes a `TimeVal` record is copied out as.
pub fn encode_time_val(tv: &TimeVal) -> (r: Vec<u8>)
    ensures
        r@ == time_val_bytes(tv.sec, tv.usec),
        r@.len() == TIME_VAL_BYTES,
{
    let mut out: Vec<u8> = Vec::new();
    push_usize_le(&mut out, tv.sec);
    push_usize_le(&mut out, tv.usec);
    proof {
        assert(out@ =~= time_val_bytes(tv.sec, tv.usec));
    }
    out
}

/// The exact bytes a `TaskInfo` record is copied out as.
pub fn encode_task_info(ti: &TaskInfo) -> (r: Vec<u8>)
    requires
        ti.syscall_times@.len() == MAX_SYSCALL_NUM,
    ensures
        r@ == task_info_bytes(ti.status, ti.syscall_times@, ti.time),
        r@.len() == TASK_INFO_BYTES,
{
    let mut out: Vec<u8> = Vec::new();
    let tag: u8 = match ti.status {
        TaskStatus::Ready => 0,
        TaskStatus::Running => 1,
        TaskStatus::Exited => 2,
    };
    out.push(tag);
    let mut i: usize = 0;
    proof {
        assert(ti.syscall_times@.take(0) =~= Seq::<u32>::empty());
        assert(out@ =~= seq![status_code(ti.status)] + counts_bytes(ti.syscall_times@.take(0)));
    }
    while i < ti.syscall_times.len()
        invariant
            i <= ti.syscall_times@.len(),
            out@ == seq![status_code(ti.status)] + counts_bytes(ti.syscall_times@.take(i as int)),
        decreases ti.syscall_times@.len() - i,
    {
        push_u32_le(&mut out, ti.syscall_times[i]);
        proof {
            let s = ti.syscall_times@;
            assert(s.take(i + 1).drop_last() =~= s.take(i as int));
            assert(s.take(i + 1).last() == s[i as int]);
            assert(out@ =~= seq![status_code(ti.status)] + counts_bytes(s.take(i + 1)));
        }
        i += 1;
    }
    proof {
        assert(ti.syscall_times@.take(ti.syscall_times@.len() as int) =~= ti.syscall_times@);
    }
    push_usize_le(&mut out, ti.time);
    proof {
        lemma_counts_bytes_len(ti.syscall_times@);
        assert(out@ =~= task_info_bytes(ti.status, ti.syscall_times@, ti.time));
    }
    out
}

/// Wall-clock pairs never run backwards: as the microsecond count grows, the
/// {seconds, microseconds} pair `sys_get_time` derives from it grows at most
/// — never shrinks — in lexicographic order, and the microsecond field always
/// lies below one million.
pub proof fn lemma_time_val_monotonic(us1: int, us2: int)
    requires
        0 <= us1 <= us2,
    ensures
        0 <= us1 % 1000000 < 1000000,
        0 <= us2 % 1000000 < 1000000,
        us1 / 1000000 <= us2 / 1000000,
        us1 / 1000000 == us2 / 1000000 ==> us1 % 1000000 <= us2 % 1000000,
{
    vstd::arithmetic::div_mod::lemma_mod_bound(us1, 1000000);
    vstd::arithmetic::div_mod::lemma_mod_bound(us2, 1000000);
    vstd::arithmetic::div_mod::lemma_div_is_ordered(us1, us2, 1000000);
    vstd::arithmetic::div_mod::lemma_fundamental_div_mod(us1, 1000000);
    vstd::arithmetic::div_mod::lemma_fundamental_div_mod(us2, 1000000);
}

/// Task exits with `exit_code`: it leaves the processor for good, lands in
/// the record of exited tasks, and the idle flow resumes. On real hardware
/// the call never returns to the task; here that transfer is the return into
/// the scheduling loop, and the exited task is never offered to the ready
/// queue again.
pub fn sys_exit(k: &mut Kernel, exit_code: i32)
    requires
        old(k).wf(),
        old(k).has_cur(),
    ensures
        final(k).wf(),
        !final(k).has_cur(),
        final(k).exited@.len() == old(k).exited@.len() + 1,
        final(k).exited@ == old(k).exited@.push(final(k).exited@.last()),
        ({
            let t = old(k).cur();
            let e = final(k).exited@.last();
            &&& e.status == TaskStatus::Exited
            &&& e.exit_code == exit_code
            &&& e.pid == t.pid
            &&& e.task_cx == t.task_cx
            &&& e.trap_cx == t.trap_cx
            &&& e.space == t.space
            &&& e.syscall_times == t.syscall_times
            &&& e.running_us == t.running_us
            &&& e.user_token == t.user_token
        }),
        final(k).ready_queue@ == old(k).ready_queue@,
        final(k).next_pid == old(k).next_pid,
        final(k).clock_us == old(k).clock_us,
        final(k).processor.idle_task_cx == old(k).processor.idle_task_cx,
{
    let taken = take_current_task(k);
    match taken {
        Some(mut task) => {
            task.status = TaskStatus::Exited;
            task.exit_code = exit_code;
            schedule(k, &mut task.task_cx);
            k.exited.push(task);
        },
        None => {},
    }
}

/// Task voluntarily gives the core up: it re-enters the ready queue as Ready
/// and the idle flow resumes; the call reports success once the task is later
/// rescheduled.
pub fn sys_yield(k: &mut Kernel) -> (r: isize)
    requires
        old(k).wf(),
        old(k).has_cur(),
    ensures
        final(k).wf(),
        r == 0,
        !final(k).has_cur(),
        final(k).ready_queue@.len() == old(k).ready_queue@.len() + 1,
        final(k).ready_queue@ == old(k).ready_queue@.push(final(k).ready_queue@.last()),
        ({
            let t = old(k).cur();
            let e = final(k).ready_queue@.last();
            &&& e.status == TaskStatus::Ready
            &&& e.exit_code == t.exit_code
            &&& e.pid == t.pid
            &&& e.task_cx == t.task_cx
            &&& e.trap_cx == t.trap_cx
            &&& e.space == t.space
            &&& e.syscall_times == t.syscall_times
            &&& e.running_us == t.running_us
            &&& e.user_token == t.user_token
        }),
        final(k).exited@ == old(k).exited@,
        final(k).next_pid == old(k).next_pid,
        final(k).clock_us == old(k).clock_us,
        final(k).processor.idle_task_cx == old(k).processor.idle_task_cx,
{
    let taken = take_current_task(k);
    match taken {
        Some(mut task) => {
            task.status = TaskStatus::Ready;
            schedule(k, &mut task.task_cx);
            k.ready_queue.push(task);
        },
        None => {},
    }
    0
}

/// Installs a fresh mapping over `[start, start + len)` with the permissions
/// `port` asks for. Succeeds — returning 0 — exactly when `start` is
/// page-aligned, `port` is a well-formed request, the range lies within the
/// user window, and no page of it is already mapped; any failure returns −1
/// and changes nothing. An empty range is a no-op success.
pub fn sys_mmap(k: &mut Kernel, start: usize, len: usize, port: usize) -> (r: isize)
    requires
        old(k).wf(),
        old(k).has_cur(),
    ensures
        final(k).wf(),
        r == 0 || r == -1,
        (r == 0 <==> mmap_ok(old(k).cur().space, start as int, len as int, port)),
        r == -1 ==> *final(k) == *old(k),
        r == 0 ==> ({
            &&& final(k).has_cur()
            &&& final(k).cur().same_except_space(old(k).cur())
            &&& mmap_post(
                old(k).cur().space,
                final(k).cur().space,
                VirtAddr(start).spec_floor(),
                VirtAddr((start + len) as usize).spec_ceil(),
                spec_perm_from_port(port),
            )
            &&& final(k).same_except_cur(*old(k))
        }),
{
    let start_va = VirtAddr(start);
    if !start_va.aligned() {
        return -1;
    }
    if !port_valid(port) {
        return -1;
    }
    if start > USER_SPACE_SIZE || len > USER_SPACE_SIZE - start {
        return -1;
    }
    let end_va = VirtAddr(start + len);
    let permission = perm_from_port(port);
    if !current_is_mapped(k, start_va, end_va, false) {
        return -1;
    }
    current_mmap(k, start_va, end_va, permission);
    0
}

/// Removes the mapping of every page of `[start, start + len)`. Succeeds —
/// returning 0 — exactly when `start` is page-aligned, the range lies within
/// the user window, and every page of it is currently mapped; any failure
/// returns −1 and leaves every mapping, previously mapped pages included,
/// as it was.
pub fn sys_munmap(k: &mut Kernel, start: usize, len: usize) -> (r: isize)
    requires
        old(k).wf(),
        old(k).has_cur(),
    ensures
        final(k).wf(),
        r == 0 || r == -1,
        (r == 0 <==> munmap_ok(old(k).cur().space, start as int, len as int)),
        r == -1 ==> *final(k) == *old(k),
        r == 0 ==> ({
            &&& final(k).has_cur()
            &&& final(k).cur().same_except_space(old(k).cur())
            &&& unmap_post(
                old(k).cur().space,
                final(k).cur().space,
                VirtAddr(start).spec_floor(),
                VirtAddr((start + len) as usize).spec_ceil(),
            )
            &&& final(k).same_except_cur(*old(k))
        }),
{
    let start_va = VirtAddr(start);
    if !start_va.aligned() {
        return -1;
    }
    if start > USER_SPACE_SIZE || len > USER_SPACE_SIZE - start {
        return -1;
    }
    let end_va = VirtAddr(start + len);
    if !current_is_mapped(k, start_va, end_va, true) {
        return -1;
    }
    current_unmap(k, start_va, end_va);
    0
}

/// Moves the current task's data-segment break by `size` bytes. Returns the
/// previous break exactly when the new break stays within the segment's
/// bounds; −1, with the break unchanged, otherwise. A zero `size` reads the
/// break without moving it.
pub fn sys_sbrk(k: &mut Kernel, size: i32) -> (r: isize)
    requires
        old(k).wf(),
        old(k).has_cur(),
    ensures
        final(k).wf(),
        final(k).has_cur(),
        final(k).cur().same_except_space(old(k).cur()),
        final(k).cur().space.pages@ == old(k).cur().space.pages@,
        final(k).cur().space.heap_base == old(k).cur().space.heap_base,
        final(k).cur().space.heap_limit == old(k).cur().space.heap_limit,
        final(k).same_except_cur(*old(k)),
        ({
            let s = old(k).cur().space;
            let new = s.brk + size as int;
            if s.heap_base <= new <= s.heap_limit {
                r == s.brk as isize && final(k).cur().space.brk == new
            } else {
                r == -1 && final(k).cur().space.brk == s.brk
            }
        }),
{
    match &mut k.processor.current {
        Some(task) => {
            let prev = task.space.change_brk(size);
            match prev {
                Some(old_brk) => old_brk as isize,
                None => -1,
            }
        },
        None => vstd::pervasive::unreached(),
    }
}

/// Creates a new task from a raw executable image as a child of the current
/// task and enqueues it Ready. Returns the new task's id; a malformed image
/// or an exhausted task-id well is a failure, reported as −1 with nothing
/// changed.
pub fn sys_spawn(k: &mut Kernel, image: &[u8]) -> (r: isize)
    requires
        old(k).wf(),
        old(k).has_cur(),
    ensures
        final(k).wf(),
        r == -1 || r >= 0,
        (r == -1 <==> !crate::task::spec_image_valid(image@) || old(k).next_pid
            == crate::config::PID_LIMIT),
        r == -1 ==> *final(k) == *old(k),
        r >= 0 ==> ({
            let c = final(k).ready_queue@.last();
            &&& r == old(k).next_pid as isize
            &&& final(k).next_pid == old(k).next_pid + 1
            &&& final(k).ready_queue@ == old(k).ready_queue@.push(c)
            &&& c.pid == old(k).next_pid
            &&& c.status == TaskStatus::Ready
            &&& forall|j: int|
                0 <= j < MAX_SYSCALL_NUM ==> #[trigger] c.syscall_times@[j] == 0
            &&& final(k).processor == old(k).processor
            &&& final(k).exited@ == old(k).exited@
            &&& final(k).clock_us == old(k).clock_us
        }),
{
    current_task_spwan(k, image)
}

/// Fills a `TimeVal` record from the monotonic clock and copies it, byte for
/// byte, into user memory at `ts` through the current task's address space —
/// across page boundaries where the destination straddles them. Returns 0
/// exactly when the whole destination lies on mapped pages inside the user
/// window; −1, with nothing written, otherwise. The reserved zone argument is
/// ignored.
pub fn sys_get_time(k: &mut Kernel, ts: usize, _tz: usize) -> (r: isize)
    requires
        old(k).wf(),
        old(k).has_cur(),
    ensures
        final(k).wf(),
        r == 0 || r == -1,
        (r == 0 <==> ts + TIME_VAL_BYTES <= USER_SPACE_SIZE && old(k).cur().space.range_mapped(
            ts as int,
            TIME_VAL_BYTES as int,
        )),
        r == -1 ==> *final(k) == *old(k),
        r == 0 ==> ({
            let us = old(k).clock_us;
            let bytes = time_val_bytes((us / 1000000) as usize, (us % 1000000) as usize);
            &&& final(k).has_cur()
            &&& final(k).cur().same_except_space(old(k).cur())
            &&& final(k).cur().space.same_layout(old(k).cur().space)
            &&& forall|j: int|
                0 <= j < TIME_VAL_BYTES ==> #[trigger] final(k).cur().space.byte_at(ts + j)
                    == bytes[j]
            &&& forall|a: int|
                0 <= a < USER_SPACE_SIZE && old(k).cur().space.addr_mapped(a) && !(ts <= a < ts
                    + TIME_VAL_BYTES) ==> #[trigger] final(k).cur().space.byte_at(a) == old(
                    k,
                ).cur().space.byte_at(a)
            &&& final(k).same_except_cur(*old(k))
        }),
{
    let us = get_time_us(k);
    let time_val = TimeVal { sec: us / 1000000, usec: us % 1000000 };
    let buf = encode_time_val(&time_val);
    if ts > USER_SPACE_SIZE - TIME_VAL_BYTES {
        return -1;
    }
    match &mut k.processor.current {
        Some(task) => {
            if !task.space.check_range_mapped(ts, TIME_VAL_BYTES) {
                return -1;
            }
            task.space.write_bytes(ts, &buf);
            0
        },
        None => vstd::pervasive::unreached(),
    }
}

/// Fills a `TaskInfo` record — current status, the task's syscall-invocation
/// table, and the task's cumulative running time in milliseconds — and copies
/// it, byte for byte, into user memory at `ti` through the current task's
/// address space. Returns 0 exactly when the whole destination lies on mapped
/// pages inside the user window; −1, with nothing written, otherwise.
pub fn sys_task_info(k: &mut Kernel, ti: usize) -> (r: isize)
    requires
        old(k).wf(),
        old(k).has_cur(),
    ensures
        final(k).wf(),
        r == 0 || r == -1,
        (r == 0 <==> ti + TASK_INFO_BYTES <= USER_SPACE_SIZE && old(k).cur().space.range_mapped(
            ti as int,
            TASK_INFO_BYTES as int,
        )),
        r == -1 ==> *final(k) == *old(k),
        r == 0 ==> ({
            let bytes = task_info_bytes(
                old(k).cur().status,
                old(k).cur().syscall_times@,
                (old(k).cur().running_us / 1000) as usize,
            );
            &&& final(k).has_cur()
            &&& final(k).cur().same_except_space(old(k).cur())
            &&& final(k).cur().space.same_layout(old(k).cur().space)
            &&& forall|j: int|
                0 <= j < TASK_INFO_BYTES ==> #[trigger] final(k).cur().space.byte_at(ti + j)
                    == bytes[j]
            &&& forall|a: int|
                0 <= a < USER_SPACE_SIZE && old(k).cur().space.addr_mapped(a) && !(ti <= a < ti
                    + TASK_INFO_BYTES) ==> #[trigger] final(k).cur().space.byte_at(a) == old(
                    k,
                ).cur().space.byte_at(a)
            &&& final(k).same_except_cur(*old(k))
        }),
{
    if ti > USER_SPACE_SIZE - TASK_INFO_BYTES {
        return -1;
    }
    match &mut k.processor.current {
        Some(task) => {
            let info = TaskInfo {
                status: task.status(),
                syscall_times: task.current_syscall(),
                time: task.running_us / 1000,
            };
            let buf = encode_task_info(&info);
            if !task.space.check_range_mapped(ti, TASK_INFO_BYTES) {
                return -1;
            }
            task.space.write_bytes(ti, &buf);
            0
        },
        None => vstd::pervasive::unreached(),
    }
}

/// The byte contents of a sequence of buffers.
pub open spec fn views_of(bufs: Seq<Vec<u8>>) -> Seq<Seq<u8>> {
    bufs.map_values(|b: Vec<u8>| b@)
}

/// Total number of bytes a sequence of buffers holds.
pub open spec fn lens_sum(bufs: Seq<Seq<u8>>) -> int
    decreases bufs.len(),
{
    if bufs.len() == 0 {
        0
    } else {
        lens_sum(bufs.drop_last()) + bufs.last().len()
    }
}

/// The buffers' bytes, joined in order.
pub open spec fn concat_of(bufs: Seq<Seq<u8>>) -> Seq<u8>
    decreases bufs.len(),
{
    if bufs.len() == 0 {
        Seq::empty()
    } else {
        concat_of(bufs.drop_last()) + bufs.last()
    }
}

/// A prefix of the buffers holds at most as many bytes as all of them.
pub proof fn lemma_lens_sum_take_le(bufs: Seq<Seq<u8>>, i: int)
    requires
        0 <= i <= bufs.len(),
    ensures
        lens_sum(bufs.take(i)) <= lens_sum(bufs),
    decreases bufs.len() - i,
{
    if i < bufs.len() {
        assert(bufs.take(i + 1).drop_last() =~= bufs.take(i));
        assert(bufs.take(i + 1).last() == bufs[i]);
        lemma_lens_sum_take_le(bufs, i + 1);
    } else {
        assert(bufs.take(i) =~= bufs);
    }
}

/// The cross-page record copier, over an injected split: copies the record
/// `src` into the byte buffers in order, advancing a cursor over the source
/// by each buffer's length — so however the destination was split into
/// physically-backed slices, their concatenation afterwards is exactly the
/// record, byte for byte.
pub fn copy_record_into_buffers(buffers: &mut Vec<Vec<u8>>, src: &Vec<u8>)
    requires
        lens_sum(views_of(old(buffers)@)) == src@.len(),
    ensures
        final(buffers)@.len() == old(buffers)@.len(),
        forall|t: int|
            0 <= t < old(buffers)@.len() ==> (#[trigger] final(buffers)@[t])@.len() == old(
                buffers,
            )@[t]@.len(),
        concat_of(views_of(final(buffers)@)) == src@,
{
    proof {
        assert(src.len() <= usize::MAX);
    }
    let mut cursor: usize = 0;
    let mut i: usize = 0;
    while i < buffers.len()
        invariant
            i <= buffers@.len(),
            buffers@.len() == old(buffers)@.len(),
            src@.len() <= usize::MAX,
            lens_sum(views_of(old(buffers)@)) == src@.len(),
            forall|t: int| i <= t < buffers@.len() ==> #[trigger] buffers@[t] == old(buffers)@[t],
            forall|t: int|
                0 <= t < i ==> (#[trigger] buffers@[t])@.len() == old(buffers)@[t]@.len(),
            cursor == lens_sum(views_of(old(buffers)@).take(i as int)),
            concat_of(views_of(buffers@).take(i as int)) == src@.take(cursor as int),
        decreases buffers@.len() - i,
    {
        let ghost at_start = buffers@;
        let ghost old_views = views_of(old(buffers)@);
        let blen = buffers[i].len();
        proof {
            assert(old_views.take(i + 1).drop_last() =~= old_views.take(i as int));
            assert(old_views.take(i + 1).last() == old(buffers)@[i as int]@);
            lemma_lens_sum_take_le(old_views, i + 1);
            assert(cursor + blen <= src@.len());
        }
        let mut j: usize = 0;
        while j < blen
            invariant
                j <= blen,
                i < buffers@.len(),
                src@.len() <= usize::MAX,
                cursor + blen <= src@.len(),
                buffers@.len() == at_start.len(),
                buffers@[i as int]@.len() == blen,
                forall|t: int|
                    0 <= t < buffers@.len() && t != i ==> #[trigger] buffers@[t] == at_start[t],
                forall|t: int|
                    0 <= t < j ==> #[trigger] buffers@[i as int]@[t] == src@[cursor + t],
            decreases blen - j,
        {
            buffers[i][j] = src[cursor + j];
            j += 1;
        }
        proof {
            assert(buffers@[i as int]@ =~= src@.subrange(
                cursor as int,
                cursor as int + blen as int,
            ));
            assert(views_of(buffers@).take(i as int) =~= views_of(at_start).take(i as int));
            assert(views_of(buffers@).take(i + 1).drop_last() =~= views_of(buffers@).take(i as int));
            assert(views_of(buffers@).take(i + 1).last() == buffers@[i as int]@);
            assert(concat_of(views_of(buffers@).take(i + 1)) == src@.take(cursor as int)
                + src@.subrange(cursor as int, cursor as int + blen as int));
            assert(src@.take(cursor as int) + src@.subrange(
                cursor as int,
                cursor as int + blen as int,
            ) =~= src@.take(cursor as int + blen as int));
        }
        cursor += blen;
        i += 1;
    }
    proof {
        assert(views_of(old(buffers)@).take(i as int) =~= views_of(old(buffers)@));
        assert(views_of(buffers@).take(i as int) =~= views_of(buffers@));
        assert(src@.take(cursor as int) =~= src@);
    }
}

} // verus!
