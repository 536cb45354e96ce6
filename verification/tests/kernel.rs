use os_core::config::{MAX_SYSCALL_NUM, PAGE_SIZE, SYSCALL_GET_TIME, SYSCALL_YIELD, USER_SPACE_SIZE};
use os_core::mm::{PERM_R, PERM_U, PERM_W, PERM_X};
use os_core::processor::{
    advance_clock, current_task_increase_syscall, current_task_spwan, get_time_ms, run_tasks,
    Kernel,
};
use os_core::syscall::{
    copy_record_into_buffers, encode_time_val, sys_exit, sys_get_time, sys_mmap, sys_munmap,
    sys_sbrk, sys_task_info, sys_yield, TimeVal, TASK_INFO_BYTES, TIME_VAL_BYTES,
};
use os_core::task::{TaskControlBlock, TaskStatus};

fn kernel_with_task(heap_base: usize, heap_limit: usize) -> Kernel {
    let mut k = Kernel::new();
    let t = TaskControlBlock::new(1, heap_base, heap_limit);
    k.add_task(t);
    assert!(run_tasks(&mut k));
    k
}

fn read_back(k: &Kernel, va: usize, len: usize) -> Option<Vec<u8>> {
    k.processor.current.as_ref().unwrap().space.read_bytes(va, len)
}

#[test]
fn mmap_unaligned_start_rejected_and_nothing_mapped() {
    let mut k = kernel_with_task(0, 0);
    assert_eq!(sys_mmap(&mut k, 17, 100, 0x3), -1);
    assert_eq!(sys_mmap(&mut k, PAGE_SIZE + 1, PAGE_SIZE, 0x1), -1);
    for v in 0..4 {
        assert!(k.processor.current.as_ref().unwrap().space.pages[v].is_none());
    }
}

#[test]
fn munmap_unaligned_start_rejected() {
    let mut k = kernel_with_task(0, 0);
    assert_eq!(sys_mmap(&mut k, 0, PAGE_SIZE, 0x3), 0);
    assert_eq!(sys_munmap(&mut k, 1, PAGE_SIZE), -1);
    // the mapping survived the rejected request
    assert!(k.processor.current.as_ref().unwrap().space.pages[0].is_some());
}

#[test]
fn mmap_invalid_port_rejected() {
    let mut k = kernel_with_task(0, 0);
    assert_eq!(sys_mmap(&mut k, 0, PAGE_SIZE, 0x0), -1); // no permission asked
    assert_eq!(sys_mmap(&mut k, 0, PAGE_SIZE, 0x4), -1); // bit 2 is outside {0,1,3}
    assert_eq!(sys_mmap(&mut k, 0, PAGE_SIZE, 0x10), -1); // bit 4 is outside {0,1,3}
    assert_eq!(sys_mmap(&mut k, 0, PAGE_SIZE, 0x7), -1); // bit 2 beside legal bits
    assert_eq!(sys_mmap(&mut k, 0, PAGE_SIZE, 0x14), -1); // bits outside, none inside
    assert!(k.processor.current.as_ref().unwrap().space.pages[0].is_none());
}

#[test]
fn mmap_twice_rejected_until_unmapped() {
    let mut k = kernel_with_task(0, 0);
    assert_eq!(sys_mmap(&mut k, PAGE_SIZE, 2 * PAGE_SIZE, 0x3), 0);
    assert_eq!(sys_mmap(&mut k, PAGE_SIZE, 2 * PAGE_SIZE, 0x3), -1);
    assert_eq!(sys_munmap(&mut k, PAGE_SIZE, 2 * PAGE_SIZE), 0);
    assert_eq!(sys_mmap(&mut k, PAGE_SIZE, 2 * PAGE_SIZE, 0x3), 0);
}

#[test]
fn munmap_partially_mapped_range_rejected_and_mapping_kept() {
    let mut k = kernel_with_task(0, 0);
    assert_eq!(sys_mmap(&mut k, 0, PAGE_SIZE, 0x3), 0);
    // second page of the range was never mapped
    assert_eq!(sys_munmap(&mut k, 0, 2 * PAGE_SIZE), -1);
    // the first page is still mapped and still readable
    assert!(k.processor.current.as_ref().unwrap().space.pages[0].is_some());
    assert!(read_back(&k, 0, PAGE_SIZE).is_some());
    // a range that was never mapped at all is rejected too
    assert_eq!(sys_munmap(&mut k, 8 * PAGE_SIZE, PAGE_SIZE), -1);
}

#[test]
fn mmap_len_zero_is_noop_success() {
    let mut k = kernel_with_task(0, 0);
    assert_eq!(sys_mmap(&mut k, 0, 0, 0x3), 0);
    assert!(k.processor.current.as_ref().unwrap().space.pages[0].is_none());
    assert_eq!(sys_mmap(&mut k, 0, 0, 0x3), 0);
    assert_eq!(sys_mmap(&mut k, 0, 0, 0x8), 0);
}

#[test]
fn mmap_out_of_window_rejected() {
    let mut k = kernel_with_task(0, 0);
    assert_eq!(sys_mmap(&mut k, USER_SPACE_SIZE, PAGE_SIZE, 0x3), -1);
    assert_eq!(sys_mmap(&mut k, 0, USER_SPACE_SIZE + 1, 0x3), -1);
    assert_eq!(sys_mmap(&mut k, usize::MAX - PAGE_SIZE + 1, PAGE_SIZE, 0x3), -1);
}

#[test]
fn mmap_sets_requested_permissions() {
    let mut k = kernel_with_task(0, 0);
    assert_eq!(sys_mmap(&mut k, 0, PAGE_SIZE, 0x3), 0);
    let page = k.processor.current.as_ref().unwrap().space.pages[0].as_ref().unwrap();
    assert_eq!(page.perm, PERM_R | PERM_W | PERM_U);
    // an execute-only request is legal and grants exactly X beside user access
    assert_eq!(sys_mmap(&mut k, PAGE_SIZE, PAGE_SIZE, 0x8), 0);
    let page = k.processor.current.as_ref().unwrap().space.pages[1].as_ref().unwrap();
    assert_eq!(page.perm, PERM_X | PERM_U);
}

#[test]
fn fresh_pages_read_as_zero_and_round_trip_bytes() {
    let mut k = kernel_with_task(0, 0);
    assert_eq!(sys_mmap(&mut k, 0, 2 * PAGE_SIZE, 0x3), 0);
    let zeros = read_back(&k, 0, 2 * PAGE_SIZE).unwrap();
    assert!(zeros.iter().all(|&b| b == 0));
    // write across the page boundary, then read it back
    let data: Vec<u8> = (0..600u32).map(|i| (i % 251) as u8).collect();
    let va = PAGE_SIZE - 300;
    k.processor.current.as_mut().unwrap().space.write_bytes(va, &data);
    let back = read_back(&k, va, data.len()).unwrap();
    assert_eq!(back, data);
    // bytes outside the written range are still zero
    assert_eq!(read_back(&k, 0, 1).unwrap(), vec![0u8]);
    assert_eq!(read_back(&k, va + 600, 1).unwrap(), vec![0u8]);
}

#[test]
fn read_of_unmapped_range_fails() {
    let k = kernel_with_task(0, 0);
    assert!(read_back(&k, 0, 1).is_none());
    assert!(read_back(&k, USER_SPACE_SIZE, 1).is_none());
}

fn word_at(bytes: &[u8], off: usize) -> u64 {
    let mut w: [u8; 8] = [0; 8];
    w.copy_from_slice(&bytes[off..off + 8]);
    u64::from_le_bytes(w)
}

#[test]
fn get_time_writes_pair_and_is_monotonic() {
    let mut k = kernel_with_task(0, 0);
    assert_eq!(sys_mmap(&mut k, 0, PAGE_SIZE, 0x3), 0);
    advance_clock(&mut k, 2_500_000);
    assert_eq!(sys_get_time(&mut k, 0, 0), 0);
    let bytes = read_back(&k, 0, TIME_VAL_BYTES).unwrap();
    let sec1 = word_at(&bytes, 0);
    let usec1 = word_at(&bytes, 8);
    assert_eq!(sec1, 2);
    assert_eq!(usec1, 500_000);
    advance_clock(&mut k, 700_000);
    assert_eq!(sys_get_time(&mut k, 0, 0), 0);
    let bytes = read_back(&k, 0, TIME_VAL_BYTES).unwrap();
    let sec2 = word_at(&bytes, 0);
    let usec2 = word_at(&bytes, 8);
    assert_eq!((sec2, usec2), (3, 200_000));
    assert!(usec1 < 1_000_000 && usec2 < 1_000_000);
    assert!((sec2, usec2) >= (sec1, usec1));
}

#[test]
fn get_time_straddles_a_page_boundary() {
    let mut k = kernel_with_task(0, 0);
    assert_eq!(sys_mmap(&mut k, 0, 2 * PAGE_SIZE, 0x3), 0);
    advance_clock(&mut k, 1_234_567);
    let ts = PAGE_SIZE - 8; // second word lands on the next page
    assert_eq!(sys_get_time(&mut k, ts, 0), 0);
    let bytes = read_back(&k, ts, TIME_VAL_BYTES).unwrap();
    assert_eq!(word_at(&bytes, 0), 1);
    assert_eq!(word_at(&bytes, 8), 234_567);
}

#[test]
fn get_time_into_unmapped_memory_fails() {
    let mut k = kernel_with_task(0, 0);
    assert_eq!(sys_get_time(&mut k, 0, 0), -1);
    assert_eq!(sys_mmap(&mut k, 0, PAGE_SIZE, 0x3), 0);
    // destination runs off the mapped page
    assert_eq!(sys_get_time(&mut k, PAGE_SIZE - 8, 0), -1);
    // destination runs off the user window
    assert_eq!(sys_get_time(&mut k, USER_SPACE_SIZE - 8, 0), -1);
}

#[test]
fn encode_time_val_exact_bytes() {
    let tv = TimeVal { sec: 1, usec: 0x0203 };
    let bytes = encode_time_val(&tv);
    let mut expected = vec![1u8, 0, 0, 0, 0, 0, 0, 0];
    expected.extend_from_slice(&[0x03, 0x02, 0, 0, 0, 0, 0, 0]);
    assert_eq!(bytes, expected);
}

#[test]
fn task_info_counts_yields_and_get_times_exactly() {
    let mut k = kernel_with_task(0, 0);
    assert_eq!(sys_mmap(&mut k, 0, PAGE_SIZE, 0x3), 0);
    // the dispatcher records each syscall before its handler runs
    for _ in 0..3 {
        current_task_increase_syscall(&mut k, SYSCALL_YIELD);
        assert_eq!(sys_yield(&mut k), 0);
        assert!(run_tasks(&mut k));
    }
    for _ in 0..2 {
        current_task_increase_syscall(&mut k, SYSCALL_GET_TIME);
        assert_eq!(sys_get_time(&mut k, 0, 0), 0);
    }
    assert_eq!(sys_mmap(&mut k, PAGE_SIZE, PAGE_SIZE, 0x3), 0);
    let ti = PAGE_SIZE;
    assert_eq!(sys_task_info(&mut k, ti), 0);
    let bytes = read_back(&k, ti, TASK_INFO_BYTES).unwrap();
    assert_eq!(bytes[0], 1); // status tag: Running
    let count_of = |id: usize| -> u32 {
        let off = 1 + 4 * id;
        u32::from_le_bytes([bytes[off], bytes[off + 1], bytes[off + 2], bytes[off + 3]])
    };
    assert_eq!(count_of(SYSCALL_YIELD), 3);
    assert_eq!(count_of(SYSCALL_GET_TIME), 2);
    for id in 0..MAX_SYSCALL_NUM {
        if id != SYSCALL_YIELD && id != SYSCALL_GET_TIME {
            assert_eq!(count_of(id), 0);
        }
    }
}

#[test]
fn task_info_reports_cumulative_running_time_not_wall_clock() {
    let mut k = kernel_with_task(0, 0);
    assert_eq!(sys_mmap(&mut k, 0, PAGE_SIZE, 0x3), 0);
    // 5 ms pass while the task holds the core
    advance_clock(&mut k, 5_000);
    assert_eq!(sys_yield(&mut k), 0);
    // 4 ms pass while no task runs: charged to nobody
    advance_clock(&mut k, 4_000);
    assert!(run_tasks(&mut k));
    // 2 more ms of running time
    advance_clock(&mut k, 2_000);
    assert_eq!(sys_task_info(&mut k, 0), 0);
    let bytes = read_back(&k, 0, TASK_INFO_BYTES).unwrap();
    let time_off = 1 + 4 * MAX_SYSCALL_NUM;
    assert_eq!(word_at(&bytes, time_off), 7); // 5 + 2 ms of running time
    assert_eq!(get_time_ms(&k), 11); // while the wall clock reads 11 ms
}

#[test]
fn task_info_into_unmapped_memory_fails() {
    let mut k = kernel_with_task(0, 0);
    assert_eq!(sys_task_info(&mut k, 0), -1);
    assert_eq!(sys_task_info(&mut k, USER_SPACE_SIZE - 100), -1);
}

#[test]
fn exited_task_never_resumes_and_next_task_runs() {
    let mut k = Kernel::new();
    k.add_task(TaskControlBlock::new(1, 0, 0));
    k.add_task(TaskControlBlock::new(2, 0, 0));
    assert!(run_tasks(&mut k));
    assert_eq!(k.processor.current.as_ref().unwrap().pid, 1);
    sys_exit(&mut k, 42);
    assert!(k.processor.current.is_none());
    let gone = k.exited.last().unwrap();
    assert_eq!(gone.pid, 1);
    assert_eq!(gone.exit_code, 42);
    assert_eq!(gone.status, TaskStatus::Exited);
    // the run loop proceeds to the next ready task, never to the exited one
    assert!(run_tasks(&mut k));
    assert_eq!(k.processor.current.as_ref().unwrap().pid, 2);
    sys_exit(&mut k, 0);
    assert!(!run_tasks(&mut k)); // no runnable work is reported, not spun on
}

#[test]
fn yield_requeues_task_as_ready() {
    let mut k = kernel_with_task(0, 0);
    assert_eq!(sys_yield(&mut k), 0);
    assert!(k.processor.current.is_none());
    assert_eq!(k.ready_queue.len(), 1);
    assert_eq!(k.ready_queue[0].status, TaskStatus::Ready);
    assert!(run_tasks(&mut k));
    assert_eq!(k.processor.current.as_ref().unwrap().status, TaskStatus::Running);
}

#[test]
fn sbrk_zero_reads_break_and_bad_shrink_rejected() {
    let heap_base = 4 * PAGE_SIZE;
    let mut k = kernel_with_task(heap_base, heap_base + 2 * PAGE_SIZE);
    assert_eq!(sys_sbrk(&mut k, 0), heap_base as isize);
    assert_eq!(sys_sbrk(&mut k, 100), heap_base as isize);
    assert_eq!(sys_sbrk(&mut k, 0), (heap_base + 100) as isize);
    // shrinking beyond the segment base fails and moves nothing
    assert_eq!(sys_sbrk(&mut k, -200), -1);
    assert_eq!(sys_sbrk(&mut k, 0), (heap_base + 100) as isize);
    // growing past the segment's bound fails the same way
    assert_eq!(sys_sbrk(&mut k, (2 * PAGE_SIZE) as i32), -1);
    assert_eq!(sys_sbrk(&mut k, 0), (heap_base + 100) as isize);
}

#[test]
fn spawn_enqueues_child_for_valid_image_only() {
    let mut k = kernel_with_task(0, 0);
    let image = vec![0x7f, 0x45, 0x4c, 0x46, 0, 0, 0, 0];
    let child_pid = current_task_spwan(&mut k, &image);
    assert!(child_pid >= 0);
    assert_eq!(k.ready_queue.len(), 1);
    assert_eq!(k.ready_queue[0].pid, child_pid as usize);
    assert_eq!(k.ready_queue[0].status, TaskStatus::Ready);
    // a malformed image is rejected and enqueues nothing
    assert_eq!(current_task_spwan(&mut k, &[0u8, 1, 2, 3]), -1);
    assert_eq!(k.ready_queue.len(), 1);
    // the child runs after the parent yields
    assert_eq!(sys_yield(&mut k), 0);
    assert!(run_tasks(&mut k));
    assert_eq!(k.processor.current.as_ref().unwrap().pid, child_pid as usize);
}

#[test]
fn record_copier_fills_an_arbitrary_split_in_order() {
    let src: Vec<u8> = (1..=16).collect();
    // a destination split across slices of uneven length, one of them empty
    let mut buffers = vec![vec![0u8; 3], vec![], vec![0u8; 7], vec![0u8; 6]];
    copy_record_into_buffers(&mut buffers, &src);
    let joined: Vec<u8> = buffers.concat();
    assert_eq!(joined, src);
    assert_eq!(buffers[0], vec![1, 2, 3]);
    assert_eq!(buffers[3], vec![11, 12, 13, 14, 15, 16]);
}
