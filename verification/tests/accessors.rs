use os_core::config::{MAX_SYSCALL_NUM, PAGE_SIZE, SYSCALL_SBRK};
use os_core::mm::{perm_from_port, port_valid, VirtAddr, PERM_U, PERM_W, PERM_X};
use os_core::processor::{
    current_task, current_task_increase_syscall, current_task_status, current_task_syscall,
    current_trap_cx, current_user_token, run_tasks, take_current_task, Kernel, Processor,
};
use os_core::syscall::sys_spawn;
use os_core::task::{TaskControlBlock, TaskStatus};

fn running_kernel(pid: usize) -> Kernel {
    let mut k = Kernel::new();
    k.add_task(TaskControlBlock::new(pid, 0, 0));
    assert!(run_tasks(&mut k));
    k
}

#[test]
fn virt_addr_alignment_and_page_numbers() {
    assert!(VirtAddr(0).aligned());
    assert!(VirtAddr(PAGE_SIZE).aligned());
    assert!(!VirtAddr(1).aligned());
    assert!(!VirtAddr(PAGE_SIZE - 1).aligned());
    assert_eq!(VirtAddr(PAGE_SIZE + 1).floor(), 1);
    assert_eq!(VirtAddr(PAGE_SIZE + 1).ceil(), 2);
    assert_eq!(VirtAddr(PAGE_SIZE).ceil(), 1);
    assert_eq!(VirtAddr(0).ceil(), 0);
}

#[test]
fn port_validation_and_translation() {
    assert!(port_valid(0x1));
    assert!(port_valid(0x3));
    assert!(port_valid(0x8));
    assert!(port_valid(0xB));
    assert!(!port_valid(0x0));
    assert!(!port_valid(0x4));
    assert!(!port_valid(0x7));
    assert!(!port_valid(0x10));
    // user access always comes along; each granted bit follows its request bit
    assert_eq!(perm_from_port(0x2).bits, PERM_W | PERM_U);
    assert_eq!(perm_from_port(0x8).bits, PERM_X | PERM_U);
}

#[test]
fn current_task_accessors_reflect_the_running_task() {
    let mut k = running_kernel(9);
    assert_eq!(current_task_status(&k), TaskStatus::Running);
    assert_eq!(current_user_token(&k), 9);
    assert_eq!(current_task(&k).unwrap().pid, 9);
    let counts = current_task_syscall(&k);
    assert_eq!(counts.len(), MAX_SYSCALL_NUM);
    assert!(counts.iter().all(|&c| c == 0));
    current_task_increase_syscall(&mut k, SYSCALL_SBRK);
    let counts = current_task_syscall(&k);
    assert_eq!(counts[SYSCALL_SBRK], 1);
}

#[test]
fn trap_context_is_writable_through_the_accessor() {
    let mut k = running_kernel(1);
    let cx = current_trap_cx(&mut k);
    assert_eq!(cx.sepc, 0);
    cx.sepc = 0x1234;
    assert_eq!(k.processor.current.as_ref().unwrap().trap_cx.sepc, 0x1234);
}

#[test]
fn take_current_empties_the_slot() {
    let mut k = running_kernel(5);
    let taken = take_current_task(&mut k);
    assert_eq!(taken.unwrap().pid, 5);
    assert!(k.processor.current.is_none());
    assert!(take_current_task(&mut k).is_none());
}

#[test]
fn fresh_processor_is_idle() {
    let p = Processor::new();
    assert!(p.current.is_none());
    assert_eq!(p.idle_task_cx.ra, 0);
    assert_eq!(p.idle_task_cx.sp, 0);
}

#[test]
fn spawn_syscall_hands_out_fresh_ids() {
    let mut k = running_kernel(1);
    let image = vec![0x7f, 0x45, 0x4c, 0x46, 1, 2];
    let first = sys_spawn(&mut k, &image);
    let second = sys_spawn(&mut k, &image);
    assert!(first >= 0 && second >= 0);
    assert_ne!(first, second);
    assert_eq!(k.ready_queue.len(), 2);
    assert_eq!(sys_spawn(&mut k, &[]), -1);
    assert_eq!(k.ready_queue.len(), 2);
}
