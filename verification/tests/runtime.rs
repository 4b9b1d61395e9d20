use origin::lifecycle::{step, LifeEvent, LifeState};
use origin::thread::{
    at_exit, create, default_guard_size_for, default_stack_size, detach, exit, free_region, id,
    initialize_main, initialize_startup_info, interpret_clone_result, join, kernel_clear_tid,
    make_tls_block, set_current_id_after_a_fork, stack, tls_read, tls_write, wait_for_exit_step,
    CloneOutcome, TlsTemplate,
};
use origin::elf::Phdr;

fn template() -> TlsTemplate {
    TlsTemplate { init: vec![1, 2, 3], mem_size: 6, align: 8 }
}

fn empty_table() -> Vec<Vec<usize>> {
    Vec::new()
}

#[test]
fn tls_block_is_template_then_zero_fill() {
    let b = make_tls_block(&template());
    assert_eq!(b, vec![1, 2, 3, 0, 0, 0]);
}

#[test]
fn main_thread_id_matches_kernel() {
    // The id stored in the main thread's control block is exactly what the
    // kernel reports for the calling thread.
    let tid = rustix::thread::gettid().as_raw_pid();
    let rt = initialize_main(template(), 0xbeef, tid, 0x7000, 0x2000, 0x1000);
    assert_eq!(id(&rt, 0), Some(tid));
    assert_eq!(stack(&rt, 0), (0x7000, 0x2000, 0x1000));
    assert_eq!(rt.threads[0].map_size, 0);
}

#[test]
fn create_copies_canary_and_tls() {
    let mut rt = initialize_main(template(), 0xbeef, 42, 0, 0, 0);
    let h = create(&mut rt, 0x200000, 0x1000, 64, 8, 4096, Ok(0x10_0000), 1234).unwrap();
    assert_eq!(h, 1);
    assert_eq!(rt.threads[1].canary, rt.threads[0].canary);
    assert_eq!(rt.threads[1].tls, vec![1, 2, 3, 0, 0, 0]);
    assert_eq!(id(&rt, 1), Some(1234));
    let (addr, size, guard) = stack(&rt, 1);
    assert_eq!(size, 0x200000);
    assert_eq!(guard, 0x1000);
    // The guard region sits below the stack inside the mapping.
    assert_eq!(addr, 0x10_0000 + 0x1000);
    assert!(rt.threads[1].map_size >= 0x1000 + 0x200000 + 6 + 64);
}

#[test]
fn create_failures_have_no_side_effects() {
    let mut rt = initialize_main(template(), 1, 42, 0, 0, 0);
    // The kernel refused the mapping.
    let e = create(&mut rt, 0x2000, 0x1000, 64, 8, 4096, Err(12), 1234).unwrap_err();
    assert_eq!(e, 12);
    assert_eq!(rt.threads.len(), 1);
    // The mapping succeeded but thread creation failed with -EAGAIN.
    let e = create(&mut rt, 0x2000, 0x1000, 64, 8, 4096, Ok(0x10_0000), -11).unwrap_err();
    assert_eq!(e, 11);
    assert_eq!(rt.threads.len(), 1);
}

#[test]
fn join_returns_the_stored_value_and_frees_once() {
    let mut rt = initialize_main(template(), 1, 42, 0, 0, 0);
    let h = create(&mut rt, 0x2000, 0x1000, 64, 8, 4096, Ok(0x10_0000), 99).unwrap();
    let table = empty_table();
    let (order, freed_by_exit) = exit(&mut rt, h, Some(123), &table, 16);
    assert!(order.is_empty());
    assert!(!freed_by_exit);
    // The canary is still the process-wide one at exit.
    assert_eq!(rt.threads[h].canary, rt.threads[0].canary);
    kernel_clear_tid(&mut rt, h);
    assert_eq!(id(&rt, h), None);
    let rv = join(&mut rt, h);
    assert_eq!(rv, Some(123));
    assert_eq!(rt.threads[h].state, LifeState::Freed);
}

#[test]
fn detach_then_exit_frees_exactly_once() {
    let mut rt = initialize_main(template(), 1, 42, 0, 0, 0);
    let h = create(&mut rt, 0x2000, 0x1000, 64, 8, 4096, Ok(0x10_0000), 99).unwrap();
    let freed_by_detach = detach(&mut rt, h);
    assert!(!freed_by_detach);
    let table = empty_table();
    let (_, freed_by_exit) = exit(&mut rt, h, None, &table, 16);
    assert!(freed_by_exit);
    assert_eq!(rt.threads[h].state, LifeState::Freed);
}

#[test]
fn detach_after_exit_frees_immediately() {
    let mut rt = initialize_main(template(), 1, 42, 0, 0, 0);
    let h = create(&mut rt, 0x2000, 0x1000, 64, 8, 4096, Ok(0x10_0000), 99).unwrap();
    let table = empty_table();
    let (_, freed_by_exit) = exit(&mut rt, h, None, &table, 16);
    assert!(!freed_by_exit);
    // The late detacher waits for the kernel's exit confirmation first.
    kernel_clear_tid(&mut rt, h);
    let freed_by_detach = detach(&mut rt, h);
    assert!(freed_by_detach);
    assert_eq!(rt.threads[h].state, LifeState::Freed);
}

#[test]
fn lifecycle_steps_free_exactly_once() {
    // Detach, then natural exit: the exit frees.
    let (s, freed) = step(LifeState::Initial, LifeEvent::Detach).unwrap();
    assert_eq!(s, LifeState::Detached);
    assert!(!freed);
    let (s, freed) = step(s, LifeEvent::Exit).unwrap();
    assert_eq!(s, LifeState::Freed);
    assert!(freed);
    // Exit, then join: the join frees.
    let (s, freed) = step(LifeState::Initial, LifeEvent::Exit).unwrap();
    assert_eq!(s, LifeState::Abandoned);
    assert!(!freed);
    let (s, freed) = step(s, LifeEvent::Join).unwrap();
    assert_eq!(s, LifeState::Freed);
    assert!(freed);
    // Nothing is valid on freed memory: no double free.
    assert!(step(LifeState::Freed, LifeEvent::Join).is_none());
    assert!(step(LifeState::Freed, LifeEvent::Detach).is_none());
    assert!(step(LifeState::Freed, LifeEvent::Exit).is_none());
    // Joining a running or detached thread is forbidden.
    assert!(step(LifeState::Initial, LifeEvent::Join).is_none());
    assert!(step(LifeState::Detached, LifeEvent::Join).is_none());
    assert!(step(LifeState::Detached, LifeEvent::Detach).is_none());
}

#[test]
fn tls_writes_are_isolated_per_thread() {
    let mut rt = initialize_main(template(), 1, 42, 0, 0, 0);
    let a = create(&mut rt, 0x2000, 0x1000, 64, 8, 4096, Ok(0x10_0000), 7).unwrap();
    let b = create(&mut rt, 0x2000, 0x1000, 64, 8, 4096, Ok(0x20_0000), 8).unwrap();
    // Both threads start from the same template.
    assert_eq!(tls_read(&rt, a, 0), 1);
    assert_eq!(tls_read(&rt, b, 0), 1);
    // A write on one thread is invisible on the others.
    tls_write(&mut rt, a, 0, 200);
    assert_eq!(tls_read(&rt, a, 0), 200);
    assert_eq!(tls_read(&rt, b, 0), 1);
    assert_eq!(tls_read(&rt, 0, 0), 1);
    // After the writing thread exits and is joined, the main thread's
    // copy is still unaffected.
    let table = empty_table();
    exit(&mut rt, a, None, &table, 16);
    kernel_clear_tid(&mut rt, a);
    join(&mut rt, a);
    assert_eq!(tls_read(&rt, 0, 0), 1);
    assert_eq!(tls_read(&rt, b, 0), 1);
}

#[test]
fn thread_dtors_run_in_reverse_with_reentrant_registration() {
    let mut rt = initialize_main(template(), 1, 42, 0, 0, 0);
    let h = create(&mut rt, 0x2000, 0x1000, 64, 8, 4096, Ok(0x10_0000), 7).unwrap();
    // Destructor 1 registers destructor 3, which registers destructor 4.
    let table = vec![vec![], vec![3], vec![], vec![4], vec![]];
    at_exit(&mut rt, h, 0);
    at_exit(&mut rt, h, 1);
    at_exit(&mut rt, h, 2);
    let (order, _) = exit(&mut rt, h, None, &table, 64);
    assert_eq!(order, vec![2, 1, 3, 4, 0]);
    assert!(rt.threads[h].dtors.is_empty());
}

#[test]
fn default_sizes() {
    assert_eq!(default_stack_size(0), 0x20000);
    assert_eq!(default_stack_size(0x100000), 0x100000);
    assert_eq!(default_guard_size_for(4096), 16384);
}

#[test]
fn clone_result_classification() {
    assert_eq!(interpret_clone_result(0), CloneOutcome::Child);
    assert_eq!(interpret_clone_result(4321), CloneOutcome::Parent(4321));
    assert_eq!(interpret_clone_result(-11), CloneOutcome::Failure(11));
}

#[test]
fn startup_info_reads_the_program_headers() {
    let phdrs = vec![
        Phdr { p_type: 6, vaddr: 0x40, memsz: 0, filesz: 0, align: 8 },
        Phdr { p_type: 7, vaddr: 0x3000, memsz: 0x120, filesz: 0x20, align: 16 },
        Phdr { p_type: 0x6474e551, vaddr: 0, memsz: 0x80000, filesz: 0, align: 0 },
    ];
    // The header table's runtime address is 0x5040 while its link-time
    // address is 0x40: the load offset is 0x5000.
    let info = initialize_startup_info(&phdrs, 0x5040, 0);
    assert_eq!(info.tls_addr, 0x5000 + 0x3000);
    assert_eq!(info.mem_size, 0x120);
    assert_eq!(info.file_size, 0x20);
    assert_eq!(info.align, 16);
    assert_eq!(info.stack_size, 0x80000);
}

#[test]
fn startup_info_without_tls_segment() {
    let phdrs = vec![Phdr { p_type: 1, vaddr: 0, memsz: 0x100, filesz: 0x100, align: 4096 }];
    let info = initialize_startup_info(&phdrs, 0x1000, 0);
    assert_eq!(info.tls_addr, 0);
    assert_eq!(info.mem_size, 0);
    assert_eq!(info.file_size, 0);
    assert_eq!(info.align, 1);
    assert_eq!(info.stack_size, 0);
}

#[test]
fn fork_updates_the_recorded_id() {
    let mut rt = initialize_main(template(), 1, 42, 0, 0, 0);
    set_current_id_after_a_fork(&mut rt, 0, 4242);
    assert_eq!(id(&rt, 0), Some(4242));
}

#[test]
fn free_region_covers_the_whole_mapping_or_nothing() {
    let mut rt = initialize_main(template(), 1, 42, 0, 0, 0);
    // The main thread's stack is the kernel's; there is nothing to unmap.
    assert_eq!(free_region(&rt, 0), None);
    let h = create(&mut rt, 0x2000, 0x1000, 64, 8, 4096, Ok(0x10_0000), 7).unwrap();
    let (addr, len) = free_region(&rt, h).unwrap();
    // The region starts at the bottom of the guard, below the stack.
    let (stack_addr, _, guard) = stack(&rt, h);
    assert_eq!(addr, stack_addr - guard);
    assert_eq!(len, rt.threads[h].map_size);
}

#[test]
fn exit_wait_uses_the_observed_id_as_compare_value() {
    let mut rt = initialize_main(template(), 1, 42, 0, 0, 0);
    let h = create(&mut rt, 0x2000, 0x1000, 64, 8, 4096, Ok(0x10_0000), 99).unwrap();
    let table = empty_table();
    exit(&mut rt, h, None, &table, 16);
    // The thread has exited but the kernel has not cleared the id yet:
    // keep waiting, comparing against the value just read.
    assert_eq!(wait_for_exit_step(&rt, h), Some(99));
    kernel_clear_tid(&mut rt, h);
    assert_eq!(wait_for_exit_step(&rt, h), None);
    assert_eq!(join(&mut rt, h), None);
}
