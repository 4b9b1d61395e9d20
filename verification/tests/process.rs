use origin::elf::{Aux, Dyn, Rela};
use origin::program::{
    abort, advance_phase, at_exit, compute_args, compute_auxv_index, entry, exit,
    exit_immediately, finalizer_order, ExitAction, Phase, Process, UserProgram,
};
use origin::relocate::Image;
use origin::thread::{
    create, default_guard_size_for, exit as thread_exit, initialize_main, join, kernel_clear_tid,
    tls_write, TlsTemplate,
};

fn initial_stack() -> Vec<u64> {
    // argc = 2; two argument pointers and a null; two environment
    // pointers and a null; then the auxiliary vector.
    vec![2, 0xa1, 0xa2, 0, 0xe1, 0xe2, 0, 6, 4096, 0, 0]
}

#[test]
fn initial_stack_parse() {
    let stack = initial_stack();
    let args = compute_args(&stack);
    assert_eq!(args.argc, 2);
    assert_eq!(args.argv, 1);
    assert_eq!(args.envp, 4);
    let auxv = compute_auxv_index(&stack, args.envp);
    assert_eq!(auxv, 7);
}

#[test]
fn phases_advance_in_order() {
    let mut p = Phase::Entered;
    let expected = [
        Phase::Relocated,
        Phase::RuntimeInitialized,
        Phase::ConstructorsRun,
        Phase::UserEntryRunning,
        Phase::DestructorsRun,
        Phase::FinalizersRun,
        Phase::Exited,
        Phase::Exited,
    ];
    for e in expected {
        p = advance_phase(p);
        assert_eq!(p, e);
    }
}

#[test]
fn finalizers_run_in_reverse() {
    let fini = vec![10, 11, 12];
    assert_eq!(finalizer_order(&fini), vec![12, 11, 10]);
}

#[test]
fn process_dtors_bracket_reentrant_registrations() {
    // Destructor 0 checks that the flag was set; destructor 1 registers 3,
    // which registers 4, which sets the flag; destructor 2 checks that the
    // flag was still clear. Registered in the order 0, 1, 2, the drain
    // must run 2 first, then 1 and its nested registrations, then 0, so
    // that the two checks bracket the flag mutation.
    let table = vec![vec![], vec![3], vec![], vec![4], vec![]];
    let mut proc = Process { phase: Phase::UserEntryRunning, dtors: Vec::new() };
    at_exit(&mut proc, 0);
    at_exit(&mut proc, 1);
    at_exit(&mut proc, 2);
    let mut rt = initialize_main(
        TlsTemplate { init: Vec::new(), mem_size: 0, align: 1 },
        1,
        42,
        0,
        0,
        0,
    );
    let plan = exit(&mut proc, &mut rt, 0, 0, &Vec::new(), &table, 64);
    let order = plan.process_dtor_order;
    assert_eq!(order, vec![2, 1, 3, 4, 0]);
    // A flag set by destructor 4 is observed clear by everything that ran
    // before it and set by everything after it.
    let when_set = order.iter().position(|&d| d == 4).unwrap();
    assert!(order.iter().position(|&d| d == 2).unwrap() < when_set);
    assert!(order.iter().position(|&d| d == 0).unwrap() > when_set);
    assert_eq!(plan.action, ExitAction::ExitGroup(0));
    assert_eq!(proc.phase, Phase::Exited);
}

#[test]
fn exit_runs_process_then_thread_dtors_then_finalizers() {
    let table = vec![vec![], vec![], vec![]];
    let mut proc = Process { phase: Phase::UserEntryRunning, dtors: vec![0, 1] };
    let mut rt = initialize_main(
        TlsTemplate { init: Vec::new(), mem_size: 0, align: 1 },
        1,
        42,
        0,
        0,
        0,
    );
    origin::thread::at_exit(&mut rt, 0, 2);
    let fini = vec![7, 8];
    let plan = exit(&mut proc, &mut rt, 0, 5, &fini, &table, 64);
    assert_eq!(plan.process_dtor_order, vec![1, 0]);
    assert_eq!(plan.thread_dtor_order, vec![2]);
    assert_eq!(plan.fini_order, vec![8, 7]);
    assert_eq!(plan.action, ExitAction::ExitGroup(5));
}

#[test]
fn immediate_exit_and_abort() {
    assert_eq!(exit_immediately(17), ExitAction::ExitGroup(17));
    assert_eq!(abort(), ExitAction::Trap);
}

fn small_image() -> Image {
    Image {
        mem: vec![0x100, 9],
        auxv: vec![Aux { kind: 9, val: 0x1100 }, Aux { kind: 6, val: 4096 }, Aux {
            kind: 0,
            val: 0,
        }],
        dynv: vec![
            Dyn { tag: 7, val: 0x400 },
            Dyn { tag: 8, val: 3 },
            Dyn { tag: 0, val: 0 },
        ],
        rela: vec![Rela { offset: 0, kind: 8, addend: 0x100 }],
        rel: Vec::new(),
        relr: Vec::new(),
        phdrs: Vec::new(),
        ehdr_entry: 0x100,
        static_start_addr: 0,
    }
}

#[test]
fn entry_to_exit_sequence() {
    let stack = initial_stack();
    let mut img = small_image();
    let template = TlsTemplate { init: vec![5], mem_size: 2, align: 1 };
    let init_array = vec![100, 101];
    let fini_array = vec![200, 201];
    let user = UserProgram { process_regs: vec![0], thread_regs: vec![1], status: 7 };
    let table = vec![vec![], vec![]];
    let out = entry(&stack, &mut img, template, 0xbeef, 42, &init_array, &fini_array, &user,
        &table, 64);
    assert_eq!(out.args.argc, 2);
    assert_eq!(out.phase, Phase::Exited);
    assert_eq!(img.mem[0], 0x1100);
    assert_eq!(out.ctor_order, vec![100, 101]);
    let plan = out.exit_plan.unwrap();
    assert_eq!(plan.process_dtor_order, vec![0]);
    assert_eq!(plan.thread_dtor_order, vec![1]);
    assert_eq!(plan.fini_order, vec![201, 200]);
    // The process exits with exactly the status the entry function
    // returned.
    assert_eq!(out.action, ExitAction::ExitGroup(7));
    assert_eq!(out.runtime.threads[0].thread_id, 42);
}

#[test]
fn entry_traps_on_unsupported_relocation() {
    let stack = initial_stack();
    let mut img = small_image();
    img.rela[0].kind = 1;
    let template = TlsTemplate { init: Vec::new(), mem_size: 0, align: 1 };
    let user = UserProgram { process_regs: Vec::new(), thread_regs: Vec::new(), status: 0 };
    let out = entry(&stack, &mut img, template, 1, 42, &Vec::new(), &Vec::new(), &user,
        &Vec::new(), 64);
    assert_eq!(out.action, ExitAction::Trap);
    assert!(out.exit_plan.is_none());
    assert_eq!(img.mem, vec![0x100, 9]);
}

#[test]
fn thread_lifetime_within_a_process() {
    // A thread with a two-megabyte stack and the default guard size
    // writes a marker into its thread-local storage, registers an exit
    // callback, and returns nothing; joining it yields nothing, and the
    // process then exits with the entry function's status.
    let template = TlsTemplate { init: vec![0], mem_size: 1, align: 1 };
    let mut rt = initialize_main(template, 0xbeef, 42, 0, 0, 0);
    let guard = default_guard_size_for(4096);
    let h = create(&mut rt, 2 * 1024 * 1024, guard, 64, 8, 4096, Ok(0x7f00_0000), 77).unwrap();
    let table = vec![vec![]];
    tls_write(&mut rt, h, 0, 0xab);
    origin::thread::at_exit(&mut rt, h, 0);
    let (order, freed) = thread_exit(&mut rt, h, None, &table, 16);
    assert_eq!(order, vec![0]);
    assert!(!freed);
    kernel_clear_tid(&mut rt, h);
    let rv = join(&mut rt, h);
    assert_eq!(rv, None);
    let mut proc = Process { phase: Phase::UserEntryRunning, dtors: Vec::new() };
    let plan = exit(&mut proc, &mut rt, 0, 0, &Vec::new(), &table, 16);
    assert_eq!(plan.action, ExitAction::ExitGroup(0));
}
