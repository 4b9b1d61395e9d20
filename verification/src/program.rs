//! Process startup and shutdown sequencing.
//!
//! The controller reads the kernel-provided initial stack, drives the
//! one-time startup sequence — relocation, runtime initialization, the
//! constructor array — hands control to the user's entry function, and
//! afterwards runs the teardown sequence: process-level destructors,
//! the calling thread's destructors, the finalizer array in reverse, and
//! the final exit. The user entry function itself and every system call
//! live outside the model; what is verified is the order of the steps and
//! what each one does to the process state.

use vstd::prelude::*;

verus! {

use crate::dtors;
use crate::relocate::{Image, RelocateOutcome, RelocateError, relocate};
use crate::thread::{Runtime, TlsTemplate, initialize_main};

/// The stages of a process's life, passed strictly in order.
#[derive(Clone, Copy, PartialEq, Eq, Structural, Debug)]
pub enum Phase {
    /// The kernel just handed over control.
    Entered,
    /// Self-relocation is done (or was not needed).
    Relocated,
    /// Process parameters and the main thread's runtime state are set up.
    RuntimeInitialized,
    /// The constructor array has run, in forward order.
    ConstructorsRun,
    /// The user's entry function is running.
    UserEntryRunning,
    /// Process-level and main-thread destructors have run.
    DestructorsRun,
    /// The finalizer array has run, in reverse order.
    FinalizersRun,
    /// The process is about to issue its final exit.
    Exited,
}

/// The successor of each stage; the last stage is terminal.
pub open spec fn next_phase(p: Phase) -> Phase {
    match p {
        Phase::Entered => Phase::Relocated,
        Phase::Relocated => Phase::RuntimeInitialized,
        Phase::RuntimeInitialized => Phase::ConstructorsRun,
        Phase::ConstructorsRun => Phase::UserEntryRunning,
        Phase::UserEntryRunning => Phase::DestructorsRun,
        Phase::DestructorsRun => Phase::FinalizersRun,
        Phase::FinalizersRun => Phase::Exited,
        Phase::Exited => Phase::Exited,
    }
}

/// Step the process to its next stage.
pub fn advance_phase(p: Phase) -> (r: Phase)
    ensures
        r == next_phase(p),
{
    match p {
        Phase::Entered => Phase::Relocated,
        Phase::Relocated => Phase::RuntimeInitialized,
        Phase::RuntimeInitialized => Phase::ConstructorsRun,
        Phase::ConstructorsRun => Phase::UserEntryRunning,
        Phase::UserEntryRunning => Phase::DestructorsRun,
        Phase::DestructorsRun => Phase::FinalizersRun,
        Phase::FinalizersRun => Phase::Exited,
        Phase::Exited => Phase::Exited,
    }
}

/// The one action the controller ever hands to the kernel at the end.
#[derive(Clone, Copy, PartialEq, Eq, Structural, Debug)]
pub enum ExitAction {
    /// End the whole process with this status.
    ExitGroup(i32),
    /// Execute a trap instruction: an unrecoverable bug was detected at a
    /// point where no safer teardown exists.
    Trap,
}

/// Process-level state: the stage reached so far and the process-wide
/// destructor registry.
pub struct Process {
    /// The stage the process has reached.
    pub phase: Phase,
    /// Functions registered to run when the process exits, in
    /// registration order.
    pub dtors: Vec<usize>,
}

/// What the initial-stack parse found: the argument count and the indices
/// of the argument and environment arrays inside the stack words.
pub struct Args {
    /// Number of command-line arguments.
    pub argc: u64,
    /// Index of the first argument pointer.
    pub argv: usize,
    /// Index of the first environment pointer.
    pub envp: usize,
}

/// The kernel's initial-stack convention: one word of argument count, then
/// `argc` argument pointers, a null, then environment pointers up to a
/// null, then the auxiliary vector.
pub open spec fn stack_wf(stack: Seq<u64>) -> bool {
    &&& stack.len() >= 1
    &&& stack[0] + 2 <= stack.len()
    &&& stack[1 + stack[0] as int] == 0
}

/// Read the argument count and locate the argument and environment arrays
/// in the kernel-provided initial stack.
pub fn compute_args(stack: &Vec<u64>) -> (r: Args)
    requires
        stack_wf(stack@),
    ensures
        r.argc == stack@[0],
        r.argv == 1,
        r.envp == r.argc + 2,
{
    let n = stack.len();
    let argc = stack[0];
    proof {
        assert(argc + 2 <= n);
    }
    let argv: usize = 1;
    let envp: usize = (argc as usize) + 2;
    Args { argc, argv, envp }
}

/// The environment array is null-terminated, as the kernel guarantees.
pub open spec fn envp_terminated(stack: Seq<u64>, envp: int) -> bool {
    exists|i: int| envp <= i < stack.len() && stack[i] == 0
}

/// Find the start of the auxiliary vector: the word after the environment
/// array's null terminator.
pub fn compute_auxv_index(stack: &Vec<u64>, envp: usize) -> (r: usize)
    requires
        envp <= stack@.len(),
        envp_terminated(stack@, envp as int),
    ensures
        envp < r <= stack@.len(),
        stack@[r - 1] == 0,
        forall|i: int| envp <= i < r - 1 ==> stack@[i] != 0,
{
    let n = stack.len();
    proof {
        let w = choose|j: int| envp <= j < stack@.len() && stack@[j] == 0;
        assert(envp < stack@.len());
    }
    let mut i: usize = envp;
    while stack[i] != 0
        invariant
            envp <= i < stack@.len(),
            stack@.len() == n,
            envp_terminated(stack@, i as int),
            forall|j: int| envp <= j < i ==> stack@[j] != 0,
        decreases stack@.len() - i,
    {
        proof {
            let w = choose|j: int| i <= j < stack@.len() && stack@[j] == 0;
            assert(w > i);
            assert(envp_terminated(stack@, i as int + 1));
        }
        i = i + 1;
    }
    i + 1
}

/// Register a function to run when the process exits.
pub fn at_exit(p: &mut Process, id: usize)
    ensures
        final(p).phase == old(p).phase,
        final(p).dtors@ == old(p).dtors@.push(id),
{
    p.dtors.push(id);
}

/// The finalizer array runs in reverse order of its entries.
pub fn finalizer_order(fini_array: &Vec<usize>) -> (r: Vec<usize>)
    ensures
        r@ == fini_array@.reverse(),
{
    let mut r: Vec<usize> = Vec::new();
    let mut i: usize = fini_array.len();
    while i > 0
        invariant
            i <= fini_array@.len(),
            r@ == fini_array@.skip(i as int).reverse(),
        decreases i,
    {
        i = i - 1;
        r.push(fini_array[i]);
        proof {
            assert(fini_array@.skip(i as int) == seq![fini_array@[i as int]]
                + fini_array@.skip(i as int + 1));
            assert(fini_array@.skip(i as int).reverse() == fini_array@.skip(
                i as int + 1,
            ).reverse().push(fini_array@[i as int]));
        }
    }
    proof {
        assert(fini_array@.skip(0) =~= fini_array@);
    }
    r
}

/// Everything the teardown sequence decided, in the order it happened.
pub struct ExitPlan {
    /// Process-level destructors, in the order they ran.
    pub process_dtor_order: Vec<usize>,
    /// The calling thread's destructors, in the order they ran.
    pub thread_dtor_order: Vec<usize>,
    /// Finalizer-array entries, in the order they ran.
    pub fini_order: Vec<usize>,
    /// The final action handed to the kernel.
    pub action: ExitAction,
}

/// Run the teardown sequence and exit with `status`: drain the
/// process-level destructor registry last-in first-out (registrations made
/// by a running destructor included), then the calling thread's
/// destructors the same way, then the finalizer array in reverse order,
/// then end the process with the captured status.
pub fn exit(
    p: &mut Process,
    rt: &mut Runtime,
    h: usize,
    status: i32,
    fini_array: &Vec<usize>,
    table: &Vec<Vec<usize>>,
    fuel: usize,
) -> (r: ExitPlan)
    requires
        old(rt).wf(),
        old(rt).running(h as int),
        dtors::ids_ok(old(p).dtors@, table@.len() as int),
        dtors::ids_ok(old(rt).threads@[h as int].dtors@, table@.len() as int),
        dtors::table_ok(table@.map_values(|v: Vec<usize>| v@)),
    ensures
        final(rt).wf(),
        final(p).phase == Phase::Exited,
        final(rt).threads@ == old(rt).threads@.update(
            h as int,
            crate::thread::Thread {
                dtors: final(rt).threads@[h as int].dtors,
                ..old(rt).threads@[h as int]
            },
        ),
        r.process_dtor_order@ == dtors::drain_order(
            old(p).dtors@,
            table@.map_values(|v: Vec<usize>| v@),
            fuel as nat,
        ).0,
        r.thread_dtor_order@ == dtors::drain_order(
            old(rt).threads@[h as int].dtors@,
            table@.map_values(|v: Vec<usize>| v@),
            fuel as nat,
        ).0,
        r.fini_order@ == fini_array@.reverse(),
        r.action == ExitAction::ExitGroup(status),
{
    let process_dtor_order = dtors::drain(&mut p.dtors, table, fuel);
    let t = &mut rt.threads[h];
    let thread_dtor_order = dtors::drain(&mut t.dtors, table, fuel);
    let fini_order = finalizer_order(fini_array);
    p.phase = Phase::Exited;
    ExitPlan { process_dtor_order, thread_dtor_order, fini_order, action: ExitAction::ExitGroup(
        status,
    ) }
}

/// Exit at once with `status`, skipping every destructor and finalizer.
pub fn exit_immediately(status: i32) -> (r: ExitAction)
    ensures
        r == ExitAction::ExitGroup(status),
{
    ExitAction::ExitGroup(status)
}

/// Abort the process because an unrecoverable bug was detected: the only
/// safe action is an immediate trap, with no destructor run and nothing
/// flushed.
pub fn abort() -> (r: ExitAction)
    ensures
        r == ExitAction::Trap,
{
    ExitAction::Trap
}

/// What the embedding program contributes while its entry function runs:
/// the process-level and main-thread destructors it registers, and the
/// status it returns.
pub struct UserProgram {
    /// Destructors registered process-wide, in registration order.
    pub process_regs: Vec<usize>,
    /// Destructors registered on the main thread, in registration order.
    pub thread_regs: Vec<usize>,
    /// The entry function's return value: the process exit status.
    pub status: i32,
}

/// Everything the whole run decided, stage by stage.
pub struct EntryOutcome {
    /// The parsed initial stack.
    pub args: Args,
    /// What the relocation pass did.
    pub relocation: Result<RelocateOutcome, RelocateError>,
    /// The thread runtime, main thread set up.
    pub runtime: Runtime,
    /// Constructor-array entries, in the order they ran.
    pub ctor_order: Vec<usize>,
    /// The teardown sequence, when one ran.
    pub exit_plan: Option<ExitPlan>,
    /// The final action handed to the kernel.
    pub action: ExitAction,
    /// The stage reached.
    pub phase: Phase,
}

/// The whole life of a process, from the kernel's hand-over to the final
/// exit: parse the initial stack, relocate (trapping on a relocation the
/// engine cannot apply), initialize the main thread's runtime state, run
/// the constructor array forward, run the user's entry function, then run
/// the teardown sequence and exit with the status the entry function
/// returned.
pub fn entry(
    stack: &Vec<u64>,
    img: &mut Image,
    tls_template: TlsTemplate,
    canary: usize,
    main_tid: i32,
    init_array: &Vec<usize>,
    fini_array: &Vec<usize>,
    user: &UserProgram,
    table: &Vec<Vec<usize>>,
    fuel: usize,
) -> (r: EntryOutcome)
    requires
        stack_wf(stack@),
        old(img).wf(),
        tls_template.wf(),
        main_tid != 0,
        dtors::ids_ok(user.process_regs@, table@.len() as int),
        dtors::ids_ok(user.thread_regs@, table@.len() as int),
        dtors::table_ok(table@.map_values(|v: Vec<usize>| v@)),
    ensures
        final(img).wf(),
        r.args.argc == stack@[0],
        (!old(img).already_relocated() && old(img).has_unsupported() ==> r.action
            == ExitAction::Trap && r.phase == Phase::Entered && r.exit_plan is None),
        (old(img).already_relocated() || !old(img).has_unsupported() ==> {
            &&& r.relocation is Ok
            &&& final(img).mem@ == old(img).relocate_once(old(img).mem@)
            &&& r.phase == Phase::Exited
            &&& r.runtime.wf()
            &&& r.runtime.threads@.len() == 1
            &&& r.runtime.threads@[0].thread_id == main_tid
            &&& r.runtime.threads@[0].canary == canary
            &&& r.runtime.threads@[0].tls@ == tls_template.block()
            &&& r.ctor_order@ == init_array@
            &&& (r.exit_plan matches Some(plan) && {
                &&& plan.process_dtor_order@ == dtors::drain_order(
                    user.process_regs@,
                    table@.map_values(|v: Vec<usize>| v@),
                    fuel as nat,
                ).0
                &&& plan.thread_dtor_order@ == dtors::drain_order(
                    user.thread_regs@,
                    table@.map_values(|v: Vec<usize>| v@),
                    fuel as nat,
                ).0
                &&& plan.fini_order@ == fini_array@.reverse()
                &&& plan.action == ExitAction::ExitGroup(user.status)
            })
            &&& r.action == ExitAction::ExitGroup(user.status)
        }),
{
    let mut phase = Phase::Entered;

    // Read argc, argv and envp from the kernel-provided stack.
    let args = compute_args(stack);

    // Perform relocation before anything else; a relocation the engine
    // cannot apply means the process must trap here, with no teardown.
    let relocation = relocate(img);
    if relocation.is_err() {
        return EntryOutcome {
            args,
            relocation,
            runtime: initialize_main(tls_template, canary, main_tid, 0, 0, 0),
            ctor_order: Vec::new(),
            exit_plan: None,
            action: ExitAction::Trap,
            phase,
        };
    }
    phase = advance_phase(phase);

    // Initialize the main thread's control block and TLS.
    let mut rt = initialize_main(tls_template, canary, main_tid, 0, 0, 0);
    phase = advance_phase(phase);

    // Run the constructor array in forward order.
    let mut ctor_order: Vec<usize> = Vec::new();
    let mut i: usize = 0;
    while i < init_array.len()
        invariant
            i <= init_array@.len(),
            ctor_order@ == init_array@.take(i as int),
        decreases init_array@.len() - i,
    {
        ctor_order.push(init_array[i]);
        i = i + 1;
        proof {
            assert(init_array@.take(i as int) == init_array@.take(i as int - 1).push(
                init_array@[i as int - 1]));
        }
    }
    proof {
        assert(init_array@.take(init_array@.len() as int) == init_array@);
    }
    phase = advance_phase(phase);

    // Run the user's entry function; it registers destructors and returns
    // the exit status.
    let mut proc = Process { phase: advance_phase(phase), dtors: Vec::new() };
    let mut i: usize = 0;
    while i < user.process_regs.len()
        invariant
            i <= user.process_regs@.len(),
            proc.dtors@ == user.process_regs@.take(i as int),
            proc.phase == Phase::UserEntryRunning,
            dtors::ids_ok(user.process_regs@, table@.len() as int),
        decreases user.process_regs@.len() - i,
    {
        at_exit(&mut proc, user.process_regs[i]);
        i = i + 1;
        proof {
            assert(user.process_regs@.take(i as int) == user.process_regs@.take(i as int
                - 1).push(user.process_regs@[i as int - 1]));
        }
    }
    let mut i: usize = 0;
    while i < user.thread_regs.len()
        invariant
            i <= user.thread_regs@.len(),
            rt.wf(),
            rt.running(0),
            rt.threads@.len() == 1,
            rt.threads@[0].dtors@ == user.thread_regs@.take(i as int),
            rt.threads@[0].thread_id == main_tid,
            rt.threads@[0].canary == canary,
            rt.threads@[0].tls@ == tls_template.block(),
            dtors::ids_ok(user.thread_regs@, table@.len() as int),
        decreases user.thread_regs@.len() - i,
    {
        crate::thread::at_exit(&mut rt, 0, user.thread_regs[i]);
        i = i + 1;
        proof {
            assert(user.thread_regs@.take(i as int) == user.thread_regs@.take(i as int - 1).push(
                user.thread_regs@[i as int - 1]));
        }
    }
    proof {
        assert(user.process_regs@.take(user.process_regs@.len() as int) == user.process_regs@);
        assert(user.thread_regs@.take(user.thread_regs@.len() as int) == user.thread_regs@);
    }
    let status = user.status;

    // Teardown: destructors, finalizers, and the final exit.
    let plan = exit(&mut proc, &mut rt, 0, status, fini_array, table, fuel);
    let action = plan.action;
    EntryOutcome {
        args,
        relocation,
        runtime: rt,
        ctor_order,
        exit_plan: Some(plan),
        action,
        phase: Phase::Exited,
    }
}

} // verus!
