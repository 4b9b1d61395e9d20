//! The thread runtime: control blocks, creation, join/detach, thread-local
//! storage and per-thread destructors.
//!
//! The kernel's part of thread creation and teardown — the anonymous
//! mapping, the `clone` call, the futex wake, the write that clears the
//! thread-id word when a thread dies — happens outside this model. Each
//! operation here takes the kernel's answers as plain values and performs
//! the runtime's own bookkeeping on the process state, with contracts that
//! pin the bookkeeping down exactly: what a new control block holds, when
//! memory may be reclaimed, and what every other thread's state looks like
//! afterwards.

use vstd::prelude::*;

verus! {

use crate::lifecycle::{LifeState, LifeEvent, life_step};
use crate::dtors;
use crate::layout;

/// The startup TLS descriptor: the executable's TLS template, read from its
/// program headers once at process entry and never written again.
pub struct TlsTemplate {
    /// The file-backed initializer image.
    pub init: Vec<u8>,
    /// Total size of a thread's TLS block; the part beyond the initializer
    /// image is zero-filled.
    pub mem_size: usize,
    /// Required alignment of the TLS block.
    pub align: usize,
}

impl TlsTemplate {
    /// The initializer image fits inside the block it initializes.
    pub open spec fn wf(&self) -> bool {
        self.init@.len() <= self.mem_size
    }

    /// The TLS block a fresh thread starts with: the initializer image
    /// followed by zero fill up to `mem_size`.
    pub open spec fn block(&self) -> Seq<u8> {
        self.init@ + Seq::new((self.mem_size - self.init@.len()) as nat, |i: int| 0u8)
    }
}

/// Build a fresh thread's TLS block from the template.
pub fn make_tls_block(t: &TlsTemplate) -> (r: Vec<u8>)
    requires
        t.wf(),
    ensures
        r@ == t.block(),
{
    let mut r: Vec<u8> = Vec::new();
    let mut i: usize = 0;
    while i < t.init.len()
        invariant
            i <= t.init@.len(),
            r@ == t.init@.take(i as int),
        decreases t.init@.len() - i,
    {
        r.push(t.init[i]);
        i += 1;
        proof {
            assert(t.init@.take(i as int) == t.init@.take(i as int - 1).push(t.init@[i as int
                - 1]));
        }
    }
    proof {
        assert(t.init@.take(t.init@.len() as int) == t.init@);
    }
    while r.len() < t.mem_size
        invariant
            t.wf(),
            t.init@.len() <= r@.len() <= t.mem_size,
            r@ == t.block().take(r@.len() as int),
        decreases t.mem_size - r@.len(),
    {
        r.push(0u8);
        proof {
            assert(t.block().take(r@.len() as int) == t.block().take(r@.len() - 1).push(
                t.block()[r@.len() - 1]));
        }
    }
    proof {
        assert(t.block().take(t.block().len() as int) == t.block());
    }
    r
}

/// The control block of one thread, as the runtime sees it.
pub struct Thread {
    /// Where the thread stands in the join/detach lifecycle.
    pub state: LifeState,
    /// The thread id the kernel stored at creation; the kernel clears it to
    /// zero when the thread's execution ends.
    pub thread_id: i32,
    /// The slot through which an exiting thread hands its result to a
    /// joiner.
    pub return_value: Option<usize>,
    /// The stack canary, identical across all threads of the process.
    pub canary: usize,
    /// Lowest usable stack address.
    pub stack_addr: usize,
    /// Usable stack size the creator requested.
    pub stack_size: usize,
    /// Guard region size the creator requested.
    pub guard_size: usize,
    /// Total size of the thread's mapping; zero for the main thread, whose
    /// stack the kernel provided and which is never unmapped.
    pub map_size: usize,
    /// Destructors registered by this thread, in registration order.
    pub dtors: Vec<usize>,
    /// This thread's own TLS block.
    pub tls: Vec<u8>,
}

/// What holds of every control block that is still mapped: its canary is
/// the process-wide one, its TLS block has the template's size, and while
/// the thread is running its id is the nonzero value the kernel stored.
pub open spec fn thread_wf(t: Thread, canary: usize, tls_size: int) -> bool {
    t.state != LifeState::Freed ==> {
        &&& t.canary == canary
        &&& t.tls@.len() == tls_size
        &&& ((t.state == LifeState::Initial || t.state == LifeState::Detached) ==> t.thread_id
            != 0)
    }
}

/// The thread runtime's process-wide state.
pub struct Runtime {
    /// The startup TLS descriptor.
    pub tls_template: TlsTemplate,
    /// The process-wide stack canary, chosen at startup from the kernel's
    /// random bytes.
    pub canary: usize,
    /// All control blocks ever created, indexed by handle; index zero is
    /// the main thread.
    pub threads: Vec<Thread>,
}

impl Runtime {
    /// Process-wide well-formedness.
    pub open spec fn wf(&self) -> bool {
        &&& self.tls_template.wf()
        &&& self.threads@.len() >= 1
        &&& forall|i: int|
            0 <= i < self.threads@.len() ==> thread_wf(
                #[trigger] self.threads@[i],
                self.canary,
                self.tls_template.mem_size as int,
            )
    }

    /// The thread's memory is still mapped.
    pub open spec fn live(&self, h: int) -> bool {
        0 <= h < self.threads@.len() && self.threads@[h].state != LifeState::Freed
    }

    /// The thread is still executing (its exit path has not run).
    pub open spec fn running(&self, h: int) -> bool {
        0 <= h < self.threads@.len() && (self.threads@[h].state == LifeState::Initial
            || self.threads@[h].state == LifeState::Detached)
    }
}

/// Set up the main thread's control block at process entry. The main
/// thread's stack already exists, so only the TLS block and metadata are
/// fresh; its mapping size is recorded as zero so that no teardown path
/// ever unmaps it.
pub fn initialize_main(
    tls_template: TlsTemplate,
    canary: usize,
    main_tid: i32,
    stack_addr: usize,
    stack_size: usize,
    guard_size: usize,
) -> (rt: Runtime)
    requires
        tls_template.wf(),
        main_tid != 0,
    ensures
        rt.wf(),
        rt.tls_template == tls_template,
        rt.canary == canary,
        rt.threads@.len() == 1,
        rt.threads@[0].state == LifeState::Initial,
        rt.threads@[0].thread_id == main_tid,
        rt.threads@[0].canary == canary,
        rt.threads@[0].tls@ == tls_template.block(),
        rt.threads@[0].return_value is None,
        rt.threads@[0].dtors@.len() == 0,
        rt.threads@[0].stack_addr == stack_addr,
        rt.threads@[0].stack_size == stack_size,
        rt.threads@[0].guard_size == guard_size,
        rt.threads@[0].map_size == 0,
{
    let tls = make_tls_block(&tls_template);
    let main = Thread {
        state: LifeState::Initial,
        thread_id: main_tid,
        return_value: None,
        canary,
        stack_addr,
        stack_size,
        guard_size,
        map_size: 0,
        dtors: Vec::new(),
        tls,
    };
    let mut threads: Vec<Thread> = Vec::new();
    threads.push(main);
    Runtime { tls_template, canary, threads }
}

/// Create a new thread.
///
/// The layout of the thread's mapping is computed from the requested stack
/// and guard sizes and the startup TLS descriptor; the kernel's answers to
/// the mapping request and to the thread-creation request come in as
/// `map_result` and `clone_result`. On success the new control block
/// carries the creating process's canary, a fresh copy of the TLS template,
/// and the thread id the kernel stored; on either failure the kernel's
/// error is returned and the process state is unchanged, so a failed
/// creation has no side effects.
pub fn create(
    rt: &mut Runtime,
    stack_size: usize,
    guard_size: usize,
    header_size: usize,
    header_align: usize,
    page_size: usize,
    map_result: Result<usize, i32>,
    clone_result: i64,
) -> (r: Result<usize, i32>)
    requires
        old(rt).wf(),
        layout::layout_inputs_ok(
            stack_size as int,
            guard_size as int,
            old(rt).tls_template.mem_size as int,
            old(rt).tls_template.align as int,
            header_size as int,
            header_align as int,
            page_size as int,
        ),
        clone_result != 0,
        i32::MIN < clone_result <= i32::MAX,
        (map_result matches Ok(a) ==> a as int + stack_size + guard_size
            + old(rt).tls_template.mem_size + header_size + 3 * page_size <= usize::MAX),
    ensures
        final(rt).wf(),
        (map_result matches Err(e) ==> r == Err::<usize, i32>(e) && *final(rt) == *old(rt)),
        (map_result is Ok && clone_result < 0 ==> r == Err::<usize, i32>((-clone_result) as i32)
            && *final(rt) == *old(rt)),
        (map_result is Ok && clone_result > 0 ==> {
            let h = old(rt).threads@.len() as int;
            let t = final(rt).threads@[h];
            &&& r == Ok::<usize, i32>(h as usize)
            &&& final(rt).threads@.len() == h + 1
            &&& final(rt).threads@.subrange(0, h) == old(rt).threads@
            &&& final(rt).canary == old(rt).canary
            &&& final(rt).tls_template == old(rt).tls_template
            &&& t.state == LifeState::Initial
            &&& t.thread_id == clone_result as i32
            &&& t.canary == old(rt).canary
            &&& t.tls@ == old(rt).tls_template.block()
            &&& t.return_value is None
            &&& t.dtors@.len() == 0
            &&& t.stack_size == stack_size
            &&& t.guard_size == guard_size
            &&& guard_size <= t.stack_addr - map_result.unwrap() < guard_size + page_size
            &&& t.map_size >= guard_size + stack_size + old(rt).tls_template.mem_size
                + header_size
        }),
{
    let map_addr = match map_result {
        Ok(a) => a,
        Err(e) => {
            return Err(e);
        },
    };
    let lay = layout::compute_layout(
        stack_size,
        guard_size,
        rt.tls_template.mem_size,
        rt.tls_template.align,
        header_size,
        header_align,
        page_size,
    );
    if clone_result < 0 {
        return Err((-clone_result) as i32);
    }
    let tls = make_tls_block(&rt.tls_template);
    let t = Thread {
        state: LifeState::Initial,
        thread_id: clone_result as i32,
        return_value: None,
        canary: rt.canary,
        stack_addr: map_addr + lay.stack_bottom,
        stack_size,
        guard_size,
        map_size: lay.map_size,
        dtors: Vec::new(),
        tls,
    };
    let h = rt.threads.len();
    rt.threads.push(t);
    proof {
        assert(final(rt).threads@.subrange(0, h as int) == old(rt).threads@);
    }
    Ok(h)
}

/// Register a destructor to run when the thread exits. Only a running
/// thread registers destructors with itself.
pub fn at_exit(rt: &mut Runtime, h: usize, dtor: usize)
    requires
        old(rt).wf(),
        old(rt).running(h as int),
    ensures
        final(rt).wf(),
        final(rt).threads@ == old(rt).threads@.update(
            h as int,
            Thread { dtors: final(rt).threads@[h as int].dtors, ..old(rt).threads@[h as int] },
        ),
        final(rt).threads@[h as int].dtors@ == old(rt).threads@[h as int].dtors@.push(dtor),
        final(rt).canary == old(rt).canary,
        final(rt).tls_template == old(rt).tls_template,
{
    let t = &mut rt.threads[h];
    t.dtors.push(dtor);
}

/// Read one byte of the thread's TLS block.
pub fn tls_read(rt: &Runtime, h: usize, offset: usize) -> (r: u8)
    requires
        rt.wf(),
        rt.live(h as int),
        offset < rt.tls_template.mem_size,
    ensures
        r == rt.threads@[h as int].tls@[offset as int],
{
    rt.threads[h].tls[offset]
}

/// Write one byte of the thread's TLS block.
///
/// TLS isolation: the write lands in this thread's block alone; every
/// other thread's control block, TLS included, is untouched, and so is
/// every other byte of this thread's block.
pub fn tls_write(rt: &mut Runtime, h: usize, offset: usize, value: u8)
    requires
        old(rt).wf(),
        old(rt).live(h as int),
        offset < old(rt).tls_template.mem_size,
    ensures
        final(rt).wf(),
        final(rt).threads@ == old(rt).threads@.update(
            h as int,
            Thread { tls: final(rt).threads@[h as int].tls, ..old(rt).threads@[h as int] },
        ),
        final(rt).threads@[h as int].tls@ == old(rt).threads@[h as int].tls@.update(
            offset as int,
            value,
        ),
        final(rt).canary == old(rt).canary,
        final(rt).tls_template == old(rt).tls_template,
{
    let t = &mut rt.threads[h];
    t.tls[offset] = value;
}

/// The thread's id as read through its control block: the id the kernel
/// stored at creation, or `None` once the kernel has cleared it at exit.
pub fn id(rt: &Runtime, h: usize) -> (r: Option<i32>)
    requires
        rt.wf(),
        h < rt.threads@.len(),
    ensures
        r == (if rt.threads@[h as int].thread_id != 0 {
            Some(rt.threads@[h as int].thread_id)
        } else {
            None::<i32>
        }),
{
    let raw = rt.threads[h].thread_id;
    if raw != 0 {
        Some(raw)
    } else {
        None
    }
}

/// The thread's stack geometry: lowest stack address, stack size, guard
/// size.
pub fn stack(rt: &Runtime, h: usize) -> (r: (usize, usize, usize))
    requires
        rt.wf(),
        h < rt.threads@.len(),
    ensures
        r.0 == rt.threads@[h as int].stack_addr,
        r.1 == rt.threads@[h as int].stack_size,
        r.2 == rt.threads@[h as int].guard_size,
{
    let t = &rt.threads[h];
    (t.stack_addr, t.stack_size, t.guard_size)
}

/// The kernel's "clear child id on exit" write: once an exited thread's
/// execution truly ends, the kernel zeroes the thread-id word. Waking the
/// futex waiters in `join` is modelled by the caller observing the zero.
pub fn kernel_clear_tid(rt: &mut Runtime, h: usize)
    requires
        old(rt).wf(),
        h < old(rt).threads@.len(),
        old(rt).threads@[h as int].state == LifeState::Abandoned,
    ensures
        final(rt).wf(),
        final(rt).threads@ == old(rt).threads@.update(
            h as int,
            Thread { thread_id: 0, ..old(rt).threads@[h as int] },
        ),
        final(rt).canary == old(rt).canary,
        final(rt).tls_template == old(rt).tls_template,
{
    let t = &mut rt.threads[h];
    t.thread_id = 0;
}

/// A thread's own exit path: run this thread's destructors last-in
/// first-out (re-registrations included), then resolve the detach
/// handshake. A thread that was already detached unmaps its own memory at
/// once (the returned flag says so); otherwise the thread is abandoned, its
/// return value is stored for the joiner, and the memory stays mapped until
/// `join` or a late `detach` reclaims it.
pub fn exit(
    rt: &mut Runtime,
    h: usize,
    return_value: Option<usize>,
    table: &Vec<Vec<usize>>,
    fuel: usize,
) -> (r: (Vec<usize>, bool))
    requires
        old(rt).wf(),
        old(rt).running(h as int),
        dtors::ids_ok(old(rt).threads@[h as int].dtors@, table@.len() as int),
        dtors::table_ok(table@.map_values(|v: Vec<usize>| v@)),
    ensures
        final(rt).wf(),
        r.0@ == dtors::drain_order(
            old(rt).threads@[h as int].dtors@,
            table@.map_values(|v: Vec<usize>| v@),
            fuel as nat,
        ).0,
        final(rt).threads@ == old(rt).threads@.update(h as int, final(rt).threads@[h as int]),
        final(rt).threads@[h as int] == (Thread {
            state: life_step(old(rt).threads@[h as int].state, LifeEvent::Exit).unwrap().0,
            return_value: if old(rt).threads@[h as int].state == LifeState::Initial {
                return_value
            } else {
                old(rt).threads@[h as int].return_value
            },
            dtors: final(rt).threads@[h as int].dtors,
            ..old(rt).threads@[h as int]
        }),
        final(rt).threads@[h as int].dtors@ == dtors::drain_order(
            old(rt).threads@[h as int].dtors@,
            table@.map_values(|v: Vec<usize>| v@),
            fuel as nat,
        ).1,
        r.1 == life_step(old(rt).threads@[h as int].state, LifeEvent::Exit).unwrap().1,
        final(rt).canary == old(rt).canary,
        final(rt).tls_template == old(rt).tls_template,
{
    let t = &mut rt.threads[h];
    let order = dtors::drain(&mut t.dtors, table, fuel);
    match t.state {
        LifeState::Initial => {
            t.state = LifeState::Abandoned;
            t.return_value = return_value;
            (order, false)
        },
        _ => {
            t.state = LifeState::Freed;
            (order, true)
        },
    }
}

/// One round of the wait for a thread's exit. The joiner (or a late
/// detacher) reads the thread-id word, which the kernel clears when the
/// thread's execution ends: zero means the wait is over, and any other
/// value is what the futex wait must be handed as the compare value, so
/// that a clear happening between the read and the wait wakes the waiter
/// instead of being missed. An interrupted wait simply comes back here
/// and reads again.
pub fn wait_for_exit_step(rt: &Runtime, h: usize) -> (r: Option<i32>)
    requires
        h < rt.threads@.len(),
    ensures
        r == (if rt.threads@[h as int].thread_id == 0 {
            None
        } else {
            Some(rt.threads@[h as int].thread_id)
        }),
{
    let tid = rt.threads[h].thread_id;
    if tid == 0 {
        None
    } else {
        Some(tid)
    }
}

/// Wait for an abandoned thread to finish, read the value it stored, and
/// unmap its memory. The caller has seen the kernel clear the thread-id
/// word, which is the futex condition `join` blocks on.
pub fn join(rt: &mut Runtime, h: usize) -> (r: Option<usize>)
    requires
        old(rt).wf(),
        h < old(rt).threads@.len(),
        old(rt).threads@[h as int].state == LifeState::Abandoned,
        old(rt).threads@[h as int].thread_id == 0,
    ensures
        final(rt).wf(),
        r == old(rt).threads@[h as int].return_value,
        final(rt).threads@ == old(rt).threads@.update(
            h as int,
            Thread { state: LifeState::Freed, ..old(rt).threads@[h as int] },
        ),
        final(rt).canary == old(rt).canary,
        final(rt).tls_template == old(rt).tls_template,
{
    let t = &mut rt.threads[h];
    let rv = t.return_value;
    t.state = LifeState::Freed;
    rv
}

/// Mark a thread as detached. If the thread had already exited (it stands
/// abandoned), the detacher first waits for the kernel's exit
/// confirmation — the cleared thread-id word, the same condition `join`
/// blocks on — and then reclaims the memory at once; otherwise the
/// thread's own exit path will. The returned flag says whether this call
/// unmapped the memory.
pub fn detach(rt: &mut Runtime, h: usize) -> (freed: bool)
    requires
        old(rt).wf(),
        h < old(rt).threads@.len(),
        old(rt).threads@[h as int].state == LifeState::Initial || old(rt).threads@[h as int].state
            == LifeState::Abandoned,
        old(rt).threads@[h as int].state == LifeState::Abandoned ==> old(rt).threads@[
            h as int
        ].thread_id == 0,
    ensures
        final(rt).wf(),
        final(rt).threads@ == old(rt).threads@.update(
            h as int,
            Thread {
                state: life_step(old(rt).threads@[h as int].state, LifeEvent::Detach).unwrap().0,
                ..old(rt).threads@[h as int]
            },
        ),
        freed == life_step(old(rt).threads@[h as int].state, LifeEvent::Detach).unwrap().1,
        final(rt).canary == old(rt).canary,
        final(rt).tls_template == old(rt).tls_template,
{
    let t = &mut rt.threads[h];
    match t.state {
        LifeState::Initial => {
            t.state = LifeState::Detached;
            false
        },
        _ => {
            t.state = LifeState::Freed;
            true
        },
    }
}

/// Overwrite the calling thread's recorded id after the process forked:
/// in the child, the kernel gives the (single surviving) thread a new id,
/// and the control block must be told. `tid` is what the kernel now
/// reports for the caller.
pub fn set_current_id_after_a_fork(rt: &mut Runtime, h: usize, tid: i32)
    requires
        old(rt).wf(),
        old(rt).running(h as int),
        tid != 0,
    ensures
        final(rt).wf(),
        final(rt).threads@ == old(rt).threads@.update(
            h as int,
            Thread { thread_id: tid, ..old(rt).threads@[h as int] },
        ),
        final(rt).canary == old(rt).canary,
        final(rt).tls_template == old(rt).tls_template,
{
    let t = &mut rt.threads[h];
    t.thread_id = tid;
}

/// The region that reclaiming a thread's memory must unmap: the whole
/// mapping, from the bottom of the guard region, and exactly once — or
/// nothing for the main thread, whose kernel-provided stack was never
/// mapped by the runtime and is recorded with a zero mapping size.
pub fn free_region(rt: &Runtime, h: usize) -> (r: Option<(usize, usize)>)
    requires
        h < rt.threads@.len(),
        rt.threads@[h as int].guard_size <= rt.threads@[h as int].stack_addr,
    ensures
        (r is Some) <==> rt.threads@[h as int].map_size != 0,
        (r matches Some(g) ==> g.0 == rt.threads@[h as int].stack_addr - rt.threads@[h as int].guard_size
            && g.1 == rt.threads@[h as int].map_size),
{
    let t = &rt.threads[h];
    if t.map_size != 0 {
        Some((t.stack_addr - t.guard_size, t.map_size))
    } else {
        None
    }
}

/// Thread-canary invariant: any two threads whose memory is still mapped
/// carry the same stack canary — in particular, every thread's canary
/// equals the main thread's, immediately after creation and at exit alike.
pub proof fn lemma_canary_uniform(rt: Runtime, i: int, j: int)
    requires
        rt.wf(),
        rt.live(i),
        rt.live(j),
    ensures
        rt.threads@[i].canary == rt.threads@[j].canary,
{
}

/// The default stack size for new threads: a fixed floor, raised to
/// whatever minimum the executable's program headers requested.
pub fn default_stack_size(startup_stack_size: usize) -> (r: usize)
    ensures
        r == (if startup_stack_size >= 0x20000 {
            startup_stack_size as int
        } else {
            0x20000
        }),
{
    if startup_stack_size >= 0x20000 {
        startup_stack_size
    } else {
        0x20000
    }
}

/// The default guard size for new threads: four pages.
pub fn default_guard_size_for(page_size: usize) -> (r: usize)
    requires
        4 * page_size <= usize::MAX,
    ensures
        r == 4 * page_size,
{
    4 * page_size
}

/// What the startup scan tracks while walking the program headers: the
/// link-to-runtime offset learned from `PT_PHDR` or `PT_DYNAMIC`, the TLS
/// segment seen last, and the requested stack size.
pub struct StartupAcc {
    /// Offset to add to link-time addresses.
    pub offset: u64,
    /// A `PT_TLS` header was seen.
    pub has_tls: bool,
    /// Link-time address of the TLS template.
    pub tls_vaddr: u64,
    /// Size of a thread's TLS block.
    pub tls_memsz: u64,
    /// Size of the TLS template's file-backed part.
    pub tls_filesz: u64,
    /// Required TLS alignment.
    pub tls_align: u64,
    /// Minimum stack size the executable requests.
    pub stack_size: u64,
}

/// The startup scan over the program headers, one header at a time, the
/// last occurrence of each kind winning.
pub open spec fn startup_fold(
    s: Seq<crate::elf::Phdr>,
    first_phdr_addr: u64,
    dynamic_addr: u64,
    acc: StartupAcc,
) -> StartupAcc
    decreases s.len(),
{
    if s.len() == 0 {
        acc
    } else {
        let p = s[0];
        let acc2 = if p.p_type == crate::elf::PT_PHDR {
            StartupAcc { offset: first_phdr_addr.wrapping_sub(p.vaddr), ..acc }
        } else if p.p_type == crate::elf::PT_DYNAMIC {
            StartupAcc { offset: dynamic_addr.wrapping_sub(p.vaddr), ..acc }
        } else if p.p_type == crate::elf::PT_TLS {
            StartupAcc {
                has_tls: true,
                tls_vaddr: p.vaddr,
                tls_memsz: p.memsz,
                tls_filesz: p.filesz,
                tls_align: p.align,
                ..acc
            }
        } else if p.p_type == crate::elf::PT_GNU_STACK {
            StartupAcc { stack_size: p.memsz, ..acc }
        } else {
            acc
        };
        startup_fold(s.skip(1), first_phdr_addr, dynamic_addr, acc2)
    }
}

/// The startup TLS descriptor and stack request, as read once from the
/// executable's program headers: the runtime address, sizes and alignment
/// of the TLS template, and the minimum stack size the executable asks
/// for. An executable without a TLS segment gets an empty template with
/// alignment one.
pub struct StartupInfo {
    /// Runtime address of the TLS template; zero when there is none.
    pub tls_addr: u64,
    /// Size of a thread's TLS block.
    pub mem_size: u64,
    /// From this offset up to `mem_size` the block is zero-filled.
    pub file_size: u64,
    /// Required TLS alignment.
    pub align: u64,
    /// Minimum stack size the executable requests.
    pub stack_size: u64,
}

/// Read the executable's program headers once at startup: learn the
/// link-to-runtime offset by comparing a header's link-time address with
/// its known runtime address, find the TLS template segment, and find the
/// requested stack size.
pub fn initialize_startup_info(
    phdrs: &Vec<crate::elf::Phdr>,
    first_phdr_addr: u64,
    dynamic_addr: u64,
) -> (r: StartupInfo)
    ensures
        ({
            let acc = startup_fold(
                phdrs@,
                first_phdr_addr,
                dynamic_addr,
                StartupAcc {
                    offset: 0,
                    has_tls: false,
                    tls_vaddr: 0,
                    tls_memsz: 0,
                    tls_filesz: 0,
                    tls_align: 0,
                    stack_size: 0,
                },
            );
            &&& r.stack_size == acc.stack_size
            &&& (acc.has_tls ==> r.tls_addr == acc.offset.wrapping_add(acc.tls_vaddr)
                && r.mem_size == acc.tls_memsz && r.file_size == acc.tls_filesz && r.align
                == acc.tls_align)
            &&& (!acc.has_tls ==> r.tls_addr == 0 && r.mem_size == 0 && r.file_size == 0
                && r.align == 1)
        }),
{
    let mut acc = StartupAcc {
        offset: 0,
        has_tls: false,
        tls_vaddr: 0,
        tls_memsz: 0,
        tls_filesz: 0,
        tls_align: 0,
        stack_size: 0,
    };
    let ghost acc0 = acc;
    let mut i: usize = 0;
    proof {
        assert(phdrs@.skip(0) =~= phdrs@);
    }
    while i < phdrs.len()
        invariant
            i <= phdrs@.len(),
            startup_fold(phdrs@, first_phdr_addr, dynamic_addr, acc0) == startup_fold(
                phdrs@.skip(i as int),
                first_phdr_addr,
                dynamic_addr,
                acc,
            ),
        decreases phdrs@.len() - i,
    {
        proof {
            assert(phdrs@.skip(i as int)[0] == phdrs@[i as int]);
            assert(phdrs@.skip(i as int).skip(1) == phdrs@.skip(i as int + 1));
        }
        let p_type = phdrs[i].p_type;
        if p_type == crate::elf::PT_PHDR {
            acc.offset = first_phdr_addr.wrapping_sub(phdrs[i].vaddr);
        } else if p_type == crate::elf::PT_DYNAMIC {
            acc.offset = dynamic_addr.wrapping_sub(phdrs[i].vaddr);
        } else if p_type == crate::elf::PT_TLS {
            acc.has_tls = true;
            acc.tls_vaddr = phdrs[i].vaddr;
            acc.tls_memsz = phdrs[i].memsz;
            acc.tls_filesz = phdrs[i].filesz;
            acc.tls_align = phdrs[i].align;
        } else if p_type == crate::elf::PT_GNU_STACK {
            acc.stack_size = phdrs[i].memsz;
        }
        i = i + 1;
    }
    proof {
        assert(phdrs@.skip(phdrs@.len() as int).len() == 0);
    }
    if acc.has_tls {
        StartupInfo {
            tls_addr: acc.offset.wrapping_add(acc.tls_vaddr),
            mem_size: acc.tls_memsz,
            file_size: acc.tls_filesz,
            align: acc.tls_align,
            stack_size: acc.stack_size,
        }
    } else {
        StartupInfo { tls_addr: 0, mem_size: 0, file_size: 0, align: 1, stack_size: acc.stack_size }
    }
}

/// The two logical outcomes of the thread-creation primitive, plus
/// failure. The kernel resumes both the parent and the child at the same
/// instruction; the raw return value is what tells them apart, and the
/// child must jump to the fixed thread-entry path rather than return
/// normally, because it has no call frame to return into.
#[derive(Clone, Copy, PartialEq, Eq, Structural, Debug)]
pub enum CloneOutcome {
    /// The calling side: the new thread's id.
    Parent(i32),
    /// The new thread's side: jump to the thread-entry path.
    Child,
    /// The kernel refused; the error code.
    Failure(i32),
}

/// Classify the raw return value of the thread-creation call: zero on the
/// child side, the new thread's id on the parent side, a negated error
/// code on failure.
pub fn interpret_clone_result(raw: i64) -> (r: CloneOutcome)
    requires
        i32::MIN < raw <= i32::MAX,
    ensures
        raw == 0 ==> r == CloneOutcome::Child,
        raw > 0 ==> r == CloneOutcome::Parent(raw as i32),
        raw < 0 ==> r == CloneOutcome::Failure((-raw) as i32),
{
    if raw == 0 {
        CloneOutcome::Child
    } else if raw > 0 {
        CloneOutcome::Parent(raw as i32)
    } else {
        CloneOutcome::Failure((-raw) as i32)
    }
}

} // verus!
