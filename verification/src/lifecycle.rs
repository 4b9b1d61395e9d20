//! The join/detach lifecycle of one thread's memory.
//!
//! A thread's control block carries a tri-state `detached` byte. Together
//! with whether the memory region has been unmapped yet, the reachable
//! combinations form the small state machine below. The runtime's `detach`,
//! `join` and thread-exit paths each perform one step of it; the law at the
//! bottom shows that along any sequence of steps the region is unmapped
//! exactly once, by whichever party observes that the thread already exited.

use vstd::prelude::*;

verus! {

/// The lifecycle states of a thread's memory region.
#[derive(Clone, Copy, PartialEq, Eq, Structural, Debug)]
pub enum LifeState {
    /// Running; neither `join` nor `detach` has been requested yet.
    Initial,
    /// Running; the caller relinquished interest by calling `detach`.
    Detached,
    /// Exited before being joined or detached; the memory awaits whichever
    /// of `join` or a late `detach` comes to reclaim it.
    Abandoned,
    /// The memory region has been unmapped.
    Freed,
}

/// The three operations that move a thread through its lifecycle.
#[derive(Clone, Copy, PartialEq, Eq, Structural, Debug)]
pub enum LifeEvent {
    /// `detach` was called on the thread's handle.
    Detach,
    /// The thread's own exit path ran (after its destructors).
    Exit,
    /// `join` was called on the handle and the wait for exit completed.
    Join,
}

/// One lifecycle step: the state after `ev`, and whether this step is the
/// one that unmaps the thread's memory. `None` marks the combinations the
/// interface forbids: detaching or joining a handle that was already
/// detached or joined, exiting twice, or joining a thread that was detached.
pub open spec fn life_step(s: LifeState, ev: LifeEvent) -> Option<(LifeState, bool)> {
    match (s, ev) {
        (LifeState::Initial, LifeEvent::Detach) => Some((LifeState::Detached, false)),
        (LifeState::Initial, LifeEvent::Exit) => Some((LifeState::Abandoned, false)),
        (LifeState::Detached, LifeEvent::Exit) => Some((LifeState::Freed, true)),
        (LifeState::Abandoned, LifeEvent::Detach) => Some((LifeState::Freed, true)),
        (LifeState::Abandoned, LifeEvent::Join) => Some((LifeState::Freed, true)),
        _ => None,
    }
}

/// Run a sequence of lifecycle events; `None` if any step is forbidden.
pub open spec fn life_run(s: LifeState, evs: Seq<LifeEvent>) -> Option<LifeState>
    decreases evs.len(),
{
    if evs.len() == 0 {
        Some(s)
    } else {
        match life_step(s, evs[0]) {
            Some(next) => life_run(next.0, evs.skip(1)),
            None => None,
        }
    }
}

/// How many steps of a valid event sequence unmap the memory.
pub open spec fn life_frees(s: LifeState, evs: Seq<LifeEvent>) -> int
    decreases evs.len(),
{
    if evs.len() == 0 {
        0
    } else {
        match life_step(s, evs[0]) {
            Some(next) => (if next.1 {
                1int
            } else {
                0int
            }) + life_frees(next.0, evs.skip(1)),
            None => 0,
        }
    }
}

/// Executable lifecycle step, as performed by `detach`, `join` and the
/// thread-exit path.
pub fn step(s: LifeState, ev: LifeEvent) -> (r: Option<(LifeState, bool)>)
    ensures
        r == life_step(s, ev),
{
    match (s, ev) {
        (LifeState::Initial, LifeEvent::Detach) => Some((LifeState::Detached, false)),
        (LifeState::Initial, LifeEvent::Exit) => Some((LifeState::Abandoned, false)),
        (LifeState::Detached, LifeEvent::Exit) => Some((LifeState::Freed, true)),
        (LifeState::Abandoned, LifeEvent::Detach) => Some((LifeState::Freed, true)),
        (LifeState::Abandoned, LifeEvent::Join) => Some((LifeState::Freed, true)),
        _ => None,
    }
}

/// No lifecycle event is valid once the memory is freed: whoever unmapped
/// it was the last party to touch the thread.
pub proof fn lemma_freed_is_terminal(evs: Seq<LifeEvent>)
    requires
        life_run(LifeState::Freed, evs) is Some,
    ensures
        evs.len() == 0,
        life_frees(LifeState::Freed, evs) == 0,
{
}

/// Join/detach exclusivity: along any valid sequence of lifecycle events
/// from a state where the memory is still mapped, the memory is unmapped
/// exactly once if the run ends in `Freed` and never otherwise. In
/// particular it is never unmapped twice (no double free), and a thread
/// that is detached and then exits naturally is unmapped exactly once
/// (no leak).
pub proof fn lemma_free_exactly_once(s: LifeState, evs: Seq<LifeEvent>)
    requires
        life_run(s, evs) is Some,
        s != LifeState::Freed,
    ensures
        life_frees(s, evs) == if life_run(s, evs) == Some(LifeState::Freed) {
            1int
        } else {
            0int
        },
    decreases evs.len(),
{
    if evs.len() > 0 {
        let next = life_step(s, evs[0]).unwrap();
        if next.0 == LifeState::Freed {
            lemma_freed_is_terminal(evs.skip(1));
        } else {
            lemma_free_exactly_once(next.0, evs.skip(1));
        }
    }
}

} // verus!
