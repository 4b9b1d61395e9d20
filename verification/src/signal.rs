//! The signal-registration facade.
//!
//! The kernel requires every registered signal handler to name a restorer:
//! the trampoline it jumps to when the handler returns, which issues the
//! return-from-signal system call. Omitting it is undefined behavior on
//! handler return, so the facade fills it in on every registration: it
//! forces the restorer flag on and picks the trampoline that matches
//! whether the handler asked for the extended signal-information calling
//! convention. A query (no new action) passes through untouched.

use vstd::prelude::*;

verus! {

/// Flag: the handler uses the three-argument, extended-information calling
/// convention.
pub const SA_SIGINFO: u64 = 4;

/// Flag: the action names a restorer trampoline.
pub const SA_RESTORER: u64 = 0x0400_0000;

/// The default disposition sentinel.
pub const SIG_DFL: u64 = 0;

/// The ignore-this-signal sentinel.
pub const SIG_IGN: u64 = 1;

/// Which return-from-signal trampoline an action names.
#[derive(Clone, Copy, PartialEq, Eq, Structural, Debug)]
pub enum Restorer {
    /// No trampoline set; only a caller-supplied action starts this way.
    Unset,
    /// The trampoline for handlers using the extended convention.
    SignalInfo,
    /// The trampoline for plain one-argument handlers.
    NoInfo,
}

/// One signal action, as handed to the registration call.
#[derive(Clone, Copy, PartialEq, Eq, Structural, Debug)]
pub struct Sigaction {
    /// Handler address, or one of the disposition sentinels.
    pub handler: u64,
    /// Behavior flags.
    pub flags: u64,
    /// The restorer trampoline the action names.
    pub restorer: Restorer,
    /// Signals blocked while the handler runs.
    pub mask: u64,
}

/// Fill in the restorer of an action about to be registered: force the
/// restorer flag on, and name the extended-convention trampoline exactly
/// when the action asks for the extended convention.
pub fn prepare_sigaction(action: Sigaction) -> (r: Sigaction)
    ensures
        r.flags == action.flags | SA_RESTORER,
        r.restorer == (if action.flags & SA_SIGINFO != 0 {
            Restorer::SignalInfo
        } else {
            Restorer::NoInfo
        }),
        r.handler == action.handler,
        r.mask == action.mask,
{
    let restorer = if action.flags & SA_SIGINFO != 0 {
        Restorer::SignalInfo
    } else {
        Restorer::NoInfo
    };
    Sigaction { flags: action.flags | SA_RESTORER, restorer, ..action }
}

/// What the registration call passes to the kernel: a query (no action)
/// goes through untouched; a registration gets its restorer filled in.
pub fn sigaction(action: Option<Sigaction>) -> (r: Option<Sigaction>)
    ensures
        action is None ==> r is None,
        (action matches Some(a) ==> (r matches Some(p) && p.flags == (a.flags | SA_RESTORER)
            && p.restorer == (if a.flags & SA_SIGINFO != 0 {
            Restorer::SignalInfo
        } else {
            Restorer::NoInfo
        }) && p.handler == a.handler && p.mask == a.mask)),
{
    match action {
        Some(a) => Some(prepare_sigaction(a)),
        None => None,
    }
}

/// The ignore-this-signal handler value.
pub fn sig_ign() -> (r: u64)
    ensures
        r == SIG_IGN,
{
    SIG_IGN
}

} // verus!
