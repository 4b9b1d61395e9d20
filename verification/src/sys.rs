//! The stack-limit query and the decisions made over process-wide
//! parameters.
//!
//! Parameters such as the page size and the hardware-capability words
//! come from the kernel and differ between machines and runs, and reading
//! them lazily can fail in exactly the stripped-down environments this
//! runtime targets; so the functions here take them as plain values, with
//! exact contracts, and the unverified shell around the library reads the
//! real values at startup. The one query made from here is the stack
//! resource limit, whose system call cannot fail.

use vstd::prelude::*;

verus! {

use crate::arith;

/// Relies on `rustix::process::getrlimit` with the stack resource: the
/// soft stack limit in bytes, or `None` when the limit is unlimited. The
/// underlying system call is infallible.
#[verifier::external_body]
fn stack_rlimit() -> Option<u64> {
    rustix::process::getrlimit(rustix::process::Resource::Stack).current
}

/// The main thread's stack geometry for given process parameters, as
/// process entry computes it: the kernel puts the top of the stack just
/// past the argument block (`stack_end`), rounded up to a page; the soft
/// stack limit gives the mapping's extent below it; the stack pointer at
/// entry bounds what is already in use. Returns the lowest stack address,
/// the usable size below the entry stack pointer, and the guard size (one
/// page), exactly when the pieces fit: the page size is nonzero, the
/// rounding does not overflow, the limit reaches no higher than the
/// rounded stack top, and the entry stack pointer lies inside the limit.
pub fn main_stack_geometry_for(stack_end: usize, sp: usize, page: usize, limit: u64) -> (r:
    Option<(usize, usize, usize)>)
    ensures
        (r is Some) <==> (page > 0 && stack_end + page <= usize::MAX && limit <= arith::align_up(
            stack_end as int,
            page as int,
        ) && arith::align_up(stack_end as int, page as int) - limit <= sp),
        (r matches Some(g) ==> g.0 + limit == arith::align_up(stack_end as int, page as int)
            && g.1 == sp - g.0 && g.2 == page),
{
    if page == 0 || stack_end > usize::MAX - page {
        return None;
    }
    let stack_base = arith::round_up(stack_end, page);
    if limit > stack_base as u64 {
        return None;
    }
    let stack_least = stack_base - (limit as usize);
    if sp < stack_least {
        return None;
    }
    Some((stack_least, sp - stack_least, page))
}

/// The main thread's stack geometry on this machine: query the soft stack
/// limit and compute the geometry for it. What the result is for each
/// limit value is `main_stack_geometry_for`'s contract; this returns
/// nothing when the limit is unlimited or the geometry does not fit.
pub fn main_stack_geometry(stack_end: usize, sp: usize, page: usize) -> (r: Option<
    (usize, usize, usize),
>)
    ensures
        (r matches Some(g) ==> g.0 <= sp && g.1 == sp - g.0 && g.2 == page),
{
    match stack_rlimit() {
        Some(limit) => main_stack_geometry_for(stack_end, sp, page, limit),
        None => None,
    }
}

/// Auxiliary-vector key: the primary hardware-capability bits.
pub const AT_HWCAP: u64 = 16;

/// Auxiliary-vector key: the secondary hardware-capability bits.
pub const AT_HWCAP2: u64 = 26;

/// Auxiliary-vector key: the minimum signal-stack size.
pub const AT_MINSIGSTKSZ: u64 = 51;

/// The auxiliary-vector lookup offered to low-level code, over the
/// process parameters the runtime caches at startup: each cached key
/// hands back its value, and any other key hands back nothing.
pub fn getauxval(kind: u64, hwcap: usize, hwcap2: usize, minsigstksz: usize) -> (r: Option<usize>)
    ensures
        r == (if kind == AT_HWCAP {
            Some(hwcap)
        } else if kind == AT_HWCAP2 {
            Some(hwcap2)
        } else if kind == AT_MINSIGSTKSZ {
            Some(minsigstksz)
        } else {
            None::<usize>
        }),
{
    if kind == AT_HWCAP {
        Some(hwcap)
    } else if kind == AT_HWCAP2 {
        Some(hwcap2)
    } else if kind == AT_MINSIGSTKSZ {
        Some(minsigstksz)
    } else {
        None
    }
}

} // verus!
