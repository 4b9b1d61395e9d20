//! Layout of a thread's memory region.
//!
//! Each thread owns one anonymous mapping holding, from the lowest address
//! up: an inaccessible guard region, the usable stack, the thread-local
//! storage (TLS) data, and the thread metadata (the control block the
//! thread-pointer register locates). The functions here compute the byte
//! offsets of those regions inside the mapping, rounding each boundary to
//! the required alignment, and prove that the regions are in order, large
//! enough, and aligned.
//!
//! The model fixes the convention in which TLS data sits immediately below
//! the metadata and ends at the address the thread pointer holds, as the
//! x86-64 ABI lays it out.

use vstd::prelude::*;

verus! {

use vstd::arithmetic::power2::is_pow2;
use crate::arith;

/// The mandatory stack-pointer alignment.
pub const STACK_ALIGNMENT: usize = 16;

/// Offset from the thread pointer to the end of the TLS data.
pub const TLS_OFFSET: usize = 0;

/// Byte offsets of the regions inside a thread's mapping, lowest first:
/// `[0, stack_bottom)` is the guard, `[stack_bottom, stack_top)` the stack,
/// `[tls_data_bottom, header)` the TLS data, and `[header, map_size)` the
/// thread metadata.
pub struct ThreadLayout {
    /// End of the guard region and lowest usable stack address.
    pub stack_bottom: usize,
    /// Top of the stack (stacks grow down from here).
    pub stack_top: usize,
    /// Start of the TLS data.
    pub tls_data_bottom: usize,
    /// Start of the thread metadata.
    pub header: usize,
    /// Total size of the mapping.
    pub map_size: usize,
}

/// The alignment of the metadata: the stricter of the TLS alignment and the
/// control block's own alignment.
pub open spec fn metadata_align(tls_align: int, header_align: int) -> int {
    if tls_align >= header_align {
        tls_align
    } else {
        header_align
    }
}

/// The alignment of stack boundaries: the stricter of the mandatory stack
/// alignment and the metadata alignment.
pub open spec fn stack_boundary_align(tls_align: int, header_align: int) -> int {
    if metadata_align(tls_align, header_align) >= STACK_ALIGNMENT as int {
        metadata_align(tls_align, header_align)
    } else {
        STACK_ALIGNMENT as int
    }
}

/// The inputs the layout computation accepts: power-of-two alignments no
/// stricter than the page size, and sizes small enough that the mapping
/// size cannot overflow.
pub open spec fn layout_inputs_ok(
    stack_size: int,
    guard_size: int,
    tls_mem_size: int,
    tls_align: int,
    header_size: int,
    header_align: int,
    page_size: int,
) -> bool {
    &&& is_pow2(tls_align)
    &&& is_pow2(header_align)
    &&& is_pow2(page_size)
    &&& tls_align <= page_size
    &&& header_align <= page_size
    &&& STACK_ALIGNMENT as int <= page_size
    &&& stack_size + guard_size + tls_mem_size + header_size + 3 * page_size <= usize::MAX
}

/// Compute the layout of a thread's mapping from the requested stack and
/// guard sizes, the startup TLS descriptor's size and alignment, and the
/// metadata type's size and alignment.
///
/// The main thread reuses this with zero stack and guard sizes: its stack
/// already exists, so its mapping holds only the TLS data and the metadata.
pub fn compute_layout(
    stack_size: usize,
    guard_size: usize,
    tls_mem_size: usize,
    tls_align: usize,
    header_size: usize,
    header_align: usize,
    page_size: usize,
) -> (r: ThreadLayout)
    requires
        layout_inputs_ok(
            stack_size as int,
            guard_size as int,
            tls_mem_size as int,
            tls_align as int,
            header_size as int,
            header_align as int,
            page_size as int,
        ),
    ensures
        ({
            let ma = metadata_align(tls_align as int, header_align as int);
            let sba = stack_boundary_align(tls_align as int, header_align as int);
            &&& r.stack_bottom as int % page_size as int == 0
            &&& guard_size <= r.stack_bottom < guard_size + page_size
            &&& r.stack_top as int % sba == 0
            &&& r.stack_bottom + stack_size <= r.stack_top < r.stack_bottom + stack_size + sba
            &&& r.tls_data_bottom == r.stack_top
            &&& r.header as int % ma == 0
            &&& r.tls_data_bottom + tls_mem_size <= r.header < r.tls_data_bottom + tls_mem_size
                + ma
            &&& r.map_size == r.header + header_size
            &&& r.map_size <= usize::MAX
        }),
{
    let ghost ma_g = metadata_align(tls_align as int, header_align as int);
    let ghost sba_g = stack_boundary_align(tls_align as int, header_align as int);
    let ma = arith::max_usize(tls_align, header_align);
    let sba = arith::max_usize(STACK_ALIGNMENT, ma);
    proof {
        arith::lemma_is_pow2_sixteen();
        assert(is_pow2(ma_g));
        assert(is_pow2(sba_g));
        arith::lemma_is_pow2_pos(ma_g);
        arith::lemma_is_pow2_pos(sba_g);
        arith::lemma_pow2_divides(sba_g, page_size as int);
    }
    let stack_bottom = arith::round_up(guard_size, page_size);
    proof {
        arith::lemma_aligned_to_finer(stack_bottom as int, sba_g, page_size as int);
    }
    let stack_room = arith::round_up(stack_size, sba);
    let stack_top = stack_bottom + stack_room;
    proof {
        assert(sba as int == sba_g);
        assert(stack_bottom as int % sba_g == 0);
        assert(stack_room as int % sba_g == 0);
        vstd::arithmetic::div_mod::lemma_add_mod_noop(
            stack_bottom as int,
            stack_room as int,
            sba_g,
        );
        vstd::arithmetic::div_mod::lemma_small_mod(0, sba_g as nat);
        assert(stack_top as int % sba_g == 0);
        arith::lemma_aligned_to_finer(stack_top as int, ma_g, sba_g);
    }
    let tls_data_bottom = stack_top;
    let tls_room = arith::round_up(tls_mem_size, ma);
    let header = tls_data_bottom + tls_room;
    proof {
        vstd::arithmetic::div_mod::lemma_add_mod_noop(
            tls_data_bottom as int,
            tls_room as int,
            ma_g,
        );
        vstd::arithmetic::div_mod::lemma_small_mod(0, ma_g as nat);
        assert(header as int % ma_g == 0);
    }
    let map_size = header + header_size;
    ThreadLayout { stack_bottom, stack_top, tls_data_bottom, header, map_size }
}

/// The address the thread pointer holds for a mapping that starts at
/// `map_addr`: it points at the metadata, where the TLS data ends.
pub fn thread_pointer_addr(map_addr: usize, layout: &ThreadLayout) -> (r: usize)
    requires
        map_addr + layout.map_size <= usize::MAX,
        layout.header <= layout.map_size,
    ensures
        r == map_addr + layout.header,
{
    map_addr + layout.header
}

/// The address of the thread-local variable at `offset` in the TLS segment
/// of the thread whose thread pointer is `tp`: TLS data occupies the
/// `tls_mem_size` bytes ending at the thread pointer.
///
/// `module` is the TLS module index; without dynamic linking the only
/// module is the executable itself, index 1.
pub fn current_tls_addr(tp: usize, tls_mem_size: usize, module: usize, offset: usize) -> (r:
    usize)
    requires
        module == 1,
        tls_mem_size <= tp,
        tp - tls_mem_size + TLS_OFFSET + offset <= usize::MAX,
    ensures
        r == tp - tls_mem_size + TLS_OFFSET + offset,
{
    tp - tls_mem_size + TLS_OFFSET + offset
}

/// Place `num_args` word-sized thread arguments on a new thread's stack:
/// starting from the stack top, make room for the arguments, then round
/// down to the mandatory stack alignment. Returns the address of the
/// argument array, which is also the initial stack pointer of the thread.
pub fn place_args(stack_top_addr: usize, num_args: usize, word_size: usize) -> (r: usize)
    requires
        word_size > 0,
        num_args * word_size <= stack_top_addr,
    ensures
        r as int % STACK_ALIGNMENT as int == 0,
        r + num_args * word_size <= stack_top_addr,
        r + STACK_ALIGNMENT > stack_top_addr - num_args * word_size,
{
    let args_start = stack_top_addr - num_args * word_size;
    arith::round_down(args_start, STACK_ALIGNMENT)
}

} // verus!
