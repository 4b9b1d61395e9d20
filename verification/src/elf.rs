//! The pieces of the ELF image that the runtime reads at startup: auxiliary
//! vector entries, dynamic-section entries, relocation records and program
//! headers, with the scans that walk them.
//!
//! The model is the 64-bit format. Memory is measured in word-sized cells,
//! so every address and size here counts words.
//!
//! The scans share one convention, inherited from the kernel- and
//! linker-provided arrays they walk: entries are read in order up to the
//! first terminator entry, and when a tag occurs more than once before the
//! terminator, the last occurrence wins.

use vstd::prelude::*;

verus! {

/// Auxiliary-vector terminator.
pub const AT_NULL: u64 = 0;

/// Auxiliary-vector entry: the page size.
pub const AT_PAGESZ: u64 = 6;

/// Auxiliary-vector entry: the interpreter's (dynamic linker's) base
/// address, absent or zero when the kernel loaded no interpreter.
pub const AT_BASE: u64 = 7;

/// Auxiliary-vector entry: the executable's runtime entry address.
pub const AT_ENTRY: u64 = 9;

/// Dynamic-section terminator.
pub const DT_NULL: u64 = 0;

/// Dynamic-section entry: address of the RELA table.
pub const DT_RELA: u64 = 7;

/// Dynamic-section entry: total size of the RELA table.
pub const DT_RELASZ: u64 = 8;

/// Dynamic-section entry: address of the REL table.
pub const DT_REL: u64 = 17;

/// Dynamic-section entry: total size of the REL table.
pub const DT_RELSZ: u64 = 18;

/// Dynamic-section entry: total size of the RELR table.
pub const DT_RELRSZ: u64 = 35;

/// Dynamic-section entry: address of the RELR table.
pub const DT_RELR: u64 = 36;

/// Program header type: the dynamic section.
pub const PT_DYNAMIC: u32 = 2;

/// Program header type: the program-header table itself.
pub const PT_PHDR: u32 = 6;

/// Program header type: the TLS template segment.
pub const PT_TLS: u32 = 7;

/// Program header type: stack-size request.
pub const PT_GNU_STACK: u32 = 0x6474e551;

/// Program header type: the region to make read-only after relocation.
pub const PT_GNU_RELRO: u32 = 0x6474e552;

/// The relocation kind the engine implements: base-relative.
pub const R_RELATIVE: u32 = 8;

/// Words per RELA record (offset, kind with symbol, addend).
pub const RELA_WORDS: u64 = 3;

/// Words per REL record (offset, kind with symbol).
pub const REL_WORDS: u64 = 2;

/// Words per RELR entry.
pub const RELR_WORDS: u64 = 1;

/// One auxiliary-vector entry.
pub struct Aux {
    /// The entry's type.
    pub kind: u64,
    /// The entry's value.
    pub val: u64,
}

/// One dynamic-section entry.
pub struct Dyn {
    /// The entry's tag.
    pub tag: u64,
    /// The entry's value: an address or a size, depending on the tag.
    pub val: u64,
}

/// One RELA relocation record: the target gets `addend` plus the load
/// offset.
pub struct Rela {
    /// Link-time address of the cell to relocate.
    pub offset: u64,
    /// Relocation kind.
    pub kind: u32,
    /// The value to which the load offset is added.
    pub addend: u64,
}

/// One REL relocation record: the addend is whatever the target cell
/// already holds.
pub struct Rel {
    /// Link-time address of the cell to relocate.
    pub offset: u64,
    /// Relocation kind.
    pub kind: u32,
}

/// One program header.
pub struct Phdr {
    /// Segment type.
    pub p_type: u32,
    /// Link-time address of the segment.
    pub vaddr: u64,
    /// Size of the segment in memory.
    pub memsz: u64,
    /// Size of the segment's file-backed part.
    pub filesz: u64,
    /// Required alignment.
    pub align: u64,
}

/// The auxiliary vector holds its terminator entry, as the kernel
/// guarantees.
pub open spec fn aux_terminated(s: Seq<Aux>) -> bool {
    exists|i: int| 0 <= i < s.len() && (#[trigger] s[i]).kind == AT_NULL
}

/// The value the auxiliary-vector scan leaves for `key` when it starts out
/// holding `dflt`.
pub open spec fn aux_scan(s: Seq<Aux>, key: u64, dflt: u64) -> u64
    decreases s.len(),
{
    if s.len() == 0 || s[0].kind == AT_NULL {
        dflt
    } else {
        aux_scan(
            s.skip(1),
            key,
            if s[0].kind == key {
                s[0].val
            } else {
                dflt
            },
        )
    }
}

/// The value of the last entry tagged `key` before the terminator, or zero
/// if there is none.
pub open spec fn auxv_value(s: Seq<Aux>, key: u64) -> u64 {
    aux_scan(s, key, 0)
}

/// What the startup code reads from the auxiliary vector.
pub struct AuxValues {
    /// `AT_BASE`, or zero if absent.
    pub base: u64,
    /// `AT_PAGESZ`, or zero if absent.
    pub page_size: u64,
    /// `AT_ENTRY`, or zero if absent.
    pub entry: u64,
}

/// Walk the auxiliary vector up to its terminator and pick out the base
/// address, page size and entry address.
pub fn scan_auxv(auxv: &Vec<Aux>) -> (r: AuxValues)
    requires
        aux_terminated(auxv@),
    ensures
        r.base == auxv_value(auxv@, AT_BASE),
        r.page_size == auxv_value(auxv@, AT_PAGESZ),
        r.entry == auxv_value(auxv@, AT_ENTRY),
{
    let mut base: u64 = 0;
    let mut page_size: u64 = 0;
    let mut entry: u64 = 0;
    let mut i: usize = 0;
    proof {
        assert(auxv@.skip(0) =~= auxv@);
    }
    while i < auxv.len() && auxv[i].kind != AT_NULL
        invariant
            aux_terminated(auxv@.skip(i as int)),
            0 <= i <= auxv@.len(),
            auxv_value(auxv@, AT_BASE) == aux_scan(auxv@.skip(i as int), AT_BASE, base),
            auxv_value(auxv@, AT_PAGESZ) == aux_scan(auxv@.skip(i as int), AT_PAGESZ, page_size),
            auxv_value(auxv@, AT_ENTRY) == aux_scan(auxv@.skip(i as int), AT_ENTRY, entry),
        decreases auxv@.len() - i,
    {
        proof {
            assert(auxv@.skip(i as int)[0] == auxv@[i as int]);
            assert(auxv@.skip(i as int).skip(1) == auxv@.skip(i as int + 1));
            assert(aux_terminated(auxv@.skip(i as int + 1))) by {
                let w = choose|w: int|
                    0 <= w < auxv@.skip(i as int).len() && (#[trigger] auxv@.skip(i as int)[w]).kind
                        == AT_NULL;
                assert(auxv@.skip(i as int + 1)[w - 1] == auxv@.skip(i as int)[w]);
            }
        }
        let a_type = auxv[i].kind;
        let a_val = auxv[i].val;
        if a_type == AT_BASE {
            base = a_val;
        } else if a_type == AT_PAGESZ {
            page_size = a_val;
        } else if a_type == AT_ENTRY {
            entry = a_val;
        }
        i = i + 1;
    }
    proof {
        if i == auxv@.len() {
            assert(false);
        }
        assert(auxv@.skip(i as int)[0] == auxv@[i as int]);
    }
    AuxValues { base, page_size, entry }
}

/// The dynamic section holds its terminator entry, as the linker
/// guarantees.
pub open spec fn dyn_terminated(s: Seq<Dyn>) -> bool {
    exists|i: int| 0 <= i < s.len() && (#[trigger] s[i]).tag == DT_NULL
}

/// The value the dynamic-section scan leaves for `key` when it starts out
/// holding `dflt`.
pub open spec fn dyn_scan(s: Seq<Dyn>, key: u64, dflt: u64) -> u64
    decreases s.len(),
{
    if s.len() == 0 || s[0].tag == DT_NULL {
        dflt
    } else {
        dyn_scan(
            s.skip(1),
            key,
            if s[0].tag == key {
                s[0].val
            } else {
                dflt
            },
        )
    }
}

/// The value of the last entry tagged `key` before the terminator, or zero
/// if there is none.
pub open spec fn dyn_value(s: Seq<Dyn>, key: u64) -> u64 {
    dyn_scan(s, key, 0)
}

/// The table addresses and sizes the dynamic-section walk finds, all zero
/// when the corresponding tag is absent. Sizes count words.
pub struct DynTables {
    /// `DT_RELA`: link-time address of the RELA table.
    pub rela_addr: u64,
    /// `DT_RELASZ`: total size of the RELA table.
    pub rela_size: u64,
    /// `DT_REL`: link-time address of the REL table.
    pub rel_addr: u64,
    /// `DT_RELSZ`: total size of the REL table.
    pub rel_size: u64,
    /// `DT_RELR`: link-time address of the RELR table.
    pub relr_addr: u64,
    /// `DT_RELRSZ`: total size of the RELR table.
    pub relr_size: u64,
}

/// Walk the dynamic section up to its terminator and find the location and
/// size of each relocation table.
pub fn scan_dynamic(dynv: &Vec<Dyn>) -> (r: DynTables)
    requires
        dyn_terminated(dynv@),
    ensures
        r.rela_addr == dyn_value(dynv@, DT_RELA),
        r.rela_size == dyn_value(dynv@, DT_RELASZ),
        r.rel_addr == dyn_value(dynv@, DT_REL),
        r.rel_size == dyn_value(dynv@, DT_RELSZ),
        r.relr_addr == dyn_value(dynv@, DT_RELR),
        r.relr_size == dyn_value(dynv@, DT_RELRSZ),
{
    let mut r = DynTables {
        rela_addr: 0,
        rela_size: 0,
        rel_addr: 0,
        rel_size: 0,
        relr_addr: 0,
        relr_size: 0,
    };
    let mut i: usize = 0;
    proof {
        assert(dynv@.skip(0) =~= dynv@);
    }
    while i < dynv.len() && dynv[i].tag != DT_NULL
        invariant
            dyn_terminated(dynv@.skip(i as int)),
            0 <= i <= dynv@.len(),
            dyn_value(dynv@, DT_RELA) == dyn_scan(dynv@.skip(i as int), DT_RELA, r.rela_addr),
            dyn_value(dynv@, DT_RELASZ) == dyn_scan(dynv@.skip(i as int), DT_RELASZ, r.rela_size),
            dyn_value(dynv@, DT_REL) == dyn_scan(dynv@.skip(i as int), DT_REL, r.rel_addr),
            dyn_value(dynv@, DT_RELSZ) == dyn_scan(dynv@.skip(i as int), DT_RELSZ, r.rel_size),
            dyn_value(dynv@, DT_RELR) == dyn_scan(dynv@.skip(i as int), DT_RELR, r.relr_addr),
            dyn_value(dynv@, DT_RELRSZ) == dyn_scan(dynv@.skip(i as int), DT_RELRSZ, r.relr_size),
        decreases dynv@.len() - i,
    {
        proof {
            assert(dynv@.skip(i as int)[0] == dynv@[i as int]);
            assert(dynv@.skip(i as int).skip(1) == dynv@.skip(i as int + 1));
            assert(dyn_terminated(dynv@.skip(i as int + 1))) by {
                let w = choose|w: int|
                    0 <= w < dynv@.skip(i as int).len() && (#[trigger] dynv@.skip(i as int)[w]).tag
                        == DT_NULL;
                assert(dynv@.skip(i as int + 1)[w - 1] == dynv@.skip(i as int)[w]);
            }
        }
        let d_tag = dynv[i].tag;
        let d_val = dynv[i].val;
        if d_tag == DT_RELA {
            r.rela_addr = d_val;
        } else if d_tag == DT_RELASZ {
            r.rela_size = d_val;
        } else if d_tag == DT_REL {
            r.rel_addr = d_val;
        } else if d_tag == DT_RELSZ {
            r.rel_size = d_val;
        } else if d_tag == DT_RELR {
            r.relr_addr = d_val;
        } else if d_tag == DT_RELRSZ {
            r.relr_size = d_val;
        }
        i = i + 1;
    }
    proof {
        if i == dynv@.len() {
            assert(false);
        }
        assert(dynv@.skip(i as int)[0] == dynv@[i as int]);
    }
    r
}

} // verus!
