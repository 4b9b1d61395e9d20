//! Self-relocation for static position-independent executables.
//!
//! A static PIE starts running before anything has applied its relative
//! relocations, so the runtime must apply them itself. The image model
//! below holds the loaded image's memory as word cells indexed by
//! link-time address, together with the tables the pass reads: the
//! auxiliary vector, the dynamic section, the three relocation tables and
//! the program headers.
//!
//! Whether relocation is needed at all is decided by one probe cell,
//! `static_start_addr`: a cell that the linker fills with the link-time
//! address of the entry trampoline and that is itself subject to a relative
//! relocation. Before relocation it holds the link-time entry address;
//! after relocation it holds the runtime one, which is what the auxiliary
//! vector's entry value reports. Comparing the two therefore tells apart
//! the four load cases: a plain static executable and a dynamically linked
//! one need nothing, while a static PIE (no interpreter base) and an image
//! acting as its own dynamic linker (interpreter base supplied) relocate
//! themselves. The same comparison makes the pass idempotent, which is the
//! law proved at the bottom.

use vstd::prelude::*;

verus! {

use crate::elf::{
    Aux,
    Dyn,
    Rela,
    Rel,
    Phdr,
    aux_terminated,
    dyn_terminated,
    scan_auxv,
    scan_dynamic,
    auxv_value,
    dyn_value,
    AT_BASE,
    AT_PAGESZ,
    AT_ENTRY,
    DT_RELA,
    DT_RELASZ,
    DT_REL,
    DT_RELSZ,
    DT_RELR,
    DT_RELRSZ,
    RELA_WORDS,
    REL_WORDS,
    RELR_WORDS,
    PT_GNU_RELRO,
    R_RELATIVE,
};

/// The loaded image, as the relocation pass sees it. Memory is word cells
/// indexed by link-time address; the tables are the parsed contents of the
/// regions that the dynamic section and the kernel describe.
pub struct Image {
    /// The image's memory.
    pub mem: Vec<u64>,
    /// The kernel-provided auxiliary vector.
    pub auxv: Vec<Aux>,
    /// The dynamic section.
    pub dynv: Vec<Dyn>,
    /// The RELA table the dynamic section points at.
    pub rela: Vec<Rela>,
    /// The REL table the dynamic section points at.
    pub rel: Vec<Rel>,
    /// The RELR table the dynamic section points at.
    pub relr: Vec<u64>,
    /// The program headers.
    pub phdrs: Vec<Phdr>,
    /// The entry field of the ELF header: the link-time address of the
    /// entry trampoline.
    pub ehdr_entry: u64,
    /// Link-time address of the probe cell holding the entry trampoline's
    /// absolute address.
    pub static_start_addr: u64,
}

/// Apply one base-relative relocation whose addend is what the cell holds:
/// the cell at `addr` gets the load offset added.
pub open spec fn site_applied(mem: Seq<u64>, addr: u64, offset: u64) -> Seq<u64> {
    mem.update(addr as int, mem[addr as int].wrapping_add(offset))
}

/// Apply a RELA table in order: each target cell is set to the record's
/// addend plus the load offset.
pub open spec fn rela_applied(mem: Seq<u64>, entries: Seq<Rela>, offset: u64) -> Seq<u64>
    decreases entries.len(),
{
    if entries.len() == 0 {
        mem
    } else {
        rela_applied(
            mem.update(entries[0].offset as int, entries[0].addend.wrapping_add(offset)),
            entries.skip(1),
            offset,
        )
    }
}

/// Apply a REL table in order: each target cell gets the load offset added
/// to whatever it holds.
pub open spec fn rel_applied(mem: Seq<u64>, entries: Seq<Rel>, offset: u64) -> Seq<u64>
    decreases entries.len(),
{
    if entries.len() == 0 {
        mem
    } else {
        rel_applied(site_applied(mem, entries[0].offset, offset), entries.skip(1), offset)
    }
}

/// Apply the sites a RELR bitmap entry encodes, bits `k` and up: bit `k`
/// of the entry marks the cell at `cursor + (k - 1)`.
pub open spec fn relr_bitmap_applied(mem: Seq<u64>, entry: u64, offset: u64, cursor: u64, k: int)
    -> Seq<u64>
    decreases 64 - k,
{
    if k < 1 || k >= 64 {
        mem
    } else {
        let m2 = if (entry >> (k as u64)) & 1 == 1 {
            site_applied(mem, cursor.wrapping_add((k - 1) as u64), offset)
        } else {
            mem
        };
        relr_bitmap_applied(m2, entry, offset, cursor, k + 1)
    }
}

/// Apply a RELR table in order. An even entry names one cell to relocate
/// and moves the cursor just past it; an odd entry is a bitmap of 63 cells
/// after the cursor, and moves the cursor past them all.
pub open spec fn relr_applied(mem: Seq<u64>, entries: Seq<u64>, offset: u64, cursor: u64) -> Seq<
    u64,
>
    decreases entries.len(),
{
    if entries.len() == 0 {
        mem
    } else {
        let e = entries[0];
        if e & 1 == 0 {
            relr_applied(site_applied(mem, e, offset), entries.skip(1), offset, e.wrapping_add(1))
        } else {
            relr_applied(
                relr_bitmap_applied(mem, e, offset, cursor, 1),
                entries.skip(1),
                offset,
                cursor.wrapping_add(63),
            )
        }
    }
}

/// Every RELA target lies inside the image.
pub open spec fn rela_in_bounds(entries: Seq<Rela>, len: int) -> bool {
    forall|i: int| 0 <= i < entries.len() ==> (#[trigger] entries[i]).offset < len
}

/// Every REL target lies inside the image.
pub open spec fn rel_in_bounds(entries: Seq<Rel>, len: int) -> bool {
    forall|i: int| 0 <= i < entries.len() ==> (#[trigger] entries[i]).offset < len
}

/// Every cell a RELR bitmap entry marks from bit `k` up lies inside the
/// image.
pub open spec fn relr_bitmap_in_bounds(entry: u64, cursor: u64, len: int, k: int) -> bool
    decreases 64 - k,
{
    if k < 1 || k >= 64 {
        true
    } else {
        &&& ((entry >> (k as u64)) & 1 == 1 ==> cursor.wrapping_add((k - 1) as u64) < len)
        &&& relr_bitmap_in_bounds(entry, cursor, len, k + 1)
    }
}

/// Every cell the RELR table marks lies inside the image.
pub open spec fn relr_in_bounds(entries: Seq<u64>, cursor: u64, len: int) -> bool
    decreases entries.len(),
{
    if entries.len() == 0 {
        true
    } else {
        let e = entries[0];
        if e & 1 == 0 {
            e < len && relr_in_bounds(entries.skip(1), e.wrapping_add(1), len)
        } else {
            relr_bitmap_in_bounds(e, cursor, len, 1) && relr_in_bounds(
                entries.skip(1),
                cursor.wrapping_add(63),
                len,
            )
        }
    }
}

/// Every RELA record is base-relative.
pub open spec fn rela_all_relative(entries: Seq<Rela>) -> bool {
    forall|i: int| 0 <= i < entries.len() ==> (#[trigger] entries[i]).kind == R_RELATIVE
}

/// Every REL record is base-relative.
pub open spec fn rel_all_relative(entries: Seq<Rel>) -> bool {
    forall|i: int| 0 <= i < entries.len() ==> (#[trigger] entries[i]).kind == R_RELATIVE
}

impl Image {
    /// What the pass assumes of a loaded image: the kernel- and
    /// linker-provided arrays are terminated, the probe cell and every
    /// relocation target lie inside memory, the dynamic section's table
    /// sizes describe the parsed tables, and the page size is a power of
    /// two.
    pub open spec fn wf(&self) -> bool {
        &&& aux_terminated(self.auxv@)
        &&& dyn_terminated(self.dynv@)
        &&& self.static_start_addr < self.mem@.len()
        &&& rela_in_bounds(self.rela@, self.mem@.len() as int)
        &&& rel_in_bounds(self.rel@, self.mem@.len() as int)
        &&& relr_in_bounds(self.relr@, 0, self.mem@.len() as int)
        &&& dyn_value(self.dynv@, DT_RELASZ) == RELA_WORDS * self.rela@.len()
        &&& dyn_value(self.dynv@, DT_RELSZ) == REL_WORDS * self.rel@.len()
        &&& dyn_value(self.dynv@, DT_RELRSZ) == RELR_WORDS * self.relr@.len()
        &&& vstd::arithmetic::power2::is_pow2(auxv_value(self.auxv@, AT_PAGESZ) as int)
    }

    /// The load offset: runtime entry address minus link-time entry
    /// address when there is no interpreter (static PIE), or the
    /// interpreter base the kernel supplied when this image is the
    /// interpreter itself.
    pub open spec fn reloc_offset(&self) -> u64 {
        if auxv_value(self.auxv@, AT_BASE) == 0 {
            auxv_value(self.auxv@, AT_ENTRY).wrapping_sub(self.ehdr_entry)
        } else {
            auxv_value(self.auxv@, AT_BASE)
        }
    }

    /// The memory after all three tables are applied, RELA then REL then
    /// RELR, as the pass performs them.
    pub open spec fn tables_applied(&self, mem: Seq<u64>) -> Seq<u64> {
        relr_applied(
            rel_applied(rela_applied(mem, self.rela@, self.reloc_offset()), self.rel@,
                self.reloc_offset()),
            self.relr@,
            self.reloc_offset(),
            0,
        )
    }

    /// One run of the relocation pass over `mem`: a no-op when the probe
    /// cell already holds the runtime entry address, the full table
    /// application otherwise.
    pub open spec fn relocate_once(&self, mem: Seq<u64>) -> Seq<u64> {
        if mem[self.static_start_addr as int] == auxv_value(self.auxv@, AT_ENTRY) {
            mem
        } else {
            self.tables_applied(mem)
        }
    }
}

/// Applying a RELA table never changes the memory's length.
pub proof fn lemma_rela_applied_len(mem: Seq<u64>, entries: Seq<Rela>, offset: u64)
    requires
        rela_in_bounds(entries, mem.len() as int),
    ensures
        rela_applied(mem, entries, offset).len() == mem.len(),
        rela_in_bounds(entries, rela_applied(mem, entries, offset).len() as int),
    decreases entries.len(),
{
    if entries.len() > 0 {
        let mem2 = mem.update(entries[0].offset as int, entries[0].addend.wrapping_add(offset));
        assert(rela_in_bounds(entries.skip(1), mem2.len() as int)) by {
            assert(forall|i: int|
                0 <= i < entries.skip(1).len() ==> (#[trigger] entries.skip(1)[i]) == entries[i
                    + 1]);
        }
        lemma_rela_applied_len(mem2, entries.skip(1), offset);
    }
}

/// A cell that no RELA record targets keeps its value.
pub proof fn lemma_rela_applied_untouched(mem: Seq<u64>, entries: Seq<Rela>, offset: u64, j: int)
    requires
        0 <= j < mem.len(),
        rela_in_bounds(entries, mem.len() as int),
        forall|i: int| 0 <= i < entries.len() ==> (#[trigger] entries[i]).offset != j,
    ensures
        rela_applied(mem, entries, offset).len() == mem.len(),
        rela_applied(mem, entries, offset)[j] == mem[j],
    decreases entries.len(),
{
    if entries.len() > 0 {
        let mem2 = mem.update(entries[0].offset as int, entries[0].addend.wrapping_add(offset));
        assert(forall|i: int|
            0 <= i < entries.skip(1).len() ==> (#[trigger] entries.skip(1)[i]) == entries[i + 1]);
        lemma_rela_applied_untouched(mem2, entries.skip(1), offset, j);
    }
}

/// A cell that some RELA record targets, always with the same addend,
/// ends up holding that addend plus the load offset.
pub proof fn lemma_rela_applied_at(mem: Seq<u64>, entries: Seq<Rela>, offset: u64, j: int, a: u64)
    requires
        0 <= j < mem.len(),
        rela_in_bounds(entries, mem.len() as int),
        exists|i: int| 0 <= i < entries.len() && (#[trigger] entries[i]).offset == j,
        forall|i: int|
            0 <= i < entries.len() && (#[trigger] entries[i]).offset == j ==> entries[i].addend
                == a,
    ensures
        rela_applied(mem, entries, offset)[j] == a.wrapping_add(offset),
    decreases entries.len(),
{
    let mem2 = mem.update(entries[0].offset as int, entries[0].addend.wrapping_add(offset));
    assert(forall|i: int|
        0 <= i < entries.skip(1).len() ==> (#[trigger] entries.skip(1)[i]) == entries[i + 1]);
    assert(rela_in_bounds(entries.skip(1), mem2.len() as int));
    if exists|i: int| 0 <= i < entries.skip(1).len() && (#[trigger] entries.skip(1)[i]).offset
        == j {
        lemma_rela_applied_at(mem2, entries.skip(1), offset, j, a);
    } else {
        assert(entries[0].offset == j) by {
            let w = choose|i: int| 0 <= i < entries.len() && (#[trigger] entries[i]).offset == j;
            if w > 0 {
                assert(entries.skip(1)[w - 1] == entries[w]);
                assert(false);
            }
        }
        assert(mem2[j] == a.wrapping_add(offset));
        lemma_rela_applied_untouched(mem2, entries.skip(1), offset, j);
    }
}

/// A cell that no REL record targets keeps its value.
pub proof fn lemma_rel_applied_untouched(mem: Seq<u64>, entries: Seq<Rel>, offset: u64, j: int)
    requires
        0 <= j < mem.len(),
        rel_in_bounds(entries, mem.len() as int),
        forall|i: int| 0 <= i < entries.len() ==> (#[trigger] entries[i]).offset != j,
    ensures
        rel_applied(mem, entries, offset).len() == mem.len(),
        rel_applied(mem, entries, offset)[j] == mem[j],
    decreases entries.len(),
{
    if entries.len() > 0 {
        assert(forall|i: int|
            0 <= i < entries.skip(1).len() ==> (#[trigger] entries.skip(1)[i]) == entries[i + 1]);
        lemma_rel_applied_untouched(site_applied(mem, entries[0].offset, offset), entries.skip(1),
            offset, j);
    }
}

/// The cells a RELR bitmap entry marks from bit `k` up.
pub open spec fn relr_bitmap_touches(entry: u64, cursor: u64, k: int, j: int) -> bool
    decreases 64 - k,
{
    if k < 1 || k >= 64 {
        false
    } else {
        ((entry >> (k as u64)) & 1 == 1 && cursor.wrapping_add((k - 1) as u64) == j)
            || relr_bitmap_touches(entry, cursor, k + 1, j)
    }
}

/// The cells the RELR table marks.
pub open spec fn relr_touches(entries: Seq<u64>, cursor: u64, j: int) -> bool
    decreases entries.len(),
{
    if entries.len() == 0 {
        false
    } else {
        let e = entries[0];
        if e & 1 == 0 {
            e == j || relr_touches(entries.skip(1), e.wrapping_add(1), j)
        } else {
            relr_bitmap_touches(e, cursor, 1, j) || relr_touches(
                entries.skip(1),
                cursor.wrapping_add(63),
                j,
            )
        }
    }
}

/// A cell a RELR bitmap entry does not mark keeps its value.
pub proof fn lemma_relr_bitmap_untouched(
    mem: Seq<u64>,
    entry: u64,
    offset: u64,
    cursor: u64,
    k: int,
    j: int,
)
    requires
        0 <= j < mem.len(),
        relr_bitmap_in_bounds(entry, cursor, mem.len() as int, k),
        !relr_bitmap_touches(entry, cursor, k, j),
    ensures
        relr_bitmap_applied(mem, entry, offset, cursor, k).len() == mem.len(),
        relr_bitmap_applied(mem, entry, offset, cursor, k)[j] == mem[j],
    decreases 64 - k,
{
    if 1 <= k < 64 {
        let m2 = if (entry >> (k as u64)) & 1 == 1 {
            site_applied(mem, cursor.wrapping_add((k - 1) as u64), offset)
        } else {
            mem
        };
        lemma_relr_bitmap_untouched(m2, entry, offset, cursor, k + 1, j);
    }
}

/// A cell the RELR table does not mark keeps its value.
pub proof fn lemma_relr_applied_untouched(
    mem: Seq<u64>,
    entries: Seq<u64>,
    offset: u64,
    cursor: u64,
    j: int,
)
    requires
        0 <= j < mem.len(),
        relr_in_bounds(entries, cursor, mem.len() as int),
        !relr_touches(entries, cursor, j),
    ensures
        relr_applied(mem, entries, offset, cursor).len() == mem.len(),
        relr_applied(mem, entries, offset, cursor)[j] == mem[j],
    decreases entries.len(),
{
    if entries.len() > 0 {
        let e = entries[0];
        if e & 1 == 0 {
            lemma_relr_applied_untouched(site_applied(mem, e, offset), entries.skip(1), offset,
                e.wrapping_add(1), j);
        } else {
            lemma_relr_bitmap_untouched(mem, e, offset, cursor, 1, j);
            lemma_relr_applied_untouched(relr_bitmap_applied(mem, e, offset, cursor, 1),
                entries.skip(1), offset, cursor.wrapping_add(63), j);
        }
    }
}

/// What idempotence rests on, all facts a well-formed static PIE provides:
/// no interpreter base, and the probe cell is relocated exactly once, by a
/// RELA record whose addend is the link-time entry address.
pub open spec fn probe_cell_relocated(img: Image) -> bool {
    &&& img.wf()
    &&& auxv_value(img.auxv@, AT_BASE) == 0
    &&& exists|i: int|
        0 <= i < img.rela@.len() && (#[trigger] img.rela@[i]).offset == img.static_start_addr
    &&& forall|i: int|
        0 <= i < img.rela@.len() && (#[trigger] img.rela@[i]).offset == img.static_start_addr
            ==> img.rela@[i].addend == img.ehdr_entry
    &&& forall|i: int| 0 <= i < img.rel@.len() ==> (#[trigger] img.rel@[i]).offset
        != img.static_start_addr
    &&& !relr_touches(img.relr@, 0, img.static_start_addr as int)
}

/// After the tables are applied, the probe cell holds the runtime entry
/// address: exactly the condition under which a later run of the pass
/// leaves memory untouched.
pub proof fn lemma_probe_cell_after_pass(img: Image, mem: Seq<u64>)
    requires
        probe_cell_relocated(img),
        mem.len() == img.mem@.len(),
    ensures
        img.tables_applied(mem)[img.static_start_addr as int] == auxv_value(img.auxv@, AT_ENTRY),
{
    let off = img.reloc_offset();
    let ss = img.static_start_addr as int;
    let m1 = rela_applied(mem, img.rela@, off);
    lemma_rela_applied_len(mem, img.rela@, off);
    lemma_rela_applied_at(mem, img.rela@, off, ss, img.ehdr_entry);
    lemma_rel_applied_untouched(m1, img.rel@, off, ss);
    lemma_relr_applied_untouched(rel_applied(m1, img.rel@, off), img.relr@, off, 0, ss);
    assert(img.ehdr_entry.wrapping_add(auxv_value(img.auxv@, AT_ENTRY).wrapping_sub(
        img.ehdr_entry)) == auxv_value(img.auxv@, AT_ENTRY));
}

/// Idempotent relocation: running the pass a second time on an
/// already-relocated image is a no-op, so running it twice leaves the
/// memory identical to running it once.
pub proof fn lemma_relocate_idempotent(img: Image)
    requires
        probe_cell_relocated(img),
    ensures
        img.relocate_once(img.relocate_once(img.mem@)) == img.relocate_once(img.mem@),
{
    let mem = img.mem@;
    let once = img.relocate_once(mem);
    if mem[img.static_start_addr as int] == auxv_value(img.auxv@, AT_ENTRY) {
    } else {
        lemma_probe_cell_after_pass(img, mem);
        assert(once[img.static_start_addr as int] == auxv_value(img.auxv@, AT_ENTRY));
    }
}

/// The regions and identity an image keeps across the pass: everything but
/// the memory contents.
pub open spec fn same_tables(a: Image, b: Image) -> bool {
    &&& a.auxv@ == b.auxv@
    &&& a.dynv@ == b.dynv@
    &&& a.rela@ == b.rela@
    &&& a.rel@ == b.rel@
    &&& a.relr@ == b.relr@
    &&& a.phdrs@ == b.phdrs@
    &&& a.ehdr_entry == b.ehdr_entry
    &&& a.static_start_addr == b.static_start_addr
}

/// The last `PT_GNU_RELRO` header's address and size, folded over the
/// program headers the way the pass walks them.
pub open spec fn relro_fold(s: Seq<Phdr>, acc: Option<(u64, u64)>) -> Option<(u64, u64)>
    decreases s.len(),
{
    if s.len() == 0 {
        acc
    } else {
        relro_fold(
            s.skip(1),
            if s[0].p_type == PT_GNU_RELRO {
                Some((s[0].vaddr, s[0].memsz))
            } else {
                acc
            },
        )
    }
}

/// A request to make the relocated image's read-only-after-relocation
/// region inaccessible to writes, handed to whoever performs the memory
/// protection call.
#[derive(Clone, Copy, PartialEq, Eq, Structural, Debug)]
pub struct RelroRequest {
    /// Start of the region, rounded down to a page boundary.
    pub addr: u64,
    /// Size of the region.
    pub len: u64,
}

/// The pass met a relocation kind it does not implement; such a record
/// would mean a true dynamic-symbol dependency, which this design rejects,
/// so the process must trap rather than continue.
#[derive(Clone, Copy, PartialEq, Eq, Structural, Debug)]
pub enum RelocateError {
    /// A RELA or REL record's kind was not the base-relative one.
    UnsupportedRelocationKind,
}

/// What one run of the pass did: whether relocations were applied, and
/// which region to make read-only afterwards, if any.
#[derive(Debug)]
pub struct RelocateOutcome {
    /// Relocations were applied (the image had not been relocated yet).
    pub applied: bool,
    /// The protection request for the relro region, if one is present.
    pub relro: Option<RelroRequest>,
}

impl Image {
    /// The probe cell already holds the runtime entry address: the image
    /// needs no relocation.
    pub open spec fn already_relocated(&self) -> bool {
        self.mem@[self.static_start_addr as int] == auxv_value(self.auxv@, AT_ENTRY)
    }

    /// Some RELA or REL record is of a kind the pass does not implement.
    pub open spec fn has_unsupported(&self) -> bool {
        !rela_all_relative(self.rela@) || !rel_all_relative(self.rel@)
    }

    /// The protection request the pass issues after relocating, if the
    /// program headers hold a nonempty relro region: its page-aligned
    /// runtime start and its size.
    pub open spec fn relro_request(&self) -> Option<RelroRequest> {
        let page = auxv_value(self.auxv@, AT_PAGESZ);
        match relro_fold(self.phdrs@, None::<(u64, u64)>) {
            None => None,
            Some(p) => if p.1 == 0 {
                None
            } else {
                let start = p.0.wrapping_add(self.reloc_offset());
                Some(
                    RelroRequest {
                        addr: (start as int - start as int % page as int) as u64,
                        len: p.1,
                    },
                )
            },
        }
    }
}

/// Locate the image's relocation tables and apply them.
///
/// If the probe cell shows the image already relocated (a plain static
/// executable, or one an external dynamic linker already processed), the
/// memory is left byte-identical and nothing is applied. Otherwise the
/// load offset is computed — from the entry addresses for a static PIE,
/// from the kernel-supplied interpreter base when the image is its own
/// dynamic linker — and every record of the three tables is applied in
/// order. A record of any kind other than base-relative stops the pass
/// before it touches memory, with the error that tells the caller to trap.
pub fn relocate(img: &mut Image) -> (r: Result<RelocateOutcome, RelocateError>)
    requires
        old(img).wf(),
    ensures
        final(img).wf(),
        same_tables(*final(img), *old(img)),
        final(img).mem@.len() == old(img).mem@.len(),
        old(img).already_relocated() ==> (r matches Ok(o) && !o.applied && o.relro is None)
            && final(img).mem@ == old(img).mem@,
        (!old(img).already_relocated() && old(img).has_unsupported() ==> r
            == Err::<RelocateOutcome, RelocateError>(RelocateError::UnsupportedRelocationKind)
            && final(img).mem@ == old(img).mem@),
        (!old(img).already_relocated() && !old(img).has_unsupported() ==> (r matches Ok(o)
            && o.applied && o.relro == old(img).relro_request()) && final(img).mem@ == old(
            img,
        ).tables_applied(old(img).mem@)),
        (r is Ok ==> final(img).mem@ == old(img).relocate_once(old(img).mem@)),
{
    let n_mem = img.mem.len();
    let aux = scan_auxv(&img.auxv);
    let ss_idx = img.static_start_addr as usize;
    proof {
        assert(ss_idx as int == img.static_start_addr as int);
    }
    let probe = img.mem[ss_idx];
    if probe == aux.entry {
        return Ok(RelocateOutcome { applied: false, relro: None });
    }
    let offset: u64 = if aux.base == 0 {
        aux.entry.wrapping_sub(img.ehdr_entry)
    } else {
        aux.base
    };
    proof {
        assert(offset == old(img).reloc_offset());
    }

    // Walk the dynamic section for the tables' sizes; the parsed tables
    // match them, so the record counts follow.
    let tables = scan_dynamic(&img.dynv);
    let len_rela = img.rela.len();
    let len_rel = img.rel.len();
    let len_relr = img.relr.len();
    let n_rela = (tables.rela_size / RELA_WORDS) as usize;
    let n_rel = (tables.rel_size / REL_WORDS) as usize;
    let n_relr = (tables.relr_size / RELR_WORDS) as usize;
    proof {
        vstd::arithmetic::div_mod::lemma_div_multiples_vanish(len_rela as int, RELA_WORDS as int);
        vstd::arithmetic::div_mod::lemma_div_multiples_vanish(len_rel as int, REL_WORDS as int);
        vstd::arithmetic::div_mod::lemma_div_multiples_vanish(len_relr as int, RELR_WORDS as int);
        assert(n_rela == img.rela@.len());
        assert(n_rel == img.rel@.len());
        assert(n_relr == img.relr@.len());
    }

    // Refuse any relocation kind the engine does not implement before
    // touching memory.
    let mut i: usize = 0;
    while i < n_rela
        invariant
            i <= n_rela == img.rela@.len(),
            forall|j: int| 0 <= j < i ==> (#[trigger] img.rela@[j]).kind == R_RELATIVE,
            same_tables(*img, *old(img)),
            img.mem@ == old(img).mem@,
            old(img).wf(),
            !old(img).already_relocated(),
        decreases n_rela - i,
    {
        if img.rela[i].kind != R_RELATIVE {
            return Err(RelocateError::UnsupportedRelocationKind);
        }
        i = i + 1;
    }
    let mut i: usize = 0;
    while i < n_rel
        invariant
            i <= n_rel == img.rel@.len(),
            forall|j: int| 0 <= j < i ==> (#[trigger] img.rel@[j]).kind == R_RELATIVE,
            same_tables(*img, *old(img)),
            img.mem@ == old(img).mem@,
            old(img).wf(),
            !old(img).already_relocated(),
        decreases n_rel - i,
    {
        if img.rel[i].kind != R_RELATIVE {
            return Err(RelocateError::UnsupportedRelocationKind);
        }
        i = i + 1;
    }

    // Apply the RELA records: target cell gets addend plus offset.
    let ghost mem_a = img.mem@;
    let mut i: usize = 0;
    proof {
        assert(img.rela@.skip(0) =~= img.rela@);
    }
    while i < n_rela
        invariant
            i <= n_rela == img.rela@.len(),
            same_tables(*img, *old(img)),
            img.mem@.len() == mem_a.len() == old(img).mem@.len(),
            img.mem@.len() == n_mem,
            rela_in_bounds(img.rela@, img.mem@.len() as int),
            rela_applied(mem_a, img.rela@, offset) == rela_applied(
                img.mem@,
                img.rela@.skip(i as int),
                offset,
            ),
        decreases n_rela - i,
    {
        proof {
            assert(img.rela@.skip(i as int)[0] == img.rela@[i as int]);
            assert(img.rela@.skip(i as int).skip(1) == img.rela@.skip(i as int + 1));
        }
        let site = img.rela[i].offset;
        let addend = img.rela[i].addend;
        proof {
            assert(img.rela@[i as int].offset < img.mem@.len());
        }
        let idx = site as usize;
        img.mem[idx] = addend.wrapping_add(offset);
        i = i + 1;
    }
    proof {
        assert(img.rela@.skip(n_rela as int).len() == 0);
        assert(img.mem@ == rela_applied(mem_a, img.rela@, offset));
    }

    // Apply the REL records: target cell gets offset added to its value.
    let ghost mem_b = img.mem@;
    let mut i: usize = 0;
    proof {
        assert(img.rel@.skip(0) =~= img.rel@);
    }
    while i < n_rel
        invariant
            i <= n_rel == img.rel@.len(),
            same_tables(*img, *old(img)),
            img.mem@.len() == mem_b.len() == old(img).mem@.len(),
            img.mem@.len() == n_mem,
            rel_in_bounds(img.rel@, img.mem@.len() as int),
            rel_applied(mem_b, img.rel@, offset) == rel_applied(
                img.mem@,
                img.rel@.skip(i as int),
                offset,
            ),
        decreases n_rel - i,
    {
        proof {
            assert(img.rel@.skip(i as int)[0] == img.rel@[i as int]);
            assert(img.rel@.skip(i as int).skip(1) == img.rel@.skip(i as int + 1));
        }
        let site = img.rel[i].offset;
        proof {
            assert(img.rel@[i as int].offset < img.mem@.len());
        }
        let idx = site as usize;
        let addend = img.mem[idx];
        img.mem[idx] = addend.wrapping_add(offset);
        i = i + 1;
    }
    proof {
        assert(img.rel@.skip(n_rel as int).len() == 0);
        assert(img.mem@ == rel_applied(mem_b, img.rel@, offset));
    }

    // Apply the RELR records: even entries name one cell, odd entries are
    // bitmaps of the cells after the cursor.
    let ghost mem_c = img.mem@;
    let mut cursor: u64 = 0;
    let mut i: usize = 0;
    proof {
        assert(img.relr@.skip(0) =~= img.relr@);
    }
    while i < n_relr
        invariant
            i <= n_relr == img.relr@.len(),
            same_tables(*img, *old(img)),
            img.mem@.len() == mem_c.len() == old(img).mem@.len(),
            img.mem@.len() == n_mem,
            relr_in_bounds(img.relr@.skip(i as int), cursor, img.mem@.len() as int),
            relr_applied(mem_c, img.relr@, offset, 0) == relr_applied(
                img.mem@,
                img.relr@.skip(i as int),
                offset,
                cursor,
            ),
        decreases n_relr - i,
    {
        proof {
            assert(img.relr@.skip(i as int)[0] == img.relr@[i as int]);
            assert(img.relr@.skip(i as int).skip(1) == img.relr@.skip(i as int + 1));
        }
        let e = img.relr[i];
        if e & 1 == 0 {
            proof {
                assert(e < img.mem@.len());
            }
            let idx = e as usize;
            let addend = img.mem[idx];
            img.mem[idx] = addend.wrapping_add(offset);
            cursor = e.wrapping_add(1);
        } else {
            let ghost mem_e = img.mem@;
            let mut k: u64 = 1;
            while k < 64
                invariant
                    1 <= k <= 64,
                    same_tables(*img, *old(img)),
                    img.mem@.len() == mem_e.len() == old(img).mem@.len(),
                    img.mem@.len() == n_mem,
                    relr_bitmap_in_bounds(e, cursor, img.mem@.len() as int, k as int),
                    relr_bitmap_applied(mem_e, e, offset, cursor, 1) == relr_bitmap_applied(
                        img.mem@,
                        e,
                        offset,
                        cursor,
                        k as int,
                    ),
                decreases 64 - k,
            {
                if (e >> k) & 1 == 1 {
                    let site = cursor.wrapping_add(k - 1);
                    proof {
                        assert(site < img.mem@.len());
                    }
                    let idx = site as usize;
                    let addend = img.mem[idx];
                    img.mem[idx] = addend.wrapping_add(offset);
                }
                k = k + 1;
            }
            proof {
                assert(img.mem@ == relr_bitmap_applied(mem_e, e, offset, cursor, 1));
            }
            cursor = cursor.wrapping_add(63);
        }
        i = i + 1;
    }
    proof {
        assert(img.relr@.skip(n_relr as int).len() == 0);
        assert(img.mem@ == relr_applied(mem_c, img.relr@, offset, 0));
        assert(img.mem@ == old(img).tables_applied(old(img).mem@));
    }

    // Find the relro region, if any, and hand back the protection request.
    let mut relro_vaddr: u64 = 0;
    let mut relro_size: u64 = 0;
    let mut found: bool = false;
    let ghost acc0: Option<(u64, u64)> = None;
    let mut i: usize = 0;
    proof {
        assert(img.phdrs@.skip(0) =~= img.phdrs@);
    }
    while i < img.phdrs.len()
        invariant
            i <= img.phdrs@.len(),
            same_tables(*img, *old(img)),
            img.mem@.len() == old(img).mem@.len(),
            img.mem@ == old(img).tables_applied(old(img).mem@),
            relro_fold(img.phdrs@, acc0) == relro_fold(
                img.phdrs@.skip(i as int),
                if found {
                    Some((relro_vaddr, relro_size))
                } else {
                    None
                },
            ),
        decreases img.phdrs@.len() - i,
    {
        proof {
            assert(img.phdrs@.skip(i as int)[0] == img.phdrs@[i as int]);
            assert(img.phdrs@.skip(i as int).skip(1) == img.phdrs@.skip(i as int + 1));
        }
        if img.phdrs[i].p_type == PT_GNU_RELRO {
            relro_vaddr = img.phdrs[i].vaddr;
            relro_size = img.phdrs[i].memsz;
            found = true;
        }
        i = i + 1;
    }
    proof {
        assert(img.phdrs@.skip(img.phdrs@.len() as int).len() == 0);
    }
    let relro = if found && relro_size != 0 {
        proof {
            crate::arith::lemma_is_pow2_pos(aux.page_size as int);
        }
        let start = relro_vaddr.wrapping_add(offset);
        let addr = crate::arith::round_down_u64(start, aux.page_size);
        Some(RelroRequest { addr, len: relro_size })
    } else {
        None
    };
    Ok(RelocateOutcome { applied: true, relro })
}

} // verus!
