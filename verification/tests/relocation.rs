use origin::elf::{Aux, Dyn, Phdr, Rel, Rela};
use origin::relocate::{relocate, Image, RelocateError};

fn auxv(base: Option<u64>, page: u64, entry: u64) -> Vec<Aux> {
    let mut v = Vec::new();
    if let Some(b) = base {
        v.push(Aux { kind: 7, val: b });
    }
    v.push(Aux { kind: 6, val: page });
    v.push(Aux { kind: 9, val: entry });
    v.push(Aux { kind: 0, val: 0 });
    v
}

fn dynv(n_rela: u64, n_rel: u64, n_relr: u64) -> Vec<Dyn> {
    let mut v = Vec::new();
    v.push(Dyn { tag: 7, val: 0x400 });
    v.push(Dyn { tag: 8, val: 3 * n_rela });
    v.push(Dyn { tag: 17, val: 0x500 });
    v.push(Dyn { tag: 18, val: 2 * n_rel });
    v.push(Dyn { tag: 36, val: 0x600 });
    v.push(Dyn { tag: 35, val: n_relr });
    v.push(Dyn { tag: 0, val: 0 });
    v
}

/// A small static-PIE image: link-time entry 0x100, loaded with offset
/// 0x1000, whose probe cell at index 3 is relocated by a RELA record.
fn static_pie() -> Image {
    Image {
        mem: vec![10, 20, 30, 0x100, 50, 60, 70, 80],
        auxv: auxv(None, 4096, 0x1100),
        dynv: dynv(2, 1, 2),
        rela: vec![
            Rela { offset: 3, kind: 8, addend: 0x100 },
            Rela { offset: 0, kind: 8, addend: 7 },
        ],
        rel: vec![Rel { offset: 1, kind: 8 }],
        relr: vec![4, 0b1101],
        phdrs: Vec::new(),
        ehdr_entry: 0x100,
        static_start_addr: 3,
    }
}

#[test]
fn static_pie_applies_all_tables() {
    let mut img = static_pie();
    let out = relocate(&mut img).unwrap();
    assert!(out.applied);
    assert!(out.relro.is_none());
    // RELA: cell 3 = 0x100 + 0x1000, cell 0 = 7 + 0x1000.
    assert_eq!(img.mem[3], 0x1100);
    assert_eq!(img.mem[0], 7 + 0x1000);
    // REL: cell 1 had 20, gets the offset added.
    assert_eq!(img.mem[1], 20 + 0x1000);
    // RELR: even entry relocates cell 4 and moves the cursor to 5; the
    // bitmap 0b1101 then marks bits 2 and 3: cells 6 and 7.
    assert_eq!(img.mem[4], 50 + 0x1000);
    assert_eq!(img.mem[5], 60);
    assert_eq!(img.mem[6], 70 + 0x1000);
    assert_eq!(img.mem[7], 80 + 0x1000);
    // Untouched cell.
    assert_eq!(img.mem[2], 30);
}

#[test]
fn relocation_is_idempotent() {
    let mut img = static_pie();
    relocate(&mut img).unwrap();
    let once = img.mem.clone();
    // The probe cell now reports the runtime entry address, so a second
    // run must apply nothing and leave memory byte-identical.
    let out = relocate(&mut img).unwrap();
    assert!(!out.applied);
    assert_eq!(img.mem, once);
}

#[test]
fn already_loaded_at_link_address_is_noop() {
    // Runtime entry equals the probe cell's value: nothing to do.
    let mut img = static_pie();
    img.auxv = auxv(None, 4096, 0x100);
    let before = img.mem.clone();
    let out = relocate(&mut img).unwrap();
    assert!(!out.applied);
    assert!(out.relro.is_none());
    assert_eq!(img.mem, before);
}

#[test]
fn interpreter_base_supplies_the_offset() {
    // An image acting as its own dynamic linker: the kernel supplies the
    // offset in the interpreter-base entry.
    let mut img = static_pie();
    img.auxv = auxv(Some(0x2000), 4096, 0x9999);
    let out = relocate(&mut img).unwrap();
    assert!(out.applied);
    assert_eq!(img.mem[0], 7 + 0x2000);
    assert_eq!(img.mem[3], 0x100 + 0x2000);
}

#[test]
fn unsupported_relocation_kind_is_refused() {
    let mut img = static_pie();
    img.rela[1].kind = 5;
    let before = img.mem.clone();
    let e = relocate(&mut img).unwrap_err();
    assert_eq!(e, RelocateError::UnsupportedRelocationKind);
    // The pass refused before touching memory.
    assert_eq!(img.mem, before);
}

#[test]
fn relro_region_is_requested_page_aligned() {
    let mut img = static_pie();
    img.phdrs = vec![
        Phdr { p_type: 1, vaddr: 0, memsz: 0x100, filesz: 0x100, align: 4096 },
        Phdr { p_type: 0x6474e552, vaddr: 0x123, memsz: 0x40, filesz: 0x40, align: 1 },
    ];
    let out = relocate(&mut img).unwrap();
    let relro = out.relro.unwrap();
    // Runtime start 0x123 + 0x1000, rounded down to the 4096-byte page.
    assert_eq!(relro.addr, 0x1000);
    assert_eq!(relro.len, 0x40);
}

#[test]
fn empty_relro_region_is_not_requested() {
    let mut img = static_pie();
    img.phdrs = vec![Phdr { p_type: 0x6474e552, vaddr: 0x123, memsz: 0, filesz: 0, align: 1 }];
    let out = relocate(&mut img).unwrap();
    assert!(out.relro.is_none());
}

#[test]
fn scan_auxv_last_occurrence_wins() {
    let v = vec![
        Aux { kind: 6, val: 4096 },
        Aux { kind: 9, val: 1 },
        Aux { kind: 9, val: 2 },
        Aux { kind: 0, val: 0 },
        Aux { kind: 9, val: 3 },
    ];
    let r = origin::elf::scan_auxv(&v);
    assert_eq!(r.page_size, 4096);
    // The second entry wins; the one after the terminator is never read.
    assert_eq!(r.entry, 2);
    assert_eq!(r.base, 0);
}

#[test]
fn scan_dynamic_finds_tables() {
    let v = dynv(4, 2, 3);
    let r = origin::elf::scan_dynamic(&v);
    assert_eq!(r.rela_addr, 0x400);
    assert_eq!(r.rela_size, 12);
    assert_eq!(r.rel_addr, 0x500);
    assert_eq!(r.rel_size, 4);
    assert_eq!(r.relr_addr, 0x600);
    assert_eq!(r.relr_size, 3);
}
