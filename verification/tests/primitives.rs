use origin::arith::{max_usize, round_down, round_down_u64, round_up};
use origin::layout::{
    compute_layout, current_tls_addr, place_args, thread_pointer_addr, STACK_ALIGNMENT,
};
use origin::mem::{c_string_length, compare_bytes, copy_backward, copy_forward, memmove, set_bytes};
use origin::signal::{
    prepare_sigaction, sig_ign, sigaction, Restorer, Sigaction, SA_RESTORER, SA_SIGINFO, SIG_IGN,
};
use origin::sys::{
    getauxval, main_stack_geometry, main_stack_geometry_for, AT_HWCAP, AT_HWCAP2, AT_MINSIGSTKSZ,
};
use origin::thread::default_guard_size_for;

#[test]
fn rounding() {
    assert_eq!(round_up(0, 4096), 0);
    assert_eq!(round_up(1, 4096), 4096);
    assert_eq!(round_up(4096, 4096), 4096);
    assert_eq!(round_up(4097, 4096), 8192);
    assert_eq!(round_down(4097, 4096), 4096);
    assert_eq!(round_down(4095, 4096), 0);
    assert_eq!(round_down_u64(0x1123, 0x1000), 0x1000);
    assert_eq!(max_usize(3, 9), 9);
    assert_eq!(max_usize(9, 3), 9);
}

#[test]
fn thread_layout_regions() {
    // Stack of two megabytes, one-page guard, 48 bytes of TLS aligned to
    // 16, a 64-byte control block aligned to 8, four-kilobyte pages.
    let lay = compute_layout(0x200000, 0x1000, 48, 16, 64, 8, 0x1000);
    assert_eq!(lay.stack_bottom, 0x1000);
    assert_eq!(lay.stack_top, 0x1000 + 0x200000);
    assert_eq!(lay.tls_data_bottom, lay.stack_top);
    assert_eq!(lay.header, lay.tls_data_bottom + 48);
    assert_eq!(lay.map_size, lay.header + 64);
    // The main thread's variant: no guard and no stack, only TLS and the
    // control block.
    let main = compute_layout(0, 0, 48, 16, 64, 8, 0x1000);
    assert_eq!(main.stack_bottom, 0);
    assert_eq!(main.stack_top, 0);
    assert_eq!(main.tls_data_bottom, 0);
    assert_eq!(main.header, 48);
    assert_eq!(main.map_size, 48 + 64);
}

#[test]
fn tls_addresses() {
    let lay = compute_layout(0x2000, 0x1000, 48, 16, 64, 8, 0x1000);
    let tp = thread_pointer_addr(0x10_0000, &lay);
    assert_eq!(tp, 0x10_0000 + lay.header);
    // The TLS data occupies the 48 bytes ending at the thread pointer.
    assert_eq!(current_tls_addr(tp, 48, 1, 0), 0x10_0000 + lay.tls_data_bottom);
    assert_eq!(current_tls_addr(tp, 48, 1, 7), 0x10_0000 + lay.tls_data_bottom + 7);
}

#[test]
fn argument_placement() {
    let sp = place_args(0x1_0000, 3, 8);
    assert_eq!(sp % STACK_ALIGNMENT, 0);
    assert_eq!(sp, 0x1_0000 - 32);
    assert_eq!(place_args(0x1_0000, 2, 8), 0x1_0000 - 16);
}

#[test]
fn forward_copy_handles_overlap() {
    let mut buf = vec![1, 2, 3, 4, 5, 6];
    copy_forward(&mut buf, 0, 2, 3);
    assert_eq!(buf, vec![3, 4, 5, 4, 5, 6]);
    let mut buf = vec![1, 2, 3, 4, 5, 6];
    copy_forward(&mut buf, 1, 1, 2);
    assert_eq!(buf, vec![1, 2, 3, 4, 5, 6]);
}

#[test]
fn backward_copy_handles_overlap() {
    let mut buf = vec![1, 2, 3, 4, 5, 6];
    copy_backward(&mut buf, 2, 0, 3);
    assert_eq!(buf, vec![1, 2, 1, 2, 3, 6]);
}

#[test]
fn fill_touches_only_the_range() {
    let mut buf = vec![9, 9, 9, 9, 9];
    set_bytes(&mut buf, 1, 0, 3);
    assert_eq!(buf, vec![9, 0, 0, 0, 9]);
}

#[test]
fn byte_comparison_signs() {
    let a = vec![1, 2, 3];
    let b = vec![1, 2, 4];
    assert_eq!(compare_bytes(&a, &b, 3), -1);
    assert_eq!(compare_bytes(&b, &a, 3), 1);
    assert_eq!(compare_bytes(&a, &b, 2), 0);
    assert_eq!(compare_bytes(&a, &a, 3), 0);
}

#[test]
fn string_length_stops_at_the_first_zero() {
    let s = vec![b'h', b'i', 0, b'x', 0];
    assert_eq!(c_string_length(&s), 2);
    let s = vec![0];
    assert_eq!(c_string_length(&s), 0);
}

#[test]
fn sigaction_registration_forces_a_restorer() {
    let a = Sigaction { handler: 0x1234, flags: SA_SIGINFO, restorer: Restorer::Unset, mask: 5 };
    let p = prepare_sigaction(a);
    assert_eq!(p.flags, SA_SIGINFO | SA_RESTORER);
    assert_eq!(p.restorer, Restorer::SignalInfo);
    assert_eq!(p.handler, 0x1234);
    assert_eq!(p.mask, 5);
    let a = Sigaction { handler: 0x1234, flags: 0, restorer: Restorer::Unset, mask: 0 };
    let p = prepare_sigaction(a);
    assert_eq!(p.flags, SA_RESTORER);
    assert_eq!(p.restorer, Restorer::NoInfo);
}

#[test]
fn sigaction_query_passes_through() {
    assert!(sigaction(None).is_none());
    let a = Sigaction { handler: 1, flags: SA_SIGINFO, restorer: Restorer::Unset, mask: 0 };
    let p = sigaction(Some(a)).unwrap();
    assert_eq!(p.restorer, Restorer::SignalInfo);
    assert_eq!(sig_ign(), SIG_IGN);
}

#[test]
fn default_guard_is_four_pages() {
    // The guard default is four pages of whatever size this machine's
    // pages are.
    let page = rustix::param::page_size();
    assert_eq!(default_guard_size_for(page), 4 * page);
}

#[test]
fn auxiliary_vector_lookup() {
    // The dispatch over this machine's cached parameters.
    let (hwcap, hwcap2) = rustix::param::linux_hwcap();
    let minsig = rustix::param::linux_minsigstksz();
    assert_eq!(getauxval(AT_HWCAP, hwcap, hwcap2, minsig), Some(hwcap));
    assert_eq!(getauxval(AT_HWCAP2, hwcap, hwcap2, minsig), Some(hwcap2));
    assert_eq!(getauxval(AT_MINSIGSTKSZ, hwcap, hwcap2, minsig), Some(minsig));
    // Any other key is not cached and yields nothing.
    assert_eq!(getauxval(3, hwcap, hwcap2, minsig), None);
}

#[test]
fn main_stack_geometry_for_given_parameters() {
    // Stack end 0x10_0800 rounds up to 0x10_1000; an eight-megabyte soft
    // limit would reach below zero, a one-megabyte one fits.
    let r = main_stack_geometry_for(0x10_0800, 0x10_0800, 0x1000, 0x10_0000);
    assert_eq!(r, Some((0x1000, 0x10_0800 - 0x1000, 0x1000)));
    // A zero page size, a limit above the rounded top, or an entry stack
    // pointer below the limit's reach each make the geometry fail.
    assert_eq!(main_stack_geometry_for(0x10_0800, 0x10_0800, 0, 0x10_0000), None);
    assert_eq!(main_stack_geometry_for(0x10_0800, 0x10_0800, 0x1000, 0x20_0000), None);
    assert_eq!(main_stack_geometry_for(0x10_0800, 0x800, 0x1000, 0x10_0000), None);
}

#[test]
fn main_stack_geometry_is_consistent() {
    // The geometry depends on this machine's stack limit; whatever it is,
    // the pieces must fit together.
    let page = rustix::param::page_size();
    let sp = 0x7fff_0000_0000usize;
    if let Some((least, size, guard)) = main_stack_geometry(sp + 0x800, sp, page) {
        assert!(least <= sp);
        assert_eq!(size, sp - least);
        assert_eq!(guard, page);
    }
}

#[test]
fn memmove_picks_the_safe_direction() {
    let mut buf = vec![1, 2, 3, 4, 5, 6];
    memmove(&mut buf, 0, 2, 3);
    assert_eq!(buf, vec![3, 4, 5, 4, 5, 6]);
    let mut buf = vec![1, 2, 3, 4, 5, 6];
    memmove(&mut buf, 2, 0, 3);
    assert_eq!(buf, vec![1, 2, 1, 2, 3, 6]);
}

#[test]
fn copies_accept_disjoint_ranges_in_either_order() {
    // Ascending copy with the destination above a disjoint source.
    let mut buf = vec![1, 2, 3, 4, 5, 6];
    copy_forward(&mut buf, 4, 0, 2);
    assert_eq!(buf, vec![1, 2, 3, 4, 1, 2]);
    // Descending copy with the destination below a disjoint source.
    let mut buf = vec![1, 2, 3, 4, 5, 6];
    copy_backward(&mut buf, 0, 4, 2);
    assert_eq!(buf, vec![5, 6, 3, 4, 5, 6]);
}
