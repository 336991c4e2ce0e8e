use dragonos_kernel::errno::SystemError;
use dragonos_kernel::kexec::{
    check_isdst, ident_map_plan, kexec_load_nothing, kexec_load_result, kimage_alloc_init,
    pad_segment, relocation_code_fits, round_down_to_page_size, ControlPageAction, ControlPageSearch, DescPtr,
    KexecFlags, KexecSegment,
};

fn seg(buffer: usize, mem: usize, memsz: usize) -> KexecSegment {
    KexecSegment { buffer, bufsz: memsz, mem, memsz }
}

#[test]
fn alloc_init_copies_segments() {
    let segs = [seg(0x1000, 0x100000, 0x2000), seg(0x5000, 0x200000, 0x1000)];
    let k = kimage_alloc_init(0x100000, 2, &segs, 0, &[]).unwrap().0;
    assert_eq!(k.start, 0x100000);
    assert_eq!(k.nr_segments, 2);
    assert_eq!(k.segment[0], segs[0]);
    assert_eq!(k.segment[1], segs[1]);
    assert_eq!(k.segment[2], KexecSegment::empty());
    assert!(k.control_code_page.is_none());
}

#[test]
fn isdst_includes_both_ends() {
    let segs = [seg(0x1000, 0x100000, 0x2000)];
    let k = kimage_alloc_init(0, 1, &segs, 0, &[]).unwrap().0;
    assert!(check_isdst(&k, 0x100000));
    assert!(check_isdst(&k, 0x101000));
    assert!(check_isdst(&k, 0x102000));
    assert!(!check_isdst(&k, 0x103000));
    assert!(!check_isdst(&k, 0xff000));
    let none = kimage_alloc_init(0, 0, &segs, 0, &[]).unwrap().0;
    assert!(!check_isdst(&none, 0x100000));
}

#[test]
fn ident_map_plan_order() {
    let segs = [seg(0x10000, 0x100000, 0x2000), seg(0x20000, 0x200000, 0x1000)];
    let mut k = kimage_alloc_init(0, 2, &segs, 0, &[]).unwrap().0;
    k.control_code_page = Some(0x900000);
    let plan = ident_map_plan(&k, 0x3000);
    assert_eq!(
        plan,
        vec![0x3000, 0x10000, 0x11000, 0x20000, 0x100000, 0x101000, 0x200000, 0x900000]
    );
    // A segment table that straddles a page boundary maps both pages.
    let plan = ident_map_plan(&k, 0x3f00);
    assert_eq!(&plan[..2], &[0x3000, 0x4000]);
    assert_eq!(plan.len(), 9);
}

#[test]
fn pad_segment_grows_with_zeros() {
    assert_eq!(pad_segment(vec![1, 2], 5), vec![1, 2, 0, 0, 0]);
    assert_eq!(pad_segment(vec![1, 2, 3], 2), vec![1, 2, 3]);
    assert_eq!(pad_segment(Vec::new(), 0), Vec::<u8>::new());
}

#[test]
fn page_rounding_and_flags() {
    assert_eq!(round_down_to_page_size(0x1234), 0x1000);
    assert_eq!(round_down_to_page_size(0x2000), 0x2000);
    assert_eq!(KexecFlags::from_bits_truncate(0xffff_ffff_ffff_ffff).bits, 0xffff0003);
    assert_eq!(KexecFlags::from_bits_truncate(0x4).bits, 0);
    let d = DescPtr::new(0xdead_0000, 0x7f);
    let (size, address) = (d.size, d.address);
    assert_eq!(size, 0x7f);
    assert_eq!(address, 0xdead_0000);
}

#[test]
fn load_of_no_segment_is_nothing() {
    assert_eq!(kexec_load_nothing(0), Some(Ok::<usize, SystemError>(0)));
    assert_eq!(kexec_load_nothing(3), None);
}

#[test]
fn control_page_search_skips_destinations() {
    let segs = [seg(0x1000, 0x100000, 0x2000)];
    let k = kimage_alloc_init(0, 1, &segs, 0, &[]).unwrap().0;
    let mut search = ControlPageSearch::new();
    assert_eq!(search.offer(&k, 0x101000), ControlPageAction::SetAside(0x101000));
    assert_eq!(search.offer(&k, 0x100000), ControlPageAction::SetAside(0x100000));
    assert_eq!(search.offer(&k, 0x500000), ControlPageAction::Take(0x500000));
    let (found, extra) = search.finish();
    assert_eq!(found, Some(0x500000));
    assert_eq!(extra, vec![0x101000, 0x100000]);
}

#[test]
fn install_segment_copy_points_the_buffer_at_it() {
    let segs = [seg(0x1000, 0x100000, 0x2000), seg(0x5000, 0x200000, 0x1000)];
    let mut k = kimage_alloc_init(7, 2, &segs, 0, &[]).unwrap().0;
    k.install_segment_copy(1, vec![1, 2, 3], 0xabc000);
    assert_eq!(k.segment[1].buffer, 0xabc000);
    assert_eq!(k.segment[1].mem, 0x200000);
    assert_eq!(k.segment[0], segs[0]);
    assert_eq!(k.ksegments_vec, vec![vec![1, 2, 3]]);
    k.set_control_code_page(Some(0x7000));
    assert_eq!(k.control_code_page, Some(0x7000));
    assert_eq!(k.start, 7);
}

#[test]
fn load_result_of_the_preparation() {
    assert_eq!(kexec_load_result(true), Ok(0));
    assert_eq!(kexec_load_result(false), Err(SystemError::EADV));
}

#[test]
fn alloc_init_takes_the_first_page_outside_the_destinations() {
    let segs = [seg(0x1000, 0x100000, 0x2000)];
    let (k, passed) = kimage_alloc_init(0x100000, 1, &segs, 0, &[0x101000, 0x102000, 0x300000, 0x400000]).unwrap();
    assert_eq!(k.control_code_page, Some(0x300000));
    assert_eq!(passed, vec![0x101000, 0x102000]);
    assert_eq!((k.p4d, k.pud, k.pmd, k.pte, k.pgd), (0, 0, 0, 0, 0));
    let (none, passed) = kimage_alloc_init(0, 1, &segs, 0, &[0x100000]).unwrap();
    assert_eq!(none.control_code_page, None);
    assert_eq!(passed, vec![0x100000]);
    // A page offered when no segment is used is always taken.
    let empty = kimage_alloc_init(0, 0, &segs, 0, &[0x100000]).unwrap().0;
    assert_eq!(empty.control_code_page, Some(0x100000));
}

#[test]
fn relocation_code_must_fit_a_page() {
    assert!(relocation_code_fits(0x1000, 0x2000));
    assert!(!relocation_code_fits(0x1000, 0x2001));
    assert!(relocation_code_fits(5, 5));
}
