use kernel_core::addr::{align_down, align_up, PhysAddr, VirtAddr};
use kernel_core::page::{Page, PageRangeInclusive, Size1GiB, Size2MiB, Size4KiB};
use kernel_core::frame::PhysFrame;
use kernel_core::page_table::{PageOffset, PageTableIndex};

#[test]
fn new_truncate_sign_extends_from_bit_47() {
    assert_eq!(VirtAddr::new_truncate(0x0000_8000_0000_0000).as_u64(), 0xffff_8000_0000_0000);
    assert_eq!(VirtAddr::new_truncate(0x0000_7fff_ffff_ffff).as_u64(), 0x0000_7fff_ffff_ffff);
    assert_eq!(VirtAddr::new_truncate(0x1234_5678_9abc_def0).as_u64(), 0x0000_5678_9abc_def0);
    assert_eq!(VirtAddr::new_truncate(0x0000_ffff_ffff_f000).as_u64(), 0xffff_ffff_ffff_f000);
}

#[test]
fn strict_constructor_keeps_canonical_address() {
    assert_eq!(VirtAddr::new(0xffff_8000_0000_1234).as_u64(), 0xffff_8000_0000_1234);
    assert_eq!(VirtAddr::new(0x1000).as_u64(), 0x1000);
    for v in [0u64, 0x7fff_ffff_ffff, 0x8000_0000_0000, 0xffff_ffff_ffff, 0x0001_0000_0000_0000] {
        let canonical = VirtAddr::new_truncate(v).as_u64() == v;
        let expected = v < 0x8000_0000_0000 || v >= 0xffff_8000_0000_0000;
        assert_eq!(canonical, expected);
    }
}

#[test]
fn indices_and_offset_rebuild_address() {
    let a = VirtAddr::new(0xffff_8123_4567_89ab);
    let p4 = a.p4_index().as_usize() as u64;
    let p3 = a.p3_index().as_usize() as u64;
    let p2 = a.p2_index().as_usize() as u64;
    let p1 = a.p1_index().as_usize() as u64;
    let off = a.page_offset().as_u64();
    assert_eq!(off, 0x9ab);
    assert_eq!(p1, (0xffff_8123_4567_89ab_u64 >> 12) & 0x1ff);
    let rebuilt = (p4 << 39) | (p3 << 30) | (p2 << 21) | (p1 << 12) | off;
    assert_eq!(VirtAddr::new_truncate(rebuilt), a);
}

#[test]
fn phys_addr_truncates_to_52_bits() {
    assert_eq!(PhysAddr::new_truncate(0xfff0_0000_0000_1000).as_u64(), 0x1000);
    assert_eq!(PhysAddr::new(0x000f_ffff_ffff_ffff).as_u64(), 0x000f_ffff_ffff_ffff);
    assert!(PhysAddr::new(0x2000).is_aligned(0x1000));
    assert!(!PhysAddr::new(0x2010).is_aligned(0x1000));
    assert_eq!(PhysAddr::new(0x2fff).align_down(0x1000).as_u64(), 0x2000);
}

#[test]
fn align_down_and_up() {
    assert_eq!(align_down(0x1234, 0x1000), 0x1000);
    assert_eq!(align_down(0x2000, 0x1000), 0x2000);
    assert_eq!(align_up(0x1234, 0x1000), 0x2000);
    assert_eq!(align_up(0x2000, 0x1000), 0x2000);
    assert_eq!(align_up(0, 8), 0);
    assert_eq!(align_up(u64::MAX - 0xfff, 0x1000), u64::MAX - 0xfff);
}

#[test]
fn index_and_offset_truncate() {
    assert_eq!(PageTableIndex::new_truncate(513).as_usize(), 1);
    assert_eq!(PageTableIndex::new(7).as_usize(), 7);
    assert_eq!(PageOffset::new_truncate(4097).as_u64(), 1);
    assert_eq!(PageOffset::new(4095).as_u64(), 4095);
}

#[test]
fn page_contains_its_address() {
    for raw in [0x1234u64, 0x0000_7fff_ffff_ffff, 0xffff_8000_0012_3456, 0xffff_ffff_ffff_ffff] {
        let addr = VirtAddr::new(raw);
        let p = Page::<Size4KiB>::new_containing_address(addr).start_address().as_u64();
        assert!(p <= raw && raw - p < 4096 && p % 4096 == 0);
        let p = Page::<Size2MiB>::new_containing_address(addr).start_address().as_u64();
        assert!(p <= raw && raw - p < 0x20_0000 && p % 0x20_0000 == 0);
        let p = Page::<Size1GiB>::new_containing_address(addr).start_address().as_u64();
        assert!(p <= raw && raw - p < 0x4000_0000 && p % 0x4000_0000 == 0);
    }
    let page = Page::<Size4KiB>::new_containing_address(VirtAddr::new(0x0040_3abc));
    assert_eq!(page.start_address().as_u64(), 0x0040_3000);
    assert_eq!(page.p1_index().as_usize(), 3);
    assert_eq!(page.p2_index().as_usize(), 2);
    assert_eq!(page.p3_index().as_usize(), 0);
    assert_eq!(page.p4_index().as_usize(), 0);
}

#[test]
fn frame_from_start_address_needs_alignment() {
    let f = PhysFrame::<Size4KiB>::from_start_address(PhysAddr::new(0x5000)).unwrap();
    assert_eq!(f.start_address().as_u64(), 0x5000);
    assert!(PhysFrame::<Size4KiB>::from_start_address(PhysAddr::new(0x5008)).is_err());
    assert!(PhysFrame::<Size2MiB>::from_start_address(PhysAddr::new(0x1000)).is_err());
    let g = PhysFrame::<Size2MiB>::containing_address(PhysAddr::new(0x0030_1234));
    assert_eq!(g.start_address().as_u64(), 0x0020_0000);
}

#[test]
fn page_range_steps_through_each_page() {
    let start = Page::<Size4KiB>::new_containing_address(VirtAddr::new(0x1000));
    let end = Page::<Size4KiB>::new_containing_address(VirtAddr::new(0x3000));
    let mut range: PageRangeInclusive<Size4KiB> = Page::range_inclusive(start, end);
    let mut seen = Vec::new();
    while let Some(p) = range.next() {
        seen.push(p.start_address().as_u64());
    }
    assert_eq!(seen, vec![0x1000, 0x2000, 0x3000]);
    assert!(range.next().is_none());
}

#[test]
fn page_range_ends_at_top_of_address_space() {
    let top = Page::<Size4KiB>::new_containing_address(VirtAddr::new(0xffff_ffff_ffff_ffff));
    let below = Page::<Size4KiB>::new_containing_address(VirtAddr::new(0xffff_ffff_ffff_e000));
    let mut range = Page::range_inclusive(below, top);
    let mut seen = Vec::new();
    while let Some(p) = range.next() {
        seen.push(p.start_address().as_u64());
    }
    assert_eq!(seen, vec![0xffff_ffff_ffff_e000, 0xffff_ffff_ffff_f000]);
}
