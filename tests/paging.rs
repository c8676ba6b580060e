use kernel_core::addr::{PhysAddr, VirtAddr};
use kernel_core::frame::PhysFrame;
use kernel_core::mapper::{
    FrameAllocator, MapToError, MappedFrame, MappedPageTable, TranslateResult,
};
use kernel_core::page::{Page, Size4KiB};
use kernel_core::page_table::{FrameError, PageTable, PageTableEntry, PageTableFlags};

struct ListAllocator {
    frames: Vec<u64>,
}

impl FrameAllocator<Size4KiB> for ListAllocator {
    fn allocate_frame(&mut self) -> Option<PhysFrame<Size4KiB>> {
        let a = self.frames.pop()?;
        Some(PhysFrame::from_start_address(PhysAddr::new(a)).unwrap())
    }
}

fn frame(a: u64) -> PhysFrame<Size4KiB> {
    PhysFrame::from_start_address(PhysAddr::new(a)).unwrap()
}

fn flags(bits: u64) -> PageTableFlags {
    PageTableFlags::from_bits_truncate(bits)
}

fn empty_mapper() -> MappedPageTable {
    let mut m = MappedPageTable::new(frame(0x1000));
    m.insert_table(frame(0x1000), PageTable::new());
    m
}

const RW: u64 = PageTableFlags::PRESENT | PageTableFlags::WRITABLE;

#[test]
fn entry_encoding() {
    let mut e = PageTableEntry::new();
    assert!(e.is_unused());
    assert_eq!(e.frame().unwrap_err(), FrameError::FrameNotPresent);
    e.set_frame(frame(0x0000_0012_3456_7000), flags(RW | PageTableFlags::NO_EXECUTE));
    assert!(!e.is_unused());
    assert_eq!(e.addr().as_u64(), 0x0000_0012_3456_7000);
    assert_eq!(e.flags().bits(), RW | PageTableFlags::NO_EXECUTE);
    assert_eq!(e.frame().unwrap().start_address().as_u64(), 0x0000_0012_3456_7000);
    e.set_flags(flags(PageTableFlags::PRESENT | PageTableFlags::HUGE_PAGE));
    assert_eq!(e.addr().as_u64(), 0x0000_0012_3456_7000);
    assert_eq!(e.frame().unwrap_err(), FrameError::HugeFrame);
}

#[test]
fn flags_operations() {
    let a = flags(RW);
    let b = flags(PageTableFlags::PRESENT);
    assert!(a.contains(b));
    assert!(!b.contains(a));
    assert_eq!(a.intersection(b).bits(), PageTableFlags::PRESENT);
    assert_eq!(b.union(flags(PageTableFlags::USER_ACCESSIBLE)).bits(), 0b101);
    assert!(PageTableFlags::empty().is_empty());
    assert_eq!(flags(0x0000_1234_5678_9fff).bits(), 0xfff);
}

#[test]
fn zeroed_table_has_unused_entries() {
    let mut t = PageTable::new();
    let mut e = PageTableEntry::new();
    e.set_frame(frame(0x3000), flags(RW));
    t.set_entry(5, e);
    assert!(!t.entry(5).is_unused());
    t.zero();
    assert!(t.iter().iter().all(|e| e.is_unused()));
    assert_eq!(t.iter().len(), 512);
}

#[test]
fn map_then_translate() {
    let mut m = empty_mapper();
    let mut alloc = ListAllocator { frames: vec![0x4000, 0x3000, 0x2000] };
    let page = Page::<Size4KiB>::new_containing_address(VirtAddr::new(0x0000_0040_0020_1000));
    let target = frame(0x0000_0000_00ab_c000);
    let flush = m.map_to(page, target, flags(RW), &mut alloc).unwrap();
    assert_eq!(flush.flush().as_u64(), 0x0000_0040_0020_1000);
    assert!(alloc.frames.is_empty());
    match m.translate(page.start_address()) {
        TranslateResult::Mapped { frame: MappedFrame::Size4KiB(f), offset, flags: fl } => {
            assert_eq!(f.start_address().as_u64(), 0xab_c000);
            assert_eq!(offset, 0);
            assert_eq!(fl.bits(), RW);
        }
        other => panic!("unexpected {:?}", other),
    }
    let inside = VirtAddr::new(0x0000_0040_0020_1abc);
    assert_eq!(m.translate_addr(inside).unwrap().as_u64(), 0xab_cabc);
    assert!(matches!(m.translate(VirtAddr::new(0x0000_0040_0020_2000)), TranslateResult::NotMapped));
    assert!(m.translate_addr(VirtAddr::new(0x5000)).is_none());
}

#[test]
fn map_twice_reports_first_frame() {
    let mut m = empty_mapper();
    let mut alloc = ListAllocator { frames: vec![0x4000, 0x3000, 0x2000] };
    let page = Page::<Size4KiB>::new_containing_address(VirtAddr::new(0x7000));
    m.map_to(page, frame(0x9000), flags(RW), &mut alloc).unwrap();
    let second = m.map_to(page, frame(0xa000), flags(RW), &mut alloc);
    match second {
        Err(MapToError::PageAlreadyMapped(f)) => assert_eq!(f.start_address().as_u64(), 0x9000),
        other => panic!("unexpected {:?}", other),
    }
    assert_eq!(m.translate_addr(VirtAddr::new(0x7123)).unwrap().as_u64(), 0x9123);
}

#[test]
fn map_without_frames_fails_and_resumes() {
    let mut m = empty_mapper();
    let mut alloc = ListAllocator { frames: vec![0x3000, 0x2000] };
    let page = Page::<Size4KiB>::new_containing_address(VirtAddr::new(0x0000_0001_0000_0000));
    let r = m.map_to(page, frame(0x8000), flags(RW), &mut alloc);
    assert!(matches!(r, Err(MapToError::FrameAllocationFailed)));
    let mut more = ListAllocator { frames: vec![0x4000] };
    m.map_to(page, frame(0x8000), flags(RW), &mut more).unwrap();
    assert_eq!(m.translate_addr(VirtAddr::new(0x0000_0001_0000_0010)).unwrap().as_u64(), 0x8010);
}

fn huge_mapper(level: u32) -> MappedPageTable {
    let mut m = MappedPageTable::new(frame(0x1000));
    let mut l4 = PageTable::new();
    let mut e = PageTableEntry::new();
    e.set_frame(frame(0x2000), flags(RW));
    l4.set_entry(0, e);
    m.insert_table(frame(0x1000), l4);
    let mut l3 = PageTable::new();
    let mut e3 = PageTableEntry::new();
    if level == 3 {
        e3.set_frame(frame(0x4000_0000), flags(RW | PageTableFlags::HUGE_PAGE));
    } else {
        e3.set_frame(frame(0x3000), flags(RW));
    }
    l3.set_entry(0, e3);
    m.insert_table(frame(0x2000), l3);
    let mut l2 = PageTable::new();
    let mut e2 = PageTableEntry::new();
    e2.set_frame(frame(0x0060_0000), flags(RW | PageTableFlags::HUGE_PAGE));
    l2.set_entry(1, e2);
    m.insert_table(frame(0x3000), l2);
    m
}

#[test]
fn huge_2mib_entry_translates_whole_span() {
    let m = huge_mapper(2);
    for off in [0u64, 1, 0x1234, 0x1f_ffff] {
        let va = VirtAddr::new(0x0020_0000 + off);
        match m.translate(va) {
            TranslateResult::Mapped { frame: MappedFrame::Size2MiB(f), offset, .. } => {
                assert_eq!(f.start_address().as_u64(), 0x0060_0000);
                assert_eq!(offset, off);
            }
            other => panic!("unexpected {:?}", other),
        }
        assert_eq!(m.translate_addr(va).unwrap().as_u64(), 0x0060_0000 + off);
    }
    assert!(m.translate_addr(VirtAddr::new(0x0040_0000)).is_none());
}

#[test]
fn huge_1gib_entry_translates_with_30_bit_offset() {
    let m = huge_mapper(3);
    let va = VirtAddr::new(0x2345_6789);
    match m.translate(va) {
        TranslateResult::Mapped { frame: MappedFrame::Size1GiB(f), offset, .. } => {
            assert_eq!(f.start_address().as_u64(), 0x4000_0000);
            assert_eq!(offset, 0x2345_6789);
        }
        other => panic!("unexpected {:?}", other),
    }
}

#[test]
fn mapping_under_huge_page_is_refused() {
    let mut m = huge_mapper(2);
    let mut alloc = ListAllocator { frames: vec![0x5000] };
    let page = Page::<Size4KiB>::new_containing_address(VirtAddr::new(0x0020_1000));
    let r = m.map_to(page, frame(0x9000), flags(RW), &mut alloc);
    assert!(matches!(r, Err(MapToError::ParentEntryHugePage)));
}

#[test]
fn map_not_present_leaf_through_existing_tables() {
    let mut m = empty_mapper();
    let mut alloc = ListAllocator { frames: vec![0x4000, 0x3000, 0x2000] };
    let a = Page::<Size4KiB>::new_containing_address(VirtAddr::new(0x7000));
    m.map_to(a, frame(0x9000), flags(RW), &mut alloc).unwrap();
    let b = Page::<Size4KiB>::new_containing_address(VirtAddr::new(0x8000));
    let mut none = ListAllocator { frames: vec![] };
    m.map_to(b, frame(0xb000), flags(PageTableFlags::WRITABLE), &mut none).unwrap();
    match m.translate(b.start_address()) {
        TranslateResult::Mapped { frame: MappedFrame::Size4KiB(f), flags: fl, .. } => {
            assert_eq!(f.start_address().as_u64(), 0xb000);
            assert_eq!(fl.bits(), PageTableFlags::WRITABLE);
        }
        other => panic!("unexpected {:?}", other),
    }
}

#[test]
fn install_next_table_uses_given_frame() {
    let mut m = empty_mapper();
    assert!(matches!(
        m.install_next_table(0x1000, 3, flags(RW), None),
        Err(kernel_core::mapper::PageTableCreateError::FrameAllocationFailed)
    ));
    assert!(m.entry_at(0x1000, 3).is_unused());
    let next = m.install_next_table(0x1000, 3, flags(RW), Some(frame(0x6000))).unwrap();
    assert_eq!(next, 0x6000);
    assert_eq!(m.entry_at(0x1000, 3).addr().as_u64(), 0x6000);
    assert_eq!(m.entry_at(0x1000, 3).flags().bits(), RW);
    assert!(m.entry_at(0x6000, 0).is_unused());
}

#[test]
fn failed_map_under_huge_page_leaves_its_flags() {
    let mut m = huge_mapper(2);
    let before = m.entry_at(0x3000, 1).flags().bits();
    let mut alloc = ListAllocator { frames: vec![] };
    let page = Page::<Size4KiB>::new_containing_address(VirtAddr::new(0x0020_1000));
    let user = PageTableFlags::PRESENT | PageTableFlags::WRITABLE | PageTableFlags::USER_ACCESSIBLE;
    let r = m.map_to(page, frame(0x9000), flags(user), &mut alloc);
    assert!(matches!(r, Err(MapToError::ParentEntryHugePage)));
    assert_eq!(m.entry_at(0x3000, 1).flags().bits(), before);
}

#[test]
fn allocator_reusing_a_table_frame_breaks_the_walk() {
    let mut m = empty_mapper();
    let mut alloc = ListAllocator { frames: vec![0x4000, 0x3000, 0x1000] };
    let page = Page::<Size4KiB>::new_containing_address(VirtAddr::new(0x7000));
    m.map_to(page, frame(0x9000), flags(RW), &mut alloc).unwrap();
    assert!(matches!(m.translate(page.start_address()), TranslateResult::NotMapped));
}
