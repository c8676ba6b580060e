use kernel_core::gdt::{
    Descriptor, GlobalDescriptorTable, PrivilegeLevel, SegmentSelector, TaskStateSegment,
    KERNEL_CODE64, TSS_SIZE,
};
use kernel_core::idt::{EntryOptions, InterruptDescriptorTable};
use kernel_core::interrupts::InterruptIndex;

#[test]
fn kernel_code_segment_value() {
    assert_eq!(KERNEL_CODE64, 0x00af_9b00_0000_ffff);
    assert_eq!(Descriptor::kernel_code_segment(), Descriptor::UserSegment(0x00af_9b00_0000_ffff));
    assert_eq!(Descriptor::kernel_code_segment().dpl(), PrivilegeLevel::Ring0);
    assert_eq!(Descriptor::UserSegment(3 << 45).dpl(), PrivilegeLevel::Ring3);
}

#[test]
fn tss_descriptor_fields() {
    let base = 0x1234_5678_9abc_def0u64;
    match Descriptor::tss_segment(base) {
        Descriptor::SystemSegment(low, high) => {
            assert_eq!(low & 0xffff, TSS_SIZE - 1);
            assert_eq!((low >> 16) & 0xff_ffff, 0xbc_def0);
            assert_eq!((low >> 40) & 0xf, 0b1001);
            assert_eq!((low >> 47) & 1, 1);
            assert_eq!(low >> 56, 0x9a);
            assert_eq!(high, 0x1234_5678);
        }
        other => panic!("unexpected {:?}", other),
    }
}

#[test]
fn gdt_append_until_full() {
    let mut gdt = GlobalDescriptorTable::default();
    assert_eq!(gdt.len(), 1);
    let code = gdt.append(Descriptor::kernel_code_segment());
    assert_eq!(code, SegmentSelector(8));
    let tss = gdt.append(Descriptor::tss_segment(0x1000));
    assert_eq!(tss, SegmentSelector(16));
    assert_eq!(gdt.len(), 4);
    let mut n = 0;
    while gdt.fits(&Descriptor::kernel_code_segment()) {
        gdt.append(Descriptor::kernel_code_segment());
        n += 1;
    }
    assert_eq!(n, 4);
    assert_eq!(gdt.len(), 8);
    assert!(!gdt.fits(&Descriptor::kernel_code_segment()));
    assert_eq!(gdt.pointer(0xdead_0000).limit, 63);
}

#[test]
fn gdt_system_segment_needs_two_free_slots() {
    let mut gdt = GlobalDescriptorTable::default();
    for _ in 0..6 {
        gdt.append(Descriptor::kernel_code_segment());
    }
    assert_eq!(gdt.len(), 7);
    assert!(gdt.fits(&Descriptor::kernel_code_segment()));
    assert!(!gdt.fits(&Descriptor::tss_segment(0x1000)));
}

#[test]
fn selector_layout() {
    assert_eq!(SegmentSelector::new(5, PrivilegeLevel::Ring3), SegmentSelector(43));
    assert_eq!(PrivilegeLevel::from_u16(2), PrivilegeLevel::Ring2);
    assert_eq!(PrivilegeLevel::Ring1.as_u16(), 1);
}

#[test]
fn tss_defaults() {
    let tss = TaskStateSegment::default();
    assert_eq!(tss.iomap_base, 104);
    assert!(tss.interrupt_stack_table.iter().all(|&s| s == 0));
}

#[test]
fn idt_entry_setup() {
    let mut idt = InterruptDescriptorTable::default();
    let cs = SegmentSelector(8);
    let opts = idt.double_fault.set_handler(0xffff_8000_1234_5678, cs);
    opts.set_stack_index(0);
    let mut expected = EntryOptions::default();
    expected.set_present(true);
    expected.set_stack_index(0);
    let timer = InterruptIndex::Timer.as_u8();
    assert_eq!(timer, 32);
    assert_eq!(InterruptIndex::Keyboard.as_usize(), 33);
    idt.index_mut(timer).set_handler(0x1000, cs);
    assert_ne!(*idt.index(timer), *idt.index(33));
    assert_eq!(idt.pointer(0x5000).limit, 4095);
    let fresh = InterruptDescriptorTable::default();
    assert_eq!(*fresh.index(0), *fresh.index(255));
}

#[test]
fn idt_entry_encoding() {
    let mut idt = InterruptDescriptorTable::default();
    let opts = idt.double_fault.set_handler(0x1122_3344_5566_7788, SegmentSelector(8));
    opts.set_stack_index(0);
    let (lo, hi) = idt.double_fault.words();
    assert_eq!(lo & 0xffff, 0x7788);
    assert_eq!((lo >> 16) & 0xffff, 8);
    assert_eq!((lo >> 32) & 0xffff, 0x8e01);
    assert_eq!(lo >> 48, 0x5566);
    assert_eq!(hi, 0x1122_3344);
    let words = idt.words();
    assert_eq!(words.len(), 512);
    assert_eq!(words[16], lo);
    assert_eq!(words[17], hi);
    assert_eq!((words[0] >> 32) & 0xffff, 0x0e00);
}

#[test]
fn gdt_table_image() {
    let mut gdt = GlobalDescriptorTable::default();
    gdt.append(Descriptor::kernel_code_segment());
    let image: Vec<u64> = gdt.table().iter().map(|e| e.value()).collect();
    assert_eq!(image[0], 0);
    assert_eq!(image[1], KERNEL_CODE64);
    assert_eq!(image.len(), 8);
}
