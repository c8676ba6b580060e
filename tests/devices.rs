use kernel_core::pci::{
    read_16b_register, read_8b_register, BaseAddressRegister, BusScan, CSpaceAccessMethod,
    IoCSpaceAccessMethod, Location, MemoryBaseAddressRegister, MemoryBaseAddressSize,
};
use kernel_core::pic::ChainedPics;
use kernel_core::registers::{are_enabled, read, Cr3};
use kernel_core::serial::SerialPort;

#[test]
fn chained_pics_windows() {
    let pics = ChainedPics::new(32, 40);
    assert!(pics.handles_interrupt(32));
    assert!(pics.handles_interrupt(39));
    assert!(pics.handles_interrupt(40));
    assert!(pics.handles_interrupt(47));
    assert!(!pics.handles_interrupt(48));
    assert!(!pics.handles_interrupt(31));
}

#[test]
fn end_of_interrupt_order() {
    let pics = ChainedPics::new(32, 40);
    let spy = pics.notify_end_of_interrupt(44);
    assert_eq!(spy, vec![0xA0, 0x20]);
    assert_eq!(pics.notify_end_of_interrupt(33), vec![0x20]);
    assert!(pics.notify_end_of_interrupt(100).is_empty());
}

#[test]
fn pic_initialisation_writes() {
    let pics = ChainedPics::new(32, 40);
    let w = pics.initialize((0xb8, 0x8e));
    assert_eq!(w.len(), 18);
    assert_eq!(w[0], (0x20, 0x11));
    assert_eq!(w[1], (0x80, 0));
    assert_eq!(w[2], (0xA0, 0x11));
    assert_eq!(w[4], (0x21, 32));
    assert_eq!(w[6], (0xA1, 40));
    assert_eq!(w[8], (0x21, 4));
    assert_eq!(w[10], (0xA1, 2));
    assert_eq!(w[12], (0x21, 1));
    assert_eq!(w[14], (0xA1, 1));
    assert_eq!(w[16], (0x21, 0xb8));
    assert_eq!(w[17], (0xA1, 0x8e));
}

#[test]
fn pci_config_address() {
    let sam = IoCSpaceAccessMethod::new(Location::new(3, 17, 5));
    assert_eq!(sam.address(0x3c), 0x8003_8d3c);
    let loc = Location::new(1, 2, 3);
    assert_eq!((loc.bus(), loc.device(), loc.function()), (1, 2, 3));
}

#[test]
fn pci_register_splits() {
    assert_eq!(IoCSpaceAccessMethod::read8(0x1122_3344), (0x44, 0x33, 0x22, 0x11));
    assert_eq!(IoCSpaceAccessMethod::read16(0x1122_3344), (0x3344, 0x1122));
    assert_eq!(read_8b_register(0x1122_3344), (0x11, 0x22, 0x33, 0x44));
    assert_eq!(read_16b_register(0x1122_3344), (0x3344, 0x1122));
}

#[test]
fn base_address_registers() {
    let m = BaseAddressRegister::new(0xfebf_1004);
    assert!(matches!(m, BaseAddressRegister::Memory(_)));
    assert_eq!(m.address(), 0xfebf_1004 >> 4);
    let io = BaseAddressRegister::new(0xc041);
    assert!(matches!(io, BaseAddressRegister::IoSpace(_)));
    assert_eq!(io.address(), 0xc041 >> 2);
    assert_eq!(BaseAddressRegister::type_bit(0xc041), 1);
    assert_eq!(MemoryBaseAddressRegister::new(0x4).size(), MemoryBaseAddressSize::Bits64);
    assert_eq!(MemoryBaseAddressRegister::new(0x0).size(), MemoryBaseAddressSize::Bits32);
    assert_eq!(MemoryBaseAddressRegister::new(0x10).bits(), 0x10);
}

#[test]
fn bus_scan_positions() {
    let mut scan = kernel_core::pci::scan_buses(CSpaceAccessMethod::Io);
    assert!(!scan.done());
    assert_eq!(scan.location().bus(), 0);
    for _ in 0..31 {
        scan.increment();
    }
    assert_eq!(scan.location().device(), 31);
    scan.increment();
    assert_eq!((scan.location().bus(), scan.location().device()), (1, 0));
}

#[test]
fn register_decoding() {
    let (frame, flags) = Cr3::read(0x0000_0000_0123_4018);
    assert_eq!(frame.start_address().as_u64(), 0x0123_4000);
    assert_eq!(flags.bits(), 0x18);
    assert!(are_enabled(read(0x202)));
    assert!(!are_enabled(read(0x2)));
}

#[test]
fn serial_bytes() {
    let port = SerialPort::new(0x3f8);
    assert_eq!(port.send(b'a'), vec![b'a']);
    assert_eq!(port.send(0x7f), vec![8, b' ', 8]);
    assert_eq!(port.send(8), vec![8, b' ', 8]);
    let init = port.init();
    assert_eq!(init[0], (0x3f9, 0));
    assert_eq!(init[5], (0x3fa, 0xc7));
    assert_eq!(port.line_sts_port(), 0x3fd);
}

fn header(vendor: u32, header_type: u32) -> Vec<u32> {
    let mut regs = vec![0u32; 16];
    regs[0] = 0x1009_0000 | vendor;
    regs[1] = 0xffff_0507;
    regs[2] = 0x0201_0003;
    regs[3] = header_type << 16 | 0x40_10;
    for i in 4..10 {
        regs[i] = 0xfeb0_0000 + i as u32;
    }
    regs[7] = 0xaabb_2211;
    regs[11] = 0x1234_5678;
    regs[13] = 0x40;
    regs[15] = 0x0403_0201;
    regs
}

#[test]
fn decode_general_device() {
    let scan = BusScan::new(CSpaceAccessMethod::Io);
    match scan.scan_device(&header(0x1af4, 0)) {
        Some(kernel_core::pci::Device::General(d)) => {
            assert_eq!(d.common.vendor_id, 0x1af4);
            assert_eq!(d.common.device_id, 0x1009);
            assert_eq!(d.common.command.0, 0x0507 & 0x077f);
            assert_eq!(d.common.status.0, 0xffff & 0xf99c);
            assert_eq!(d.common.class_code, 0x02);
            assert_eq!(d.common.prog_if, 0x00);
            assert_eq!(d.common.revision_id, 0x03);
            assert_eq!(d.common.latency_timer, 0x40);
            assert_eq!(d.bars[0].address(), 0xfeb0_0004 >> 4);
            assert!(matches!(d.bars[1], BaseAddressRegister::IoSpace(_)));
            assert_eq!(d.subsystem_vendor_id, 0x5678);
            assert_eq!(d.subsystem_id, 0x1234);
            assert_eq!(d.capabilities_pointer, 0x40);
            assert_eq!((d.max_latency, d.min_grant, d.interrupt_pin, d.interrupt_line), (1, 2, 3, 4));
        }
        other => panic!("unexpected {:?}", other),
    }
}

#[test]
fn decode_bridge_and_absent_devices() {
    let scan = BusScan::new(CSpaceAccessMethod::Io);
    match scan.scan_device(&header(0x8086, 1)) {
        Some(kernel_core::pci::Device::PciToPci(d)) => {
            assert_eq!(d.io_base, 0x11);
            assert_eq!(d.io_limit, 0x22);
            assert_eq!(d.secondary_status, 0);
            assert_eq!((d.interrupt_line, d.interrupt_pin), (1, 2));
            assert_eq!(d.bridge_control, 0);
        }
        other => panic!("unexpected {:?}", other),
    }
    assert!(scan.scan_device(&header(0xffff, 0)).is_none());
    assert!(scan.scan_device(&header(0x8086, 2)).is_none());
}

#[test]
fn register_address_and_amount() {
    assert_eq!(kernel_core::pci::register_address(3, 17, 5, 0x3f), 0x8003_8d3c);
    assert_eq!(kernel_core::pci::read_address_space_amount(0xffff_f00f), !0xffff_f001u32);
    assert_eq!(kernel_core::pci::read_address_space_amount(0), 0xffff_fffe);
}
