//! PCI configuration space: device locations, the address word that
//! selects a register, the split of a register into bytes and words, and
//! base address registers.
use crate::bits::{get_bits_u32, set_bit_u32, set_bits_u32};
use vstd::prelude::*;

verus! {

/// Port that takes the configuration address.
pub const CONFIG_ADDRESS: u16 = 0xCF8;

/// Port that then carries the selected register.
pub const CONFIG_DATA: u16 = 0xCFC;

/// The physical location of a device on the bus.
#[derive(Clone, Copy, Debug, PartialEq, Eq)]
pub struct Location {
    bus: u8,
    device: u8,
    function: u8,
}

impl Location {
    pub closed spec fn spec_bus(&self) -> u8 {
        self.bus
    }

    pub closed spec fn spec_device(&self) -> u8 {
        self.device
    }

    pub closed spec fn spec_function(&self) -> u8 {
        self.function
    }

    pub fn new(bus: u8, device: u8, function: u8) -> (r: Location)
        ensures
            r.spec_bus() == bus,
            r.spec_device() == device,
            r.spec_function() == function,
    {
        Location { bus, device, function }
    }

    pub fn bus(&self) -> (r: u8)
        ensures
            r == self.spec_bus(),
    {
        self.bus
    }

    pub fn device(&self) -> (r: u8)
        ensures
            r == self.spec_device(),
    {
        self.device
    }

    pub fn function(&self) -> (r: u8)
        ensures
            r == self.spec_function(),
    {
        self.function
    }
}

proof fn lemma_fields_fit(o: u32, f: u32, d: u32, b: u32)
    requires
        o < 256,
        f < 8,
        d < 32,
        b < 256,
    ensures
        o << 24u32 >> 24u32 == o,
        f << 29u32 >> 29u32 == f,
        d << 27u32 >> 27u32 == d,
        b << 24u32 >> 24u32 == b,
{
    assert(o << 24u32 >> 24u32 == o && f << 29u32 >> 29u32 == f && d << 27u32 >> 27u32 == d && b
        << 24u32 >> 24u32 == b) by (bit_vector)
        requires
            o < 256,
            f < 8,
            d < 32,
            b < 256,
    ;
}

/// How configuration space is reached.
#[derive(Clone, Copy, Debug, PartialEq, Eq)]
pub enum CSpaceAccessMethod {
    /// Through the address and data ports.
    Io,
}

/// The configuration address of register `offset` of the device at
/// `location`: offset in bits 0 to 7, function in 8 to 10, device in 11 to
/// 15, bus in 16 to 23, and the enable bit 31.
pub open spec fn config_address(bus: u8, device: u8, function: u8, offset: u8) -> u32 {
    0x8000_0000u32 | ((bus as u32) << 16u32) | ((device as u32) << 11u32) | ((function as u32)
        << 8u32) | (offset as u32)
}

/// Configuration access through the address and data ports, for one
/// device.
#[derive(Clone, Copy, Debug, PartialEq, Eq)]
pub struct IoCSpaceAccessMethod {
    location: Location,
}

impl IoCSpaceAccessMethod {
    pub closed spec fn spec_location(&self) -> Location {
        self.location
    }

    pub fn new(location: Location) -> (r: IoCSpaceAccessMethod)
        ensures
            r.spec_location() == location,
    {
        IoCSpaceAccessMethod { location }
    }

    /// The address word that selects register `offset`; the function must
    /// fit in 3 bits and the device in 5.
    pub fn address(&self, offset: u8) -> (r: u32)
        requires
            self.spec_location().spec_function() < 8,
            self.spec_location().spec_device() < 32,
        ensures
            r == config_address(
                self.spec_location().spec_bus(),
                self.spec_location().spec_device(),
                self.spec_location().spec_function(),
                offset,
            ),
    {
        let o = offset as u32;
        let f = self.location.function() as u32;
        let d = self.location.device() as u32;
        let b = self.location.bus() as u32;
        proof {
            lemma_fields_fit(o, f, d, b);
        }
        let mut addr: u32 = 0;
        set_bits_u32(&mut addr, 0, 8, o);
        let a1 = addr;
        set_bits_u32(&mut addr, 8, 11, f);
        let a2 = addr;
        set_bits_u32(&mut addr, 11, 16, d);
        let a3 = addr;
        set_bits_u32(&mut addr, 16, 24, b);
        let a4 = addr;
        set_bit_u32(&mut addr, 31, true);
        assert(addr == 0x8000_0000u32 | (b << 16u32) | (d << 11u32) | (f << 8u32) | o)
            by (bit_vector)
            requires
                o < 256,
                f < 8,
                d < 32,
                b < 256,
                a1 == (0u32 & !((((!0u32) << 24u32) >> 24u32) >> 0u32 << 0u32)) | (o << 0u32),
                a2 == (a1 & !((((!0u32) << 21u32) >> 21u32) >> 8u32 << 8u32)) | (f << 8u32),
                a3 == (a2 & !((((!0u32) << 16u32) >> 16u32) >> 11u32 << 11u32)) | (d << 11u32),
                a4 == (a3 & !((((!0u32) << 8u32) >> 8u32) >> 16u32 << 16u32)) | (b << 16u32),
                addr == a4 | (1u32 << 31u32),
        ;
        addr
    }

    /// The four bytes of a register value, lowest first.
    pub fn read8(bits: u32) -> (r: (u8, u8, u8, u8))
        ensures
            r == ((bits & 0xff) as u8, ((bits >> 8u32) & 0xff) as u8, ((bits >> 16u32) & 0xff) as u8, (
            bits >> 24u32) as u8),
    {
        let r0 = get_bits_u32(bits, 0, 8);
        let r1 = get_bits_u32(bits, 8, 16);
        let r2 = get_bits_u32(bits, 16, 24);
        let r3 = get_bits_u32(bits, 24, 32);
        assert(r0 == bits & 0xff && r1 == (bits >> 8u32) & 0xff && r2 == (bits >> 16u32) & 0xff
            && r3 == bits >> 24u32) by (bit_vector)
            requires
                r0 == (bits << 24u32) >> 24u32 >> 0u32,
                r1 == (bits << 16u32) >> 16u32 >> 8u32,
                r2 == (bits << 8u32) >> 8u32 >> 16u32,
                r3 == (bits << 0u32) >> 0u32 >> 24u32,
        ;
        (r0 as u8, r1 as u8, r2 as u8, r3 as u8)
    }

    /// The two 16-bit halves of a register value, lower first.
    pub fn read16(bits: u32) -> (r: (u16, u16))
        ensures
            r == ((bits & 0xffff) as u16, (bits >> 16u32) as u16),
    {
        let r0 = get_bits_u32(bits, 0, 16);
        let r1 = get_bits_u32(bits, 16, 32);
        assert(r0 == bits & 0xffff && r1 == bits >> 16u32) by (bit_vector)
            requires
                r0 == (bits << 16u32) >> 16u32 >> 0u32,
                r1 == (bits << 0u32) >> 0u32 >> 16u32,
        ;
        (r0 as u16, r1 as u16)
    }
}

/// The configuration address of register `offset` (rounded down to a
/// multiple of four) of function `function` of device `device` on bus
/// `bus`, with the enable bit set; the fields are not range-checked.
pub fn register_address(bus: u8, device: u8, function: u8, offset: u8) -> (r: u32)
    ensures
        r == ((bus as u32) << 16u32) | ((device as u32) << 11u32) | ((function as u32) << 8u32) | ((
        offset & 0xfc) as u32) | 0x8000_0000u32,
{
    (bus as u32) << 16u32 | (device as u32) << 11u32 | (function as u32) << 8u32 | (offset & 0xFC) as u32
        | 0x80000000
}

/// The amount derived from the value read back after all ones were written
/// to a base address register: the complement of the masked value plus
/// one. (The usual size formula adds one after the complement.)
pub fn read_address_space_amount(probe: u32) -> (r: u32)
    ensures
        r == !(((probe & 0xffff_fff0u32) + 1) as u32),
{
    let masked = probe & 0xFFFF_FFF0;
    assert(masked <= 0xffff_fff0u32) by (bit_vector)
        requires
            masked == probe & 0xffff_fff0u32,
    ;
    let sum = match masked.checked_add(1) {
        Some(s) => s,
        None => 0,
    };
    !sum
}

/// The two 16-bit halves of a register value, lower first.
pub fn read_16b_register(bits: u32) -> (r: (u16, u16))
    ensures
        r == ((bits & 0xffff) as u16, (bits >> 16u32) as u16),
{
    ((bits & 0xFFFF) as u16, (bits >> 16u32) as u16)
}

/// The four bytes of a register value, highest first.
pub fn read_8b_register(bits: u32) -> (r: (u8, u8, u8, u8))
    ensures
        r == ((bits >> 24u32) as u8, (bits >> 16u32) as u8, (bits >> 8u32) as u8, bits as u8),
{
    ((bits >> 24u32) as u8, (bits >> 16u32) as u8, (bits >> 8u32) as u8, bits as u8)
}

/// A memory base address register.
#[derive(Clone, Copy, Debug, PartialEq, Eq)]
pub struct MemoryBaseAddressRegister(u32);

/// Width of the address a memory register decodes.
#[derive(Clone, Copy, Debug, PartialEq, Eq)]
pub enum MemoryBaseAddressSize {
    Bits32,
    Bits64,
}

impl View for MemoryBaseAddressRegister {
    type V = u32;

    closed spec fn view(&self) -> u32 {
        self.0
    }
}

impl MemoryBaseAddressRegister {
    pub fn new(bits: u32) -> (r: MemoryBaseAddressRegister)
        ensures
            r@ == bits,
    {
        MemoryBaseAddressRegister(bits)
    }

    pub fn bits(&self) -> (r: u32)
        ensures
            r == self@,
    {
        self.0
    }

    /// The width field, bits 1 and 2: 0 for 32 bits, 2 for 64; the other
    /// two values are not supported.
    pub fn size(&self) -> (r: MemoryBaseAddressSize)
        requires
            (self@ >> 1u32) & 3 == 0 || (self@ >> 1u32) & 3 == 2,
        ensures
            r == if (self@ >> 1u32) & 3 == 0 {
                MemoryBaseAddressSize::Bits32
            } else {
                MemoryBaseAddressSize::Bits64
            },
    {
        let v = self.0;
        let b = get_bits_u32(v, 1, 3);
        assert(b == (v >> 1u32) & 3) by (bit_vector)
            requires
                b == (v << 29u32) >> 29u32 >> 1u32,
        ;
        if b == 0 {
            MemoryBaseAddressSize::Bits32
        } else {
            MemoryBaseAddressSize::Bits64
        }
    }

    /// The register shifted past its four type bits.
    pub fn address(&self) -> (r: u32)
        ensures
            r == self@ >> 4u32,
    {
        self.0 >> 4u32
    }
}

/// An I/O-space base address register.
#[derive(Clone, Copy, Debug, PartialEq, Eq)]
pub struct IoSpaceBaseAddressRegister(u32);

impl View for IoSpaceBaseAddressRegister {
    type V = u32;

    closed spec fn view(&self) -> u32 {
        self.0
    }
}

impl IoSpaceBaseAddressRegister {
    pub fn new(bits: u32) -> (r: IoSpaceBaseAddressRegister)
        ensures
            r@ == bits,
    {
        IoSpaceBaseAddressRegister(bits)
    }

    /// The register shifted past its two type bits.
    pub fn address(&self) -> (r: u32)
        ensures
            r == self@ >> 2u32,
    {
        self.0 >> 2u32
    }
}

/// A base address register, of memory or of I/O space by its bit 0.
#[derive(Clone, Copy, Debug, PartialEq, Eq)]
pub enum BaseAddressRegister {
    Memory(MemoryBaseAddressRegister),
    IoSpace(IoSpaceBaseAddressRegister),
}

impl BaseAddressRegister {
    pub open spec fn spec_bits(&self) -> u32 {
        match self {
            BaseAddressRegister::Memory(b) => b@,
            BaseAddressRegister::IoSpace(b) => b@,
        }
    }

    /// The register `bits`, of memory when bit 0 is clear.
    pub fn new(bits: u32) -> (r: BaseAddressRegister)
        ensures
            r.spec_bits() == bits,
            (bits & 1 == 0) <==> (r is Memory),
    {
        if Self::type_bit(bits) == 0 {
            BaseAddressRegister::Memory(MemoryBaseAddressRegister::new(bits))
        } else {
            BaseAddressRegister::IoSpace(IoSpaceBaseAddressRegister::new(bits))
        }
    }

    /// The address field of the register.
    pub fn address(&self) -> (r: u32)
        ensures
            r == match self {
                BaseAddressRegister::Memory(b) => b@ >> 4u32,
                BaseAddressRegister::IoSpace(b) => b@ >> 2u32,
            },
    {
        match self {
            BaseAddressRegister::Memory(bar) => bar.address(),
            BaseAddressRegister::IoSpace(bar) => bar.address(),
        }
    }

    /// Bit 0: 0 for memory, 1 for I/O space.
    pub fn type_bit(bits: u32) -> (r: u8)
        ensures
            r == bits & 1,
    {
        assert(bits & 1 <= 1) by (bit_vector);
        (bits & 0b1) as u8
    }
}

/// Walks every device slot of every bus: bus 0 to 255, device 0 to 31.
#[derive(Clone, Copy, Debug, PartialEq, Eq)]
pub struct BusScan {
    sam: CSpaceAccessMethod,
    bus: u8,
    device: u8,
}

impl BusScan {
    pub closed spec fn position(&self) -> (u8, u8) {
        (self.bus, self.device)
    }

    pub closed spec fn wf(&self) -> bool {
        self.device < 32
    }

    /// A scan from bus 0, device 0.
    pub fn new(sam: CSpaceAccessMethod) -> (r: BusScan)
        ensures
            r.position() == (0u8, 0u8),
            r.wf(),
    {
        BusScan { sam, bus: 0, device: 0 }
    }

    /// The last slot, bus 255 device 31, is reached.
    pub fn done(&self) -> (r: bool)
        ensures
            r == (self.position() == (255u8, 31u8)),
    {
        self.bus == 255 && self.device == 31
    }

    /// The next slot: the next device, or device 0 of the next bus.
    pub fn increment(&mut self)
        requires
            old(self).wf(),
            old(self).position() != (255u8, 31u8),
        ensures
            final(self).wf(),
            final(self).position() == if old(self).position().1 == 31 {
                ((old(self).position().0 + 1) as u8, 0u8)
            } else {
                (old(self).position().0, (old(self).position().1 + 1) as u8)
            },
    {
        if self.device == 31 {
            self.device = 0;
            self.bus = self.bus + 1;
        } else {
            self.device = self.device + 1;
        }
    }

    /// The location of the current slot, function 0.
    pub fn location(&self) -> (r: Location)
        ensures
            r.spec_bus() == self.position().0,
            r.spec_device() == self.position().1,
            r.spec_function() == 0,
    {
        Location::new(self.bus, self.device, 0)
    }
}

} // verus!

verus! {

/// The command register of a device.
#[derive(Clone, Copy, Debug, PartialEq, Eq)]
pub struct CommandRegister(pub u16);

/// Every bit that `CommandRegister` names.
pub const COMMAND_KNOWN: u16 = 0x077f;

impl CommandRegister {
    pub const IO_SPACE: u16 = 0x1;
    pub const MEMORY_SPACE: u16 = 0x2;
    pub const BUS_MASTER: u16 = 0x4;
    pub const SPECIAL_CYCLES: u16 = 0x8;
    pub const MEMORY_WRITE_AND_INVALIDATE_ENABLE: u16 = 0x10;
    pub const VGA_PALETTE_SNOOP: u16 = 0x20;
    pub const PARITY_ERROR_RESPONSE: u16 = 0x40;
    pub const SERR_ENABLE: u16 = 0x100;
    pub const FAST_BACK_TO_BACK_ENABLE: u16 = 0x200;
    pub const INTERRUPT_DISABLE: u16 = 0x400;

    /// The known bits of `bits`.
    pub fn from_bits_truncate(bits: u16) -> (r: CommandRegister)
        ensures
            r.0 == bits & COMMAND_KNOWN,
    {
        CommandRegister(bits & COMMAND_KNOWN)
    }
}

/// The status register of a device.
#[derive(Clone, Copy, Debug, PartialEq, Eq)]
pub struct StatusRegister(pub u16);

/// Every bit that `StatusRegister` names.
pub const STATUS_KNOWN: u16 = 0xf99c;

impl StatusRegister {
    pub const INTERRUPT_STATUS: u16 = 0x4;
    pub const CAPABILITIES_LIST: u16 = 0x8;
    pub const MHZ66_CAPABLE: u16 = 0x10;
    pub const FAST_BACK_TO_BACK_CAPABLE: u16 = 0x80;
    pub const MASTER_DATA_PARITY_ERROR: u16 = 0x100;
    pub const SIGNALED_TARGET_ABORT: u16 = 0x800;
    pub const RECEIVED_TARGET_ABORT: u16 = 0x1000;
    pub const RECEIVED_MASTER_ABORT: u16 = 0x2000;
    pub const SIGNALED_SYSTEM_ERROR: u16 = 0x4000;
    pub const DETECTED_PARITY_ERROR: u16 = 0x8000;

    /// The known bits of `bits`.
    pub fn from_bits_truncate(bits: u16) -> (r: StatusRegister)
        ensures
            r.0 == bits & STATUS_KNOWN,
    {
        StatusRegister(bits & STATUS_KNOWN)
    }
}

/// The header fields that every device has.
#[derive(Clone, Copy, Debug, PartialEq, Eq)]
pub struct CommonHeaders {
    pub location: Location,
    pub vendor_id: u16,
    pub device_id: u16,
    pub command: CommandRegister,
    pub status: StatusRegister,
    pub revision_id: u8,
    pub prog_if: u8,
    pub subclass: u8,
    pub class_code: u8,
    pub cache_line_size: u8,
    pub latency_timer: u8,
    pub header_type: u8,
    pub bist: u8,
}

/// A device with header type 0.
#[derive(Clone, Copy, Debug, PartialEq, Eq)]
pub struct GeneralDevice {
    pub common: CommonHeaders,
    pub bars: [BaseAddressRegister; 6],
    pub cardbus_cis_pointer: u32,
    pub subsystem_id: u16,
    pub subsystem_vendor_id: u16,
    pub expansion_rom_base_address: u32,
    pub capabilities_pointer: u8,
    pub max_latency: u8,
    pub min_grant: u8,
    pub interrupt_pin: u8,
    pub interrupt_line: u8,
}

/// A PCI-to-PCI bridge, header type 1.
#[derive(Clone, Copy, Debug, PartialEq, Eq)]
pub struct PciToPciDevice {
    pub common: CommonHeaders,
    pub bars: [BaseAddressRegister; 2],
    pub primary_bus_number: u8,
    pub secondary_bus_number: u8,
    pub subordinate_bus_number: u8,
    pub secondary_latency_timer: u8,
    pub io_base: u8,
    pub io_limit: u8,
    pub secondary_status: u16,
    pub memory_base: u16,
    pub memory_limit: u16,
    pub prefetchable_memory_base: u16,
    pub prefetchable_memory_limit: u16,
    pub prefetchable_base_upper: u32,
    pub prefetchable_limit_upper: u32,
    pub io_base_upper: u16,
    pub io_limit_upper: u16,
    pub capability_pointer: u8,
    pub expansion_rom_base_address: u32,
    pub interrupt_line: u8,
    pub interrupt_pin: u8,
    pub bridge_control: u16,
}

/// A device found on the bus.
#[derive(Clone, Copy, Debug, PartialEq, Eq)]
pub enum Device {
    General(GeneralDevice),
    PciToPci(PciToPciDevice),
}

/// Byte `k` (0 lowest) of a register value.
pub open spec fn byte_of(w: u32, k: u32) -> u8 {
    ((w >> (8 * k) as u32) & 0xff) as u8
}

/// The low 16 bits of a register value.
pub open spec fn low_half(w: u32) -> u16 {
    (w & 0xffff) as u16
}

/// The high 16 bits of a register value.
pub open spec fn high_half(w: u32) -> u16 {
    (w >> 16u32) as u16
}

/// Number of 32-bit registers of a configuration header.
pub const HEADER_REGISTERS: usize = 16;

impl CommonHeaders {
    /// The common fields of the header `regs` of the device at `location`.
    pub open spec fn spec_decode(location: Location, regs: Seq<u32>) -> CommonHeaders {
        CommonHeaders {
            location,
            vendor_id: low_half(regs[0]),
            device_id: high_half(regs[0]),
            command: CommandRegister(low_half(regs[1]) & COMMAND_KNOWN),
            status: StatusRegister(high_half(regs[1]) & STATUS_KNOWN),
            revision_id: byte_of(regs[2], 0),
            prog_if: byte_of(regs[2], 1),
            subclass: byte_of(regs[2], 2),
            class_code: byte_of(regs[2], 3),
            cache_line_size: byte_of(regs[3], 0),
            latency_timer: byte_of(regs[3], 1),
            header_type: byte_of(regs[3], 2),
            bist: byte_of(regs[3], 3),
        }
    }
}

impl BusScan {
    /// The device described by the configuration header `regs` (the 16
    /// registers from offset 0) of the current slot: none when the vendor
    /// is 0xffff (no device) or the header type is neither 0 nor 1.
    ///
    /// The bridge's secondary status and bridge control are formed as
    /// `(high << 8) & low`, as the register layout was first read; that
    /// `and` always yields 0 and an `or` was likely meant.
    pub fn scan_device(&self, regs: &Vec<u32>) -> (r: Option<Device>)
        requires
            regs.len() == HEADER_REGISTERS,
        ensures
            low_half(regs@[0]) == 0xffff ==> r.is_none(),
            low_half(regs@[0]) != 0xffff ==> match r {
                None => byte_of(regs@[3], 2) != 0 && byte_of(regs@[3], 2) != 1,
                Some(Device::General(d)) => {
                    &&& byte_of(regs@[3], 2) == 0
                    &&& d.common == CommonHeaders::spec_decode(self.location_spec(), regs@)
                    &&& forall|i: int| 0 <= i < 6 ==> d.bars[i].spec_bits() == regs@[4 + i]
                    &&& d.cardbus_cis_pointer == regs@[10]
                    &&& d.subsystem_vendor_id == low_half(regs@[11])
                    &&& d.subsystem_id == high_half(regs@[11])
                    &&& d.expansion_rom_base_address == regs@[12]
                    &&& d.capabilities_pointer == byte_of(regs@[13], 0)
                    &&& d.max_latency == byte_of(regs@[15], 0)
                    &&& d.min_grant == byte_of(regs@[15], 1)
                    &&& d.interrupt_pin == byte_of(regs@[15], 2)
                    &&& d.interrupt_line == byte_of(regs@[15], 3)
                },
                Some(Device::PciToPci(d)) => {
                    &&& byte_of(regs@[3], 2) == 1
                    &&& d.common == CommonHeaders::spec_decode(self.location_spec(), regs@)
                    &&& forall|i: int| 0 <= i < 2 ==> d.bars[i].spec_bits() == regs@[4 + i]
                    &&& d.primary_bus_number == byte_of(regs@[6], 0)
                    &&& d.secondary_bus_number == byte_of(regs@[6], 1)
                    &&& d.subordinate_bus_number == byte_of(regs@[6], 2)
                    &&& d.secondary_latency_timer == byte_of(regs@[6], 3)
                    &&& d.io_base == byte_of(regs@[7], 0)
                    &&& d.io_limit == byte_of(regs@[7], 1)
                    &&& d.secondary_status == ((byte_of(regs@[7], 3) as u16) << 8u16) & (byte_of(
                        regs@[7],
                        2,
                    ) as u16)
                    &&& d.memory_base == low_half(regs@[8])
                    &&& d.memory_limit == high_half(regs@[8])
                    &&& d.prefetchable_memory_base == low_half(regs@[9])
                    &&& d.prefetchable_memory_limit == high_half(regs@[9])
                    &&& d.prefetchable_base_upper == regs@[10]
                    &&& d.prefetchable_limit_upper == regs@[11]
                    &&& d.io_base_upper == low_half(regs@[12])
                    &&& d.io_limit_upper == high_half(regs@[12])
                    &&& d.capability_pointer == byte_of(regs@[13], 0)
                    &&& d.expansion_rom_base_address == regs@[14]
                    &&& d.interrupt_line == byte_of(regs@[15], 0)
                    &&& d.interrupt_pin == byte_of(regs@[15], 1)
                    &&& d.bridge_control == ((byte_of(regs@[15], 3) as u16) << 8u16) & (byte_of(
                        regs@[15],
                        2,
                    ) as u16)
                },
            },
    {
        let location = self.location();
        let (vendor_id, device_id) = IoCSpaceAccessMethod::read16(regs[0]);
        if vendor_id == 0xFFFF {
            return None;
        }
        let (command, status) = IoCSpaceAccessMethod::read16(regs[1]);
        let (revision_id, prog_if, subclass, class_code) = IoCSpaceAccessMethod::read8(regs[2]);
        let (cache_line_size, latency_timer, header_type, bist) = IoCSpaceAccessMethod::read8(
            regs[3],
        );
        let common = CommonHeaders {
            location,
            vendor_id,
            device_id,
            command: CommandRegister::from_bits_truncate(command),
            status: StatusRegister::from_bits_truncate(status),
            class_code,
            subclass,
            prog_if,
            revision_id,
            bist,
            header_type,
            latency_timer,
            cache_line_size,
        };
        proof {
            lemma_byte_fields(regs@);
        }
        match common.header_type {
            0x0 => {
                let bars = [
                    BaseAddressRegister::new(regs[4]),
                    BaseAddressRegister::new(regs[5]),
                    BaseAddressRegister::new(regs[6]),
                    BaseAddressRegister::new(regs[7]),
                    BaseAddressRegister::new(regs[8]),
                    BaseAddressRegister::new(regs[9]),
                ];
                let cardbus_cis_pointer = regs[10];
                let (subsystem_vendor_id, subsystem_id) = IoCSpaceAccessMethod::read16(regs[11]);
                let expansion_rom_base_address = regs[12];
                let (capabilities_pointer, _, _, _) = IoCSpaceAccessMethod::read8(regs[13]);
                let (max_latency, min_grant, interrupt_pin, interrupt_line) =
                    IoCSpaceAccessMethod::read8(regs[15]);
                Some(
                    Device::General(
                        GeneralDevice {
                            common,
                            bars,
                            cardbus_cis_pointer,
                            subsystem_vendor_id,
                            subsystem_id,
                            expansion_rom_base_address,
                            capabilities_pointer,
                            max_latency,
                            min_grant,
                            interrupt_pin,
                            interrupt_line,
                        },
                    ),
                )
            },
            0x1 => {
                let bars = [BaseAddressRegister::new(regs[4]), BaseAddressRegister::new(regs[5])];
                let (
                    primary_bus_number,
                    secondary_bus_number,
                    subordinate_bus_number,
                    secondary_latency_timer,
                ) = IoCSpaceAccessMethod::read8(regs[6]);
                let (io_base, io_limit, secondary_status_2, secondary_status_1) =
                    IoCSpaceAccessMethod::read8(regs[7]);
                let secondary_status = (secondary_status_1 as u16) << 8u16 & (
                secondary_status_2 as u16);
                let (memory_base, memory_limit) = IoCSpaceAccessMethod::read16(regs[8]);
                let (prefetchable_memory_base, prefetchable_memory_limit) =
                    IoCSpaceAccessMethod::read16(regs[9]);
                let prefetchable_base_upper = regs[10];
                let prefetchable_limit_upper = regs[11];
                let (io_base_upper, io_limit_upper) = IoCSpaceAccessMethod::read16(regs[12]);
                let (capability_pointer, _, _, _) = IoCSpaceAccessMethod::read8(regs[13]);
                let expansion_rom_base_address = regs[14];
                let (interrupt_line, interrupt_pin, bridge_control_2, bridge_control_1) =
                    IoCSpaceAccessMethod::read8(regs[15]);
                let bridge_control = (bridge_control_1 as u16) << 8u16 & (bridge_control_2 as u16);
                Some(
                    Device::PciToPci(
                        PciToPciDevice {
                            common,
                            bars,
                            primary_bus_number,
                            secondary_bus_number,
                            subordinate_bus_number,
                            secondary_latency_timer,
                            io_base,
                            io_limit,
                            secondary_status,
                            memory_base,
                            memory_limit,
                            prefetchable_memory_base,
                            prefetchable_memory_limit,
                            prefetchable_base_upper,
                            prefetchable_limit_upper,
                            io_base_upper,
                            io_limit_upper,
                            capability_pointer,
                            expansion_rom_base_address,
                            interrupt_line,
                            interrupt_pin,
                            bridge_control,
                        },
                    ),
                )
            },
            _ => None,
        }
    }

    pub closed spec fn location_spec(&self) -> Location {
        Location { bus: self.bus, device: self.device, function: 0 }
    }
}

/// A scan of every bus through `method`, from bus 0, device 0.
pub fn scan_buses(method: CSpaceAccessMethod) -> (r: BusScan)
    ensures
        r.position() == (0u8, 0u8),
        r.wf(),
{
    BusScan::new(method)
}

/// The byte and half splits of `read8` and `read16` agree with `byte_of`,
/// `low_half` and `high_half`.
proof fn lemma_byte_fields(regs: Seq<u32>)
    ensures
        forall|w: u32|
            #![trigger byte_of(w, 0)]
            ((w & 0xff) as u8) == byte_of(w, 0) && (((w >> 8u32) & 0xff) as u8) == byte_of(w, 1)
                && (((w >> 16u32) & 0xff) as u8) == byte_of(w, 2) && ((w >> 24u32) as u8)
                == byte_of(w, 3),
{
    assert forall|w: u32| #![trigger byte_of(w, 0)]
        ((w & 0xff) as u8) == byte_of(w, 0) && (((w >> 8u32) & 0xff) as u8) == byte_of(w, 1) && (((w
            >> 16u32) & 0xff) as u8) == byte_of(w, 2) && ((w >> 24u32) as u8) == byte_of(w, 3) by {
        assert((w >> 24u32) as u8 == ((w >> 24u32) & 0xff) as u8 && w >> 0u32 == w) by (bit_vector);
    }
}

} // verus!
