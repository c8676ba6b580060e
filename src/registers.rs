//! Decoding of the values read from the CR3 and RFLAGS registers.
use crate::addr::PhysAddr;
use crate::frame::PhysFrame;
use crate::page::Size4KiB;
use vstd::prelude::*;

verus! {

/// Caching flags of the level-4 table held in CR3.
#[derive(Clone, Copy, Debug, PartialEq, Eq)]
pub struct Cr3Flags {
    bits: u64,
}

impl View for Cr3Flags {
    type V = u64;

    closed spec fn view(&self) -> u64 {
        self.bits
    }
}

impl Cr3Flags {
    pub const PAGE_LEVEL_WRITETHROUGH: u64 = 0x8;
    pub const PAGE_LEVEL_CACHE_DISABLE: u64 = 0x10;

    /// The known flags among `bits`.
    pub fn from_bits_truncate(bits: u64) -> (r: Cr3Flags)
        ensures
            r@ == bits & 0x18,
    {
        Cr3Flags { bits: bits & 0x18 }
    }

    pub fn bits(&self) -> (r: u64)
        ensures
            r == self@,
    {
        self.bits
    }
}

/// The CR3 register: frame of the active level-4 table and its flags.
#[derive(Clone, Copy, Debug, PartialEq, Eq)]
pub struct Cr3;

impl Cr3 {
    /// Splits a value read from CR3 into the level-4 frame (bits 12 to 51)
    /// and the flags (bits 3 and 4).
    pub fn read(value: u64) -> (r: (PhysFrame<Size4KiB>, Cr3Flags))
        ensures
            r.0@ == value & 0x000f_ffff_ffff_f000,
            r.1@ == value & 0x18,
    {
        let a = value & 0x000f_ffff_ffff_f000;
        assert(a < 0x0010_0000_0000_0000u64 && a & !0xfffu64 == a && (((value & 0xfff) as u16)
            as u64) & 0x18 == value & 0x18) by (bit_vector)
            requires
                a == value & 0x000f_ffff_ffff_f000u64,
        ;
        let addr = PhysAddr::new(a);
        let frame = PhysFrame::containing_address(addr);
        let low = (value & 0xFFF) as u16;
        let flags = Cr3Flags::from_bits_truncate(low as u64);
        (frame, flags)
    }
}

/// The RFLAGS register.
#[derive(Clone, Copy, Debug, PartialEq, Eq)]
pub struct RFlags {
    bits: u64,
}

/// Every flag bit that `RFlags` names.
pub const RFLAGS_KNOWN: u64 = 0x003f_67d5;

impl View for RFlags {
    type V = u64;

    closed spec fn view(&self) -> u64 {
        self.bits
    }
}

impl RFlags {
    pub const ID: u64 = 0x20_0000;
    pub const VIRTUAL_INTERRUPT_PENDING: u64 = 0x10_0000;
    pub const VIRTUAL_INTERRUPT: u64 = 0x8_0000;
    pub const ALIGMENT_CHECK: u64 = 0x4_0000;
    pub const VIRTUAL_8086_MODE: u64 = 0x2_0000;
    pub const RESUME_FLAG: u64 = 0x1_0000;
    pub const NESTED_TASK: u64 = 0x4000;
    pub const IOPL_HIGH: u64 = 0x2000;
    pub const OVERFLOW_FLAG: u64 = 0x400;
    pub const INTERRUPT_FLAG: u64 = 0x200;
    pub const TRAP_FLAG: u64 = 0x100;
    pub const SIGN_FLAG: u64 = 0x80;
    pub const ZERO_FLAG: u64 = 0x40;
    pub const AUXILIARY_CARRY_FLAG: u64 = 0x10;
    pub const PARITY_FLAG: u64 = 0x4;
    pub const CARRY_FLAG: u64 = 0x1;

    /// The known flags among `bits`.
    pub fn from_bits_truncate(bits: u64) -> (r: RFlags)
        ensures
            r@ == bits & RFLAGS_KNOWN,
    {
        RFlags { bits: bits & RFLAGS_KNOWN }
    }

    pub fn bits(&self) -> (r: u64)
        ensures
            r == self@,
    {
        self.bits
    }

    /// Every flag of `other` is set.
    pub fn contains(&self, other: u64) -> (r: bool)
        ensures
            r == (self@ & other == other),
    {
        self.bits & other == other
    }
}

/// Decodes a value read from RFLAGS.
pub fn read(raw: u64) -> (r: RFlags)
    ensures
        r@ == raw & RFLAGS_KNOWN,
{
    RFlags::from_bits_truncate(raw)
}

/// Hardware interrupts are enabled: the interrupt flag is set.
pub fn are_enabled(flags: RFlags) -> (r: bool)
    ensures
        r == (flags@ & RFlags::INTERRUPT_FLAG != 0),
{
    let r = flags.contains(RFlags::INTERRUPT_FLAG);
    let ghost b = flags@;
    assert((b & 0x200u64 == 0x200u64) == (b & 0x200u64 != 0)) by (bit_vector);
    r
}

} // verus!
