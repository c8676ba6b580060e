//! Table indices, page offsets, the page-table entry encoding and the
//! 512-entry table.
use crate::addr::PhysAddr;
use crate::frame::PhysFrame;
use crate::page::Size4KiB;
use vstd::prelude::*;

verus! {

/// An index into a 512-entry page table.
#[derive(Clone, Copy, Debug, PartialEq, Eq)]
pub struct PageTableIndex(u16);

impl View for PageTableIndex {
    type V = u64;

    closed spec fn view(&self) -> u64 {
        self.0 as u64
    }
}

impl PageTableIndex {
    pub fn new(index: u16) -> (r: PageTableIndex)
        ensures
            r@ == index as u64,
    {
        PageTableIndex(index)
    }

    /// `index` reduced modulo 512.
    pub fn new_truncate(index: u16) -> (r: PageTableIndex)
        ensures
            r@ == (index % 512) as u64,
    {
        PageTableIndex(index % 512)
    }

    pub fn as_usize(self) -> (r: usize)
        ensures
            r == self@,
    {
        self.0 as usize
    }
}

/// An offset inside a 4 KiB page.
#[derive(Clone, Copy, Debug, PartialEq, Eq)]
pub struct PageOffset(u16);

impl View for PageOffset {
    type V = u64;

    closed spec fn view(&self) -> u64 {
        self.0 as u64
    }
}

impl PageOffset {
    /// The offset `offset`, which must be below 4096.
    pub fn new(offset: u16) -> (r: PageOffset)
        requires
            offset < 4096,
        ensures
            r@ == offset as u64,
    {
        PageOffset(offset)
    }

    /// `offset` reduced modulo 4096.
    pub fn new_truncate(offset: u16) -> (r: PageOffset)
        ensures
            r@ == (offset % 4096) as u64,
    {
        PageOffset(offset % 4096)
    }

    pub fn as_u64(self) -> (r: u64)
        ensures
            r == self@,
    {
        self.0 as u64
    }
}

} // verus!

verus! {

/// Bits 0 to 11 and 52 to 63 of an entry: the flag bits.
pub const FLAG_BITS: u64 = 0xfff0_0000_0000_0fff;

/// Bits 12 to 51 of an entry: the address of a 4 KiB aligned frame.
pub const ADDR_BITS: u64 = 0x000f_ffff_ffff_f000;

/// Flags of a page-table entry.
#[derive(Clone, Copy, Debug, PartialEq, Eq, Hash)]
pub struct PageTableFlags {
    bits: u64,
}

impl View for PageTableFlags {
    type V = u64;

    closed spec fn view(&self) -> u64 {
        self.bits
    }
}

impl PageTableFlags {
    pub const PRESENT: u64 = 1;
    pub const WRITABLE: u64 = 0x2;
    pub const USER_ACCESSIBLE: u64 = 0x4;
    pub const WRITE_THROUGH: u64 = 0x8;
    pub const NO_CACHE: u64 = 0x10;
    pub const ACCESSED: u64 = 0x20;
    pub const DIRTY: u64 = 0x40;
    pub const HUGE_PAGE: u64 = 0x80;
    pub const GLOBAL: u64 = 0x100;
    pub const BIT_9: u64 = 0x200;
    pub const BIT_10: u64 = 0x400;
    pub const BIT_11: u64 = 0x800;
    pub const BIT_52: u64 = 0x10000000000000;
    pub const BIT_53: u64 = 0x20000000000000;
    pub const BIT_54: u64 = 0x40000000000000;
    pub const BIT_55: u64 = 0x80000000000000;
    pub const BIT_56: u64 = 0x100000000000000;
    pub const BIT_57: u64 = 0x200000000000000;
    pub const BIT_58: u64 = 0x400000000000000;
    pub const BIT_59: u64 = 0x800000000000000;
    pub const BIT_60: u64 = 0x1000000000000000;
    pub const BIT_61: u64 = 0x2000000000000000;
    pub const BIT_62: u64 = 0x4000000000000000;
    pub const NO_EXECUTE: u64 = 0x8000000000000000;

    #[verifier::type_invariant]
    pub open spec fn inv(self) -> bool {
        self@ & !FLAG_BITS == 0
    }

    /// No flag set.
    pub fn empty() -> (r: PageTableFlags)
        ensures
            r@ == 0,
    {
        assert(0u64 & !0xfff0_0000_0000_0fffu64 == 0) by (bit_vector);
        PageTableFlags { bits: 0 }
    }

    /// The flags among `bits`; other bits are dropped.
    pub fn from_bits_truncate(bits: u64) -> (r: PageTableFlags)
        ensures
            r@ == bits & FLAG_BITS,
    {
        assert((bits & 0xfff0_0000_0000_0fffu64) & !0xfff0_0000_0000_0fffu64 == 0) by (bit_vector);
        PageTableFlags { bits: bits & FLAG_BITS }
    }

    pub fn bits(&self) -> (r: u64)
        ensures
            r == self@,
            r & !FLAG_BITS == 0,
    {
        proof {
            use_type_invariant(self);
        }
        self.bits
    }

    pub fn is_empty(&self) -> (r: bool)
        ensures
            r == (self@ == 0),
    {
        self.bits == 0
    }

    /// Every flag of `other` is set in `self`.
    pub fn contains(&self, other: PageTableFlags) -> (r: bool)
        ensures
            r == (self@ & other@ == other@),
    {
        self.bits & other.bits == other.bits
    }

    /// The flags set in either.
    pub fn union(self, other: PageTableFlags) -> (r: PageTableFlags)
        ensures
            r@ == self@ | other@,
    {
        proof {
            use_type_invariant(&self);
            use_type_invariant(&other);
            let (a, b) = (self@, other@);
            assert((a & !0xfff0_0000_0000_0fffu64 == 0 && b & !0xfff0_0000_0000_0fffu64 == 0) ==> (a
                | b) & !0xfff0_0000_0000_0fffu64 == 0) by (bit_vector);
        }
        PageTableFlags { bits: self.bits | other.bits }
    }

    /// The flags set in both.
    pub fn intersection(self, other: PageTableFlags) -> (r: PageTableFlags)
        ensures
            r@ == self@ & other@,
    {
        proof {
            use_type_invariant(&self);
            let (a, b) = (self@, other@);
            assert(a & !0xfff0_0000_0000_0fffu64 == 0 ==> (a & b) & !0xfff0_0000_0000_0fffu64 == 0)
                by (bit_vector);
        }
        PageTableFlags { bits: self.bits & other.bits }
    }
}

/// Why an entry does not lead to a 4 KiB frame.
#[derive(Clone, Copy, Debug, PartialEq, Eq)]
pub enum FrameError {
    /// The present bit is clear.
    FrameNotPresent,
    /// The huge-page bit is set: the entry maps a large page itself.
    HugeFrame,
}

pub open spec fn entry_present(e: u64) -> bool {
    e & 1 != 0
}

pub open spec fn entry_huge(e: u64) -> bool {
    e & 0x80 != 0
}

pub open spec fn entry_addr(e: u64) -> u64 {
    e & ADDR_BITS
}

pub open spec fn entry_flags(e: u64) -> u64 {
    e & FLAG_BITS
}

/// A 64-bit page-table entry: zero when unused; otherwise a 4 KiB aligned
/// frame address in bits 12 to 51 and flags in the other bits.
#[derive(Clone, Copy, Debug, PartialEq, Eq)]
pub struct PageTableEntry {
    entry: u64,
}

impl View for PageTableEntry {
    type V = u64;

    closed spec fn view(&self) -> u64 {
        self.entry
    }
}

impl PageTableEntry {
    /// An unused entry.
    pub fn new() -> (r: PageTableEntry)
        ensures
            r@ == 0,
    {
        PageTableEntry { entry: 0 }
    }

    pub fn is_unused(&self) -> (r: bool)
        ensures
            r == (self@ == 0),
    {
        self.entry == 0
    }

    pub fn flags(&self) -> (r: PageTableFlags)
        ensures
            r@ == entry_flags(self@),
    {
        PageTableFlags::from_bits_truncate(self.entry)
    }

    /// The frame address held in bits 12 to 51.
    pub fn addr(&self) -> (r: PhysAddr)
        ensures
            r@ == entry_addr(self@),
            r@ % 4096 == 0,
    {
        let e = self.entry;
        let a = e & ADDR_BITS;
        assert(a < 0x0010_0000_0000_0000u64 && a % 4096 == 0) by (bit_vector)
            requires
                a == e & 0x000f_ffff_ffff_f000u64,
        ;
        PhysAddr::new(a)
    }

    /// The 4 KiB frame this entry points to, if it is present and not a
    /// huge page.
    pub fn frame(&self) -> (r: Result<PhysFrame<Size4KiB>, FrameError>)
        ensures
            !entry_present(self@) ==> r == Err::<PhysFrame<Size4KiB>, FrameError>(
                FrameError::FrameNotPresent,
            ),
            entry_present(self@) && entry_huge(self@) ==> r == Err::<
                PhysFrame<Size4KiB>,
                FrameError,
            >(FrameError::HugeFrame),
            entry_present(self@) && !entry_huge(self@) ==> r.is_ok() && r.unwrap()@ == entry_addr(
                self@,
            ),
    {
        proof {
            let e = self@;
            assert(((e & 0xfff0_0000_0000_0fffu64) & (1u64 & 0xfff0_0000_0000_0fffu64) == (1u64
                & 0xfff0_0000_0000_0fffu64)) == (e & 1 != 0) && ((e & 0xfff0_0000_0000_0fffu64) & (
            0x80u64 & 0xfff0_0000_0000_0fffu64) == (0x80u64 & 0xfff0_0000_0000_0fffu64)) == (e & 0x80
                != 0) && (e & 0x000f_ffff_ffff_f000u64) & !0xfffu64 == e & 0x000f_ffff_ffff_f000u64)
                by (bit_vector);
        }
        if !self.flags().contains(PageTableFlags::from_bits_truncate(PageTableFlags::PRESENT)) {
            return Err(FrameError::FrameNotPresent);
        }
        if self.flags().contains(PageTableFlags::from_bits_truncate(PageTableFlags::HUGE_PAGE)) {
            return Err(FrameError::HugeFrame);
        }
        let f = PhysFrame::containing_address(self.addr());
        Ok(f)
    }

    /// Points the entry at `frame` with `flags`.
    pub fn set_frame(&mut self, frame: PhysFrame<Size4KiB>, flags: PageTableFlags)
        ensures
            final(self)@ == frame@ | flags@,
    {
        self.set_addr(frame.start_address(), flags)
    }

    fn set_addr(&mut self, addr: PhysAddr, flags: PageTableFlags)
        ensures
            final(self)@ == addr@ | flags@,
    {
        self.entry = addr.as_u64() | flags.bits();
    }

    /// Replaces the flags, keeping the frame address.
    pub fn set_flags(&mut self, flags: PageTableFlags)
        ensures
            final(self)@ == entry_addr(old(self)@) | flags@,
    {
        self.entry = self.addr().as_u64() | flags.bits();
    }

    fn set_unused(&mut self)
        ensures
            final(self)@ == 0,
    {
        self.entry = 0;
    }
}

/// Number of entries in a table.
pub const ENTRY_COUNT: usize = 512;

/// A page table: 512 entries.
#[derive(Clone, Debug)]
pub struct PageTable {
    entries: Vec<PageTableEntry>,
}

impl View for PageTable {
    type V = Seq<u64>;

    closed spec fn view(&self) -> Seq<u64> {
        self.entries@.map_values(|e: PageTableEntry| e@)
    }
}

/// 512 unused entries.
pub open spec fn zero_table() -> Seq<u64> {
    Seq::new(512, |i: int| 0u64)
}

impl PageTable {
    /// Holds exactly 512 entries; every constructor and method keeps this.
    pub open spec fn wf(&self) -> bool {
        self@.len() == 512
    }

    /// A table of 512 unused entries.
    pub fn new() -> (r: PageTable)
        ensures
            r@ == zero_table(),
            r.wf(),
    {
        let mut entries: Vec<PageTableEntry> = Vec::new();
        while entries.len() < ENTRY_COUNT
            invariant
                entries.len() <= ENTRY_COUNT,
                forall|i: int| 0 <= i < entries.len() ==> entries@[i]@ == 0,
            decreases ENTRY_COUNT - entries.len(),
        {
            entries.push(PageTableEntry::new());
        }
        let r = PageTable { entries };
        assert(r@ =~= zero_table());
        r
    }

    /// The entries in order.
    pub fn iter(&self) -> (r: &[PageTableEntry])
        ensures
            r@.map_values(|e: PageTableEntry| e@) == self@,
    {
        self.entries.as_slice()
    }

    /// Marks every entry unused.
    pub fn zero(&mut self)
        requires
            old(self).wf(),
        ensures
            final(self)@ == zero_table(),
            final(self).wf(),
    {
        let mut i: usize = 0;
        while i < ENTRY_COUNT
            invariant
                self.entries.len() == ENTRY_COUNT,
                0 <= i <= ENTRY_COUNT,
                forall|j: int| 0 <= j < i ==> self.entries@[j]@ == 0,
            decreases ENTRY_COUNT - i,
        {
            self.entries[i].set_unused();
            i += 1;
        }
        assert(self@ =~= zero_table());
    }

    /// The entry at `index`.
    pub fn entry(&self, index: usize) -> (r: &PageTableEntry)
        requires
            self.wf(),
            index < 512,
        ensures
            r@ == self@[index as int],
    {
        &self.entries[index]
    }

    /// Replaces the entry at `index`.
    pub fn set_entry(&mut self, index: usize, entry: PageTableEntry)
        requires
            old(self).wf(),
            index < 512,
        ensures
            final(self)@ == old(self)@.update(index as int, entry@),
            final(self).wf(),
    {
        self.entries.set(index, entry);
        assert(self@ =~= old(self)@.update(index as int, entry@));
    }
}

} // verus!
