//! Privilege levels, segment selectors, the task-state segment, and the
//! global descriptor table.
use crate::bits::{get_bits_u64, set_bits_u64};
use vstd::prelude::*;

verus! {

/// A CPU privilege ring.
#[derive(Clone, Copy, Debug, PartialEq, Eq)]
pub enum PrivilegeLevel {
    Ring0,
    Ring1,
    Ring2,
    Ring3,
}

impl PrivilegeLevel {
    pub open spec fn spec_value(self) -> u16 {
        match self {
            PrivilegeLevel::Ring0 => 0,
            PrivilegeLevel::Ring1 => 1,
            PrivilegeLevel::Ring2 => 2,
            PrivilegeLevel::Ring3 => 3,
        }
    }

    /// The ring numbered `value`, which must be 0 to 3.
    pub fn from_u16(value: u16) -> (r: PrivilegeLevel)
        requires
            value < 4,
        ensures
            r.spec_value() == value,
    {
        match value {
            0 => PrivilegeLevel::Ring0,
            1 => PrivilegeLevel::Ring1,
            2 => PrivilegeLevel::Ring2,
            _ => PrivilegeLevel::Ring3,
        }
    }

    pub fn as_u16(self) -> (r: u16)
        ensures
            r == self.spec_value(),
    {
        match self {
            PrivilegeLevel::Ring0 => 0,
            PrivilegeLevel::Ring1 => 1,
            PrivilegeLevel::Ring2 => 2,
            PrivilegeLevel::Ring3 => 3,
        }
    }
}

/// Which descriptor table a selector refers to.
#[derive(Clone, Copy, Debug, PartialEq, Eq)]
pub enum DescriptorTable {
    Gdt,
    Idt,
    Ldt,
}

/// Base and limit of a descriptor table, as the table-load instructions
/// read them.
#[derive(Clone, Copy, Debug, PartialEq, Eq)]
pub struct DescriptorTablePointer {
    pub limit: u16,
    pub base: u64,
}

/// A segment selector: table index in bits 3 to 15, requested privilege
/// level in bits 0 and 1.
#[derive(Clone, Copy, Debug, PartialEq, Eq, Default)]
pub struct SegmentSelector(pub u16);

impl SegmentSelector {
    /// The selector for slot `index` with requested privilege `rpl`.
    pub fn new(index: u16, rpl: PrivilegeLevel) -> (r: SegmentSelector)
        ensures
            r.0 == (index << 3u16) | rpl.spec_value(),
    {
        SegmentSelector(index << 3u16 | rpl.as_u16())
    }
}

/// Size in bytes of the 64-bit task-state segment.
pub const TSS_SIZE: u64 = 104;

/// The fields of the 64-bit task-state segment that software sets: stack
/// pointers for privilege changes, the interrupt stack table, and the I/O
/// map base. In memory the segment takes `TSS_SIZE` bytes, its reserved
/// fields zero.
#[derive(Clone, Copy, Debug, PartialEq, Eq)]
pub struct TaskStateSegment {
    pub privilege_stack_table: [u64; 3],
    pub interrupt_stack_table: [u64; 7],
    pub iomap_base: u16,
}

impl TaskStateSegment {
    /// A segment with every stack pointer zero and the I/O map placed
    /// right after the segment, so that no port is granted.
    pub fn new() -> (r: TaskStateSegment)
        ensures
            forall|i: int| 0 <= i < 3 ==> r.privilege_stack_table@[i] == 0,
            forall|i: int| 0 <= i < 7 ==> r.interrupt_stack_table@[i] == 0,
            r.iomap_base == TSS_SIZE,
    {
        TaskStateSegment {
            privilege_stack_table: [0, 0, 0],
            interrupt_stack_table: [0, 0, 0, 0, 0, 0, 0],
            iomap_base: TSS_SIZE as u16,
        }
    }
}

impl Default for TaskStateSegment {
    fn default() -> (r: TaskStateSegment)
        ensures
            forall|i: int| 0 <= i < 3 ==> r.privilege_stack_table@[i] == 0,
            forall|i: int| 0 <= i < 7 ==> r.interrupt_stack_table@[i] == 0,
            r.iomap_base == TSS_SIZE,
    {
        TaskStateSegment::new()
    }
}

/// Descriptor bits: accessed.
pub const ACCESSED: u64 = 0x0000_0100_0000_0000;
/// Descriptor bits: writable data or readable code.
pub const WRITABLE: u64 = 0x0000_0200_0000_0000;
/// Descriptor bits: code segment.
pub const EXECUTABLE: u64 = 0x0000_0800_0000_0000;
/// Descriptor bits: a code or data segment, not a system segment.
pub const USER_SEGMENT: u64 = 0x0000_1000_0000_0000;
/// Descriptor bits: the privilege field, both bits set.
pub const DPL_RING_3: u64 = 0x0000_6000_0000_0000;
/// Descriptor bits: present.
pub const PRESENT: u64 = 0x0000_8000_0000_0000;
/// Descriptor bits: 64-bit code.
pub const LONG_MODE: u64 = 0x0020_0000_0000_0000;
/// Descriptor bits: the limit counts 4 KiB units.
pub const GRANULARITY: u64 = 0x0080_0000_0000_0000;
/// Descriptor bits: limit bits 0 to 15.
pub const LIMIT_0_15: u64 = 0xffff;
/// Descriptor bits: limit bits 16 to 19.
pub const LIMIT_16_19: u64 = 0x000f_0000_0000_0000;

/// A present, accessed, writable user segment with the largest limit.
pub const COMMON: u64 = USER_SEGMENT | PRESENT | WRITABLE | ACCESSED | LIMIT_0_15 | LIMIT_16_19
    | GRANULARITY;

/// A 64-bit kernel code segment.
pub const KERNEL_CODE64: u64 = COMMON | EXECUTABLE | LONG_MODE;

/// System-segment type of an available 64-bit TSS.
pub const TSS_AVAILABLE: u64 = 0b1001;

/// The low word of the descriptor of a TSS at `base`: limit, base bits 0 to
/// 23 and 24 to 31, type, and present bit.
pub open spec fn tss_low(base: u64) -> u64 {
    PRESENT | ((base & 0xff_ffff) << 16u64) | (((base >> 24u64) & 0xff) << 56u64) | (TSS_SIZE - 1) as u64
        | (TSS_AVAILABLE << 40u64)
}

/// A descriptor of the global table: a segment of one slot, or a system
/// segment of two.
#[derive(Clone, Copy, Debug, PartialEq, Eq)]
pub enum Descriptor {
    UserSegment(u64),
    SystemSegment(u64, u64),
}

impl Descriptor {
    pub open spec fn low(self) -> u64 {
        match self {
            Descriptor::UserSegment(v) => v,
            Descriptor::SystemSegment(v, _) => v,
        }
    }

    /// Number of table slots the descriptor takes.
    pub open spec fn slots(self) -> nat {
        match self {
            Descriptor::UserSegment(_) => 1,
            Descriptor::SystemSegment(_, _) => 2,
        }
    }

    /// The privilege level in bits 45 and 46.
    pub fn dpl(self) -> (r: PrivilegeLevel)
        ensures
            r.spec_value() == ((self.low() & DPL_RING_3) >> 45u64),
    {
        let value_low = match self {
            Descriptor::UserSegment(v) => v,
            Descriptor::SystemSegment(v, _) => v,
        };
        let dpl = (value_low & DPL_RING_3) >> 45u64;
        assert(((value_low & 0x0000_6000_0000_0000u64) >> 45u64) < 4) by (bit_vector);
        PrivilegeLevel::from_u16(dpl as u16)
    }

    /// The 64-bit kernel code segment.
    pub fn kernel_code_segment() -> (r: Descriptor)
        ensures
            r == Descriptor::UserSegment(KERNEL_CODE64),
    {
        Descriptor::UserSegment(KERNEL_CODE64)
    }

    /// The system-segment pair for the TSS at address `tss_base`.
    pub fn tss_segment(tss_base: u64) -> (r: Descriptor)
        ensures
            r == Descriptor::SystemSegment(tss_low(tss_base), tss_base >> 32u64),
    {
        let ptr = tss_base;
        let mut low = PRESENT;
        let b0 = get_bits_u64(ptr, 0, 24);
        let b1 = get_bits_u64(ptr, 24, 32);
        let b2 = get_bits_u64(ptr, 32, 64);
        assert(b0 << 40u64 >> 40u64 == b0 && b1 << 56u64 >> 56u64 == b1 && b2 << 32u64 >> 32u64 == b2
            && 103u64 << 48u64 >> 48u64 == 103u64 && 9u64 << 60u64 >> 60u64 == 9u64) by (bit_vector)
            requires
                b0 == (ptr << 40u64) >> 40u64 >> 0u64,
                b1 == (ptr << 32u64) >> 32u64 >> 24u64,
                b2 == (ptr << 0u64) >> 0u64 >> 32u64,
        ;
        set_bits_u64(&mut low, 16, 40, b0);
        set_bits_u64(&mut low, 56, 64, b1);
        set_bits_u64(&mut low, 0, 16, TSS_SIZE - 1);
        set_bits_u64(&mut low, 40, 44, TSS_AVAILABLE);
        let mut high: u64 = 0;
        set_bits_u64(&mut high, 0, 32, b2);
        proof {
            lemma_tss_words(ptr, low, high, b0, b1, b2);
        }
        Descriptor::SystemSegment(low, high)
    }
}

#[verifier::rlimit(50)]
proof fn lemma_tss_words(ptr: u64, low: u64, high: u64, b0: u64, b1: u64, b2: u64)
    requires
        b0 == (ptr << 40u64) >> 40u64 >> 0u64,
        b1 == (ptr << 32u64) >> 32u64 >> 24u64,
        b2 == (ptr << 0u64) >> 0u64 >> 32u64,
        low == (((((((((0x0000_8000_0000_0000u64 & !((((!0u64) << 24u64) >> 24u64) >> 16u64
            << 16u64)) | (b0 << 16u64)) & !((((!0u64) << 0u64) >> 0u64) >> 56u64 << 56u64)) | (b1
            << 56u64)) & !((((!0u64) << 48u64) >> 48u64) >> 0u64 << 0u64)) | (103u64 << 0u64)) & !((
        ((!0u64) << 20u64) >> 20u64) >> 40u64 << 40u64)) | (9u64 << 40u64))),
        high == (0u64 & !((((!0u64) << 32u64) >> 32u64) >> 0u64 << 0u64)) | (b2 << 0u64),
    ensures
        low == tss_low(ptr),
        high == ptr >> 32u64,
{
    assert(low == 0x0000_8000_0000_0000u64 | ((ptr & 0xff_ffff) << 16u64) | (((ptr >> 24u64)
        & 0xff) << 56u64) | 103u64 | (9u64 << 40u64)) by (bit_vector)
        requires
            b0 == (ptr << 40u64) >> 40u64 >> 0u64,
            b1 == (ptr << 32u64) >> 32u64 >> 24u64,
            low == (((((((((0x0000_8000_0000_0000u64 & !((((!0u64) << 24u64) >> 24u64) >> 16u64
                << 16u64)) | (b0 << 16u64)) & !((((!0u64) << 0u64) >> 0u64) >> 56u64 << 56u64))
                | (b1 << 56u64)) & !((((!0u64) << 48u64) >> 48u64) >> 0u64 << 0u64)) | (103u64
                << 0u64)) & !((((!0u64) << 20u64) >> 20u64) >> 40u64 << 40u64)) | (9u64 << 40u64))),
    ;
    assert(high == ptr >> 32u64) by (bit_vector)
        requires
            b2 == (ptr << 0u64) >> 0u64 >> 32u64,
            high == (0u64 & !((((!0u64) << 32u64) >> 32u64) >> 0u64 << 0u64)) | (b2 << 0u64),
    ;
}

/// One 8-byte slot of the global descriptor table.
#[derive(Clone, Copy, Debug, PartialEq, Eq, Default)]
pub struct Entry(u64);

impl View for Entry {
    type V = u64;

    closed spec fn view(&self) -> u64 {
        self.0
    }
}

impl Entry {
    /// The slot value.
    pub fn value(&self) -> (r: u64)
        ensures
            r == self@,
    {
        self.0
    }
}

/// Number of slots of the global descriptor table.
pub const GDT_SLOTS: usize = 8;

/// The global descriptor table: eight slots, slot 0 the reserved null
/// descriptor, filled in order.
#[derive(Debug)]
pub struct GlobalDescriptorTable {
    table: Vec<Entry>,
    len: usize,
}

impl GlobalDescriptorTable {
    /// The slot values.
    pub closed spec fn slots(&self) -> Seq<u64> {
        self.table@.map_values(|e: Entry| e@)
    }

    /// Number of slots in use, the null slot included.
    pub closed spec fn spec_len(&self) -> nat {
        self.len as nat
    }

    pub closed spec fn wf(&self) -> bool {
        &&& self.table.len() == GDT_SLOTS
        &&& 1 <= self.len <= GDT_SLOTS
    }

    /// `entry` fits in the slots that are left.
    pub open spec fn can_append(&self, entry: Descriptor) -> bool {
        self.spec_len() + entry.slots() <= GDT_SLOTS
    }

    /// A table that holds only the null descriptor.
    pub fn new() -> (r: GlobalDescriptorTable)
        ensures
            r.wf(),
            r.spec_len() == 1,
            r.slots() == Seq::new(8, |i: int| 0u64),
    {
        let r = GlobalDescriptorTable {
            table: vec![Entry(0), Entry(0), Entry(0), Entry(0), Entry(0), Entry(0), Entry(0), Entry(0)],
            len: 1,
        };
        assert(r.slots() =~= Seq::new(8, |i: int| 0u64));
        r
    }

    /// The eight slots.
    pub fn table(&self) -> (r: &[Entry])
        ensures
            r@.map_values(|e: Entry| e@) == self.slots(),
    {
        self.table.as_slice()
    }

    /// Number of slots in use, the null slot included.
    pub fn len(&self) -> (r: usize)
        ensures
            r == self.spec_len(),
    {
        self.len
    }

    /// `entry` fits in the slots that are left: a system segment needs two.
    pub fn fits(&self, entry: &Descriptor) -> (r: bool)
        requires
            self.wf(),
        ensures
            r == self.can_append(*entry),
    {
        match entry {
            Descriptor::UserSegment(_) => self.len <= GDT_SLOTS - 1,
            Descriptor::SystemSegment(_, _) => self.len <= GDT_SLOTS - 2,
        }
    }

    /// Base `base` and limit of the table, for loading it.
    pub fn pointer(&self, base: u64) -> (r: DescriptorTablePointer)
        requires
            self.wf(),
        ensures
            r.base == base,
            r.limit == self.spec_len() * 8 - 1,
    {
        DescriptorTablePointer { base, limit: (self.len * 8 - 1) as u16 }
    }

    /// Puts `entry` in the next free slots and returns its selector, with
    /// the descriptor's privilege level as requested privilege.
    pub fn append(&mut self, entry: Descriptor) -> (r: SegmentSelector)
        requires
            old(self).wf(),
            old(self).can_append(entry),
        ensures
            final(self).wf(),
            final(self).spec_len() == old(self).spec_len() + entry.slots(),
            final(self).slots() == match entry {
                Descriptor::UserSegment(v) => old(self).slots().update(old(self).spec_len() as int, v),
                Descriptor::SystemSegment(lo, hi) => old(self).slots().update(
                    old(self).spec_len() as int,
                    lo,
                ).update(old(self).spec_len() as int + 1, hi),
            },
            r.0 == ((old(self).spec_len() as u16) << 3u16) | ((entry.low() & DPL_RING_3) >> 45u64) as u16,
    {
        let index = match entry {
            Descriptor::UserSegment(value) => self.push(value),
            Descriptor::SystemSegment(low, high) => {
                let index = self.push(low);
                self.push(high);
                index
            },
        };
        let dpl = entry.dpl();
        SegmentSelector::new(index as u16, dpl)
    }

    fn push(&mut self, value: u64) -> (r: usize)
        requires
            old(self).wf(),
            old(self).len < GDT_SLOTS,
        ensures
            r == old(self).len,
            final(self).len == old(self).len + 1,
            final(self).table.len() == GDT_SLOTS,
            final(self).slots() == old(self).slots().update(r as int, value),
    {
        let index = self.len;
        self.table.set(index, Entry(value));
        self.len = self.len + 1;
        assert(self.slots() =~= old(self).slots().update(index as int, value));
        index
    }
}

/// Appending is admitted only while the descriptor's slots are free: a
/// table with one free slot takes a segment but not a system segment, and
/// a full table takes neither.
pub proof fn lemma_append_capacity(gdt: GlobalDescriptorTable, value: u64, low: u64, high: u64)
    ensures
        gdt.spec_len() == 7 ==> gdt.can_append(Descriptor::UserSegment(value)) && !gdt.can_append(
            Descriptor::SystemSegment(low, high),
        ),
        gdt.spec_len() == 8 ==> !gdt.can_append(Descriptor::UserSegment(value)) && !gdt.can_append(
            Descriptor::SystemSegment(low, high),
        ),
{
}

impl Default for GlobalDescriptorTable {
    fn default() -> (r: GlobalDescriptorTable)
        ensures
            r.wf(),
            r.spec_len() == 1,
            r.slots() == Seq::new(8, |i: int| 0u64),
    {
        GlobalDescriptorTable::new()
    }
}

} // verus!
