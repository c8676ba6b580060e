//! The interrupt descriptor table: 256 entries, each holding a handler
//! address, a code-segment selector and options.
use crate::bits::{set_bit_u16, set_bits_u16};
use crate::gdt::{DescriptorTablePointer, SegmentSelector};
use vstd::prelude::*;

verus! {

/// Options of an entry: present bit 15, entry type in bits 8 to 11, and the
/// interrupt-stack-table slot plus one in bits 0 to 2.
#[derive(Clone, Copy, Debug, PartialEq, Eq)]
pub struct EntryOptions(u16);

impl View for EntryOptions {
    type V = u16;

    closed spec fn view(&self) -> u16 {
        self.0
    }
}

/// A not-present interrupt descriptor.
pub const DEFAULT_OPTIONS: u16 = 0b1110_0000_0000;

impl EntryOptions {
    /// The options of a not-present interrupt descriptor.
    pub fn new() -> (r: EntryOptions)
        ensures
            r@ == DEFAULT_OPTIONS,
    {
        EntryOptions(DEFAULT_OPTIONS)
    }

    /// Sets or clears the present bit.
    pub fn set_present(&mut self, present: bool)
        ensures
            final(self)@ == if present {
                old(self)@ | 0x8000
            } else {
                old(self)@ & 0x7fff
            },
    {
        set_bit_u16(&mut self.0, 15, present);
        proof {
            assert(1u16 << 15u16 == 0x8000u16 && !0x8000u16 == 0x7fffu16) by (bit_vector);
        }
    }

    /// Makes the handler run on interrupt-stack-table slot `index`.
    pub fn set_stack_index(&mut self, index: u16) -> (r: &mut Self)
        requires
            index < 7,
        ensures
            (*r)@ == (old(self)@ & !7u16) | (index + 1) as u16,
            *final(self) == *final(r),
    {
        let v = index + 1;
        assert(v < 8 ==> v << 13u16 >> 13u16 == v) by (bit_vector);
        set_bits_u16(&mut self.0, 0, 3, v);
        proof {
            let o = old(self)@;
            assert((o & !((((!0u16) << 13u16) >> 13u16) >> 0u16 << 0u16)) | (v << 0u16) == (o
                & !7u16) | v) by (bit_vector);
        }
        self
    }
}

impl Default for EntryOptions {
    fn default() -> (r: EntryOptions)
        ensures
            r@ == DEFAULT_OPTIONS,
    {
        EntryOptions::new()
    }
}

/// One entry of the interrupt descriptor table.
#[derive(Clone, Copy, Debug, PartialEq, Eq)]
pub struct Entry {
    pointer_low: u16,
    segment_selector: SegmentSelector,
    options: EntryOptions,
    pointer_middle: u16,
    pointer_high: u32,
}

impl Entry {
    /// The handler address that the entry holds.
    pub closed spec fn handler_addr(&self) -> u64 {
        (self.pointer_low as u64) | ((self.pointer_middle as u64) << 16u64) | ((
        self.pointer_high as u64) << 32u64)
    }

    pub closed spec fn selector(&self) -> u16 {
        self.segment_selector.0
    }

    pub closed spec fn options(&self) -> EntryOptions {
        self.options
    }

    /// The two words of the entry as the processor reads it: handler bits
    /// 0 to 15, selector, options and handler bits 16 to 31 in the first;
    /// handler bits 32 to 63 and zeros in the second.
    pub open spec fn spec_words(&self) -> (u64, u64) {
        (
            (self.handler_addr() & 0xffff) | ((self.selector() as u64) << 16u64) | ((
            self.options()@ as u64) << 32u64) | (((self.handler_addr() >> 16u64) & 0xffff)
                << 48u64),
            self.handler_addr() >> 32u64,
        )
    }

    /// The two words of the entry as the processor reads it.
    pub fn words(&self) -> (r: (u64, u64))
        ensures
            r == self.spec_words(),
    {
        proof {
            lemma_entry_bits(self.pointer_low, self.pointer_middle, self.pointer_high, 0);
        }
        (
            (self.pointer_low as u64) | ((self.segment_selector.0 as u64) << 16u64) | ((
            self.options.0 as u64) << 32u64) | ((self.pointer_middle as u64) << 48u64),
            self.pointer_high as u64,
        )
    }

    /// An entry with no handler, not present.
    pub fn new() -> (r: Entry)
        ensures
            r.handler_addr() == 0,
            r.selector() == 0,
            r.options()@ == DEFAULT_OPTIONS,
    {
        proof {
            lemma_entry_bits(0, 0, 0, 0);
        }
        Entry {
            pointer_low: 0,
            segment_selector: SegmentSelector(0),
            options: EntryOptions::new(),
            pointer_middle: 0,
            pointer_high: 0,
        }
    }

    /// Makes the entry call the handler at `addr` in the code segment `cs`
    /// and marks it present; the options are returned for further changes.
    pub fn set_handler(&mut self, addr: u64, cs: SegmentSelector) -> (r: &mut EntryOptions)
        ensures
            final(self).handler_addr() == addr,
            final(self).selector() == cs.0,
            (*r)@ == old(self).options()@ | 0x8000,
            final(self).options() == *final(r),
    {
        self.pointer_low = addr as u16;
        self.pointer_middle = (addr >> 16u64) as u16;
        self.pointer_high = (addr >> 32u64) as u32;
        self.segment_selector = cs;
        self.options.set_present(true);
        proof {
            lemma_entry_bits(0, 0, 0, addr);
        }
        &mut self.options
    }
}

/// The handler address is rebuilt from its three pieces, and gives them
/// back.
proof fn lemma_entry_bits(low: u16, mid: u16, high: u32, addr: u64)
    ensures
        ({
            let h = (low as u64) | ((mid as u64) << 16u64) | ((high as u64) << 32u64);
            &&& h & 0xffff == low as u64
            &&& (h >> 16u64) & 0xffff == mid as u64
            &&& h >> 32u64 == high as u64
        }),
        (0u16 as u64) | ((0u16 as u64) << 16u64) | ((0u32 as u64) << 32u64) == 0u64,
        ((addr as u16) as u64) | ((((addr >> 16u64) as u16) as u64) << 16u64) | ((((addr
            >> 32u64) as u32) as u64) << 32u64) == addr,
{
    assert({
        let h = (low as u64) | ((mid as u64) << 16u64) | ((high as u64) << 32u64);
        &&& h & 0xffff == low as u64
        &&& (h >> 16u64) & 0xffff == mid as u64
        &&& h >> 32u64 == high as u64
        &&& (0u16 as u64) | ((0u16 as u64) << 16u64) | ((0u32 as u64) << 32u64) == 0u64
        &&& ((addr as u16) as u64) | ((((addr >> 16u64) as u16) as u64) << 16u64) | ((((addr
            >> 32u64) as u32) as u64) << 32u64) == addr
    }) by (bit_vector);
}

impl Default for Entry {
    fn default() -> (r: Entry)
        ensures
            r.handler_addr() == 0,
            r.selector() == 0,
            r.options()@ == DEFAULT_OPTIONS,
    {
        Entry::new()
    }
}

/// Vectors that no entry may be installed for.
pub open spec fn is_reserved_vector(v: u8) -> bool {
    v == 15 || v == 31 || (22 <= v <= 27)
}

/// Exceptions that push an error code, whose handlers take one more
/// argument.
pub open spec fn has_error_code(v: u8) -> bool {
    v == 8 || (10 <= v <= 14) || v == 17 || v == 21 || v == 29 || v == 30
}

/// The machine-check exception, whose handler must not return.
pub open spec fn is_diverging(v: u8) -> bool {
    v == 18
}

/// Vectors whose entry can be reached by index: not reserved, no error code,
/// not diverging.
pub open spec fn is_indexable(v: u8) -> bool {
    !is_reserved_vector(v) && !has_error_code(v) && !is_diverging(v)
}

/// Number of entries past the 32 exception vectors.
pub const INTERRUPT_VECTORS: usize = 224;

/// The interrupt descriptor table: the 32 exception entries by name, then the
/// entries of vectors 32 to 255.
#[derive(Debug)]
pub struct InterruptDescriptorTable {
    pub divide_by_zero: Entry,
    pub debug: Entry,
    pub non_maskable_interrupt: Entry,
    pub breakpoint: Entry,
    pub overflow: Entry,
    pub bound_range_exceeded: Entry,
    pub invalid_opcode: Entry,
    pub device_not_available: Entry,
    pub double_fault: Entry,
    pub coprocessor_segment_overrun: Entry,
    pub invalid_tss: Entry,
    pub segment_not_present: Entry,
    pub stack_segment_fault: Entry,
    pub general_protection_fault: Entry,
    pub page_fault: Entry,
    reserved1: Entry,
    pub x87_floating_point: Entry,
    pub alignment_check: Entry,
    pub machine_check: Entry,
    pub simd_floating_point: Entry,
    pub virtualization: Entry,
    pub cp_protection_exception: Entry,
    reserved2: [Entry; 6],
    pub hv_injection_exception: Entry,
    pub vmm_communication_exception: Entry,
    pub security_exception: Entry,
    reserved3: Entry,
    interrupts: Vec<Entry>,
}

/// Size in bytes of the table: 256 entries of 16 bytes.
pub const IDT_SIZE: u64 = 4096;

impl InterruptDescriptorTable {
    pub closed spec fn wf(&self) -> bool {
        self.interrupts.len() == INTERRUPT_VECTORS
    }

    /// The entry of vector `v`.
    pub closed spec fn vector_entry(&self, v: u8) -> Entry {
        if v == 0 {
            self.divide_by_zero
        } else if v == 1 {
            self.debug
        } else if v == 2 {
            self.non_maskable_interrupt
        } else if v == 3 {
            self.breakpoint
        } else if v == 4 {
            self.overflow
        } else if v == 5 {
            self.bound_range_exceeded
        } else if v == 6 {
            self.invalid_opcode
        } else if v == 7 {
            self.device_not_available
        } else if v == 8 {
            self.double_fault
        } else if v == 9 {
            self.coprocessor_segment_overrun
        } else if v == 10 {
            self.invalid_tss
        } else if v == 11 {
            self.segment_not_present
        } else if v == 12 {
            self.stack_segment_fault
        } else if v == 13 {
            self.general_protection_fault
        } else if v == 14 {
            self.page_fault
        } else if v == 15 {
            self.reserved1
        } else if v == 16 {
            self.x87_floating_point
        } else if v == 17 {
            self.alignment_check
        } else if v == 18 {
            self.machine_check
        } else if v == 19 {
            self.simd_floating_point
        } else if v == 20 {
            self.virtualization
        } else if v == 21 {
            self.cp_protection_exception
        } else if 22 <= v <= 27 {
            self.reserved2@[v - 22]
        } else if v == 28 {
            self.hv_injection_exception
        } else if v == 29 {
            self.vmm_communication_exception
        } else if v == 30 {
            self.security_exception
        } else if v == 31 {
            self.reserved3
        } else {
            self.interrupts@[v - 32]
        }
    }

    /// An entry with no handler, not present.
    pub open spec fn blank_entry(e: Entry) -> bool {
        e.handler_addr() == 0 && e.selector() == 0 && e.options()@ == DEFAULT_OPTIONS
    }

    /// A table of 256 entries with no handler.
    pub fn new() -> (r: InterruptDescriptorTable)
        ensures
            r.wf(),
            forall|v: u8| #[trigger] Self::blank_entry(r.vector_entry(v)),
    {
        let mut interrupts: Vec<Entry> = Vec::new();
        while interrupts.len() < INTERRUPT_VECTORS
            invariant
                interrupts.len() <= INTERRUPT_VECTORS,
                forall|i: int|
                    0 <= i < interrupts.len() ==> (#[trigger] interrupts@[i]).handler_addr() == 0
                        && interrupts@[i].selector() == 0 && interrupts@[i].options()@
                        == DEFAULT_OPTIONS,
            decreases INTERRUPT_VECTORS - interrupts.len(),
        {
            interrupts.push(Entry::new());
        }
        InterruptDescriptorTable {
            divide_by_zero: Entry::new(),
            debug: Entry::new(),
            non_maskable_interrupt: Entry::new(),
            breakpoint: Entry::new(),
            overflow: Entry::new(),
            bound_range_exceeded: Entry::new(),
            invalid_opcode: Entry::new(),
            device_not_available: Entry::new(),
            double_fault: Entry::new(),
            coprocessor_segment_overrun: Entry::new(),
            invalid_tss: Entry::new(),
            segment_not_present: Entry::new(),
            stack_segment_fault: Entry::new(),
            general_protection_fault: Entry::new(),
            page_fault: Entry::new(),
            reserved1: Entry::new(),
            x87_floating_point: Entry::new(),
            alignment_check: Entry::new(),
            machine_check: Entry::new(),
            simd_floating_point: Entry::new(),
            virtualization: Entry::new(),
            cp_protection_exception: Entry::new(),
            reserved2: [Entry::new(), Entry::new(), Entry::new(), Entry::new(), Entry::new(), Entry::new()],
            hv_injection_exception: Entry::new(),
            vmm_communication_exception: Entry::new(),
            security_exception: Entry::new(),
            reserved3: Entry::new(),
            interrupts,
        }
    }

    /// Base `base` and limit of the table, for loading it.
    pub fn pointer(&self, base: u64) -> (r: DescriptorTablePointer)
        ensures
            r.base == base,
            r.limit == IDT_SIZE - 1,
    {
        DescriptorTablePointer { base, limit: (IDT_SIZE - 1) as u16 }
    }

    /// The 512 words of the table as the processor reads it, entry after
    /// entry in vector order.
    pub fn words(&self) -> (r: Vec<u64>)
        requires
            self.wf(),
        ensures
            r.len() == 512,
            forall|v: u8|
                r@[2 * v] == (#[trigger] self.vector_entry(v)).spec_words().0 && r@[2 * v + 1]
                    == self.vector_entry(v).spec_words().1,
    {
        let mut out: Vec<u64> = Vec::new();
        let mut v: usize = 0;
        while v < 256
            invariant
                self.wf(),
                v <= 256,
                out.len() == 2 * v,
                forall|w: u8|
                    w < v ==> out@[2 * w] == (#[trigger] self.vector_entry(w)).spec_words().0
                        && out@[2 * w + 1] == self.vector_entry(w).spec_words().1,
            decreases 256 - v,
        {
            let e = match v {
                8 => &self.double_fault,
                10 => &self.invalid_tss,
                11 => &self.segment_not_present,
                12 => &self.stack_segment_fault,
                13 => &self.general_protection_fault,
                14 => &self.page_fault,
                15 => &self.reserved1,
                17 => &self.alignment_check,
                18 => &self.machine_check,
                21 => &self.cp_protection_exception,
                22 => &self.reserved2[0],
                23 => &self.reserved2[1],
                24 => &self.reserved2[2],
                25 => &self.reserved2[3],
                26 => &self.reserved2[4],
                27 => &self.reserved2[5],
                29 => &self.vmm_communication_exception,
                30 => &self.security_exception,
                31 => &self.reserved3,
                _ => self.index(v as u8),
            };
            let (lo, hi) = e.words();
            out.push(lo);
            out.push(hi);
            v = v + 1;
        }
        out
    }

    /// The entry of vector `index`, which must be indexable.
    pub fn index(&self, index: u8) -> (r: &Entry)
        requires
            self.wf(),
            is_indexable(index),
        ensures
            *r == self.vector_entry(index),
    {
        match index {
            0 => &self.divide_by_zero,
            1 => &self.debug,
            2 => &self.non_maskable_interrupt,
            3 => &self.breakpoint,
            4 => &self.overflow,
            5 => &self.bound_range_exceeded,
            6 => &self.invalid_opcode,
            7 => &self.device_not_available,
            9 => &self.coprocessor_segment_overrun,
            16 => &self.x87_floating_point,
            19 => &self.simd_floating_point,
            20 => &self.virtualization,
            28 => &self.hv_injection_exception,
            _ => &self.interrupts[index as usize - 32],
        }
    }

    /// The entry of vector `index`, which must be indexable, for changing.
    pub fn index_mut(&mut self, index: u8) -> (r: &mut Entry)
        requires
            old(self).wf(),
            is_indexable(index),
        ensures
            *r == old(self).vector_entry(index),
            final(self).wf(),
            final(self).vector_entry(index) == *final(r),
            forall|v: u8| v != index ==> #[trigger] final(self).vector_entry(v) == old(self).vector_entry(v),
    {
        match index {
            0 => &mut self.divide_by_zero,
            1 => &mut self.debug,
            2 => &mut self.non_maskable_interrupt,
            3 => &mut self.breakpoint,
            4 => &mut self.overflow,
            5 => &mut self.bound_range_exceeded,
            6 => &mut self.invalid_opcode,
            7 => &mut self.device_not_available,
            9 => &mut self.coprocessor_segment_overrun,
            16 => &mut self.x87_floating_point,
            19 => &mut self.simd_floating_point,
            20 => &mut self.virtualization,
            28 => &mut self.hv_injection_exception,
            _ => &mut self.interrupts[index as usize - 32],
        }
    }
}

impl Default for InterruptDescriptorTable {
    fn default() -> (r: InterruptDescriptorTable)
        ensures
            r.wf(),
            forall|v: u8| #[trigger] Self::blank_entry(r.vector_entry(v)),
    {
        InterruptDescriptorTable::new()
    }
}

} // verus!
