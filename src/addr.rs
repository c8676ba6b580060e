//! Virtual and physical address values, alignment, and the split of a
//! virtual address into table indices and a page offset.
use crate::page_table::{PageOffset, PageTableIndex};
use vstd::prelude::*;

verus! {

/// Bit 47, the highest bit that a canonical virtual address translates.
pub const SIGN_BIT_47: u64 = 0x0000_8000_0000_0000;

/// Bits 48 to 63 of a virtual address.
pub const HIGH_BITS: u64 = 0xffff_0000_0000_0000;

/// Bits 0 to 47 of a virtual address.
pub const LOW_48_BITS: u64 = 0x0000_ffff_ffff_ffff;

/// One past the largest physical address (bits 52 to 63 must be zero).
pub const PHYS_LIMIT: u64 = 0x0010_0000_0000_0000;

/// `a` with bits 48 to 63 set to copies of bit 47.
pub open spec fn sign_extend_48(a: u64) -> u64 {
    if a & SIGN_BIT_47 != 0 {
        a | HIGH_BITS
    } else {
        a & LOW_48_BITS
    }
}

/// Bits 48 to 63 of `a` already equal bit 47.
pub open spec fn is_canonical(a: u64) -> bool {
    sign_extend_48(a) == a
}

/// The bits below the power of two `align`.
pub open spec fn low_mask(align: u64) -> u64 {
    (align - 1) as u64
}

pub open spec fn is_pow2(a: u64) -> bool {
    a != 0 && a & low_mask(a) == 0
}

/// `addr` rounded down to a multiple of the power of two `align`.
pub open spec fn spec_align_down(addr: u64, align: u64) -> u64 {
    addr & !low_mask(align)
}

/// Index into the level-4 table: bits 39 to 47.
pub open spec fn p4_of(a: u64) -> u64 {
    (a >> 39u64) & 0x1ff
}

/// Index into the level-3 table: bits 30 to 38.
pub open spec fn p3_of(a: u64) -> u64 {
    (a >> 30u64) & 0x1ff
}

/// Index into the level-2 table: bits 21 to 29.
pub open spec fn p2_of(a: u64) -> u64 {
    (a >> 21u64) & 0x1ff
}

/// Index into the level-1 table: bits 12 to 20.
pub open spec fn p1_of(a: u64) -> u64 {
    (a >> 12u64) & 0x1ff
}

/// Offset inside a 4 KiB page: bits 0 to 11.
pub open spec fn offset_of(a: u64) -> u64 {
    a & 0xfff
}

/// A canonical 64-bit virtual address.
#[derive(Clone, Copy, Debug, PartialEq, Eq, Hash)]
pub struct VirtAddr(u64);

impl View for VirtAddr {
    type V = u64;

    closed spec fn view(&self) -> u64 {
        self.0
    }
}

impl VirtAddr {
    #[verifier::type_invariant]
    pub open spec fn inv(self) -> bool {
        is_canonical(self@)
    }

    /// The address `addr`, which must already be canonical.
    pub fn new(addr: u64) -> (r: VirtAddr)
        requires
            is_canonical(addr),
        ensures
            r@ == addr,
    {
        let v = Self::new_truncate(addr);
        v
    }

    /// The address `addr` with bits 48 to 63 forced to copies of bit 47.
    pub fn new_truncate(addr: u64) -> (r: VirtAddr)
        ensures
            r@ == sign_extend_48(addr),
    {
        proof {
            lemma_sign_extend_canonical(addr);
        }
        if addr & SIGN_BIT_47 != 0 {
            VirtAddr(addr | HIGH_BITS)
        } else {
            VirtAddr(addr & LOW_48_BITS)
        }
    }

    pub fn as_u64(self) -> (r: u64)
        ensures
            r == self@,
    {
        self.0
    }

    /// Bits 0 to 11.
    pub fn page_offset(self) -> (r: PageOffset)
        ensures
            r@ == offset_of(self@),
    {
        let a = self.0;
        let r = PageOffset::new_truncate(a as u16);
        proof {
            lemma_index_truncations(a);
        }
        r
    }

    /// Bits 12 to 20.
    pub fn p1_index(self) -> (r: PageTableIndex)
        ensures
            r@ == p1_of(self@),
    {
        let a = self.0;
        let r = PageTableIndex::new_truncate((a >> 12u64) as u16);
        proof {
            lemma_index_truncations(a);
        }
        r
    }

    /// Bits 21 to 29.
    pub fn p2_index(self) -> (r: PageTableIndex)
        ensures
            r@ == p2_of(self@),
    {
        let a = self.0;
        let r = PageTableIndex::new_truncate((a >> 12u64 >> 9u64) as u16);
        proof {
            lemma_index_truncations(a);
        }
        r
    }

    /// Bits 30 to 38.
    pub fn p3_index(self) -> (r: PageTableIndex)
        ensures
            r@ == p3_of(self@),
    {
        let a = self.0;
        let r = PageTableIndex::new_truncate((a >> 12u64 >> 9u64 >> 9u64) as u16);
        proof {
            lemma_index_truncations(a);
        }
        r
    }

    /// Bits 39 to 47.
    pub fn p4_index(self) -> (r: PageTableIndex)
        ensures
            r@ == p4_of(self@),
    {
        let a = self.0;
        let r = PageTableIndex::new_truncate((a >> 12u64 >> 9u64 >> 9u64 >> 9u64) as u16);
        proof {
            lemma_index_truncations(a);
        }
        r
    }

    /// The address rounded down to `align`, kept canonical.
    pub fn align_down(&self, align: u64) -> (r: VirtAddr)
        requires
            is_pow2(align),
        ensures
            r@ == sign_extend_48(spec_align_down(self@, align)),
    {
        VirtAddr::new_truncate(align_down(self.0, align))
    }
}

/// A physical address: bits 52 to 63 are zero.
#[derive(Clone, Copy, Debug, PartialEq, Eq, Hash)]
pub struct PhysAddr(u64);

impl View for PhysAddr {
    type V = u64;

    closed spec fn view(&self) -> u64 {
        self.0
    }
}

impl PhysAddr {
    #[verifier::type_invariant]
    pub open spec fn inv(self) -> bool {
        self@ < PHYS_LIMIT
    }

    /// The address `addr`, which must have no bit set from 52 upwards.
    pub fn new(addr: u64) -> (r: PhysAddr)
        requires
            addr < PHYS_LIMIT,
        ensures
            r@ == addr,
    {
        let p = Self::new_truncate(addr);
        p
    }

    pub fn as_u64(self) -> (r: u64)
        ensures
            r == self@,
    {
        self.0
    }

    /// The address `addr` reduced modulo 2^52.
    pub fn new_truncate(addr: u64) -> (r: PhysAddr)
        ensures
            r@ == addr % PHYS_LIMIT,
    {
        PhysAddr(addr % PHYS_LIMIT)
    }

    /// The address rounded down to `align`.
    pub fn align_down(self, align: u64) -> (r: PhysAddr)
        requires
            is_pow2(align),
        ensures
            r@ == spec_align_down(self@, align),
    {
        proof {
            use_type_invariant(&self);
        }
        let r = align_down(self.0, align);
        PhysAddr(r)
    }

    /// The address is a multiple of `align`.
    pub fn is_aligned(self, align: u64) -> (r: bool)
        requires
            is_pow2(align),
        ensures
            r == (self@ & low_mask(align) == 0),
    {
        proof {
            lemma_align_down(self@, align);
        }
        self.align_down(align).as_u64() == self.as_u64()
    }
}

/// `addr` rounded down to a multiple of `align`, a power of two.
pub fn align_down(addr: u64, align: u64) -> (r: u64)
    requires
        is_pow2(align),
    ensures
        r == spec_align_down(addr, align),
        r <= addr,
        addr - r < align,
        r & low_mask(align) == 0,
        (r == addr) == (addr & low_mask(align) == 0),
{
    proof {
        lemma_align_down(addr, align);
    }
    addr & !(align - 1)
}

/// `addr` rounded up to a multiple of `align`, a power of two; the result
/// must be representable.
pub fn align_up(addr: u64, align: u64) -> (r: u64)
    requires
        is_pow2(align),
        addr & low_mask(align) == 0 || (addr | low_mask(align)) < u64::MAX,
    ensures
        r == if addr & low_mask(align) == 0 {
            addr
        } else {
            ((addr | low_mask(align)) + 1) as u64
        },
        r >= addr,
        r - addr < align,
        r & low_mask(align) == 0,
{
    let align_mask = align - 1;
    proof {
        lemma_align_up(addr, align);
    }
    if addr & align_mask == 0 {
        addr
    } else {
        (addr | align_mask) + 1
    }
}

/// Sign extension always yields a canonical address, and leaves a canonical
/// one unchanged.
pub proof fn lemma_sign_extend_canonical(a: u64)
    ensures
        is_canonical(sign_extend_48(a)),
        is_canonical(a) <==> sign_extend_48(a) == a,
{
    assert(((a & 0x0000_8000_0000_0000u64 != 0) ==> ((a | 0xffff_0000_0000_0000u64)
        & 0x0000_8000_0000_0000u64 != 0)) && ((a & 0x0000_8000_0000_0000u64 == 0) ==> ((a
        & 0x0000_ffff_ffff_ffffu64) & 0x0000_8000_0000_0000u64 == 0)) && ((a
        | 0xffff_0000_0000_0000u64) | 0xffff_0000_0000_0000u64 == a | 0xffff_0000_0000_0000u64)
        && ((a & 0x0000_ffff_ffff_ffffu64) & 0x0000_ffff_ffff_ffffu64 == a
        & 0x0000_ffff_ffff_ffffu64)) by (bit_vector);
}

proof fn lemma_align_down(addr: u64, align: u64)
    requires
        is_pow2(align),
    ensures
        spec_align_down(addr, align) <= addr,
        addr - spec_align_down(addr, align) < align,
        spec_align_down(addr, align) & low_mask(align) == 0,
        (spec_align_down(addr, align) == addr) == (addr & low_mask(align) == 0),
{
    let m = low_mask(align);
    let d = addr & !m;
    assert(d <= addr && addr - d < align && d & m == 0 && ((d == addr) == (addr & m == 0)))
        by (bit_vector)
        requires
            align != 0,
            m == (align - 1) as u64,
            align & m == 0,
            d == addr & !m,
    ;
}

proof fn lemma_align_up(addr: u64, align: u64)
    requires
        is_pow2(align),
        addr & low_mask(align) == 0 || (addr | low_mask(align)) < u64::MAX,
    ensures
        addr & low_mask(align) != 0 ==> {
            let u = ((addr | low_mask(align)) + 1) as u64;
            u > addr && u - addr < align && u & low_mask(align) == 0
        },
{
    let m = low_mask(align);
    if addr & m != 0 {
        let u = ((addr | m) + 1) as u64;
        assert(u > addr && u - addr < align && u & m == 0) by (bit_vector)
            requires
                align != 0,
                m == (align - 1) as u64,
                align & m == 0,
                addr & m != 0,
                (addr | m) < 0xffff_ffff_ffff_ffffu64,
                u == ((addr | m) + 1) as u64,
        ;
    }
}

/// Truncation sign-extends: bits 0 to 47 are kept, bits 48 to 63 all equal
/// bit 47; and the strict constructor's check (truncation changes nothing)
/// holds exactly for canonical addresses.
pub proof fn lemma_new_truncate_sign_extends(v: u64)
    ensures
        sign_extend_48(v) & LOW_48_BITS == v & LOW_48_BITS,
        (sign_extend_48(v) >> 48u64) == if (v >> 47u64) & 1 == 1 {
            0xffffu64
        } else {
            0u64
        },
        (sign_extend_48(v) == v) <==> is_canonical(v),
{
    assert(((v & 0x0000_8000_0000_0000u64 != 0) ==> ((v | 0xffff_0000_0000_0000u64)
        & 0x0000_ffff_ffff_ffffu64 == v & 0x0000_ffff_ffff_ffffu64 && ((v
        | 0xffff_0000_0000_0000u64) >> 48u64) == 0xffffu64 && (v >> 47u64) & 1 == 1)) && ((v
        & 0x0000_8000_0000_0000u64 == 0) ==> ((v & 0x0000_ffff_ffff_ffffu64)
        & 0x0000_ffff_ffff_ffffu64 == v & 0x0000_ffff_ffff_ffffu64 && ((v
        & 0x0000_ffff_ffff_ffffu64) >> 48u64) == 0u64 && (v >> 47u64) & 1 == 0))) by (bit_vector);
}

/// Each table index is below 512 and the page offset below 4096.
pub proof fn lemma_index_bounds(a: u64)
    ensures
        p4_of(a) < 512,
        p3_of(a) < 512,
        p2_of(a) < 512,
        p1_of(a) < 512,
        offset_of(a) < 4096,
{
    lemma_index_truncations(a);
}

/// The index and offset fields computed through `u16` truncations equal
/// the bit fields of the address.
proof fn lemma_index_truncations(a: u64)
    ensures
        (((a as u16) % 4096) as u64) == a & 0xfff,
        ((((a >> 12u64) as u16) % 512) as u64) == (a >> 12u64) & 0x1ff,
        ((((a >> 12u64 >> 9u64) as u16) % 512) as u64) == (a >> 21u64) & 0x1ff,
        ((((a >> 12u64 >> 9u64 >> 9u64) as u16) % 512) as u64) == (a >> 30u64) & 0x1ff,
        ((((a >> 12u64 >> 9u64 >> 9u64 >> 9u64) as u16) % 512) as u64) == (a >> 39u64) & 0x1ff,
        p4_of(a) < 512,
        p3_of(a) < 512,
        p2_of(a) < 512,
        p1_of(a) < 512,
        offset_of(a) < 4096,
{
    assert((((a as u16) % 4096) as u64) == a & 0xfff && ((((a >> 12u64) as u16) % 512) as u64) == (
    a >> 12u64) & 0x1ff && ((((a >> 12u64 >> 9u64) as u16) % 512) as u64) == (a >> 21u64) & 0x1ff
        && ((((a >> 12u64 >> 9u64 >> 9u64) as u16) % 512) as u64) == (a >> 30u64) & 0x1ff && ((((a
        >> 12u64 >> 9u64 >> 9u64 >> 9u64) as u16) % 512) as u64) == (a >> 39u64) & 0x1ff && (a
        >> 39u64) & 0x1ff < 512 && (a >> 30u64) & 0x1ff < 512 && (a >> 21u64) & 0x1ff < 512 && (a
        >> 12u64) & 0x1ff < 512 && a & 0xfff < 4096) by (bit_vector);
}

/// A canonical address is rebuilt exactly from its four table indices and
/// its page offset, with bits 48 to 63 copied from the top index bit.
pub proof fn lemma_indices_rebuild_address(a: u64)
    requires
        is_canonical(a),
    ensures
        a == sign_extend_48(
            (p4_of(a) << 39u64) | (p3_of(a) << 30u64) | (p2_of(a) << 21u64) | (p1_of(a) << 12u64)
                | offset_of(a),
        ),
{
    let lo = (p4_of(a) << 39u64) | (p3_of(a) << 30u64) | (p2_of(a) << 21u64) | (p1_of(a)
        << 12u64) | offset_of(a);
    assert(lo == a & 0x0000_ffff_ffff_ffffu64) by (bit_vector)
        requires
            lo == (((a >> 39u64) & 0x1ff) << 39u64) | (((a >> 30u64) & 0x1ff) << 30u64) | (((a
                >> 21u64) & 0x1ff) << 21u64) | (((a >> 12u64) & 0x1ff) << 12u64) | (a & 0xfff),
    ;
    assert(((a & 0x0000_8000_0000_0000u64 != 0) ==> (a | 0xffff_0000_0000_0000u64 == a) ==> ((a
        & 0x0000_ffff_ffff_ffffu64) | 0xffff_0000_0000_0000u64 == a)) && ((a
        & 0x0000_8000_0000_0000u64 == 0) ==> ((a & 0x0000_ffff_ffff_ffffu64)
        & 0x0000_ffff_ffff_ffffu64 == a & 0x0000_ffff_ffff_ffffu64)) && (((a
        & 0x0000_ffff_ffff_ffffu64) & 0x0000_8000_0000_0000u64 == 0) == (a
        & 0x0000_8000_0000_0000u64 == 0))) by (bit_vector);
}

} // verus!
