//! Page sizes, virtual pages, and inclusive page ranges.
use crate::addr::{is_canonical, low_mask, sign_extend_48, spec_align_down, VirtAddr};
use crate::page_table::PageTableIndex;
use core::marker::PhantomData;
use vstd::prelude::*;

verus! {

/// One of the three page sizes of x86-64 paging.
pub trait PageSize: Copy {
    spec fn spec_size() -> u64;

    /// The size in bytes.
    fn size() -> (r: u64)
        ensures
            r == Self::spec_size(),
    ;

    proof fn lemma_size()
        ensures
            Self::spec_size() == 0x1000 || Self::spec_size() == 0x20_0000 || Self::spec_size()
                == 0x4000_0000,
    ;
}

/// 4 KiB pages.
#[derive(Clone, Copy, Debug, PartialEq, Eq)]
pub struct Size4KiB;

/// 2 MiB pages: 512 pages of 4 KiB.
#[derive(Clone, Copy, Debug, PartialEq, Eq)]
pub struct Size2MiB;

/// 1 GiB pages: 512 pages of 2 MiB.
#[derive(Clone, Copy, Debug, PartialEq, Eq)]
pub struct Size1GiB;

pub const SIZE_4KIB: u64 = 0x1000;

pub const SIZE_2MIB: u64 = SIZE_4KIB * 512;

pub const SIZE_1GIB: u64 = SIZE_2MIB * 512;

impl PageSize for Size4KiB {
    open spec fn spec_size() -> u64 {
        SIZE_4KIB
    }

    fn size() -> (r: u64) {
        SIZE_4KIB
    }

    proof fn lemma_size() {
    }
}

impl PageSize for Size2MiB {
    open spec fn spec_size() -> u64 {
        SIZE_2MIB
    }

    fn size() -> (r: u64) {
        SIZE_2MIB
    }

    proof fn lemma_size() {
    }
}

impl PageSize for Size1GiB {
    open spec fn spec_size() -> u64 {
        SIZE_1GIB
    }

    fn size() -> (r: u64) {
        SIZE_1GIB
    }

    proof fn lemma_size() {
    }
}

/// Facts about the three sizes: each is a power of two, and rounding a
/// canonical address down to one of them keeps it canonical and yields a
/// multiple of the size no more than one size below.
pub proof fn lemma_size_alignment(size: u64, a: u64)
    requires
        size == SIZE_4KIB || size == SIZE_2MIB || size == SIZE_1GIB,
    ensures
        crate::addr::is_pow2(size),
        is_canonical(a) ==> is_canonical(spec_align_down(a, size)),
        spec_align_down(a, size) <= a,
        a - spec_align_down(a, size) < size,
        spec_align_down(a, size) % size == 0,
        (a & low_mask(size) == 0) == (a % size == 0),
{
    let d = a & !low_mask(size);
    if size == SIZE_4KIB {
        assert(low_mask(size) == 0xfff);
        assert(0x1000u64 & 0xfffu64 == 0 && (is_canonical(a) ==> is_canonical(d)) && d <= a && a
            - d < 0x1000 && d % 0x1000 == 0 && ((a & 0xfff == 0) == (a % 0x1000 == 0)))
            by (bit_vector)
            requires
                d == a & !0xfffu64,
        ;
    } else if size == SIZE_2MIB {
        assert(low_mask(size) == 0x1f_ffff);
        assert(0x20_0000u64 & 0x1f_ffffu64 == 0 && (is_canonical(a) ==> is_canonical(d)) && d <= a
            && a - d < 0x20_0000 && d % 0x20_0000 == 0 && ((a & 0x1f_ffff == 0) == (a % 0x20_0000
            == 0))) by (bit_vector)
            requires
                d == a & !0x1f_ffffu64,
        ;
    } else {
        assert(low_mask(size) == 0x3fff_ffff);
        assert(0x4000_0000u64 & 0x3fff_ffffu64 == 0 && (is_canonical(a) ==> is_canonical(d)) && d
            <= a && a - d < 0x4000_0000 && d % 0x4000_0000 == 0 && ((a & 0x3fff_ffff == 0) == (a
            % 0x4000_0000 == 0))) by (bit_vector)
            requires
                d == a & !0x3fff_ffffu64,
        ;
    }
}

/// The address is not a multiple of the page size.
#[derive(Clone, Copy, Debug, PartialEq, Eq)]
pub struct AddressNotAligned;

/// A virtual page: its start address is a multiple of the size `S`.
#[derive(Copy, Debug)]
pub struct Page<S: PageSize> {
    start_address: VirtAddr,
    size: PhantomData<S>,
}

impl<S: PageSize> Clone for Page<S> {
    fn clone(&self) -> (r: Self)
        ensures
            r == *self,
    {
        *self
    }
}

impl<S: PageSize> View for Page<S> {
    type V = u64;

    closed spec fn view(&self) -> u64 {
        self.start_address@
    }
}

impl<S: PageSize> Page<S> {
    #[verifier::type_invariant]
    pub open spec fn inv(self) -> bool {
        &&& self@ % S::spec_size() == 0
        &&& is_canonical(self@)
    }

    /// The page that holds `address`.
    pub fn new_containing_address(address: VirtAddr) -> (r: Page<S>)
        ensures
            r@ == spec_align_down(address@, S::spec_size()),
            r@ <= address@ < r@ + S::spec_size(),
            r@ % S::spec_size() == 0,
    {
        proof {
            use_type_invariant(&address);
            S::lemma_size();
            lemma_size_alignment(S::spec_size(), address@);
        }
        let start = address.align_down(S::size());
        Page { start_address: start, size: PhantomData }
    }

    /// The pages from `start` to `end`, both included.
    pub fn range_inclusive(start: Page<S>, end: Page<S>) -> (r: PageRangeInclusive<S>)
        ensures
            r.start == start,
            r.end == end,
    {
        PageRangeInclusive { start, end }
    }

    pub fn start_address(self) -> (r: VirtAddr)
        ensures
            r@ == self@,
    {
        self.start_address
    }

    pub fn p1_index(&self) -> (r: PageTableIndex)
        ensures
            r@ == crate::addr::p1_of(self@),
    {
        self.start_address().p1_index()
    }

    pub fn p2_index(&self) -> (r: PageTableIndex)
        ensures
            r@ == crate::addr::p2_of(self@),
    {
        self.start_address().p2_index()
    }

    pub fn p3_index(&self) -> (r: PageTableIndex)
        ensures
            r@ == crate::addr::p3_of(self@),
    {
        self.start_address().p3_index()
    }

    pub fn p4_index(&self) -> (r: PageTableIndex)
        ensures
            r@ == crate::addr::p4_of(self@),
    {
        self.start_address().p4_index()
    }
}

/// Start address of the highest page of size `size`.
pub open spec fn last_page_start(size: u64) -> u64 {
    (0x1_0000_0000_0000_0000 - size) as u64
}

/// The pages from `start` to `end`, both included, handed out in order.
#[derive(Copy, Debug)]
pub struct PageRangeInclusive<S: PageSize> {
    pub start: Page<S>,
    pub end: Page<S>,
}

impl<S: PageSize> Clone for PageRangeInclusive<S> {
    fn clone(&self) -> (r: Self)
        ensures
            r == *self,
    {
        *self
    }
}

impl<S: PageSize> PageRangeInclusive<S> {
    /// The range holds no page.
    pub open spec fn spec_is_empty(&self) -> bool {
        self.start@ > self.end@
    }

    /// Stepping forward from `start` leaves the canonical range of
    /// addresses; the strict address constructor refuses that step.
    pub open spec fn steps_into_hole(&self) -> bool {
        &&& !self.spec_is_empty()
        &&& self.start@ < last_page_start(S::spec_size())
        &&& !is_canonical((self.start@ + S::spec_size()) as u64)
    }

    /// Hands out `start` and moves past it: `start` advances by one page,
    /// or, at the highest page of the address space, `end` retracts by one
    /// page instead.
    pub fn next(&mut self) -> (r: Option<Page<S>>)
        requires
            !old(self).steps_into_hole(),
        ensures
            old(self).spec_is_empty() ==> r.is_none() && *final(self) == *old(self),
            !old(self).spec_is_empty() ==> {
                &&& r == Some(old(self).start)
                &&& if old(self).start@ < last_page_start(S::spec_size()) {
                    final(self).start@ == old(self).start@ + S::spec_size() && final(self).end
                        == old(self).end
                } else {
                    final(self).end@ == old(self).end@ - S::spec_size() && final(self).start
                        == old(self).start
                }
            },
    {
        proof {
            use_type_invariant(&self.start);
            use_type_invariant(&self.end);
            S::lemma_size();
        }
        if self.start.start_address.as_u64() <= self.end.start_address.as_u64() {
            let page = self.start;
            let size = S::size();
            let max_page_addr = u64::MAX - (size - 1);
            if self.start.start_address.as_u64() < max_page_addr {
                let next = self.start.start_address.as_u64() + size;
                proof {
                    lemma_size_alignment(S::spec_size(), next);
                    assert(next % S::spec_size() == 0) by (nonlinear_arith)
                        requires
                            next == self.start@ + S::spec_size(),
                            self.start@ % S::spec_size() == 0,
                            S::spec_size() > 0,
                    ;
                }
                self.start = Page { start_address: VirtAddr::new(next), size: PhantomData };
            } else {
                let prev = self.end.start_address.as_u64() - size;
                proof {
                    assert(self.end@ == last_page_start(S::spec_size()));
                    assert(is_canonical(prev)) by (bit_vector)
                        requires
                            prev == 0xffff_ffff_ffff_f000u64 - 0x1000u64 || prev
                                == 0xffff_ffff_ffe0_0000u64 - 0x20_0000u64 || prev
                                == 0xffff_ffff_c000_0000u64 - 0x4000_0000u64,
                    ;
                    assert(prev % S::spec_size() == 0);
                }
                self.end = Page { start_address: VirtAddr::new(prev), size: PhantomData };
            }
            Some(page)
        } else {
            None
        }
    }
}

} // verus!
