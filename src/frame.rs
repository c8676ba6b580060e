//! Physical frames of the three page sizes.
use crate::addr::{spec_align_down, PhysAddr, PHYS_LIMIT};
use crate::page::{lemma_size_alignment, AddressNotAligned, PageSize};
use core::marker::PhantomData;
use vstd::prelude::*;

verus! {

/// A physical frame: its start address is a multiple of the size `S`.
#[derive(Copy, Debug)]
pub struct PhysFrame<S: PageSize> {
    start_address: PhysAddr,
    size: PhantomData<S>,
}

impl<S: PageSize> Clone for PhysFrame<S> {
    fn clone(&self) -> (r: Self)
        ensures
            r == *self,
    {
        *self
    }
}

impl<S: PageSize> View for PhysFrame<S> {
    type V = u64;

    closed spec fn view(&self) -> u64 {
        self.start_address@
    }
}

impl<S: PageSize> PhysFrame<S> {
    #[verifier::type_invariant]
    pub open spec fn inv(self) -> bool {
        &&& self@ % S::spec_size() == 0
        &&& self@ < PHYS_LIMIT
    }

    /// The frame that holds `address`.
    pub fn containing_address(address: PhysAddr) -> (r: PhysFrame<S>)
        ensures
            r@ == spec_align_down(address@, S::spec_size()),
            r@ <= address@ < r@ + S::spec_size(),
    {
        proof {
            use_type_invariant(&address);
            S::lemma_size();
            lemma_size_alignment(S::spec_size(), address@);
        }
        PhysFrame { start_address: address.align_down(S::size()), size: PhantomData }
    }

    pub fn start_address(self) -> (r: PhysAddr)
        ensures
            r@ == self@,
    {
        self.start_address
    }

    /// The frame that starts at `addr`, which must be a multiple of the size.
    pub fn from_start_address(addr: PhysAddr) -> (r: Result<PhysFrame<S>, AddressNotAligned>)
        ensures
            addr@ % S::spec_size() == 0 <==> r.is_ok(),
            r.is_ok() ==> r.unwrap()@ == addr@,
    {
        proof {
            use_type_invariant(&addr);
            S::lemma_size();
            lemma_size_alignment(S::spec_size(), addr@);
        }
        if !addr.is_aligned(S::size()) {
            return Err(AddressNotAligned);
        }
        Ok(PhysFrame { start_address: addr, size: PhantomData })
    }
}

} // verus!
