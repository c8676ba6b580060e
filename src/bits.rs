//! Bit-range access on fixed-width integers, through `bit_field::BitField`.
use bit_field::BitField;
use vstd::prelude::*;

verus! {

/// Relies on `<u64 as bit_field::BitField>::get_bits`: for `start < end <= 64`
/// it clears the bits at and above `end`, then shifts the value right by `start`.
#[verifier::external_body]
pub(crate) fn get_bits_u64(x: u64, start: usize, end: usize) -> (r: u64)
    requires
        start < end <= 64,
    ensures
        r == (x << ((64 - end) as u64)) >> ((64 - end) as u64) >> (start as u64),
{
    x.get_bits(start..end)
}

/// Relies on `<u64 as bit_field::BitField>::set_bits`: for `start < end <= 64`
/// and a value that fits in `end - start` bits, it clears bits `start..end`
/// and ors in `v << start`.
#[verifier::external_body]
pub(crate) fn set_bits_u64(x: &mut u64, start: usize, end: usize, v: u64)
    requires
        start < end <= 64,
        v << ((64 - (end - start)) as u64) >> ((64 - (end - start)) as u64) == v,
    ensures
        *final(x) == (*old(x) & !((((!0u64) << ((64 - end) as u64)) >> ((64 - end) as u64)) >> (
        start as u64) << (start as u64))) | (v << (start as u64)),
{
    x.set_bits(start..end, v);
}

/// Relies on `<u32 as bit_field::BitField>::get_bits`: for `start < end <= 32`
/// it clears the bits at and above `end`, then shifts the value right by `start`.
#[verifier::external_body]
pub(crate) fn get_bits_u32(x: u32, start: usize, end: usize) -> (r: u32)
    requires
        start < end <= 32,
    ensures
        r == (x << ((32 - end) as u32)) >> ((32 - end) as u32) >> (start as u32),
{
    x.get_bits(start..end)
}

/// Relies on `<u32 as bit_field::BitField>::set_bits`: for `start < end <= 32`
/// and a value that fits in `end - start` bits, it clears bits `start..end`
/// and ors in `v << start`.
#[verifier::external_body]
pub(crate) fn set_bits_u32(x: &mut u32, start: usize, end: usize, v: u32)
    requires
        start < end <= 32,
        v << ((32 - (end - start)) as u32) >> ((32 - (end - start)) as u32) == v,
    ensures
        *final(x) == (*old(x) & !((((!0u32) << ((32 - end) as u32)) >> ((32 - end) as u32)) >> (
        start as u32) << (start as u32))) | (v << (start as u32)),
{
    x.set_bits(start..end, v);
}

/// Relies on `<u32 as bit_field::BitField>::set_bit`: sets or clears bit `bit`.
#[verifier::external_body]
pub(crate) fn set_bit_u32(x: &mut u32, bit: usize, value: bool)
    requires
        bit < 32,
    ensures
        *final(x) == if value {
            *old(x) | (1u32 << (bit as u32))
        } else {
            *old(x) & !(1u32 << (bit as u32))
        },
{
    x.set_bit(bit, value);
}

/// Relies on `<u16 as bit_field::BitField>::set_bits`: for `start < end <= 16`
/// and a value that fits in `end - start` bits, it clears bits `start..end`
/// and ors in `v << start`.
#[verifier::external_body]
pub(crate) fn set_bits_u16(x: &mut u16, start: usize, end: usize, v: u16)
    requires
        start < end <= 16,
        v << ((16 - (end - start)) as u16) >> ((16 - (end - start)) as u16) == v,
    ensures
        *final(x) == (*old(x) & !((((!0u16) << ((16 - end) as u16)) >> ((16 - end) as u16)) >> (
        start as u16) << (start as u16))) | (v << (start as u16)),
{
    x.set_bits(start..end, v);
}

/// Relies on `<u16 as bit_field::BitField>::set_bit`: sets or clears bit `bit`.
#[verifier::external_body]
pub(crate) fn set_bit_u16(x: &mut u16, bit: usize, value: bool)
    requires
        bit < 16,
    ensures
        *final(x) == if value {
            *old(x) | (1u16 << (bit as u16))
        } else {
            *old(x) & !(1u16 << (bit as u16))
        },
{
    x.set_bit(bit, value);
}

} // verus!
