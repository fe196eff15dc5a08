use vstd::prelude::*;

verus! {

/// Two binary64 numbers, given by their bits, compare equal under IEEE 754:
/// a NaN (all exponent bits set, a nonzero fraction) equals nothing, not
/// even itself; +0 and -0 are equal; any other two numbers are equal when
/// their bits are.
pub open spec fn f64_bits_eq(a: u64, b: u64) -> bool {
    let ma = a & 0x7fff_ffff_ffff_ffffu64;
    let mb = b & 0x7fff_ffff_ffff_ffffu64;
    &&& ma <= 0x7ff0_0000_0000_0000u64
    &&& mb <= 0x7ff0_0000_0000_0000u64
    &&& (a == b || (ma == 0 && mb == 0))
}

/// Two binary32 numbers, given by their bits, compare equal under IEEE 754
/// (see `f64_bits_eq`).
pub open spec fn f32_bits_eq(a: u32, b: u32) -> bool {
    let ma = a & 0x7fff_ffffu32;
    let mb = b & 0x7fff_ffffu32;
    &&& ma <= 0x7f80_0000u32
    &&& mb <= 0x7f80_0000u32
    &&& (a == b || (ma == 0 && mb == 0))
}

pub fn eq_f64_bits(a: u64, b: u64) -> (r: bool)
    ensures
        r == f64_bits_eq(a, b),
{
    let ma = a & 0x7fff_ffff_ffff_ffffu64;
    let mb = b & 0x7fff_ffff_ffff_ffffu64;
    ma <= 0x7ff0_0000_0000_0000u64 && mb <= 0x7ff0_0000_0000_0000u64 && (a == b || (ma == 0
        && mb == 0))
}

pub fn eq_f32_bits(a: u32, b: u32) -> (r: bool)
    ensures
        r == f32_bits_eq(a, b),
{
    let ma = a & 0x7fff_ffffu32;
    let mb = b & 0x7fff_ffffu32;
    ma <= 0x7f80_0000u32 && mb <= 0x7f80_0000u32 && (a == b || (ma == 0 && mb == 0))
}

} // verus!

verus! {

/// A NaN: all exponent bits set and a nonzero fraction.
pub open spec fn f64_is_nan(a: u64) -> bool {
    (a >> 52u64) & 0x7ffu64 == 0x7ffu64 && a & 0x000f_ffff_ffff_ffffu64 != 0
}

pub open spec fn f32_is_nan(a: u32) -> bool {
    (a >> 23u32) & 0xffu32 == 0xffu32 && a & 0x007f_ffffu32 != 0
}

/// Equality of binary64 numbers: a NaN equals nothing; every other number
/// equals itself; +0 equals -0; two numbers with different bits that are
/// not both zeros are different; equality is symmetric.
pub proof fn lemma_f64_eq_laws(a: u64, b: u64)
    ensures
        f64_is_nan(a) ==> !f64_bits_eq(a, b) && !f64_bits_eq(b, a),
        !f64_is_nan(a) ==> f64_bits_eq(a, a),
        f64_bits_eq(0u64, 0x8000_0000_0000_0000u64),
        a != b && !(a & 0x7fff_ffff_ffff_ffffu64 == 0 && b & 0x7fff_ffff_ffff_ffffu64 == 0)
            ==> !f64_bits_eq(a, b),
        f64_bits_eq(a, b) == f64_bits_eq(b, a),
{
    assert(f64_is_nan(a) ==> a & 0x7fff_ffff_ffff_ffffu64 > 0x7ff0_0000_0000_0000u64)
        by (bit_vector);
    assert(!f64_is_nan(a) ==> a & 0x7fff_ffff_ffff_ffffu64 <= 0x7ff0_0000_0000_0000u64)
        by (bit_vector);
    assert(0x8000_0000_0000_0000u64 & 0x7fff_ffff_ffff_ffffu64 == 0) by (bit_vector);
    assert(0u64 & 0x7fff_ffff_ffff_ffffu64 == 0) by (bit_vector);
}

/// Equality of binary32 numbers, with the same laws as for binary64.
pub proof fn lemma_f32_eq_laws(a: u32, b: u32)
    ensures
        f32_is_nan(a) ==> !f32_bits_eq(a, b) && !f32_bits_eq(b, a),
        !f32_is_nan(a) ==> f32_bits_eq(a, a),
        f32_bits_eq(0u32, 0x8000_0000u32),
        a != b && !(a & 0x7fff_ffffu32 == 0 && b & 0x7fff_ffffu32 == 0) ==> !f32_bits_eq(a, b),
        f32_bits_eq(a, b) == f32_bits_eq(b, a),
{
    assert(f32_is_nan(a) ==> a & 0x7fff_ffffu32 > 0x7f80_0000u32) by (bit_vector);
    assert(!f32_is_nan(a) ==> a & 0x7fff_ffffu32 <= 0x7f80_0000u32) by (bit_vector);
    assert(0x8000_0000u32 & 0x7fff_ffffu32 == 0) by (bit_vector);
    assert(0u32 & 0x7fff_ffffu32 == 0) by (bit_vector);
}

} // verus!
