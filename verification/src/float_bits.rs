use vstd::prelude::*;

verus! {

// Numbers of the command line are IEEE-754 binary32 values. The library holds
// each as its bit pattern (what `f32::to_bits` gives) and compares patterns by
// the order of the values that they encode.

/// The bit pattern of 0.0.
pub const F32_ZERO: u32 = 0x0000_0000;

/// The bit pattern of 0.5.
pub const F32_HALF: u32 = 0x3f00_0000;

/// The bit pattern of 1.0.
pub const F32_ONE: u32 = 0x3f80_0000;

/// The bit pattern of 2.0.
pub const F32_TWO: u32 = 0x4000_0000;

/// The bit pattern of 5.0.
pub const F32_FIVE: u32 = 0x40a0_0000;

/// The bit pattern of 100.0.
pub const F32_HUNDRED: u32 = 0x42c8_0000;

/// Whether a pattern encodes NaN: all exponent bits set and a non-zero fraction.
pub open spec fn f32_is_nan(b: u32) -> bool {
    (b & 0x7f80_0000u32) == 0x7f80_0000u32 && (b & 0x007f_ffffu32) != 0
}

/// A key that orders the patterns of non-NaN values as the values are
/// ordered: the magnitude bits, negated for a set sign bit (so that -0.0 and
/// +0.0 get the same key).
pub open spec fn f32_order_key(b: u32) -> int {
    let magnitude = (b & 0x7fff_ffffu32) as int;
    if (b >> 31u32) == 1u32 {
        -magnitude
    } else {
        magnitude
    }
}

/// IEEE-754 `a <= b` on the values that two patterns encode: false when
/// either is NaN.
pub open spec fn f32_le(a: u32, b: u32) -> bool {
    !f32_is_nan(a) && !f32_is_nan(b) && f32_order_key(a) <= f32_order_key(b)
}

/// Whether the value of `x` lies in the closed range from the value of `lo`
/// to the value of `hi`, as `(lo..=hi).contains(&x)` decides it.
pub open spec fn f32_in_range(x: u32, lo: u32, hi: u32) -> bool {
    f32_le(lo, x) && f32_le(x, hi)
}

/// The order of patterns is the order of the values they encode: among
/// non-negative values (sign bit clear) a larger pattern is a larger value,
/// among negative ones a larger pattern is a smaller value, every negative
/// value lies below every non-negative one except that -0.0 equals +0.0,
/// and NaN is ordered with nothing.
pub proof fn lemma_f32_order(a: u32, b: u32)
    ensures
        !f32_is_nan(a) && !f32_is_nan(b) && a < 0x8000_0000u32 && b < 0x8000_0000u32 ==> (f32_le(a, b)
            == (a <= b)),
        !f32_is_nan(a) && !f32_is_nan(b) && a >= 0x8000_0000u32 && b >= 0x8000_0000u32 ==> (f32_le(a, b)
            == (a >= b)),
        !f32_is_nan(a) && !f32_is_nan(b) && a >= 0x8000_0000u32 && b < 0x8000_0000u32 ==> f32_le(a, b),
        a == 0x8000_0000u32 && b == 0u32 ==> f32_le(a, b) && f32_le(b, a),
        f32_is_nan(a) || f32_is_nan(b) ==> !f32_le(a, b),
{
    assert(a < 0x8000_0000u32 ==> (a >> 31u32) == 0u32 && (a & 0x7fff_ffffu32) == a) by (bit_vector);
    assert(b < 0x8000_0000u32 ==> (b >> 31u32) == 0u32 && (b & 0x7fff_ffffu32) == b) by (bit_vector);
    assert(a >= 0x8000_0000u32 ==> (a >> 31u32) == 1u32 && (a & 0x7fff_ffffu32) == a - 0x8000_0000u32)
        by (bit_vector);
    assert(b >= 0x8000_0000u32 ==> (b >> 31u32) == 1u32 && (b & 0x7fff_ffffu32) == b - 0x8000_0000u32)
        by (bit_vector);
    assert(a == 0x8000_0000u32 ==> !f32_is_nan(a)) by (bit_vector);
    assert(b == 0u32 ==> !f32_is_nan(b)) by (bit_vector);
}

fn is_nan_bits(b: u32) -> (r: bool)
    ensures
        r == f32_is_nan(b),
{
    (b & 0x7f80_0000u32) == 0x7f80_0000u32 && (b & 0x007f_ffffu32) != 0
}

fn order_key(b: u32) -> (r: i64)
    ensures
        r as int == f32_order_key(b),
{
    let magnitude = (b & 0x7fff_ffffu32) as i64;
    if (b >> 31u32) == 1u32 {
        -magnitude
    } else {
        magnitude
    }
}

/// IEEE-754 `a <= b` on the values that two bit patterns encode.
pub fn f32_bits_le(a: u32, b: u32) -> (r: bool)
    ensures
        r == f32_le(a, b),
{
    !is_nan_bits(a) && !is_nan_bits(b) && order_key(a) <= order_key(b)
}

/// Whether the value of `x` lies in the closed range `lo..=hi`.
pub fn f32_bits_in_range(x: u32, lo: u32, hi: u32) -> (r: bool)
    ensures
        r == f32_in_range(x, lo, hi),
{
    f32_bits_le(lo, x) && f32_bits_le(x, hi)
}

} // verus!
