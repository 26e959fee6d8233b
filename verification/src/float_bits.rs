use vstd::prelude::*;

verus! {

// IEEE-754 binary64 values are carried through the library as their bit
// patterns (`f64::to_bits`). The comparisons below are the IEEE comparisons,
// stated exactly on the bit patterns: a value is NaN when its exponent is all
// ones and its fraction non-zero; for all other values the order of the reals
// is the order of the signed magnitudes, with +0 and -0 equal.

pub const MAGNITUDE_MASK: u64 = 0x7fff_ffff_ffff_ffffu64;

pub const SIGN_MASK: u64 = 0x8000_0000_0000_0000u64;

/// The bit pattern of positive infinity.
pub const INFINITY_BITS: u64 = 0x7ff0_0000_0000_0000u64;

/// The bit pattern of the value `0.0`.
pub const ZERO_BITS: u64 = 0u64;

pub open spec fn magnitude(bits: u64) -> u64 {
    bits & MAGNITUDE_MASK
}

pub open spec fn is_nan_spec(bits: u64) -> bool {
    magnitude(bits) > INFINITY_BITS
}

pub open spec fn is_finite_spec(bits: u64) -> bool {
    magnitude(bits) < INFINITY_BITS
}

/// The signed magnitude: monotone in the value for every non-NaN pattern.
pub open spec fn order_key(bits: u64) -> int {
    if bits & SIGN_MASK != 0 {
        -(magnitude(bits) as int)
    } else {
        magnitude(bits) as int
    }
}

/// `a < b` on the values that the patterns denote.
pub open spec fn lt_spec(a: u64, b: u64) -> bool {
    !is_nan_spec(a) && !is_nan_spec(b) && order_key(a) < order_key(b)
}

/// `a <= b` on the values that the patterns denote.
pub open spec fn le_spec(a: u64, b: u64) -> bool {
    !is_nan_spec(a) && !is_nan_spec(b) && order_key(a) <= order_key(b)
}

/// `a == b` on the values that the patterns denote: NaN equals nothing, and
/// `+0` equals `-0`.
pub open spec fn eq_spec(a: u64, b: u64) -> bool {
    !is_nan_spec(a) && !is_nan_spec(b) && order_key(a) == order_key(b)
}

proof fn lemma_magnitude_bound(bits: u64)
    ensures
        magnitude(bits) <= MAGNITUDE_MASK,
{
    assert(bits & 0x7fff_ffff_ffff_ffffu64 <= 0x7fff_ffff_ffff_ffffu64) by (bit_vector);
}

pub fn is_finite(bits: u64) -> (r: bool)
    ensures
        r == is_finite_spec(bits),
{
    (bits & MAGNITUDE_MASK) < INFINITY_BITS
}

fn order_key_of(bits: u64) -> (k: i64)
    requires
        !is_nan_spec(bits),
    ensures
        k as int == order_key(bits),
{
    proof {
        lemma_magnitude_bound(bits);
    }
    let m = (bits & MAGNITUDE_MASK) as i64;
    if bits & SIGN_MASK != 0 {
        -m
    } else {
        m
    }
}

/// `a < b` for the values whose bit patterns are `a` and `b`.
pub fn lt(a: u64, b: u64) -> (r: bool)
    ensures
        r == lt_spec(a, b),
{
    if (a & MAGNITUDE_MASK) > INFINITY_BITS || (b & MAGNITUDE_MASK) > INFINITY_BITS {
        return false;
    }
    order_key_of(a) < order_key_of(b)
}

/// `a <= b` for the values whose bit patterns are `a` and `b`.
pub fn le(a: u64, b: u64) -> (r: bool)
    ensures
        r == le_spec(a, b),
{
    if (a & MAGNITUDE_MASK) > INFINITY_BITS || (b & MAGNITUDE_MASK) > INFINITY_BITS {
        return false;
    }
    order_key_of(a) <= order_key_of(b)
}

/// `a == b` for the values whose bit patterns are `a` and `b`.
pub fn eq(a: u64, b: u64) -> (r: bool)
    ensures
        r == eq_spec(a, b),
{
    if (a & MAGNITUDE_MASK) > INFINITY_BITS || (b & MAGNITUDE_MASK) > INFINITY_BITS {
        return false;
    }
    order_key_of(a) == order_key_of(b)
}

} // verus!
