//! Binary64 values held as their bit patterns, and the IEEE 754 comparisons on them.
use vstd::prelude::*;

verus! {

/// The sign bit of a binary64 value.
pub const SIGN_BIT: u64 = 0x8000_0000_0000_0000;

/// Every bit of a binary64 value but the sign.
pub const MAGNITUDE_MASK: u64 = 0x7FFF_FFFF_FFFF_FFFF;

/// The bit pattern of positive infinity: a larger magnitude is a NaN.
pub const INFINITY_BITS: u64 = 0x7FF0_0000_0000_0000;

/// The bits of a value with the sign cleared, that is of its absolute value.
pub open spec fn magnitude(b: u64) -> u64 {
    b & MAGNITUDE_MASK
}

pub open spec fn is_nan_spec(b: u64) -> bool {
    magnitude(b) > INFINITY_BITS
}

pub open spec fn is_sign_negative(b: u64) -> bool {
    b & SIGN_BIT != 0
}

/// The position of a value in the order of binary64 numbers. Among values of one
/// sign the magnitude bits order as the magnitudes do, so the magnitude, negated
/// for a negative value, is such a position; both zeros sit at 0.
pub open spec fn ordinal(b: u64) -> int {
    if is_sign_negative(b) {
        -(magnitude(b) as int)
    } else {
        magnitude(b) as int
    }
}

/// IEEE 754 equality: a NaN equals nothing, and the two zeros are equal.
pub open spec fn float_eq_spec(a: u64, b: u64) -> bool {
    !is_nan_spec(a) && !is_nan_spec(b) && ordinal(a) == ordinal(b)
}

/// IEEE 754 less-than: false whenever a NaN takes part.
pub open spec fn float_lt_spec(a: u64, b: u64) -> bool {
    !is_nan_spec(a) && !is_nan_spec(b) && ordinal(a) < ordinal(b)
}

proof fn lemma_magnitude_bound(b: u64)
    ensures
        magnitude(b) <= MAGNITUDE_MASK,
        is_sign_negative(b) <==> b >= SIGN_BIT,
        b >= SIGN_BIT ==> magnitude(b) == b - SIGN_BIT,
        b < SIGN_BIT ==> magnitude(b) == b,
{
    assert(b & 0x7FFF_FFFF_FFFF_FFFF <= 0x7FFF_FFFF_FFFF_FFFF) by (bit_vector);
    assert((b & 0x8000_0000_0000_0000 != 0) <==> b >= 0x8000_0000_0000_0000) by (bit_vector);
    assert(b >= 0x8000_0000_0000_0000 ==> b & 0x7FFF_FFFF_FFFF_FFFF == b - 0x8000_0000_0000_0000)
        by (bit_vector);
    assert(b < 0x8000_0000_0000_0000 ==> b & 0x7FFF_FFFF_FFFF_FFFF == b) by (bit_vector);
}

/// Whether the value is a NaN.
pub fn is_nan(b: u64) -> (r: bool)
    ensures
        r == is_nan_spec(b),
{
    b & MAGNITUDE_MASK > INFINITY_BITS
}

/// `a == b` on binary64 values.
pub fn float_eq(a: u64, b: u64) -> (r: bool)
    ensures
        r == float_eq_spec(a, b),
{
    proof {
        lemma_magnitude_bound(a);
        lemma_magnitude_bound(b);
    }
    if is_nan(a) || is_nan(b) {
        false
    } else {
        a == b || (a & MAGNITUDE_MASK == 0 && b & MAGNITUDE_MASK == 0)
    }
}

/// `a < b` on binary64 values.
pub fn float_lt(a: u64, b: u64) -> (r: bool)
    ensures
        r == float_lt_spec(a, b),
{
    proof {
        lemma_magnitude_bound(a);
        lemma_magnitude_bound(b);
    }
    if is_nan(a) || is_nan(b) {
        return false;
    }
    let ma = a & MAGNITUDE_MASK;
    let mb = b & MAGNITUDE_MASK;
    let na = a & SIGN_BIT != 0;
    let nb = b & SIGN_BIT != 0;
    if !na && !nb {
        ma < mb
    } else if na && nb {
        mb < ma
    } else if na {
        ma != 0 || mb != 0
    } else {
        false
    }
}

/// The negation of a value: its sign bit flipped, which is how IEEE 754 negates,
/// NaNs included.
pub fn negate(b: u64) -> (r: u64)
    ensures
        r == b ^ SIGN_BIT,
        magnitude(r) == magnitude(b),
        is_sign_negative(r) != is_sign_negative(b),
        is_nan_spec(r) == is_nan_spec(b),
        ordinal(r) == -ordinal(b),
{
    let r = b ^ SIGN_BIT;
    assert(r & 0x7FFF_FFFF_FFFF_FFFF == b & 0x7FFF_FFFF_FFFF_FFFF) by (bit_vector)
        requires
            r == b ^ 0x8000_0000_0000_0000u64,
    ;
    assert((r & 0x8000_0000_0000_0000 != 0) != (b & 0x8000_0000_0000_0000 != 0)) by (bit_vector)
        requires
            r == b ^ 0x8000_0000_0000_0000u64,
    ;
    r
}

/// The absolute value: the sign bit cleared.
pub fn abs(b: u64) -> (r: u64)
    ensures
        r == magnitude(b),
        !is_sign_negative(r),
        magnitude(r) == magnitude(b),
        is_nan_spec(r) == is_nan_spec(b),
{
    let r = b & MAGNITUDE_MASK;
    assert(r & 0x8000_0000_0000_0000 == 0 && r & 0x7FFF_FFFF_FFFF_FFFF == r) by (bit_vector)
        requires
            r == b & 0x7FFF_FFFF_FFFF_FFFFu64,
    ;
    r
}

} // verus!
