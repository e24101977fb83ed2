use vstd::prelude::*;

verus! {

/// A bit is a `u8` holding exactly 0 (false) or 1 (true).
pub open spec fn is_bit(x: u8) -> bool {
    x == 0 || x == 1
}

/// Value of the NOT gate: flips 0 and 1.
pub open spec fn spec_not(a: u8) -> u8 {
    if a == 0 {
        1
    } else {
        0
    }
}

/// Value of the AND gate: 1 iff both inputs are 1.
pub open spec fn spec_and(a: u8, b: u8) -> u8 {
    if a == 1 && b == 1 {
        1
    } else {
        0
    }
}

/// Value of the OR gate: 1 iff at least one input is 1.
pub open spec fn spec_or(a: u8, b: u8) -> u8 {
    if a == 1 || b == 1 {
        1
    } else {
        0
    }
}

/// NOT gate over the two-valued bit domain.
pub fn not(bit: u8) -> (r: u8)
    requires
        is_bit(bit),
    ensures
        is_bit(r),
        r == spec_not(bit),
{
    if bit == 0 {
        1
    } else {
        0
    }
}

/// AND gate over the two-valued bit domain.
pub fn and(bit_a: u8, bit_b: u8) -> (r: u8)
    requires
        is_bit(bit_a),
        is_bit(bit_b),
    ensures
        is_bit(r),
        r == spec_and(bit_a, bit_b),
{
    if bit_a == 1 && bit_b == 1 {
        1
    } else {
        0
    }
}

/// OR gate over the two-valued bit domain.
pub fn or(bit_a: u8, bit_b: u8) -> (r: u8)
    requires
        is_bit(bit_a),
        is_bit(bit_b),
    ensures
        is_bit(r),
        r == spec_or(bit_a, bit_b),
{
    if bit_a == 1 || bit_b == 1 {
        1
    } else {
        0
    }
}

} // verus!
