use vstd::prelude::*;

use crate::gates::and;
use crate::gates::is_bit;
use crate::gates::not;
use crate::gates::or;

verus! {

/// Conditional, `a AND (NOT b)`: returns 1 only when `bit_a` is 1 and
/// `bit_b` is 0.
///
/// Truth table:
/// ```text
/// a   b   NOT(b)  AND(a, NOT(b))
/// 0   0     1           0
/// 0   1     0           0
/// 1   0     1           1
/// 1   1     0           0
/// ```
pub fn _if(bit_a: u8, bit_b: u8) -> (r: u8)
    requires
        is_bit(bit_a),
        is_bit(bit_b),
    ensures
        is_bit(r),
        r == 1 <==> bit_a == 1 && bit_b == 0,
        r == (if bit_a == 1 && bit_b == 0 {
            1u8
        } else {
            0u8
        }),
{
    and(bit_a, not(bit_b))
}

/// Logical implication, `(NOT a) OR b`, that is `IF a THEN b`: returns 0
/// only when `bit_a` is 1 and `bit_b` is 0, and 1 in every other
/// combination. Vacuously true when `bit_a` is 0.
///
/// Truth table:
/// ```text
/// a   b   NOT(a)  OR(NOT(a), b)
/// 0   0     1          1
/// 0   1     1          1
/// 1   0     0          0
/// 1   1     0          1
/// ```
pub fn if_then(bit_a: u8, bit_b: u8) -> (r: u8)
    requires
        is_bit(bit_a),
        is_bit(bit_b),
    ensures
        is_bit(r),
        r == 0 <==> bit_a == 1 && bit_b == 0,
        r == (if bit_a == 1 && bit_b == 0 {
            0u8
        } else {
            1u8
        }),
{
    or(not(bit_a), bit_b)
}

/// Conditional select, `(a AND b) OR ((NOT a) AND c)`, that is
/// `IF a THEN b ELSE c`: returns 1 exactly when `bit_a` is 1 and `bit_b`
/// is 1, or `bit_a` is 0 and `bit_c` is 1.
///
/// Truth table:
/// ```text
/// a   b   c   AND(a, b)   NOT(a)   AND(NOT(a), c)   OR of both
/// 0   0   0       0          1            0              0
/// 0   0   1       0          1            1              1
/// 0   1   0       0          1            0              0
/// 0   1   1       0          1            1              1
/// 1   0   0       0          0            0              0
/// 1   0   1       0          0            0              0
/// 1   1   0       1          0            0              1
/// 1   1   1       1          0            0              1
/// ```
pub fn if_then_else(bit_a: u8, bit_b: u8, bit_c: u8) -> (r: u8)
    requires
        is_bit(bit_a),
        is_bit(bit_b),
        is_bit(bit_c),
    ensures
        is_bit(r),
        r == 1 <==> (bit_a == 1 && bit_b == 1) || (bit_a == 0 && bit_c == 1),
        r == (if bit_a == 1 {
            bit_b
        } else {
            bit_c
        }),
{
    or(and(bit_a, bit_b), and(not(bit_a), bit_c))
}

} // verus!
