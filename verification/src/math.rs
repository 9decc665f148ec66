//! Widening arithmetic on bytes.

use vstd::prelude::*;

verus! {

/// The sum of two bytes, widened so that it cannot overflow.
pub fn add(left: u8, right: u8) -> (sum: u16)
    ensures
        sum == left + right,
{
    (left as u16) + (right as u16)
}

/// The product of two bytes, widened so that it cannot overflow.
pub fn mult(left: u8, right: u8) -> (product: u16)
    ensures
        product == left * right,
{
    assert(left * right <= 255 * 255) by (nonlinear_arith)
        requires
            left <= 255,
            right <= 255,
    ;
    (left as u16) * (right as u16)
}

/// The quotient of two bytes, rounded towards zero.
pub fn private_div(left: u8, right: u8) -> (quotient: u8)
    requires
        right != 0,
    ensures
        quotient == left / right,
{
    left / right
}

} // verus!
