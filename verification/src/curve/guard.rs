//! The guard on the pricing invariant: no transition of the reserves may
//! lower their product.

use vstd::prelude::*;
use crate::error::ErrorCode;

verus! {

/// Whether a transition of the reserves keeps the pricing invariant: the
/// product of the reserves after it is at least the product before it.
pub open spec fn product_kept(
    input_before: int,
    output_before: int,
    input_after: int,
    output_after: int,
) -> bool {
    input_before * output_before <= input_after * output_after
}

/// Guards a transition of the reserves. Both products are computed without
/// rounding; one that does not fit 128 bits is an overflow, and a product
/// that decreases violates the invariant.
pub fn check_constant_product(
    input_before: u128,
    output_before: u128,
    input_after: u128,
    output_after: u128,
) -> (r: Result<(), ErrorCode>)
    ensures
        match r {
            Ok(()) => {
                &&& input_before * output_before <= u128::MAX
                &&& input_after * output_after <= u128::MAX
                &&& product_kept(
                    input_before as int,
                    output_before as int,
                    input_after as int,
                    output_after as int,
                )
            },
            Err(e) => if input_before * output_before > u128::MAX || input_after * output_after
                > u128::MAX {
                e == ErrorCode::MathOverflow
            } else {
                &&& e == ErrorCode::ConstantProductInvariant
                &&& !product_kept(
                    input_before as int,
                    output_before as int,
                    input_after as int,
                    output_after as int,
                )
            },
        },
{
    let constant_before = match input_before.checked_mul(output_before) {
        Some(k) => k,
        None => { return Err(ErrorCode::MathOverflow); },
    };
    let constant_after = match input_after.checked_mul(output_after) {
        Some(k) => k,
        None => { return Err(ErrorCode::MathOverflow); },
    };
    if constant_after >= constant_before {
        Ok(())
    } else {
        Err(ErrorCode::ConstantProductInvariant)
    }
}

} // verus!
