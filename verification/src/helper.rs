//! The rate calculator.
//!
//! A fixed rate converts an input amount into an output amount.  The forward
//! direction multiplies and is overflow-checked; the reverse direction
//! divides with truncation toward zero and fails on a zero rate.

use vstd::prelude::*;

verus! {

/// What `calc_output_amount` returns: `input_amount * rate` when `reverse`
/// is set (`None` exactly on overflow of the amount width), else
/// `input_amount / rate` truncated toward zero (`None` exactly on a zero
/// rate).
pub open spec fn spec_calc_output_amount(input_amount: u64, rate: u32, reverse: bool) -> Option<
    u64,
> {
    if reverse {
        if input_amount * rate <= u64::MAX {
            Some((input_amount * rate) as u64)
        } else {
            None
        }
    } else {
        if rate == 0 {
            None
        } else {
            Some((input_amount as int / rate as int) as u64)
        }
    }
}

/// Convert `input_amount` under the fixed `rate`: multiply when `reverse`
/// is set, divide (truncating) otherwise.
pub fn calc_output_amount(input_amount: u64, rate: u32, reverse: bool) -> (output: Option<u64>)
    ensures
        output == spec_calc_output_amount(input_amount, rate, reverse),
{
    match reverse {
        true => input_amount.checked_mul(rate as u64),
        _ => input_amount.checked_div(rate as u64),
    }
}

} // verus!
