//! The minimum-output economic guard.

use vstd::prelude::*;

use crate::error::RedeemError;

verus! {

/// Enforces the pool's minimum-withdrawal floor: fails `SlippageExceeded`
/// exactly when `amount` is below `min_amount`.
pub fn check_min_amount(amount: u64, min_amount: u64) -> (r: Result<(), RedeemError>)
    ensures
        amount >= min_amount ==> r == Ok::<(), RedeemError>(()),
        amount < min_amount ==> r == Err::<(), RedeemError>(RedeemError::SlippageExceeded),
{
    if amount >= min_amount {
        Ok(())
    } else {
        Err(RedeemError::SlippageExceeded)
    }
}

} // verus!
