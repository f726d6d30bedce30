//! The budget's part: whether it can pay a deposit, and the payment.

use vstd::prelude::*;
use crate::errors::ErrorCode;

verus! {

/// Whether a budget holding `budget_lamports`, of which `rent_exemption` is
/// its own reserve, can spare `target_lamports`.
pub open spec fn enough_funds(budget_lamports: u64, target_lamports: u64, rent_exemption: u64) -> bool {
    budget_lamports - rent_exemption >= target_lamports
}

/// Tells whether the budget's balance, less its own reserve, covers the
/// target's deposit.
pub fn has_enough_funds(budget_lamports: u64, target_lamports: u64, rent_exemption: u64) -> (enough: bool)
    ensures
        enough == enough_funds(budget_lamports, target_lamports, rent_exemption),
{
    match budget_lamports.checked_sub(rent_exemption) {
        Some(spare) => spare >= target_lamports,
        None => false,
    }
}

/// Moves `rent` lamports from the budget to the receiver. A budget that holds
/// less is refused, and nothing moves. Where the amount moves, the
/// receiver's balance has room for it.
pub fn fund_rent_for_account(budget_lamports: &mut u64, receiver_lamports: &mut u64, rent: u64) -> (funded: Result<(), ErrorCode>)
    requires
        *old(budget_lamports) >= rent ==> *old(receiver_lamports) + rent <= u64::MAX,
    ensures
        *old(budget_lamports) >= rent ==> funded is Ok
            && *final(budget_lamports) == *old(budget_lamports) - rent
            && *final(receiver_lamports) == *old(receiver_lamports) + rent,
        *old(budget_lamports) < rent ==> funded == Err::<(), ErrorCode>(ErrorCode::BudgetHasUnsufficientFunds)
            && *final(budget_lamports) == *old(budget_lamports)
            && *final(receiver_lamports) == *old(receiver_lamports),
{
    if *budget_lamports < rent {
        return Err(ErrorCode::BudgetHasUnsufficientFunds);
    }
    *budget_lamports = *budget_lamports - rent;
    *receiver_lamports = *receiver_lamports + rent;
    Ok(())
}

} // verus!
