use vstd::prelude::*;

use crate::error::ErrorCode;
use crate::ledger::{commits, StakeInfo};

verus! {

/// Largest single borrow or flash loan against a stake: half of it.
pub open spec fn borrow_limit(s: StakeInfo) -> int {
    s.amount as int / 2
}

/// Records a new obligation of `amount` against the stake.
pub open spec fn borrow_spec(s: StakeInfo, amount: u64) -> Result<(StakeInfo, ()), ErrorCode> {
    if amount > borrow_limit(s) {
        Err(ErrorCode::BorrowLimitExceeded)
    } else if s.borrowed_amount + amount > u64::MAX {
        Err(ErrorCode::Overflow)
    } else {
        Ok((StakeInfo { borrowed_amount: (s.borrowed_amount + amount) as u64, ..s }, ()))
    }
}

/// Records a borrow of `amount`, which may be at most half of the stake (else
/// `BorrowLimitExceeded`). No asset leaves the vault.
pub fn borrow(stake_info: &mut StakeInfo, amount: u64) -> (r: Result<(), ErrorCode>)
    ensures
        commits(r, *old(stake_info), *final(stake_info), borrow_spec(*old(stake_info), amount)),
{
    let max_borrow = stake_info.amount / 2;
    if amount > max_borrow {
        return Err(ErrorCode::BorrowLimitExceeded);
    }
    match stake_info.borrowed_amount.checked_add(amount) {
        Some(b) => {
            stake_info.borrowed_amount = b;
            Ok(())
        },
        None => Err(ErrorCode::Overflow),
    }
}

/// Records a flash loan of `amount` under the same limit as `borrow` and
/// returns the quantity to move from the vault to the borrower. No repayment
/// within the same operation is enforced.
pub fn flash_loan(stake_info: &mut StakeInfo, amount: u64) -> (r: Result<u64, ErrorCode>)
    ensures
        commits(
            r,
            *old(stake_info),
            *final(stake_info),
            match borrow_spec(*old(stake_info), amount) {
                Ok((next, _)) => Ok((next, amount)),
                Err(e) => Err(e),
            },
        ),
{
    match borrow(stake_info, amount) {
        Ok(()) => Ok(amount),
        Err(e) => Err(e),
    }
}

} // verus!
