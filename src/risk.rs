use vstd::prelude::*;

use crate::error::ErrorCode;
use crate::ledger::{commits, StakeInfo};

verus! {

/// The shared pool of donated assets.
#[derive(Debug, Clone, Copy, PartialEq, Eq, Structural)]
pub struct InsuranceFund {
    pub balance: u64,
}

impl InsuranceFund {
    /// An empty fund.
    pub fn new() -> (r: InsuranceFund)
        ensures
            r.balance == 0,
    {
        InsuranceFund { balance: 0 }
    }
}

/// Takes `slash_percentage` percent of the stake, rounded down.
pub open spec fn slash_stake_spec(s: StakeInfo, slash_percentage: u64) -> Result<
    (StakeInfo, ()),
    ErrorCode,
> {
    let slash = s.amount * slash_percentage / 100;
    if s.amount * slash_percentage > u64::MAX {
        Err(ErrorCode::Overflow)
    } else if slash > s.amount {
        Err(ErrorCode::Underflow)
    } else {
        Ok((StakeInfo { amount: (s.amount - slash) as u64, ..s }, ()))
    }
}

/// Reduces the stake by `slash_percentage` percent of it, rounded down. The
/// caller's governance authority is checked before this runs. Fails with
/// `Overflow` where `amount * slash_percentage` leaves `u64`, and with
/// `Underflow` where the percentage is above 100 so that the slash exceeds the stake.
pub fn slash_stake(stake_info: &mut StakeInfo, slash_percentage: u64) -> (r: Result<
    (),
    ErrorCode,
>)
    ensures
        commits(
            r,
            *old(stake_info),
            *final(stake_info),
            slash_stake_spec(*old(stake_info), slash_percentage),
        ),
{
    let product = match stake_info.amount.checked_mul(slash_percentage) {
        Some(p) => p,
        None => return Err(ErrorCode::Overflow),
    };
    let slash_amount = product / 100;
    match stake_info.amount.checked_sub(slash_amount) {
        Some(a) => {
            stake_info.amount = a;
            Ok(())
        },
        None => Err(ErrorCode::Underflow),
    }
}

/// Records a donation of `amount` whose transfer into the insurance vault went
/// through. Fails with `Overflow`, changing nothing, where the balance would
/// leave `u64`.
pub fn donate_insurance(insurance_fund: &mut InsuranceFund, amount: u64) -> (r: Result<
    (),
    ErrorCode,
>)
    ensures
        old(insurance_fund).balance + amount <= u64::MAX ==> r == Ok::<(), ErrorCode>(())
            && final(insurance_fund).balance == old(insurance_fund).balance + amount,
        old(insurance_fund).balance + amount > u64::MAX ==> r == Err::<(), ErrorCode>(
            ErrorCode::Overflow,
        ) && *final(insurance_fund) == *old(insurance_fund),
{
    match insurance_fund.balance.checked_add(amount) {
        Some(b) => {
            insurance_fund.balance = b;
            Ok(())
        },
        None => Err(ErrorCode::Overflow),
    }
}

} // verus!
