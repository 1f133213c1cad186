use vstd::prelude::*;

use crate::error::ErrorCode;
use crate::incentives::{
    adjusted_fee_discount,
    adjusted_fee_discount_spec,
    reward_for_period,
    reward_for_period_spec,
    staking_duration,
    staking_duration_spec,
    FAST_EXECUTION_MS,
};
use crate::ledger::{commits, StakeInfo};

verus! {

/// Units credited to the stake for a trade executed within 50 ms.
pub const EXECUTION_AIRDROP: u64 = 20;

/// Where the reward of a claim goes.
#[derive(Debug, Clone, Copy, PartialEq, Eq, Structural)]
pub enum RewardClaim {
    /// Added to the stake (auto-restake on).
    Compounded(u64),
    /// To be moved from the reward pool to the staker (auto-restake off).
    Payout(u64),
}

/// A trade of the record's owner: the advisory fee discount, and the record
/// after the fast-execution airdrop where the latency earns it.
pub open spec fn execute_trade_spec(s: StakeInfo, order_execution_time: u64, now: i64) -> Result<
    (StakeInfo, u64),
    ErrorCode,
> {
    let discount = adjusted_fee_discount_spec(
        s.amount,
        staking_duration_spec(now, s.last_staked_time) as u64,
        s.lock_period,
        order_execution_time,
    ) as u64;
    if order_execution_time <= FAST_EXECUTION_MS {
        if s.amount + EXECUTION_AIRDROP > u64::MAX {
            Err(ErrorCode::Overflow)
        } else {
            Ok((StakeInfo { amount: (s.amount + EXECUTION_AIRDROP) as u64, ..s }, discount))
        }
    } else {
        Ok((s, discount))
    }
}

pub open spec fn claim_rewards_spec(s: StakeInfo, liquidity_provided: u64, now: i64) -> Result<
    (StakeInfo, RewardClaim),
    ErrorCode,
> {
    let reward = reward_for_period_spec(
        staking_duration_spec(now, s.last_staked_time) as u64,
        liquidity_provided,
    );
    if s.auto_restake {
        if s.amount + reward > u64::MAX {
            Err(ErrorCode::Overflow)
        } else {
            Ok(
                (
                    StakeInfo { amount: (s.amount + reward) as u64, ..s },
                    RewardClaim::Compounded(reward as u64),
                ),
            )
        }
    } else {
        Ok((s, RewardClaim::Payout(reward as u64)))
    }
}

/// Reacts to a trade executed in `order_execution_time` milliseconds at time
/// `now`. Returns the advisory fee discount computed from the stake as it was;
/// a latency of at most 50 ms also credits 20 units to the stake (`Overflow`,
/// changing nothing, where that sum leaves `u64`).
pub fn execute_trade(stake_info: &mut StakeInfo, order_execution_time: u64, now: i64) -> (r: Result<
    u64,
    ErrorCode,
>)
    ensures
        commits(
            r,
            *old(stake_info),
            *final(stake_info),
            execute_trade_spec(*old(stake_info), order_execution_time, now),
        ),
{
    let duration = staking_duration(now, stake_info.last_staked_time);
    let discount = adjusted_fee_discount(
        stake_info.amount,
        duration,
        stake_info.lock_period,
        order_execution_time,
    );
    if order_execution_time <= FAST_EXECUTION_MS {
        match stake_info.amount.checked_add(EXECUTION_AIRDROP) {
            Some(a) => stake_info.amount = a,
            None => return Err(ErrorCode::Overflow),
        }
    }
    Ok(discount)
}

/// Claims the reward earned by the time staked up to `now` and the liquidity
/// provided. With auto-restake the reward is added to the stake (`Overflow`,
/// changing nothing, where that sum leaves `u64`); otherwise the record stays
/// and the reward is to be paid out of the reward pool.
pub fn claim_rewards(stake_info: &mut StakeInfo, liquidity_provided: u64, now: i64) -> (r: Result<
    RewardClaim,
    ErrorCode,
>)
    ensures
        commits(
            r,
            *old(stake_info),
            *final(stake_info),
            claim_rewards_spec(*old(stake_info), liquidity_provided, now),
        ),
{
    let duration = staking_duration(now, stake_info.last_staked_time);
    let reward = reward_for_period(duration, liquidity_provided);
    if stake_info.auto_restake {
        match stake_info.amount.checked_add(reward) {
            Some(a) => {
                stake_info.amount = a;
                Ok(RewardClaim::Compounded(reward))
            },
            None => Err(ErrorCode::Overflow),
        }
    } else {
        Ok(RewardClaim::Payout(reward))
    }
}

} // verus!
