use vstd::prelude::*;
use vstd::arithmetic::div_mod::{lemma_fundamental_div_mod, lemma_mod_pos_bound};

verus! {

/// Seconds in one day.
pub const DAY_SECONDS: u64 = 24 * 60 * 60;

/// Seconds in one staking month (30 days), the unit of every duration bonus.
pub const MONTH_SECONDS: u64 = 30 * 24 * 60 * 60;

/// Base units per display unit of the staked asset (6 decimals).
pub const UNIT: u64 = 1_000_000;

/// Stake size from which the institutional boost of the fee discount applies.
pub const VIP_THRESHOLD: u64 = 100_000 * 1_000_000;

/// Largest execution latency, in milliseconds, that earns the fast-execution bonus.
pub const FAST_EXECUTION_MS: u64 = 50;

/// Cap of the base fee discount.
pub const MAX_FEE_DISCOUNT: u64 = 50;

/// Cap of the liquidity-provider reward boost.
pub const MAX_LP_BOOST: u64 = 20;

/// Complete staking months in a duration.
pub open spec fn months_of(duration: u64) -> int {
    duration as int / MONTH_SECONDS as int
}

/// Seconds staked between `since` and `now`; a clock that ran backwards counts as none.
pub open spec fn staking_duration_spec(now: i64, since: i64) -> int {
    if now >= since {
        now - since
    } else {
        0
    }
}

pub open spec fn fee_discount_spec(staked_amount: u64, duration: u64) -> int {
    let raw = staked_amount as int / 1000 + months_of(duration);
    if raw < MAX_FEE_DISCOUNT {
        raw
    } else {
        MAX_FEE_DISCOUNT as int
    }
}

pub open spec fn lp_reward_boost_spec(liquidity_provided: u64) -> int {
    let boost = liquidity_provided as int / 10_000;
    if boost < MAX_LP_BOOST {
        boost
    } else {
        MAX_LP_BOOST as int
    }
}

pub open spec fn vip_multiplier_spec(staked_amount: u64) -> int {
    if staked_amount >= 10_000 * UNIT {
        130
    } else if staked_amount >= 5_000 * UNIT {
        115
    } else if staked_amount >= 1_000 * UNIT {
        105
    } else {
        100
    }
}

pub open spec fn duration_priority_bonus_spec(duration: u64) -> int {
    if duration >= 180 * DAY_SECONDS {
        5
    } else if duration >= 90 * DAY_SECONDS {
        3
    } else if duration >= 30 * DAY_SECONDS {
        1
    } else {
        0
    }
}

/// The advisory fee discount of a trade. The base discount counts only for a
/// locked stake (`lock_period > 0`).
pub open spec fn adjusted_fee_discount_spec(
    staked_amount: u64,
    duration: u64,
    lock_period: u64,
    order_execution_time: u64,
) -> int {
    let base = if lock_period > 0 {
        fee_discount_spec(staked_amount, duration)
    } else {
        0
    };
    base * vip_multiplier_spec(staked_amount) / 100 + duration_priority_bonus_spec(duration) + (
    if staked_amount >= VIP_THRESHOLD {
        10int
    } else {
        0int
    }) + (if order_execution_time <= FAST_EXECUTION_MS {
        5int
    } else {
        0int
    })
}

pub open spec fn reward_for_period_spec(duration: u64, liquidity_provided: u64) -> int {
    100 + months_of(duration) * 10 + lp_reward_boost_spec(liquidity_provided)
}

/// Stake plus one percent of it per complete month, or the bare stake where
/// that sum leaves the range of `u64`.
pub open spec fn voting_power_spec(staked_amount: u64, duration: u64) -> int {
    let power = staked_amount + staked_amount * months_of(duration) / 100;
    if power <= u64::MAX {
        power
    } else {
        staked_amount as int
    }
}

/// Seconds staked between `since` and `now`, or 0 where `now` lies before `since`.
pub fn staking_duration(now: i64, since: i64) -> (r: u64)
    ensures
        r == staking_duration_spec(now, since),
{
    if now >= since {
        ((now as i128) - (since as i128)) as u64
    } else {
        0
    }
}

/// Base fee discount of a locked stake: one point per 1000 base units staked
/// plus one per complete month staked, capped at 50.
pub fn calculate_fee_discount(staked_amount: u64, staking_duration: u64) -> (r: u64)
    ensures
        r == fee_discount_spec(staked_amount, staking_duration),
        r <= MAX_FEE_DISCOUNT,
{
    let base_discount = staked_amount / 1000;
    let duration_bonus = staking_duration / MONTH_SECONDS;
    if base_discount >= MAX_FEE_DISCOUNT || duration_bonus >= MAX_FEE_DISCOUNT {
        MAX_FEE_DISCOUNT
    } else if base_discount + duration_bonus < MAX_FEE_DISCOUNT {
        base_discount + duration_bonus
    } else {
        MAX_FEE_DISCOUNT
    }
}

/// Reward boost for provided liquidity: one unit per 10,000 provided, capped at 20.
pub fn lp_reward_boost(liquidity_provided: u64) -> (r: u64)
    ensures
        r == lp_reward_boost_spec(liquidity_provided),
        r <= MAX_LP_BOOST,
{
    let boost = liquidity_provided / 10_000;
    if boost < MAX_LP_BOOST {
        boost
    } else {
        MAX_LP_BOOST
    }
}

/// Percentage multiplier of the fee discount by stake size.
pub fn vip_multiplier(staked_amount: u64) -> (r: u64)
    ensures
        r == vip_multiplier_spec(staked_amount),
        100 <= r <= 130,
{
    if staked_amount >= 10_000 * UNIT {
        130
    } else if staked_amount >= 5_000 * UNIT {
        115
    } else if staked_amount >= 1_000 * UNIT {
        105
    } else {
        100
    }
}

/// Extra fee discount points for a long staking duration.
pub fn duration_priority_bonus(staking_duration: u64) -> (r: u64)
    ensures
        r == duration_priority_bonus_spec(staking_duration),
        r <= 5,
{
    if staking_duration >= 180 * DAY_SECONDS {
        5
    } else if staking_duration >= 90 * DAY_SECONDS {
        3
    } else if staking_duration >= 30 * DAY_SECONDS {
        1
    } else {
        0
    }
}

/// The advisory fee discount of a trade: the base discount (locked stakes only)
/// scaled by the VIP multiplier, plus the duration bonus, plus 10 for an
/// institutional stake, plus 5 for an execution of at most 50 ms.
pub fn adjusted_fee_discount(
    staked_amount: u64,
    staking_duration: u64,
    lock_period: u64,
    order_execution_time: u64,
) -> (r: u64)
    ensures
        r == adjusted_fee_discount_spec(
            staked_amount,
            staking_duration,
            lock_period,
            order_execution_time,
        ),
        r <= 85,
{
    let fee_discount = if lock_period > 0 {
        calculate_fee_discount(staked_amount, staking_duration)
    } else {
        0
    };
    let vip_mult = vip_multiplier(staked_amount);
    assert(fee_discount * vip_mult <= 50 * 130) by (nonlinear_arith)
        requires
            fee_discount <= 50,
            vip_mult <= 130,
    ;
    let mut adjusted = fee_discount * vip_mult / 100;
    adjusted = adjusted + duration_priority_bonus(staking_duration);
    if staked_amount >= VIP_THRESHOLD {
        adjusted = adjusted + 10;
    }
    if order_execution_time <= FAST_EXECUTION_MS {
        adjusted = adjusted + 5;
    }
    adjusted
}

/// Reward of one claim: 100, plus 10 per complete month staked, plus the
/// liquidity boost.
pub fn reward_for_period(staking_duration: u64, liquidity_provided: u64) -> (r: u64)
    ensures
        r == reward_for_period_spec(staking_duration, liquidity_provided),
{
    let months = staking_duration / MONTH_SECONDS;
    proof {
        lemma_fundamental_div_mod(staking_duration as int, MONTH_SECONDS as int);
        lemma_mod_pos_bound(staking_duration as int, MONTH_SECONDS as int);
        assert(months * 10 <= u64::MAX - 200) by (nonlinear_arith)
            requires
                staking_duration == 2_592_000 * months + staking_duration as int % 2_592_000,
                staking_duration as int % 2_592_000 >= 0,
                staking_duration <= u64::MAX,
                months >= 0,
        ;
    }
    let progressive_bonus = months * 10;
    100 + progressive_bonus + lp_reward_boost(liquidity_provided)
}

/// Governance weight of a stake: the stake plus one percent of it per complete
/// month staked; where that sum does not fit in `u64`, the stake alone.
pub fn voting_power(staked_amount: u64, staking_duration: u64) -> (r: u64)
    ensures
        r == voting_power_spec(staked_amount, staking_duration),
        r >= staked_amount,
{
    let months = staking_duration / MONTH_SECONDS;
    assert((staked_amount as int) * (months as int) <= u64::MAX as int * u64::MAX as int)
        by (nonlinear_arith)
        requires
            staked_amount <= u64::MAX,
            months <= u64::MAX,
            0 <= months,
    ;
    let bonus: u128 = (staked_amount as u128) * (months as u128) / 100;
    let power: u128 = staked_amount as u128 + bonus;
    if power <= u64::MAX as u128 {
        power as u64
    } else {
        staked_amount
    }
}

/// The VIP multiplier is a function of the stake alone, so asking twice for the
/// same stake gives the same answer; a larger stake never gets a smaller one.
pub proof fn lemma_vip_multiplier_stable(first: u64, second: u64)
    ensures
        first == second ==> vip_multiplier_spec(first) == vip_multiplier_spec(second),
        first <= second ==> vip_multiplier_spec(first) <= vip_multiplier_spec(second),
{
}

} // verus!
