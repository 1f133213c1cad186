use sst::incentives::{
    adjusted_fee_discount, calculate_fee_discount, duration_priority_bonus, lp_reward_boost,
    reward_for_period, staking_duration, vip_multiplier, voting_power, DAY_SECONDS,
};

#[test]
fn fee_discount_is_capped_at_fifty() {
    assert_eq!(calculate_fee_discount(1_000_000_000, 3650 * DAY_SECONDS), 50);
}

#[test]
fn fee_discount_below_cap() {
    // 20_000 / 1000 = 20, plus 3 complete months
    assert_eq!(calculate_fee_discount(20_000, 95 * DAY_SECONDS), 23);
    assert_eq!(calculate_fee_discount(0, 29 * DAY_SECONDS), 0);
    assert_eq!(calculate_fee_discount(49_999, 0), 49);
    assert_eq!(calculate_fee_discount(u64::MAX, u64::MAX), 50);
}

#[test]
fn voting_power_two_months() {
    assert_eq!(voting_power(1_000_000, 60 * DAY_SECONDS), 1_020_000);
}

#[test]
fn voting_power_saturates_to_stake() {
    assert_eq!(voting_power(u64::MAX, 60 * DAY_SECONDS), u64::MAX);
    assert_eq!(voting_power(u64::MAX - 10, 3000 * DAY_SECONDS), u64::MAX - 10);
    assert_eq!(voting_power(500, 29 * DAY_SECONDS), 500);
}

#[test]
fn vip_multiplier_twice_same_answer() {
    let first = vip_multiplier(7_000_000_000);
    let second = vip_multiplier(7_000_000_000);
    assert_eq!(first, second);
    assert_eq!(first, 115);
}

#[test]
fn vip_multiplier_staircase() {
    assert_eq!(vip_multiplier(0), 100);
    assert_eq!(vip_multiplier(999_999_999), 100);
    assert_eq!(vip_multiplier(1_000_000_000), 105);
    assert_eq!(vip_multiplier(5_000_000_000), 115);
    assert_eq!(vip_multiplier(9_999_999_999), 115);
    assert_eq!(vip_multiplier(10_000_000_000), 130);
}

#[test]
fn duration_bonus_tiers() {
    assert_eq!(duration_priority_bonus(0), 0);
    assert_eq!(duration_priority_bonus(30 * DAY_SECONDS - 1), 0);
    assert_eq!(duration_priority_bonus(30 * DAY_SECONDS), 1);
    assert_eq!(duration_priority_bonus(90 * DAY_SECONDS), 3);
    assert_eq!(duration_priority_bonus(180 * DAY_SECONDS), 5);
}

#[test]
fn lp_boost_capped() {
    assert_eq!(lp_reward_boost(9_999), 0);
    assert_eq!(lp_reward_boost(50_000), 5);
    assert_eq!(lp_reward_boost(10_000_000), 20);
}

#[test]
fn reward_formula() {
    // 2 months: 100 + 20, plus 7 for 70_000 provided
    assert_eq!(reward_for_period(65 * DAY_SECONDS, 70_000), 127);
    assert_eq!(reward_for_period(0, 0), 100);
}

#[test]
fn adjusted_discount_all_bonuses() {
    // 200_000 display units locked for 200 days: base 50, VIP 130% -> 65,
    // duration +5, institutional +10, fast +5
    assert_eq!(adjusted_fee_discount(200_000_000_000, 200 * DAY_SECONDS, 90 * DAY_SECONDS, 50), 85);
}

#[test]
fn adjusted_discount_flexible_stake_has_no_base() {
    assert_eq!(adjusted_fee_discount(20_000, 40 * DAY_SECONDS, 0, 51), 1);
    assert_eq!(adjusted_fee_discount(20_000, 40 * DAY_SECONDS, 30 * DAY_SECONDS, 51), 22);
}

#[test]
fn duration_never_negative() {
    assert_eq!(staking_duration(100, 40), 60);
    assert_eq!(staking_duration(40, 100), 0);
    assert_eq!(staking_duration(i64::MAX, i64::MIN), u64::MAX);
}
