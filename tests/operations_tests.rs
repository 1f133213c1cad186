use sst::error::ErrorCode;
use sst::governance::{calculate_voting_power, create_proposal, vote_proposal};
use sst::incentives::DAY_SECONDS;
use sst::lending::{borrow, flash_loan};
use sst::ledger::StakeInfo;
use sst::rewards::{claim_rewards, execute_trade, RewardClaim};
use sst::risk::{donate_insurance, slash_stake, InsuranceFund};

const OWNER: [u8; 32] = [3u8; 32];
const DAY: i64 = 86_400;

fn funded(amount: u64) -> StakeInfo {
    let mut s = StakeInfo::new(OWNER);
    s.amount = amount;
    s
}

#[test]
fn borrow_cap_half_of_stake() {
    let mut s = funded(1000);
    assert_eq!(borrow(&mut s, 501), Err(ErrorCode::BorrowLimitExceeded));
    assert_eq!(s.borrowed_amount, 0);
    assert_eq!(borrow(&mut s, 500), Ok(()));
    assert_eq!(s.borrowed_amount, 500);
}

#[test]
fn borrow_overflow() {
    let mut s = funded(1000);
    s.borrowed_amount = u64::MAX;
    assert_eq!(borrow(&mut s, 1), Err(ErrorCode::Overflow));
    assert_eq!(s.borrowed_amount, u64::MAX);
}

#[test]
fn flash_loan_same_cap() {
    let mut s = funded(999);
    assert_eq!(flash_loan(&mut s, 500), Err(ErrorCode::BorrowLimitExceeded));
    assert_eq!(flash_loan(&mut s, 499), Ok(499));
    assert_eq!(s.borrowed_amount, 499);
}

#[test]
fn slash_percentage() {
    let mut s = funded(1_000);
    assert_eq!(slash_stake(&mut s, 15), Ok(()));
    assert_eq!(s.amount, 850);
    assert_eq!(slash_stake(&mut s, 101), Err(ErrorCode::Underflow));
    assert_eq!(s.amount, 850);
    let mut big = funded(u64::MAX / 2);
    assert_eq!(slash_stake(&mut big, 3), Err(ErrorCode::Overflow));
    assert_eq!(big.amount, u64::MAX / 2);
}

#[test]
fn insurance_donations_add_up() {
    let mut fund = InsuranceFund::new();
    assert_eq!(donate_insurance(&mut fund, 40), Ok(()));
    assert_eq!(donate_insurance(&mut fund, 2), Ok(()));
    assert_eq!(fund.balance, 42);
    fund.balance = u64::MAX;
    assert_eq!(donate_insurance(&mut fund, 1), Err(ErrorCode::Overflow));
    assert_eq!(fund.balance, u64::MAX);
}

#[test]
fn fast_trade_airdrop() {
    let mut s = funded(1_000);
    s.lock_period = 30 * DAY_SECONDS;
    // 1_000 / 1000 = 1, plus 2 months: base 3, multiplier 100 -> 3, duration +1, fast +5
    assert_eq!(execute_trade(&mut s, 50, 60 * DAY), Ok(9));
    assert_eq!(s.amount, 1_020);
}

#[test]
fn slow_trade_no_airdrop() {
    let mut s = funded(1_000);
    assert_eq!(execute_trade(&mut s, 51, 0), Ok(0));
    assert_eq!(execute_trade(&mut s, 101, 0), Ok(0));
    assert_eq!(s.amount, 1_000);
}

#[test]
fn fast_trade_overflow() {
    let mut s = funded(u64::MAX - 19);
    assert_eq!(execute_trade(&mut s, 10, 0), Err(ErrorCode::Overflow));
    assert_eq!(s.amount, u64::MAX - 19);
}

#[test]
fn claim_rewards_payout_and_compound() {
    let mut s = funded(1_000);
    assert_eq!(claim_rewards(&mut s, 30_000, 31 * DAY), Ok(RewardClaim::Payout(113)));
    assert_eq!(s.amount, 1_000);
    s.auto_restake = true;
    assert_eq!(claim_rewards(&mut s, 0, 0), Ok(RewardClaim::Compounded(100)));
    assert_eq!(s.amount, 1_100);
    s.amount = u64::MAX;
    assert_eq!(claim_rewards(&mut s, 0, 0), Err(ErrorCode::Overflow));
}

#[test]
fn vote_adds_voting_power() {
    let mut s = funded(1_000_000);
    s.last_staked_time = 0;
    assert_eq!(calculate_voting_power(&s, 60 * DAY), 1_020_000);
    let mut p = create_proposal(OWNER, String::from("raise the cap"), 9);
    assert_eq!(p.created_at, 9);
    assert_eq!(vote_proposal(&mut p, &s, true, 60 * DAY), Ok(()));
    assert_eq!(vote_proposal(&mut p, &s, false, 0), Ok(()));
    assert_eq!(vote_proposal(&mut p, &s, true, 60 * DAY), Ok(()));
    assert_eq!(p.votes_for, 2_040_000);
    assert_eq!(p.votes_against, 1_000_000);
    assert_eq!(p.description, "raise the cap");
}

#[test]
fn vote_overflow_keeps_tally() {
    let s = funded(10);
    let mut p = create_proposal(OWNER, String::new(), 0);
    p.votes_against = u64::MAX - 5;
    assert_eq!(vote_proposal(&mut p, &s, false, 0), Err(ErrorCode::Overflow));
    assert_eq!(p.votes_against, u64::MAX - 5);
}
