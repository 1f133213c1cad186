use vstd::prelude::*;
use vstd::arithmetic::div_mod::{lemma_div_by_multiple, lemma_div_is_ordered};
use vstd::arithmetic::mul::lemma_mul_inequality;

use crate::error::ErrorCode;
use crate::incentives::DAY_SECONDS;

verus! {

/// A flexible stake withdrawn within this many seconds of its last deposit pays
/// the early-exit penalty.
pub const MIN_NON_LOCKED_STAKE_DURATION: i64 = 7 * 24 * 60 * 60;

/// Percentage of a withdrawal withheld as the early-exit penalty.
pub const EARLY_EXIT_PENALTY_PERCENT: u64 = 2;

/// The stake record of one participant.
#[derive(Debug, Clone, Copy, PartialEq, Eq)]
pub struct StakeInfo {
    /// Identity of the staking participant.
    pub staker: [u8; 32],
    /// Staked quantity of the primary asset, in base units.
    pub amount: u64,
    /// Time of the most recent deposit, in seconds; restarts the lock and penalty clocks.
    pub last_staked_time: i64,
    /// Lock of the most recent deposit, in seconds; 0 for a flexible stake.
    pub lock_period: u64,
    /// `last_staked_time + lock_period`, kept for reference.
    pub locked_until: i64,
    /// Quantity currently borrowed against this stake.
    pub borrowed_amount: u64,
    /// The reentrancy guard: held while a deposit on this record is in progress.
    pub locked: bool,
    /// Whether claimed rewards compound into `amount`.
    pub auto_restake: bool,
    /// Staked quantity of the secondary asset of a dual stake.
    pub usdc_amount: u64,
    /// Deposited liquidity-provider tokens.
    pub lp_deposit: u64,
}

/// A deposit whose guard is held and whose transfer into the vault is the next
/// step; `complete_deposit` or `abort_deposit` ends it.
#[derive(Debug, Clone, Copy, PartialEq, Eq, Structural)]
pub struct PendingDeposit {
    /// Quantity to move from the staker into the vault.
    pub amount: u64,
    /// Lock chosen for the deposit; 0 for a flexible stake.
    pub lock_period: u64,
}

/// The lock periods a deposit may choose: 30, 90 or 180 days.
pub open spec fn is_allowed_lock_period(lock_period: u64) -> bool {
    lock_period == 30 * DAY_SECONDS || lock_period == 90 * DAY_SECONDS || lock_period == 180
        * DAY_SECONDS
}

impl StakeInfo {
    /// The record's lock period is 0 or one of the allowed periods.
    pub open spec fn wf(self) -> bool {
        self.lock_period == 0 || is_allowed_lock_period(self.lock_period)
    }

    /// A zero-initialized record of `staker`, as it stands before its first deposit.
    pub fn new(staker: [u8; 32]) -> (r: StakeInfo)
        ensures
            r == empty_record(staker),
            r.wf(),
    {
        StakeInfo {
            staker,
            amount: 0,
            last_staked_time: 0,
            lock_period: 0,
            locked_until: 0,
            borrowed_amount: 0,
            locked: false,
            auto_restake: false,
            usdc_amount: 0,
            lp_deposit: 0,
        }
    }
}

pub open spec fn empty_record(staker: [u8; 32]) -> StakeInfo {
    StakeInfo {
        staker,
        amount: 0,
        last_staked_time: 0,
        lock_period: 0,
        locked_until: 0,
        borrowed_amount: 0,
        locked: false,
        auto_restake: false,
        usdc_amount: 0,
        lp_deposit: 0,
    }
}

/// `r` and `after` are what an operation with the outcome `expected` returns
/// and leaves: on success the result and the new record, on failure the error
/// and the record `unchanged`.
pub open spec fn commits<T>(
    r: Result<T, ErrorCode>,
    unchanged: StakeInfo,
    after: StakeInfo,
    expected: Result<(StakeInfo, T), ErrorCode>,
) -> bool {
    match expected {
        Ok((next, out)) => r == Ok::<T, ErrorCode>(out) && after == next,
        Err(e) => r == Err::<T, ErrorCode>(e) && after == unchanged,
    }
}

/// First step of a deposit: take the guard, after checking that the amount is
/// positive and that the stake can grow by it.
pub open spec fn begin_deposit_spec(s: StakeInfo, amount: u64, lock_period: u64) -> Result<
    (StakeInfo, PendingDeposit),
    ErrorCode,
> {
    if s.locked {
        Err(ErrorCode::ReentrancyDetected)
    } else if amount == 0 {
        Err(ErrorCode::InvalidAmount)
    } else if s.amount + amount > u64::MAX {
        Err(ErrorCode::Overflow)
    } else {
        Ok((StakeInfo { locked: true, ..s }, PendingDeposit { amount, lock_period }))
    }
}

pub open spec fn stake_with_lock_spec(s: StakeInfo, amount: u64, lock_period: u64) -> Result<
    (StakeInfo, PendingDeposit),
    ErrorCode,
> {
    if !is_allowed_lock_period(lock_period) {
        Err(ErrorCode::InvalidLockPeriod)
    } else {
        begin_deposit_spec(s, amount, lock_period)
    }
}

/// The record with its guard released.
pub open spec fn released(s: StakeInfo) -> StakeInfo {
    StakeInfo { locked: false, ..s }
}

/// Last step of a deposit whose transfer went through: credit the stake and
/// restart its clock under the deposit's lock.
pub open spec fn complete_deposit_spec(
    s: StakeInfo,
    pending: PendingDeposit,
    staker: [u8; 32],
    now: i64,
) -> Result<(StakeInfo, ()), ErrorCode> {
    if s.amount + pending.amount > u64::MAX || now + pending.lock_period > i64::MAX {
        Err(ErrorCode::Overflow)
    } else {
        Ok(
            (
                StakeInfo {
                    staker,
                    amount: (s.amount + pending.amount) as u64,
                    last_staked_time: now,
                    lock_period: pending.lock_period,
                    locked_until: (now + pending.lock_period) as i64,
                    borrowed_amount: 0,
                    locked: false,
                    auto_restake: false,
                    ..s
                },
                (),
            ),
        )
    }
}

/// Staked amount withdrawable `elapsed` seconds into a lock of `lock_period`
/// seconds: it grows linearly from none to all of `total`, rounding down.
pub open spec fn unlocked_spec(total: u64, elapsed: int, lock_period: u64) -> int {
    if elapsed >= lock_period {
        total as int
    } else {
        total * elapsed / lock_period as int
    }
}

/// What the staker receives of a withdrawal of `amount` from a flexible stake
/// `elapsed` seconds after its last deposit.
pub open spec fn flexible_payout_spec(amount: u64, elapsed: int) -> int {
    if elapsed < MIN_NON_LOCKED_STAKE_DURATION {
        amount - amount * EARLY_EXIT_PENALTY_PERCENT / 100
    } else {
        amount as int
    }
}

/// A withdrawal: the new record and the quantity to move from the vault to the
/// staker. The record is debited the full `amount` in every case.
pub open spec fn unstake_spec(s: StakeInfo, amount: u64, now: i64) -> Result<
    (StakeInfo, u64),
    ErrorCode,
> {
    let debited = StakeInfo { amount: (s.amount - amount) as u64, ..s };
    if amount > s.amount {
        Err(ErrorCode::InsufficientStakedAmount)
    } else if s.lock_period > 0 {
        if now < s.last_staked_time {
            Err(ErrorCode::Underflow)
        } else if amount > unlocked_spec(s.amount, now - s.last_staked_time, s.lock_period) {
            Err(ErrorCode::TokensLocked)
        } else {
            Ok((debited, amount))
        }
    } else {
        Ok((debited, flexible_payout_spec(amount, now - s.last_staked_time) as u64))
    }
}

pub open spec fn stake_dual_spec(
    s: StakeInfo,
    staker: [u8; 32],
    sst_amount: u64,
    usdc_amount: u64,
    now: i64,
) -> Result<(StakeInfo, ()), ErrorCode> {
    if s.amount + sst_amount > u64::MAX || s.usdc_amount + usdc_amount > u64::MAX {
        Err(ErrorCode::Overflow)
    } else {
        Ok(
            (
                StakeInfo {
                    staker,
                    amount: (s.amount + sst_amount) as u64,
                    usdc_amount: (s.usdc_amount + usdc_amount) as u64,
                    last_staked_time: now,
                    auto_restake: false,
                    ..s
                },
                (),
            ),
        )
    }
}

pub open spec fn deposit_lp_spec(s: StakeInfo, lp_amount: u64) -> Result<
    (StakeInfo, ()),
    ErrorCode,
> {
    if s.lp_deposit + lp_amount > u64::MAX {
        Err(ErrorCode::Overflow)
    } else {
        Ok((StakeInfo { lp_deposit: (s.lp_deposit + lp_amount) as u64, ..s }, ()))
    }
}

/// Checks and takes the reentrancy guard for a deposit of `amount` with lock `lock_period`.
fn begin_deposit(stake_info: &mut StakeInfo, amount: u64, lock_period: u64) -> (r: Result<
    PendingDeposit,
    ErrorCode,
>)
    ensures
        commits(
            r,
            *old(stake_info),
            *final(stake_info),
            begin_deposit_spec(*old(stake_info), amount, lock_period),
        ),
{
    if stake_info.locked {
        return Err(ErrorCode::ReentrancyDetected);
    }
    if amount == 0 {
        return Err(ErrorCode::InvalidAmount);
    }
    if stake_info.amount.checked_add(amount).is_none() {
        return Err(ErrorCode::Overflow);
    }
    stake_info.locked = true;
    Ok(PendingDeposit { amount, lock_period })
}

/// Starts a flexible deposit of `amount`: fails with `ReentrancyDetected` while
/// another deposit on the record is in progress, with `InvalidAmount` where
/// `amount` is 0, with `Overflow` where the stake cannot grow by `amount`, and
/// otherwise takes the guard; every failure leaves the record unchanged. The caller then moves
/// `amount` into the vault and ends with `complete_deposit` or `abort_deposit`.
pub fn stake(stake_info: &mut StakeInfo, amount: u64) -> (r: Result<PendingDeposit, ErrorCode>)
    ensures
        commits(
            r,
            *old(stake_info),
            *final(stake_info),
            begin_deposit_spec(*old(stake_info), amount, 0),
        ),
{
    begin_deposit(stake_info, amount, 0)
}

/// Starts a deposit of `amount` locked for `lock_period` seconds, which must be
/// 30, 90 or 180 days (else `InvalidLockPeriod`); otherwise as `stake`.
pub fn stake_with_lock(stake_info: &mut StakeInfo, amount: u64, lock_period: u64) -> (r: Result<
    PendingDeposit,
    ErrorCode,
>)
    ensures
        commits(
            r,
            *old(stake_info),
            *final(stake_info),
            stake_with_lock_spec(*old(stake_info), amount, lock_period),
        ),
{
    if lock_period != 30 * DAY_SECONDS && lock_period != 90 * DAY_SECONDS && lock_period != 180
        * DAY_SECONDS {
        return Err(ErrorCode::InvalidLockPeriod);
    }
    begin_deposit(stake_info, amount, lock_period)
}

/// Ends a deposit started by `stake` or `stake_with_lock`, whose guard is
/// therefore held, once its transfer into the vault went through: credits the stake,
/// records `now` as the deposit time, sets the lock, clears the borrowed amount
/// and auto-restake. The guard is released whatever the outcome; on `Overflow`
/// nothing else changes.
pub fn complete_deposit(
    stake_info: &mut StakeInfo,
    pending: PendingDeposit,
    staker: [u8; 32],
    now: i64,
) -> (r: Result<(), ErrorCode>)
    requires
        old(stake_info).locked,
    ensures
        commits(
            r,
            released(*old(stake_info)),
            *final(stake_info),
            complete_deposit_spec(*old(stake_info), pending, staker, now),
        ),
        !final(stake_info).locked,
{
    stake_info.locked = false;
    let amount = match stake_info.amount.checked_add(pending.amount) {
        Some(a) => a,
        None => return Err(ErrorCode::Overflow),
    };
    let locked_until = match now.checked_add_unsigned(pending.lock_period) {
        Some(t) => t,
        None => return Err(ErrorCode::Overflow),
    };
    stake_info.staker = staker;
    stake_info.amount = amount;
    stake_info.last_staked_time = now;
    stake_info.lock_period = pending.lock_period;
    stake_info.locked_until = locked_until;
    stake_info.borrowed_amount = 0;
    stake_info.auto_restake = false;
    Ok(())
}

/// Ends a deposit whose guard is held once its transfer into the vault failed:
/// releases the guard and changes nothing else.
pub fn abort_deposit(stake_info: &mut StakeInfo)
    requires
        old(stake_info).locked,
    ensures
        *final(stake_info) == released(*old(stake_info)),
{
    stake_info.locked = false;
}

/// Part of a locked stake of `total` withdrawable `elapsed` seconds into a lock of
/// `lock_period` seconds: `floor(total * elapsed / lock_period)`, and all of it
/// from the end of the lock on.
pub fn unlocked_amount(total: u64, elapsed: u64, lock_period: u64) -> (r: u64)
    ensures
        r == unlocked_spec(total, elapsed as int, lock_period),
        r <= total,
{
    if elapsed >= lock_period {
        total
    } else {
        proof {
            lemma_unlocked_at_most_total(total, elapsed as int, lock_period);
        }
        assert((total as int) * (elapsed as int) <= u64::MAX as int * u64::MAX as int)
            by (nonlinear_arith)
            requires
                0 <= total <= u64::MAX,
                0 <= elapsed <= u64::MAX,
        ;
        ((total as u128) * (elapsed as u128) / (lock_period as u128)) as u64
    }
}

proof fn lemma_unlocked_at_most_total(total: u64, elapsed: int, lock_period: u64)
    requires
        0 <= elapsed < lock_period,
    ensures
        0 <= total * elapsed / lock_period as int <= total,
{
    lemma_mul_inequality(elapsed, lock_period as int, total as int);
    assert(elapsed * total == total * elapsed) by (nonlinear_arith);
    assert(lock_period * total == total * lock_period) by (nonlinear_arith);
    lemma_div_is_ordered(total * elapsed, total * lock_period, lock_period as int);
    lemma_div_by_multiple(total as int, lock_period as int);
    assert(0 <= total * elapsed) by (nonlinear_arith)
        requires
            0 <= elapsed,
    ;
    lemma_div_is_ordered(0, total * elapsed, lock_period as int);
}

/// Withdraws `amount` from the stake and returns the quantity to move from the
/// vault to the staker.
///
/// Fails with `InsufficientStakedAmount` where `amount` exceeds the stake. A
/// locked stake fails with `Underflow` where `now` lies before the last deposit,
/// and with `TokensLocked` where `amount` exceeds the part unlocked so far; the
/// staker receives all of `amount`. A flexible stake withdrawn less than 7 days
/// after its last deposit withholds 2% of `amount` (rounded down) from the
/// payout. The record is debited `amount` in every successful case.
pub fn unstake(stake_info: &mut StakeInfo, amount: u64, now: i64) -> (r: Result<u64, ErrorCode>)
    ensures
        commits(
            r,
            *old(stake_info),
            *final(stake_info),
            unstake_spec(*old(stake_info), amount, now),
        ),
{
    if stake_info.amount < amount {
        return Err(ErrorCode::InsufficientStakedAmount);
    }
    let payout: u64;
    if stake_info.lock_period > 0 {
        if now < stake_info.last_staked_time {
            return Err(ErrorCode::Underflow);
        }
        let elapsed = ((now as i128) - (stake_info.last_staked_time as i128)) as u64;
        let unlocked = unlocked_amount(stake_info.amount, elapsed, stake_info.lock_period);
        if amount > unlocked {
            return Err(ErrorCode::TokensLocked);
        }
        payout = amount;
    } else {
        let elapsed: i128 = (now as i128) - (stake_info.last_staked_time as i128);
        if elapsed < MIN_NON_LOCKED_STAKE_DURATION as i128 {
            let penalty = ((amount as u128) * (EARLY_EXIT_PENALTY_PERCENT as u128) / 100) as u64;
            payout = amount - penalty;
        } else {
            payout = amount;
        }
    }
    stake_info.amount = stake_info.amount - amount;
    Ok(payout)
}

/// Records a dual stake whose two transfers into the vault went through: adds
/// `sst_amount` to the primary stake and `usdc_amount` to the secondary one,
/// records `now` as the deposit time and clears auto-restake. Fails with
/// `Overflow`, changing nothing, where either sum leaves `u64`.
pub fn stake_dual(
    stake_info: &mut StakeInfo,
    staker: [u8; 32],
    sst_amount: u64,
    usdc_amount: u64,
    now: i64,
) -> (r: Result<(), ErrorCode>)
    ensures
        commits(
            r,
            *old(stake_info),
            *final(stake_info),
            stake_dual_spec(*old(stake_info), staker, sst_amount, usdc_amount, now),
        ),
{
    let amount = match stake_info.amount.checked_add(sst_amount) {
        Some(a) => a,
        None => return Err(ErrorCode::Overflow),
    };
    let usdc = match stake_info.usdc_amount.checked_add(usdc_amount) {
        Some(a) => a,
        None => return Err(ErrorCode::Overflow),
    };
    stake_info.staker = staker;
    stake_info.amount = amount;
    stake_info.usdc_amount = usdc;
    stake_info.last_staked_time = now;
    stake_info.auto_restake = false;
    Ok(())
}

/// Records an LP-token deposit whose transfer went through: adds `lp_amount` to
/// `lp_deposit` and nothing else. Fails with `Overflow`, changing nothing, where
/// the sum leaves `u64`.
pub fn deposit_lp(stake_info: &mut StakeInfo, lp_amount: u64) -> (r: Result<(), ErrorCode>)
    ensures
        commits(
            r,
            *old(stake_info),
            *final(stake_info),
            deposit_lp_spec(*old(stake_info), lp_amount),
        ),
{
    match stake_info.lp_deposit.checked_add(lp_amount) {
        Some(total) => {
            stake_info.lp_deposit = total;
            Ok(())
        },
        None => Err(ErrorCode::Overflow),
    }
}

/// Sets whether claimed rewards compound into the stake.
pub fn toggle_auto_restake(stake_info: &mut StakeInfo, enabled: bool)
    ensures
        *final(stake_info) == (StakeInfo { auto_restake: enabled, ..*old(stake_info) }),
{
    stake_info.auto_restake = enabled;
}

/// A valid deposit (a positive amount) that starts and completes credits the stake with exactly the
/// deposited amount; one that would take the stake past `u64::MAX` fails with
/// `Overflow` at its start and leaves the record as it was.
pub proof fn lemma_deposit_adds_amount(
    s: StakeInfo,
    amount: u64,
    lock_period: u64,
    staker: [u8; 32],
    now: i64,
)
    requires
        !s.locked,
        amount > 0,
        lock_period == 0 || is_allowed_lock_period(lock_period),
        now + lock_period <= i64::MAX,
    ensures
        s.amount + amount > u64::MAX ==> begin_deposit_spec(s, amount, lock_period) == Err::<
            (StakeInfo, PendingDeposit),
            ErrorCode,
        >(ErrorCode::Overflow),
        s.amount + amount <= u64::MAX ==> {
            &&& begin_deposit_spec(s, amount, lock_period) is Ok
            &&& complete_deposit_spec(
                begin_deposit_spec(s, amount, lock_period)->Ok_0.0,
                begin_deposit_spec(s, amount, lock_period)->Ok_0.1,
                staker,
                now,
            ) is Ok
            &&& complete_deposit_spec(
                begin_deposit_spec(s, amount, lock_period)->Ok_0.0,
                begin_deposit_spec(s, amount, lock_period)->Ok_0.1,
                staker,
                now,
            )->Ok_0.0.amount == s.amount + amount
        },
{
}

/// While one deposit holds a record's guard, any second deposit on it fails
/// (with `ReentrancyDetected`, or `InvalidLockPeriod` for a bad lock) and the
/// stake keeps the amount it had before the first one.
pub proof fn lemma_guard_blocks_reentry(
    s: StakeInfo,
    first: u64,
    first_lock: u64,
    second: u64,
    second_lock: u64,
)
    requires
        begin_deposit_spec(s, first, first_lock) is Ok,
    ensures
        ({
            let held = begin_deposit_spec(s, first, first_lock)->Ok_0.0;
            &&& held.amount == s.amount
            &&& begin_deposit_spec(held, second, second_lock) == Err::<
                (StakeInfo, PendingDeposit),
                ErrorCode,
            >(ErrorCode::ReentrancyDetected)
            &&& is_allowed_lock_period(second_lock) ==> stake_with_lock_spec(
                held,
                second,
                second_lock,
            ) == Err::<(StakeInfo, PendingDeposit), ErrorCode>(ErrorCode::ReentrancyDetected)
        }),
{
}

/// The unlock schedule of a locked stake: nothing is withdrawable at the moment
/// of deposit, everything from the end of the lock on, never more than the
/// stake, and the withdrawable part never shrinks as time passes.
pub proof fn lemma_unlock_schedule(total: u64, lock_period: u64, earlier: int, later: int)
    requires
        lock_period > 0,
        0 <= earlier <= later,
    ensures
        unlocked_spec(total, 0, lock_period) == 0,
        later >= lock_period ==> unlocked_spec(total, later, lock_period) == total,
        0 <= unlocked_spec(total, earlier, lock_period) <= unlocked_spec(total, later, lock_period),
        unlocked_spec(total, later, lock_period) <= total,
{
    assert(total * 0 == 0) by (nonlinear_arith);
    if later < lock_period {
        lemma_unlocked_at_most_total(total, later, lock_period);
        lemma_unlocked_at_most_total(total, earlier, lock_period);
        lemma_mul_inequality(earlier, later, total as int);
        assert(earlier * total == total * earlier) by (nonlinear_arith);
        assert(later * total == total * later) by (nonlinear_arith);
        lemma_div_is_ordered(total * earlier, total * later, lock_period as int);
    } else if earlier < lock_period {
        lemma_unlocked_at_most_total(total, earlier, lock_period);
    }
}

/// A deposit started with `stake_with_lock` and completed leaves the lock
/// period one of the allowed ones; with `stake` it leaves a flexible stake.
pub proof fn lemma_deposit_keeps_lock_period_valid(
    s: StakeInfo,
    amount: u64,
    lock_period: u64,
    staker: [u8; 32],
    now: i64,
)
    requires
        stake_with_lock_spec(s, amount, lock_period) is Ok || (lock_period == 0
            && begin_deposit_spec(s, amount, 0) is Ok),
    ensures
        ({
            let pending = begin_deposit_spec(s, amount, lock_period)->Ok_0;
            let done = complete_deposit_spec(pending.0, pending.1, staker, now);
            done is Ok ==> done->Ok_0.0.wf()
        }),
{
}

} // verus!
