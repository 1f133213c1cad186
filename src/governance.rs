use vstd::prelude::*;

use crate::error::ErrorCode;
use crate::incentives::{staking_duration, staking_duration_spec, voting_power, voting_power_spec};
use crate::ledger::StakeInfo;

verus! {

/// A governance proposal and its running tallies.
#[derive(Debug, Clone, PartialEq, Eq)]
pub struct Proposal {
    /// Identity of the proposer.
    pub proposer: [u8; 32],
    pub description: String,
    /// Voting power cast in favour.
    pub votes_for: u64,
    /// Voting power cast against.
    pub votes_against: u64,
    /// Time of creation, in seconds.
    pub created_at: i64,
}

/// Voting power of a record at time `now`.
pub open spec fn record_voting_power(stake_info: StakeInfo, now: i64) -> int {
    voting_power_spec(
        stake_info.amount,
        staking_duration_spec(now, stake_info.last_staked_time) as u64,
    )
}

/// Voting power of a record at time `now`: its stake plus one percent of it per
/// complete month since its last deposit, or its stake alone where that sum
/// does not fit in `u64`.
pub fn calculate_voting_power(stake_info: &StakeInfo, now: i64) -> (r: u64)
    ensures
        r == record_voting_power(*stake_info, now),
{
    let duration = staking_duration(now, stake_info.last_staked_time);
    voting_power(stake_info.amount, duration)
}

/// A new proposal with empty tallies, created at `now`.
pub fn create_proposal(proposer: [u8; 32], description: String, now: i64) -> (r: Proposal)
    ensures
        r.proposer == proposer,
        r.description == description,
        r.votes_for == 0,
        r.votes_against == 0,
        r.created_at == now,
{
    Proposal { proposer, description, votes_for: 0, votes_against: 0, created_at: now }
}

/// Adds the voting power of `stake_info` at `now` to the tally for (`support`)
/// or against the proposal. Fails with `Overflow`, changing nothing, where the
/// tally would leave `u64`. Repeated votes each add again.
pub fn vote_proposal(
    proposal: &mut Proposal,
    stake_info: &StakeInfo,
    support: bool,
    now: i64,
) -> (r: Result<(), ErrorCode>)
    ensures
        ({
            let power = record_voting_power(*stake_info, now);
            let tally = if support {
                old(proposal).votes_for
            } else {
                old(proposal).votes_against
            };
            if tally + power > u64::MAX {
                &&& r == Err::<(), ErrorCode>(ErrorCode::Overflow)
                &&& *final(proposal) == *old(proposal)
            } else {
                &&& r == Ok::<(), ErrorCode>(())
                &&& final(proposal).proposer == old(proposal).proposer
                &&& final(proposal).description == old(proposal).description
                &&& final(proposal).created_at == old(proposal).created_at
                &&& support ==> final(proposal).votes_for == tally + power
                    && final(proposal).votes_against == old(proposal).votes_against
                &&& !support ==> final(proposal).votes_against == tally + power
                    && final(proposal).votes_for == old(proposal).votes_for
            }
        }),
{
    let power = calculate_voting_power(stake_info, now);
    if support {
        match proposal.votes_for.checked_add(power) {
            Some(v) => proposal.votes_for = v,
            None => return Err(ErrorCode::Overflow),
        }
    } else {
        match proposal.votes_against.checked_add(power) {
            Some(v) => proposal.votes_against = v,
            None => return Err(ErrorCode::Overflow),
        }
    }
    Ok(())
}

} // verus!
