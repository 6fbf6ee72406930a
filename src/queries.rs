use vstd::prelude::*;

use crate::types::{MembershipStatus, PoolStats, StakingError, StakingPool, UserStakeAccount};

verus! {

/// Progress towards the threshold in whole percent: `floor(100 * amount / minimum)`,
/// held at 100 once the threshold is reached.
pub open spec fn progress_of(amount: u64, minimum: u64) -> int {
    if amount >= minimum {
        100
    } else {
        (100 * amount) / (minimum as int)
    }
}

/// Computes `progress_of(amount, minimum)`.
pub fn progress_percentage(amount: u64, minimum: u64) -> (r: u8)
    ensures
        r as int == progress_of(amount, minimum),
{
    if amount >= minimum {
        return 100;
    }
    let scaled: u128 = (amount as u128) * 100;
    let p: u128 = scaled / (minimum as u128);
    assert(p < 100) by (nonlinear_arith)
        requires
            p == scaled / (minimum as u128),
            scaled == amount * 100,
            amount < minimum,
    ;
    p as u8
}

/// A participant's membership status, or `RecordNotFound` where the participant
/// has no record.
pub fn get_membership_status(pool: &StakingPool, account: Option<&UserStakeAccount>) -> (r: Result<
    MembershipStatus,
    StakingError,
>)
    ensures
        account is None ==> r == Err::<MembershipStatus, StakingError>(StakingError::RecordNotFound),
        account matches Some(a) ==> r == Ok::<MembershipStatus, StakingError>(
            MembershipStatus {
                is_member: a.is_member,
                amount_staked: a.amount_staked,
                stake_timestamp: a.stake_timestamp,
                minimum_required: pool.minimum_stake,
                progress_percentage: progress_of(a.amount_staked, pool.minimum_stake) as u8,
            },
        ),
{
    match account {
        None => Err(StakingError::RecordNotFound),
        Some(a) => Ok(
            MembershipStatus {
                is_member: a.is_member,
                amount_staked: a.amount_staked,
                stake_timestamp: a.stake_timestamp,
                minimum_required: pool.minimum_stake,
                progress_percentage: progress_percentage(a.amount_staked, pool.minimum_stake),
            },
        ),
    }
}

/// The pool's aggregates and configuration.
pub fn get_pool_stats(pool: &StakingPool) -> (r: PoolStats)
    ensures
        r == (PoolStats {
            total_staked: pool.total_staked,
            member_count: pool.member_count,
            minimum_stake: pool.minimum_stake,
            token_mint: pool.token_mint,
        }),
{
    PoolStats {
        total_staked: pool.total_staked,
        member_count: pool.member_count,
        minimum_stake: pool.minimum_stake,
        token_mint: pool.token_mint,
    }
}

} // verus!
