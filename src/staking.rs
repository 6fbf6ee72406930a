use vstd::prelude::*;

use crate::ledger::is_consistent;
use crate::types::{
    Address, MINIMUM_STAKE, StakeEvent, StakingError, StakingPool, TransferRequest, UnstakeEvent,
    UserStakeAccount,
};

verus! {

/// Creates the pool ledger: empty aggregates, the fixed threshold, the accepted
/// token, and `authority` as its administrator. A pool that already exists is
/// never created again.
pub fn initialize(existing: Option<&StakingPool>, authority: Address, token_mint: Address, bump: u8) -> (r:
    Result<StakingPool, StakingError>)
    ensures
        existing is Some ==> r == Err::<StakingPool, StakingError>(StakingError::AlreadyInitialized),
        existing is None ==> r == Ok::<StakingPool, StakingError>(
            StakingPool {
                authority,
                total_staked: 0,
                member_count: 0,
                minimum_stake: MINIMUM_STAKE,
                token_mint,
                bump,
            },
        ),
        r matches Ok(p) ==> is_consistent(p, Seq::empty()),
{
    if existing.is_some() {
        return Err(StakingError::AlreadyInitialized);
    }
    Ok(
        StakingPool {
            authority,
            total_staked: 0,
            member_count: 0,
            minimum_stake: MINIMUM_STAKE,
            token_mint,
            bump,
        },
    )
}

/// Why a stake of `amount` on `account` is refused, if it is.
///
/// A first deposit must reach the threshold alone; a participant who already
/// holds a balance may top it up by any positive amount.
pub open spec fn stake_error(pool: StakingPool, account: UserStakeAccount, amount: u64) -> Option<
    StakingError,
> {
    if amount == 0 {
        Some(StakingError::InvalidAmount)
    } else if amount < pool.minimum_stake && account.amount_staked == 0 {
        Some(StakingError::InsufficientStakeAmount)
    } else {
        None
    }
}

/// Whether the counters that a successful stake raises have room for it.
pub open spec fn stake_fits(pool: StakingPool, account: UserStakeAccount, amount: u64) -> bool {
    &&& pool.total_staked + amount <= u64::MAX
    &&& account.amount_staked + amount <= u64::MAX
    &&& !account.is_member ==> pool.member_count < u64::MAX
}

/// The participant's record after a successful stake.
pub open spec fn staked_account(
    pool: StakingPool,
    account: UserStakeAccount,
    user: Address,
    amount: u64,
    now: i64,
) -> UserStakeAccount {
    let balance = (account.amount_staked + amount) as u64;
    UserStakeAccount {
        user: user,
        amount_staked: balance,
        stake_timestamp: now,
        last_unstake_timestamp: account.last_unstake_timestamp,
        is_member: balance >= pool.minimum_stake,
    }
}

/// The pool after a successful stake: the deposit is added to the total, and the
/// member count grows by one when the participant crosses the threshold.
pub open spec fn staked_pool(pool: StakingPool, account: UserStakeAccount, amount: u64) -> StakingPool {
    let joins = account.amount_staked + amount >= pool.minimum_stake && !account.is_member;
    StakingPool {
        authority: pool.authority,
        total_staked: (pool.total_staked + amount) as u64,
        member_count: if joins {
            (pool.member_count + 1) as u64
        } else {
            pool.member_count
        },
        minimum_stake: pool.minimum_stake,
        token_mint: pool.token_mint,
        bump: pool.bump,
    }
}

/// The event reported after a successful stake.
pub open spec fn stake_event(
    pool: StakingPool,
    account: UserStakeAccount,
    user: Address,
    amount: u64,
    now: i64,
) -> StakeEvent {
    let after = staked_account(pool, account, user, amount, now);
    StakeEvent {
        user: user,
        amount: amount,
        total_staked: after.amount_staked,
        is_member: after.is_member,
        timestamp: now,
    }
}

/// Decides whether a stake may go ahead and, if so, which transfer the host must
/// perform before the ledger changes.
pub fn check_stake(pool: &StakingPool, account: &UserStakeAccount, amount: u64) -> (r: Result<
    TransferRequest,
    StakingError,
>)
    ensures
        match stake_error(*pool, *account, amount) {
            Some(e) => r == Err::<TransferRequest, StakingError>(e),
            None => r == Ok::<TransferRequest, StakingError>(TransferRequest::Deposit { amount }),
        },
{
    if amount == 0 {
        return Err(StakingError::InvalidAmount);
    }
    if amount < pool.minimum_stake && account.amount_staked == 0 {
        return Err(StakingError::InsufficientStakeAmount);
    }
    Ok(TransferRequest::Deposit { amount })
}

/// Applies a stake of `amount` by `user` once the host has attempted the deposit
/// transfer; `transfer_completed` is its outcome and `now` the current time.
///
/// A refused stake, or one whose transfer failed, changes nothing.
pub fn stake(
    pool: &mut StakingPool,
    account: &mut UserStakeAccount,
    user: Address,
    amount: u64,
    transfer_completed: bool,
    now: i64,
) -> (r: Result<StakeEvent, StakingError>)
    requires
        stake_error(*old(pool), *old(account), amount) is None ==> stake_fits(
            *old(pool),
            *old(account),
            amount,
        ),
    ensures
        stake_error(*old(pool), *old(account), amount) matches Some(e) ==> r == Err::<
            StakeEvent,
            StakingError,
        >(e),
        stake_error(*old(pool), *old(account), amount) is None && !transfer_completed ==> r
            == Err::<StakeEvent, StakingError>(StakingError::TransferFailed),
        r is Err ==> *final(pool) == *old(pool) && *final(account) == *old(account),
        stake_error(*old(pool), *old(account), amount) is None && transfer_completed ==> {
            &&& r == Ok::<StakeEvent, StakingError>(
                stake_event(*old(pool), *old(account), user, amount, now),
            )
            &&& *final(account) == staked_account(*old(pool), *old(account), user, amount, now)
            &&& *final(pool) == staked_pool(*old(pool), *old(account), amount)
        },
        r is Ok ==> final(account).is_member == (final(account).amount_staked
            >= final(pool).minimum_stake),
{
    if amount == 0 {
        return Err(StakingError::InvalidAmount);
    }
    if amount < pool.minimum_stake && account.amount_staked == 0 {
        return Err(StakingError::InsufficientStakeAmount);
    }
    if !transfer_completed {
        return Err(StakingError::TransferFailed);
    }
    let was_member = account.is_member;
    account.user = user;
    account.amount_staked = account.amount_staked + amount;
    account.stake_timestamp = now;
    account.is_member = account.amount_staked >= pool.minimum_stake;

    pool.total_staked = pool.total_staked + amount;
    if account.is_member && !was_member {
        pool.member_count = pool.member_count + 1;
    }
    Ok(
        StakeEvent {
            user,
            amount,
            total_staked: account.amount_staked,
            is_member: account.is_member,
            timestamp: account.stake_timestamp,
        },
    )
}

/// Why a withdrawal of `amount` from `account` by `user` is refused, if it is.
pub open spec fn unstake_error(account: UserStakeAccount, user: Address, amount: u64) -> Option<
    StakingError,
> {
    if account.user.bytes@ != user.bytes@ {
        Some(StakingError::Unauthorized)
    } else if amount == 0 {
        Some(StakingError::InvalidAmount)
    } else if account.amount_staked < amount {
        Some(StakingError::InsufficientBalance)
    } else {
        None
    }
}

/// Whether the pool's counters hold what a successful withdrawal takes from them.
/// Both hold of a record that the pool's aggregates count.
pub open spec fn unstake_fits(pool: StakingPool, account: UserStakeAccount, amount: u64) -> bool {
    &&& amount <= pool.total_staked
    &&& account.is_member ==> pool.member_count > 0
}

/// The participant's record after a successful withdrawal.
pub open spec fn unstaked_account(
    pool: StakingPool,
    account: UserStakeAccount,
    amount: u64,
    now: i64,
) -> UserStakeAccount {
    let balance = (account.amount_staked - amount) as u64;
    UserStakeAccount {
        user: account.user,
        amount_staked: balance,
        stake_timestamp: account.stake_timestamp,
        last_unstake_timestamp: now,
        is_member: balance >= pool.minimum_stake,
    }
}

/// The pool after a successful withdrawal: the amount leaves the total, and the
/// member count falls by one when the participant drops below the threshold.
pub open spec fn unstaked_pool(pool: StakingPool, account: UserStakeAccount, amount: u64) -> StakingPool {
    let leaves = account.is_member && account.amount_staked - amount < pool.minimum_stake;
    StakingPool {
        authority: pool.authority,
        total_staked: (pool.total_staked - amount) as u64,
        member_count: if leaves {
            (pool.member_count - 1) as u64
        } else {
            pool.member_count
        },
        minimum_stake: pool.minimum_stake,
        token_mint: pool.token_mint,
        bump: pool.bump,
    }
}

/// The event reported after a successful withdrawal.
pub open spec fn unstake_event(
    pool: StakingPool,
    account: UserStakeAccount,
    amount: u64,
    now: i64,
) -> UnstakeEvent {
    let after = unstaked_account(pool, account, amount, now);
    UnstakeEvent {
        user: account.user,
        amount: amount,
        remaining_staked: after.amount_staked,
        is_member: after.is_member,
        timestamp: now,
    }
}

/// Decides whether a withdrawal may go ahead and, if so, which transfer the host
/// must perform before the ledger changes. The pool signs it with its own seeds.
pub fn check_unstake(pool: &StakingPool, account: &UserStakeAccount, user: Address, amount: u64) -> (r:
    Result<TransferRequest, StakingError>)
    ensures
        match unstake_error(*account, user, amount) {
            Some(e) => r == Err::<TransferRequest, StakingError>(e),
            None => r == Ok::<TransferRequest, StakingError>(
                TransferRequest::Withdraw { amount, pool_bump: pool.bump },
            ),
        },
{
    if !account.user.same_as(&user) {
        return Err(StakingError::Unauthorized);
    }
    if amount == 0 {
        return Err(StakingError::InvalidAmount);
    }
    if account.amount_staked < amount {
        return Err(StakingError::InsufficientBalance);
    }
    Ok(TransferRequest::Withdraw { amount, pool_bump: pool.bump })
}

/// Applies a withdrawal of `amount` by `user` once the host has attempted the
/// transfer out of the pool; `transfer_completed` is its outcome and `now` the
/// current time.
///
/// A refused withdrawal, or one whose transfer failed, changes nothing. A balance
/// may fall to exactly the threshold and stay a member, or to zero and keep its
/// record.
pub fn unstake(
    pool: &mut StakingPool,
    account: &mut UserStakeAccount,
    user: Address,
    amount: u64,
    transfer_completed: bool,
    now: i64,
) -> (r: Result<UnstakeEvent, StakingError>)
    requires
        unstake_error(*old(account), user, amount) is None ==> unstake_fits(
            *old(pool),
            *old(account),
            amount,
        ),
    ensures
        unstake_error(*old(account), user, amount) matches Some(e) ==> r == Err::<
            UnstakeEvent,
            StakingError,
        >(e),
        unstake_error(*old(account), user, amount) is None && !transfer_completed ==> r == Err::<
            UnstakeEvent,
            StakingError,
        >(StakingError::TransferFailed),
        r is Err ==> *final(pool) == *old(pool) && *final(account) == *old(account),
        unstake_error(*old(account), user, amount) is None && transfer_completed ==> {
            &&& r == Ok::<UnstakeEvent, StakingError>(
                unstake_event(*old(pool), *old(account), amount, now),
            )
            &&& *final(account) == unstaked_account(*old(pool), *old(account), amount, now)
            &&& *final(pool) == unstaked_pool(*old(pool), *old(account), amount)
        },
        old(account).amount_staked < amount ==> r is Err,
        r is Ok ==> final(account).is_member == (final(account).amount_staked
            >= final(pool).minimum_stake),
{
    if !account.user.same_as(&user) {
        return Err(StakingError::Unauthorized);
    }
    if amount == 0 {
        return Err(StakingError::InvalidAmount);
    }
    if account.amount_staked < amount {
        return Err(StakingError::InsufficientBalance);
    }
    let new_balance = account.amount_staked - amount;
    let was_member = account.is_member;
    let will_be_member = new_balance >= pool.minimum_stake;
    if !transfer_completed {
        return Err(StakingError::TransferFailed);
    }
    account.amount_staked = new_balance;
    account.is_member = will_be_member;
    account.last_unstake_timestamp = now;

    pool.total_staked = pool.total_staked - amount;
    if was_member && !will_be_member {
        pool.member_count = pool.member_count - 1;
    }
    Ok(
        UnstakeEvent {
            user: account.user,
            amount,
            remaining_staked: account.amount_staked,
            is_member: account.is_member,
            timestamp: account.last_unstake_timestamp,
        },
    )
}

} // verus!
