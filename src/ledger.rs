//! The pool's aggregates against the whole set of participant records.
//!
//! `records` lists every participant record, one per participant; an operation on
//! a participant's record replaces the element at that participant's index, and a
//! participant's first stake appends an empty record for them.
use vstd::prelude::*;

use crate::staking::{
    stake_error, stake_fits, staked_account, staked_pool, unstake_error, unstake_fits,
    unstaked_account, unstaked_pool,
};
use crate::types::{Address, StakingPool, UserStakeAccount};

verus! {

/// The sum of the staked balances over `records`.
pub open spec fn total_of(records: Seq<UserStakeAccount>) -> int
    decreases records.len(),
{
    if records.len() == 0 {
        0
    } else {
        total_of(records.drop_last()) + records.last().amount_staked
    }
}

/// The number of records in `records` flagged as members.
pub open spec fn members_of(records: Seq<UserStakeAccount>) -> int
    decreases records.len(),
{
    if records.len() == 0 {
        0
    } else {
        members_of(records.drop_last()) + if records.last().is_member {
            1int
        } else {
            0int
        }
    }
}

/// The pool agrees with the records: its total is their sum, its member count is
/// the number of members among them, and each record's flag says whether its
/// balance reaches the threshold.
pub open spec fn is_consistent(pool: StakingPool, records: Seq<UserStakeAccount>) -> bool {
    &&& pool.minimum_stake > 0
    &&& pool.total_staked == total_of(records)
    &&& pool.member_count == members_of(records)
    &&& forall|i: int|
        0 <= i < records.len() ==> #[trigger] records[i].is_member == (records[i].amount_staked
            >= pool.minimum_stake)
}

proof fn lemma_update_sums(records: Seq<UserStakeAccount>, i: int, r: UserStakeAccount)
    requires
        0 <= i < records.len(),
    ensures
        total_of(records.update(i, r)) == total_of(records) - records[i].amount_staked
            + r.amount_staked,
        members_of(records.update(i, r)) == members_of(records) - (if records[i].is_member {
            1int
        } else {
            0int
        }) + (if r.is_member {
            1int
        } else {
            0int
        }),
    decreases records.len(),
{
    let updated = records.update(i, r);
    if i == records.len() - 1 {
        assert(updated.drop_last() =~= records.drop_last());
    } else {
        lemma_update_sums(records.drop_last(), i, r);
        assert(updated.drop_last() =~= records.drop_last().update(i, r));
    }
}

proof fn lemma_sums_nonnegative(records: Seq<UserStakeAccount>)
    ensures
        total_of(records) >= 0,
        members_of(records) >= 0,
    decreases records.len(),
{
    if records.len() > 0 {
        lemma_sums_nonnegative(records.drop_last());
    }
}

proof fn lemma_record_within_sums(records: Seq<UserStakeAccount>, i: int)
    requires
        0 <= i < records.len(),
    ensures
        records[i].amount_staked <= total_of(records),
        records[i].is_member ==> members_of(records) >= 1,
    decreases records.len(),
{
    if i < records.len() - 1 {
        lemma_record_within_sums(records.drop_last(), i);
        assert(records.drop_last()[i] == records[i]);
    } else {
        lemma_sums_nonnegative(records.drop_last());
    }
    lemma_sums_nonnegative(records);
}

/// Adding a participant's empty record keeps the pool consistent with the records.
pub proof fn lemma_new_record_keeps_consistency(
    pool: StakingPool,
    records: Seq<UserStakeAccount>,
    record: UserStakeAccount,
)
    requires
        is_consistent(pool, records),
        record.amount_staked == 0,
        !record.is_member,
    ensures
        is_consistent(pool, records.push(record)),
{
    assert(records.push(record).drop_last() =~= records);
}

/// A successful stake by the participant at index `i` keeps the pool's total equal
/// to the sum of the balances, its member count equal to the number of members, and
/// every record's flag equal to whether its balance reaches the threshold.
pub proof fn lemma_stake_keeps_consistency(
    pool: StakingPool,
    records: Seq<UserStakeAccount>,
    i: int,
    user: Address,
    amount: u64,
    now: i64,
)
    requires
        is_consistent(pool, records),
        0 <= i < records.len(),
        stake_error(pool, records[i], amount) is None,
        stake_fits(pool, records[i], amount),
    ensures
        is_consistent(
            staked_pool(pool, records[i], amount),
            records.update(i, staked_account(pool, records[i], user, amount, now)),
        ),
{
    let after = staked_account(pool, records[i], user, amount, now);
    lemma_update_sums(records, i, after);
    let updated = records.update(i, after);
    let pool2 = staked_pool(pool, records[i], amount);
    assert forall|j: int| 0 <= j < updated.len() implies #[trigger] updated[j].is_member == (
    updated[j].amount_staked >= pool2.minimum_stake) by {
        if j != i {
            assert(updated[j] == records[j]);
        }
    }
}

/// In a consistent ledger, every withdrawal that the rules allow finds the pool's
/// counters able to give it up, and, once applied, leaves the pool consistent with
/// the records.
pub proof fn lemma_unstake_keeps_consistency(
    pool: StakingPool,
    records: Seq<UserStakeAccount>,
    i: int,
    user: Address,
    amount: u64,
    now: i64,
)
    requires
        is_consistent(pool, records),
        0 <= i < records.len(),
        unstake_error(records[i], user, amount) is None,
    ensures
        unstake_fits(pool, records[i], amount),
        is_consistent(
            unstaked_pool(pool, records[i], amount),
            records.update(i, unstaked_account(pool, records[i], amount, now)),
        ),
{
    lemma_record_within_sums(records, i);
    let after = unstaked_account(pool, records[i], amount, now);
    lemma_update_sums(records, i, after);
    let updated = records.update(i, after);
    let pool2 = unstaked_pool(pool, records[i], amount);
    assert forall|j: int| 0 <= j < updated.len() implies #[trigger] updated[j].is_member == (
    updated[j].amount_staked >= pool2.minimum_stake) by {
        if j != i {
            assert(updated[j] == records[j]);
        }
    }
}

} // verus!
