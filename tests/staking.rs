use solana_staking::queries::{get_membership_status, get_pool_stats, progress_percentage};
use solana_staking::staking::{check_stake, check_unstake, initialize, stake, unstake};
use solana_staking::types::{
    Address, StakingError, StakingPool, TransferRequest, UserStakeAccount, MINIMUM_STAKE,
};

const MIN: u64 = 1_000_000_000_000_000;

fn addr(b: u8) -> Address {
    Address { bytes: [b; 32] }
}

fn new_pool() -> StakingPool {
    initialize(None, addr(9), addr(8), 254).unwrap()
}

#[test]
fn initialize_sets_fixed_configuration() {
    let pool = new_pool();
    assert_eq!(pool.total_staked, 0);
    assert_eq!(pool.member_count, 0);
    assert_eq!(pool.minimum_stake, MIN);
    assert_eq!(MINIMUM_STAKE, MIN);
    assert_eq!(pool.authority, addr(9));
    assert_eq!(pool.token_mint, addr(8));
    assert_eq!(pool.bump, 254);
}

#[test]
fn initialize_twice_is_rejected() {
    let pool = new_pool();
    assert_eq!(
        initialize(Some(&pool), addr(9), addr(8), 254),
        Err(StakingError::AlreadyInitialized)
    );
}

#[test]
fn first_deposit_of_exactly_minimum_makes_member() {
    let mut pool = new_pool();
    let mut acc = UserStakeAccount::empty();
    let ev = stake(&mut pool, &mut acc, addr(1), MIN, true, 100).unwrap();
    assert!(acc.is_member);
    assert_eq!(acc.amount_staked, MIN);
    assert_eq!(acc.user, addr(1));
    assert_eq!(acc.stake_timestamp, 100);
    assert_eq!(pool.member_count, 1);
    assert_eq!(ev.amount, MIN);
    assert_eq!(ev.total_staked, MIN);
    assert!(ev.is_member);
    assert_eq!(ev.timestamp, 100);
    assert_eq!(ev.user, addr(1));
}

#[test]
fn first_deposit_below_minimum_is_rejected() {
    let mut pool = new_pool();
    let mut acc = UserStakeAccount::empty();
    let before_pool = pool;
    let before_acc = acc;
    assert_eq!(check_stake(&pool, &acc, MIN - 1), Err(StakingError::InsufficientStakeAmount));
    assert_eq!(
        stake(&mut pool, &mut acc, addr(1), MIN - 1, true, 100),
        Err(StakingError::InsufficientStakeAmount)
    );
    assert_eq!(pool, before_pool);
    assert_eq!(acc, before_acc);
}

#[test]
fn zero_amounts_are_rejected() {
    let mut pool = new_pool();
    let mut acc = UserStakeAccount::empty();
    assert_eq!(check_stake(&pool, &acc, 0), Err(StakingError::InvalidAmount));
    assert_eq!(stake(&mut pool, &mut acc, addr(1), 0, true, 1), Err(StakingError::InvalidAmount));
    stake(&mut pool, &mut acc, addr(1), MIN, true, 1).unwrap();
    assert_eq!(check_unstake(&pool, &acc, addr(1), 0), Err(StakingError::InvalidAmount));
    assert_eq!(unstake(&mut pool, &mut acc, addr(1), 0, true, 2), Err(StakingError::InvalidAmount));
    assert_eq!(acc.amount_staked, MIN);
}

#[test]
fn re_crossing_the_threshold() {
    let mut pool = new_pool();
    let mut acc = UserStakeAccount::empty();
    stake(&mut pool, &mut acc, addr(1), MIN, true, 1).unwrap();
    assert!(acc.is_member);
    assert_eq!(pool.member_count, 1);
    let ev = unstake(&mut pool, &mut acc, addr(1), 1, true, 2).unwrap();
    assert!(!acc.is_member);
    assert!(!ev.is_member);
    assert_eq!(ev.remaining_staked, MIN - 1);
    assert_eq!(pool.member_count, 0);
    assert_eq!(acc.amount_staked, MIN - 1);
    assert_eq!(acc.last_unstake_timestamp, 2);
    stake(&mut pool, &mut acc, addr(1), 1, true, 3).unwrap();
    assert!(acc.is_member);
    assert_eq!(pool.member_count, 1);
    assert_eq!(acc.amount_staked, MIN);
    assert_eq!(pool.total_staked, MIN);
}

#[test]
fn top_up_below_threshold_by_existing_member() {
    let mut pool = new_pool();
    let mut acc = UserStakeAccount::empty();
    stake(&mut pool, &mut acc, addr(1), MIN, true, 1).unwrap();
    assert_eq!(check_stake(&pool, &acc, 1), Ok(TransferRequest::Deposit { amount: 1 }));
    let ev = stake(&mut pool, &mut acc, addr(1), 1, true, 2).unwrap();
    assert_eq!(ev.total_staked, MIN + 1);
    assert_eq!(acc.amount_staked, MIN + 1);
    assert!(acc.is_member);
    assert_eq!(pool.member_count, 1);
    assert_eq!(pool.total_staked, MIN + 1);
}

#[test]
fn stake_then_unstake_half() {
    let mut pool = new_pool();
    let mut a = UserStakeAccount::empty();
    stake(&mut pool, &mut a, addr(1), 1_000_000_000_000_000, true, 1).unwrap();
    assert!(a.is_member);
    assert_eq!(pool.member_count, 1);
    assert_eq!(pool.total_staked, 1_000_000_000_000_000);
    unstake(&mut pool, &mut a, addr(1), 500_000_000_000_000, true, 2).unwrap();
    assert_eq!(a.amount_staked, 500_000_000_000_000);
    assert!(!a.is_member);
    assert_eq!(pool.member_count, 0);
    assert_eq!(pool.total_staked, 500_000_000_000_000);
}

#[test]
fn overdraft_is_rejected() {
    let mut pool = new_pool();
    let mut acc = UserStakeAccount::empty();
    stake(&mut pool, &mut acc, addr(1), MIN, true, 1).unwrap();
    let before_pool = pool;
    let before_acc = acc;
    assert_eq!(check_unstake(&pool, &acc, addr(1), MIN + 1), Err(StakingError::InsufficientBalance));
    assert_eq!(
        unstake(&mut pool, &mut acc, addr(1), MIN + 1, true, 2),
        Err(StakingError::InsufficientBalance)
    );
    assert_eq!(pool, before_pool);
    assert_eq!(acc, before_acc);
}

#[test]
fn unstake_to_threshold_keeps_membership_and_to_zero_keeps_record() {
    let mut pool = new_pool();
    let mut acc = UserStakeAccount::empty();
    stake(&mut pool, &mut acc, addr(1), MIN + 5, true, 1).unwrap();
    unstake(&mut pool, &mut acc, addr(1), 5, true, 2).unwrap();
    assert!(acc.is_member);
    assert_eq!(pool.member_count, 1);
    unstake(&mut pool, &mut acc, addr(1), MIN, true, 3).unwrap();
    assert_eq!(acc.amount_staked, 0);
    assert!(!acc.is_member);
    assert_eq!(acc.user, addr(1));
    assert_eq!(acc.stake_timestamp, 1);
    assert_eq!(pool.member_count, 0);
    assert_eq!(pool.total_staked, 0);
}

#[test]
fn unstake_by_another_user_is_unauthorized() {
    let mut pool = new_pool();
    let mut acc = UserStakeAccount::empty();
    stake(&mut pool, &mut acc, addr(1), MIN, true, 1).unwrap();
    assert_eq!(check_unstake(&pool, &acc, addr(2), 1), Err(StakingError::Unauthorized));
    assert_eq!(unstake(&mut pool, &mut acc, addr(2), 1, true, 2), Err(StakingError::Unauthorized));
    assert_eq!(acc.amount_staked, MIN);
}

#[test]
fn failed_transfer_changes_nothing() {
    let mut pool = new_pool();
    let mut acc = UserStakeAccount::empty();
    assert_eq!(
        stake(&mut pool, &mut acc, addr(1), MIN, false, 1),
        Err(StakingError::TransferFailed)
    );
    assert_eq!(pool, new_pool());
    assert_eq!(acc, UserStakeAccount::empty());
    stake(&mut pool, &mut acc, addr(1), MIN, true, 1).unwrap();
    let before_pool = pool;
    let before_acc = acc;
    assert_eq!(
        check_unstake(&pool, &acc, addr(1), 1),
        Ok(TransferRequest::Withdraw { amount: 1, pool_bump: 254 })
    );
    assert_eq!(
        unstake(&mut pool, &mut acc, addr(1), 1, false, 2),
        Err(StakingError::TransferFailed)
    );
    assert_eq!(pool, before_pool);
    assert_eq!(acc, before_acc);
}

#[test]
fn aggregates_match_records_across_participants() {
    let mut pool = new_pool();
    let mut accs = vec![UserStakeAccount::empty(), UserStakeAccount::empty(), UserStakeAccount::empty()];
    stake(&mut pool, &mut accs[0], addr(1), MIN, true, 1).unwrap();
    stake(&mut pool, &mut accs[1], addr(2), MIN * 2, true, 2).unwrap();
    stake(&mut pool, &mut accs[2], addr(3), MIN + 7, true, 3).unwrap();
    unstake(&mut pool, &mut accs[1], addr(2), MIN + 1, true, 4).unwrap();
    unstake(&mut pool, &mut accs[2], addr(3), 3, true, 5).unwrap();
    let _ = unstake(&mut pool, &mut accs[0], addr(1), MIN + 1, true, 6);
    let total: u64 = accs.iter().map(|a| a.amount_staked).sum();
    let members = accs.iter().filter(|a| a.is_member).count() as u64;
    assert_eq!(pool.total_staked, total);
    assert_eq!(pool.member_count, members);
    assert_eq!(members, 2);
    for a in &accs {
        assert_eq!(a.is_member, a.amount_staked >= pool.minimum_stake);
    }
}

#[test]
fn membership_status_reports_progress() {
    let mut pool = new_pool();
    let mut acc = UserStakeAccount::empty();
    stake(&mut pool, &mut acc, addr(1), MIN, true, 42).unwrap();
    unstake(&mut pool, &mut acc, addr(1), MIN / 4 * 3 + 1, true, 43).unwrap();
    let s = get_membership_status(&pool, Some(&acc)).unwrap();
    assert!(!s.is_member);
    assert_eq!(s.amount_staked, MIN / 4 - 1);
    assert_eq!(s.stake_timestamp, 42);
    assert_eq!(s.minimum_required, MIN);
    assert_eq!(s.progress_percentage, 24);
    stake(&mut pool, &mut acc, addr(1), MIN * 3, true, 44).unwrap();
    assert_eq!(get_membership_status(&pool, Some(&acc)).unwrap().progress_percentage, 100);
}

#[test]
fn membership_status_without_record() {
    let pool = new_pool();
    assert_eq!(get_membership_status(&pool, None), Err(StakingError::RecordNotFound));
}

#[test]
fn progress_values() {
    assert_eq!(progress_percentage(0, MIN), 0);
    assert_eq!(progress_percentage(MIN / 2, MIN), 50);
    assert_eq!(progress_percentage(MIN - 1, MIN), 99);
    assert_eq!(progress_percentage(MIN, MIN), 100);
    assert_eq!(progress_percentage(u64::MAX, MIN), 100);
    assert_eq!(progress_percentage(u64::MAX - 1, u64::MAX), 99);
    assert_eq!(progress_percentage(1, 3), 33);
}

#[test]
fn pool_stats_project_the_pool() {
    let mut pool = new_pool();
    let mut acc = UserStakeAccount::empty();
    stake(&mut pool, &mut acc, addr(1), MIN + 3, true, 1).unwrap();
    let s = get_pool_stats(&pool);
    assert_eq!(s.total_staked, MIN + 3);
    assert_eq!(s.member_count, 1);
    assert_eq!(s.minimum_stake, MIN);
    assert_eq!(s.token_mint, addr(8));
}

#[test]
fn addresses_compare_by_bytes() {
    let mut b = [5u8; 32];
    assert!(addr(5).same_as(&Address { bytes: b }));
    b[31] = 6;
    assert!(!addr(5).same_as(&Address { bytes: b }));
}

#[test]
fn error_messages() {
    assert_eq!(StakingError::InvalidAmount.message(), "Invalid amount: must be greater than 0");
    assert_eq!(StakingError::InsufficientBalance.message(), "Insufficient balance for unstaking");
}
