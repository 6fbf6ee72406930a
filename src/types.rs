use vstd::prelude::*;

verus! {

/// A 32-byte account address (a public key).
#[derive(Clone, Copy, Debug, PartialEq, Eq)]
pub struct Address {
    pub bytes: [u8; 32],
}

impl Address {
    /// Whether two addresses hold the same bytes.
    pub fn same_as(&self, other: &Address) -> (r: bool)
        ensures
            r == (self.bytes@ == other.bytes@),
    {
        let mut i: usize = 0;
        while i < 32
            invariant
                0 <= i <= 32,
                self.bytes@.len() == 32,
                other.bytes@.len() == 32,
                forall|j: int| 0 <= j < i ==> self.bytes@[j] == other.bytes@[j],
            decreases 32 - i,
        {
            if self.bytes[i] != other.bytes[i] {
                return false;
            }
            i = i + 1;
        }
        assert(self.bytes@ =~= other.bytes@);
        true
    }
}

/// The membership threshold: one million whole tokens at nine decimals.
pub const MINIMUM_STAKE: u64 = 1_000_000 * 1_000_000_000;

/// The pool ledger: the aggregates over every participant record.
#[derive(Clone, Copy, Debug, PartialEq, Eq)]
pub struct StakingPool {
    pub authority: Address,
    pub total_staked: u64,
    pub member_count: u64,
    pub minimum_stake: u64,
    pub token_mint: Address,
    /// The seed byte from which the pool derives its own signing address.
    pub bump: u8,
}

/// One participant's record.
#[derive(Clone, Copy, Debug, PartialEq, Eq)]
pub struct UserStakeAccount {
    pub user: Address,
    pub amount_staked: u64,
    pub stake_timestamp: i64,
    pub last_unstake_timestamp: i64,
    pub is_member: bool,
}

impl UserStakeAccount {
    /// The all-zero record that a participant's first stake starts from.
    pub fn empty() -> (r: UserStakeAccount)
        ensures
            r.user.bytes@ == Seq::new(32, |_i: int| 0u8),
            r.amount_staked == 0,
            r.stake_timestamp == 0,
            r.last_unstake_timestamp == 0,
            !r.is_member,
    {
        let r = UserStakeAccount {
            user: Address { bytes: [0u8; 32] },
            amount_staked: 0,
            stake_timestamp: 0,
            last_unstake_timestamp: 0,
            is_member: false,
        };
        assert(r.user.bytes@ =~= Seq::new(32, |_i: int| 0u8));
        r
    }
}

/// What a participant's record says of their membership.
#[derive(Clone, Copy, Debug, PartialEq, Eq)]
pub struct MembershipStatus {
    pub is_member: bool,
    pub amount_staked: u64,
    pub stake_timestamp: i64,
    pub minimum_required: u64,
    /// How far the balance is towards the threshold, in whole percent, at most 100.
    pub progress_percentage: u8,
}

/// The pool's aggregates as reported to callers.
#[derive(Clone, Copy, Debug, PartialEq, Eq)]
pub struct PoolStats {
    pub total_staked: u64,
    pub member_count: u64,
    pub minimum_stake: u64,
    pub token_mint: Address,
}

/// Reported after a successful stake.
#[derive(Clone, Copy, Debug, PartialEq, Eq)]
pub struct StakeEvent {
    pub user: Address,
    pub amount: u64,
    pub total_staked: u64,
    pub is_member: bool,
    pub timestamp: i64,
}

/// Reported after a successful unstake.
#[derive(Clone, Copy, Debug, PartialEq, Eq)]
pub struct UnstakeEvent {
    pub user: Address,
    pub amount: u64,
    pub remaining_staked: u64,
    pub is_member: bool,
    pub timestamp: i64,
}

/// The token movement that an operation asks the host to perform.
#[derive(Clone, Copy, Debug, PartialEq, Eq, Structural)]
pub enum TransferRequest {
    /// From the participant's token account into the pool's, signed by the participant.
    Deposit { amount: u64 },
    /// From the pool's token account back to the participant's, signed by the pool
    /// with the seeds `b"pool"` and `pool_bump`.
    Withdraw { amount: u64, pool_bump: u8 },
}

#[derive(Clone, Copy, Debug, PartialEq, Eq, Structural)]
pub enum StakingError {
    /// The amount is zero.
    InvalidAmount,
    /// A first deposit below the membership threshold.
    InsufficientStakeAmount,
    /// A withdrawal larger than the participant's balance.
    InsufficientBalance,
    /// No record exists for the participant.
    RecordNotFound,
    /// The caller does not own the record it acts on.
    Unauthorized,
    /// The token transfer was rejected.
    TransferFailed,
    /// The pool already exists.
    AlreadyInitialized,
}

impl StakingError {
    /// A human-readable description of the error.
    pub fn message(&self) -> (r: &'static str) {
        match self {
            StakingError::InvalidAmount => "Invalid amount: must be greater than 0",
            StakingError::InsufficientStakeAmount =>
                "Insufficient stake amount for membership: minimum 1,000,000 BBC tokens required",
            StakingError::InsufficientBalance => "Insufficient balance for unstaking",
            StakingError::RecordNotFound => "User account not found",
            StakingError::Unauthorized => "Unauthorized: only pool authority can perform this action",
            StakingError::TransferFailed => "Token transfer failed",
            StakingError::AlreadyInitialized => "Staking pool already initialized",
        }
    }
}

} // verus!
