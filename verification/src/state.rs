//! Account records, protocol constants and the error type.

use vstd::prelude::*;

verus! {

/// Shortest delay, in seconds, that a pool may be created with.
pub const MIN_TIME_DELAY: i64 = 60;

/// Fee taken from every withdrawal, in basis points.
pub const FEE_BASIS_POINTS: u64 = 10;

/// Number of basis points in the whole.
pub const BASIS_POINTS_DIVISOR: u64 = 10000;

/// The four denominations a pool may have, in lamports.
pub const DENOMINATION_01_SOL: u64 = 100_000_000;

pub const DENOMINATION_1_SOL: u64 = 1_000_000_000;

pub const DENOMINATION_10_SOL: u64 = 10_000_000_000;

pub const DENOMINATION_100_SOL: u64 = 100_000_000_000;

/// Most nullifiers that one registry holds.
pub const MAX_NULLIFIERS_PER_ACCOUNT: usize = 100;

/// Largest encrypted note, in bytes, that a deposit may carry.
pub const MAX_ENCRYPTED_DATA_LEN: usize = 200;

/// Number of leaves of the commitment tree.
pub const TREE_CAPACITY: u32 = 1_048_576;

/// Why an operation was refused.
#[derive(Clone, Copy, Debug, PartialEq, Eq, Structural)]
pub enum MixerError {
    InvalidDenomination,
    InvalidTimeDelay,
    MixerPaused,
    InvalidPool,
    TimeDelayNotMet,
    InsufficientFunds,
    InvalidCommitment,
    TreeFull,
    InvalidNullifier,
    NullifierAlreadyUsed,
    InvalidMerkleProof,
    NullifierRegistryFull,
    InvalidSecret,
    InsufficientAnonymitySet,
    TimeCalculationError,
    ArithmeticOverflow,
    PoolHasOutstandingDeposits,
    EncryptedDataTooLarge,
}

/// The address of an account: thirty-two bytes.
#[derive(Clone, Copy, Debug, PartialEq, Eq, Hash)]
pub struct Pubkey {
    pub bytes: [u8; 32],
}

impl Default for Pubkey {
    /// The all-zero address.
    fn default() -> (key: Pubkey)
        ensures
            forall|i: int| 0 <= i < 32 ==> key.bytes@[i] == 0u8,
    {
        Pubkey { bytes: [0u8; 32] }
    }
}

/// The mixer's configuration: who administers it, who collects the fees,
/// and whether deposits and withdrawals are suspended.
#[derive(Clone, Copy, Debug, PartialEq, Eq)]
pub struct Config {
    pub authority: Pubkey,
    pub fee_collector: Pubkey,
    pub paused: bool,
    pub bump: u8,
}

impl Config {
    /// Size of the stored record in bytes, with its 8-byte tag.
    pub const LEN: usize = 8 + 32 + 32 + 1 + 1;
}

/// One pool of a fixed denomination and its counters.
#[derive(Clone, Copy, Debug, PartialEq, Eq)]
pub struct MixerPool {
    pub denomination: u64,
    pub min_delay: i64,
    pub total_deposits: u32,
    pub total_withdrawals: u32,
    /// Kept for the stored layout; the tree is built off-chain and this
    /// field is never read.
    pub merkle_root: [u8; 32],
    pub next_leaf_index: u32,
    pub creation_timestamp: i64,
    pub bump: u8,
}

impl MixerPool {
    /// Size of the stored record in bytes, with its 8-byte tag.
    pub const LEN: usize = 8 + 8 + 8 + 4 + 4 + 32 + 4 + 8 + 1;

    /// No more has been withdrawn than was deposited, and the leaf cursor
    /// is within the tree.
    pub open spec fn wf(&self) -> bool {
        &&& self.total_withdrawals <= self.total_deposits
        &&& self.next_leaf_index <= TREE_CAPACITY
    }

    /// Every deposit has been withdrawn: the only state in which a pool may
    /// be closed.
    pub open spec fn settled(&self) -> bool {
        self.total_deposits == self.total_withdrawals
    }
}

/// What is recorded of one deposit.
#[derive(Clone, Copy, Debug, PartialEq, Eq)]
pub struct CommitmentRecord {
    pub pool: Pubkey,
    pub commitment: [u8; 32],
    pub leaf_index: u32,
    pub timestamp: i64,
    pub bump: u8,
}

impl CommitmentRecord {
    /// Size of the stored record in bytes, with its 8-byte tag.
    pub const LEN: usize = 8 + 32 + 32 + 4 + 8 + 1;
}

/// The depositor's encrypted note, kept for recovery on another device.
/// Its contents are never read.
#[derive(Clone, Debug, PartialEq, Eq)]
pub struct EncryptedNote {
    pub owner: Pubkey,
    pub encrypted_data: Vec<u8>,
    pub pool: Pubkey,
    pub leaf_index: u32,
    pub timestamp: i64,
    pub bump: u8,
}

impl EncryptedNote {
    /// Largest size of the stored record in bytes, with its 8-byte tag.
    pub const MAX_SIZE: usize = 8 + 32 + 4 + 200 + 32 + 4 + 8 + 1;
}

} // verus!
