//! The pool ledger: creating pools, deposits, withdrawals and the
//! administrative operations. Each operation works on a context that holds,
//! as plain values, the records and balances of the accounts it touches;
//! the host fills the context in and stores it back when the operation
//! succeeds. An operation that is refused leaves its context untouched.

use crate::fees::{spec_fee, spec_net, split_fee, FeeSplit};
use crate::merkle::{
    compute_commitment, is_zero_digest, siblings, spec_commitment, spec_verify_merkle_proof,
    verify_merkle_proof, zero_digest, MERKLE_TREE_DEPTH,
};
use crate::registry::NullifierRegistry;
use crate::state::{
    CommitmentRecord, Config, EncryptedNote, MixerError, MixerPool, Pubkey, DENOMINATION_01_SOL,
    DENOMINATION_100_SOL, DENOMINATION_10_SOL, DENOMINATION_1_SOL, FEE_BASIS_POINTS,
    MAX_ENCRYPTED_DATA_LEN, MAX_NULLIFIERS_PER_ACCOUNT, MIN_TIME_DELAY, TREE_CAPACITY,
};
use vstd::prelude::*;

verus! {

/// The accounts of a withdrawal. The three balances are those of the pool,
/// of the recipient and of the fee collector named in the configuration.
#[derive(Clone, Debug, PartialEq, Eq)]
pub struct Withdraw {
    pub config: Config,
    pub pool: MixerPool,
    pub pool_lamports: u64,
    pub nullifier_record: NullifierRegistry,
    pub recipient_lamports: u64,
    pub fee_collector_lamports: u64,
}

/// Why a withdrawal is refused, if it is: the first of the checks, in the
/// order in which they are made, that fails.
pub open spec fn spec_withdraw_error(
    ctx: Withdraw,
    nullifier: Seq<u8>,
    secret: Seq<u8>,
    merkle_root: Seq<u8>,
    path: Seq<Seq<u8>>,
    indices: Seq<bool>,
    current_time: i64,
) -> Option<MixerError> {
    let amount = ctx.pool.denomination as int;
    let pool_age = current_time - ctx.pool.creation_timestamp;
    if ctx.config.paused {
        Some(MixerError::MixerPaused)
    } else if nullifier == zero_digest() {
        Some(MixerError::InvalidNullifier)
    } else if secret == zero_digest() {
        Some(MixerError::InvalidSecret)
    } else if ctx.nullifier_record.spec_is_used(nullifier) {
        Some(MixerError::NullifierAlreadyUsed)
    } else if !spec_verify_merkle_proof(
        spec_commitment(secret, nullifier),
        path,
        indices,
        merkle_root,
    ) {
        Some(MixerError::InvalidMerkleProof)
    } else if ctx.pool.total_deposits < 2 {
        Some(MixerError::InsufficientAnonymitySet)
    } else if pool_age < i64::MIN || pool_age > i64::MAX {
        Some(MixerError::TimeCalculationError)
    } else if pool_age < ctx.pool.min_delay {
        Some(MixerError::TimeDelayNotMet)
    } else if amount * FEE_BASIS_POINTS > u64::MAX {
        Some(MixerError::ArithmeticOverflow)
    } else if ctx.pool_lamports < amount {
        Some(MixerError::InsufficientFunds)
    } else if ctx.recipient_lamports + spec_net(amount) > u64::MAX {
        Some(MixerError::ArithmeticOverflow)
    } else if ctx.fee_collector_lamports + spec_fee(amount) > u64::MAX {
        Some(MixerError::ArithmeticOverflow)
    } else if ctx.nullifier_record.entries().len() >= MAX_NULLIFIERS_PER_ACCOUNT {
        Some(MixerError::NullifierRegistryFull)
    } else if ctx.pool.total_withdrawals == u32::MAX {
        Some(MixerError::ArithmeticOverflow)
    } else {
        None
    }
}

/// What a withdrawal that went through has changed: the pool paid out its
/// denomination, split between recipient and fee collector; the nullifier
/// joined the registry; one more withdrawal is counted.
pub open spec fn spec_withdrawn(before: Withdraw, after: Withdraw, nullifier: Seq<u8>) -> bool {
    let amount = before.pool.denomination as int;
    &&& after.config == before.config
    &&& after.pool == (MixerPool {
        total_withdrawals: (before.pool.total_withdrawals + 1) as u32,
        ..before.pool
    })
    &&& after.pool_lamports == before.pool_lamports - amount
    &&& after.recipient_lamports == before.recipient_lamports + spec_net(amount)
    &&& after.fee_collector_lamports == before.fee_collector_lamports + spec_fee(amount)
    &&& after.nullifier_record.pool == before.nullifier_record.pool
    &&& after.nullifier_record.bump == before.nullifier_record.bump
    &&& after.nullifier_record.entries() == before.nullifier_record.entries().push(nullifier)
}

/// Withdraws one denomination from the pool. The caller shows the secret
/// and nullifier behind a commitment and a membership proof for it against
/// `merkle_root`; `current_time` is the host's clock in seconds. The checks
/// are made in a fixed order and the first that fails is reported; funds
/// move and the nullifier is marked spent only when all have passed.
pub fn withdraw(
    ctx: &mut Withdraw,
    nullifier: [u8; 32],
    secret: [u8; 32],
    merkle_root: [u8; 32],
    merkle_proof: [[u8; 32]; MERKLE_TREE_DEPTH],
    path_indices: [bool; MERKLE_TREE_DEPTH],
    current_time: i64,
) -> (result: Result<(), MixerError>)
    ensures
        match result {
            Ok(()) => spec_withdraw_error(
                *old(ctx),
                nullifier@,
                secret@,
                merkle_root@,
                siblings(merkle_proof),
                path_indices@,
                current_time,
            ) is None && spec_withdrawn(*old(ctx), *final(ctx), nullifier@),
            Err(e) => spec_withdraw_error(
                *old(ctx),
                nullifier@,
                secret@,
                merkle_root@,
                siblings(merkle_proof),
                path_indices@,
                current_time,
            ) == Some(e) && *final(ctx) == *old(ctx),
        },
{
    if ctx.config.paused {
        return Err(MixerError::MixerPaused);
    }
    if is_zero_digest(&nullifier) {
        return Err(MixerError::InvalidNullifier);
    }
    if is_zero_digest(&secret) {
        return Err(MixerError::InvalidSecret);
    }
    if ctx.nullifier_record.is_used(&nullifier) {
        return Err(MixerError::NullifierAlreadyUsed);
    }
    let commitment: [u8; 32] = compute_commitment(&secret, &nullifier);
    if !verify_merkle_proof(&commitment, &merkle_proof, &path_indices, &merkle_root) {
        return Err(MixerError::InvalidMerkleProof);
    }
    if ctx.pool.total_deposits < 2 {
        return Err(MixerError::InsufficientAnonymitySet);
    }
    let pool_age: i64 = match current_time.checked_sub(ctx.pool.creation_timestamp) {
        Some(age) => age,
        None => { return Err(MixerError::TimeCalculationError); },
    };
    if pool_age < ctx.pool.min_delay {
        return Err(MixerError::TimeDelayNotMet);
    }
    let withdrawal_amount: u64 = ctx.pool.denomination;
    let split: FeeSplit = match split_fee(withdrawal_amount) {
        Ok(split) => split,
        Err(e) => { return Err(e); },
    };
    if ctx.pool_lamports < withdrawal_amount {
        return Err(MixerError::InsufficientFunds);
    }
    let pool_after_payout: u64 = match ctx.pool_lamports.checked_sub(split.net) {
        Some(v) => v,
        None => { return Err(MixerError::InsufficientFunds); },
    };
    let recipient_after: u64 = match ctx.recipient_lamports.checked_add(split.net) {
        Some(v) => v,
        None => { return Err(MixerError::ArithmeticOverflow); },
    };
    let pool_after_fee: u64 = match pool_after_payout.checked_sub(split.fee) {
        Some(v) => v,
        None => { return Err(MixerError::InsufficientFunds); },
    };
    let fee_collector_after: u64 = match ctx.fee_collector_lamports.checked_add(split.fee) {
        Some(v) => v,
        None => { return Err(MixerError::ArithmeticOverflow); },
    };
    // The registry is asked for room before the counter is looked at, and
    // written to only once nothing can fail any more.
    if ctx.nullifier_record.nullifiers.len() >= MAX_NULLIFIERS_PER_ACCOUNT {
        return Err(MixerError::NullifierRegistryFull);
    }
    let withdrawals_after: u32 = match ctx.pool.total_withdrawals.checked_add(1) {
        Some(v) => v,
        None => { return Err(MixerError::ArithmeticOverflow); },
    };
    match ctx.nullifier_record.add_nullifier(nullifier) {
        Ok(()) => {},
        Err(e) => { return Err(e); },
    }
    ctx.pool_lamports = pool_after_fee;
    ctx.recipient_lamports = recipient_after;
    ctx.fee_collector_lamports = fee_collector_after;
    ctx.pool.total_withdrawals = withdrawals_after;
    Ok(())
}

/// The accounts of a deposit: the pool and its balance, the two records the
/// deposit fills in with the bumps of their addresses, and the depositor
/// with the balance the denomination is taken from.
#[derive(Clone, Debug, PartialEq, Eq)]
pub struct Deposit {
    pub config: Config,
    pub pool: MixerPool,
    pub pool_key: Pubkey,
    pub pool_lamports: u64,
    pub commitment_record: CommitmentRecord,
    pub commitment_record_bump: u8,
    pub encrypted_note: EncryptedNote,
    pub encrypted_note_bump: u8,
    pub depositor: Pubkey,
    pub depositor_lamports: u64,
}

/// Why a deposit is refused, if it is: the first of the checks, in the
/// order in which they are made, that fails.
pub open spec fn spec_deposit_error(ctx: Deposit, commitment: Seq<u8>, data_len: nat) -> Option<
    MixerError,
> {
    if ctx.config.paused {
        Some(MixerError::MixerPaused)
    } else if commitment == zero_digest() {
        Some(MixerError::InvalidCommitment)
    } else if data_len > MAX_ENCRYPTED_DATA_LEN {
        Some(MixerError::EncryptedDataTooLarge)
    } else if ctx.pool.next_leaf_index >= TREE_CAPACITY {
        Some(MixerError::TreeFull)
    } else if ctx.depositor_lamports < ctx.pool.denomination {
        Some(MixerError::InsufficientFunds)
    } else if ctx.pool_lamports + ctx.pool.denomination > u64::MAX {
        Some(MixerError::ArithmeticOverflow)
    } else if ctx.pool.total_deposits == u32::MAX {
        Some(MixerError::ArithmeticOverflow)
    } else {
        None
    }
}

/// What a deposit that went through has changed: the denomination moved
/// from the depositor to the pool, the commitment and the note were
/// recorded under the leaf that was free, and the cursor and the count of
/// deposits moved on by one.
pub open spec fn spec_deposited(
    before: Deposit,
    after: Deposit,
    commitment: [u8; 32],
    encrypted_data: Seq<u8>,
    current_time: i64,
) -> bool {
    let leaf_index = before.pool.next_leaf_index;
    &&& after.config == before.config
    &&& after.pool_key == before.pool_key
    &&& after.depositor == before.depositor
    &&& after.commitment_record_bump == before.commitment_record_bump
    &&& after.encrypted_note_bump == before.encrypted_note_bump
    &&& after.depositor_lamports == before.depositor_lamports - before.pool.denomination
    &&& after.pool_lamports == before.pool_lamports + before.pool.denomination
    &&& after.commitment_record == (CommitmentRecord {
        pool: before.pool_key,
        commitment: commitment,
        leaf_index: leaf_index,
        timestamp: current_time,
        bump: before.commitment_record_bump,
    })
    &&& after.encrypted_note.owner == before.depositor
    &&& after.encrypted_note.encrypted_data@ == encrypted_data
    &&& after.encrypted_note.pool == before.pool_key
    &&& after.encrypted_note.leaf_index == leaf_index
    &&& after.encrypted_note.timestamp == current_time
    &&& after.encrypted_note.bump == before.encrypted_note_bump
    &&& after.pool == (MixerPool {
        next_leaf_index: (leaf_index + 1) as u32,
        total_deposits: (before.pool.total_deposits + 1) as u32,
        ..before.pool
    })
}

/// Deposits one denomination into the pool under `commitment`, with the
/// depositor's encrypted note; `current_time` is the host's clock in
/// seconds. The checks are made in a fixed order and the first that fails
/// is reported.
pub fn deposit(
    ctx: &mut Deposit,
    commitment: [u8; 32],
    encrypted_data: Vec<u8>,
    current_time: i64,
) -> (result: Result<(), MixerError>)
    ensures
        match result {
            Ok(()) => spec_deposit_error(*old(ctx), commitment@, encrypted_data@.len()) is None
                && spec_deposited(*old(ctx), *final(ctx), commitment, encrypted_data@, current_time),
            Err(e) => spec_deposit_error(*old(ctx), commitment@, encrypted_data@.len()) == Some(e)
                && *final(ctx) == *old(ctx),
        },
{
    if ctx.config.paused {
        return Err(MixerError::MixerPaused);
    }
    if is_zero_digest(&commitment) {
        return Err(MixerError::InvalidCommitment);
    }
    if encrypted_data.len() > MAX_ENCRYPTED_DATA_LEN {
        return Err(MixerError::EncryptedDataTooLarge);
    }
    if ctx.pool.next_leaf_index >= TREE_CAPACITY {
        return Err(MixerError::TreeFull);
    }
    let deposit_amount: u64 = ctx.pool.denomination;
    let depositor_after: u64 = match ctx.depositor_lamports.checked_sub(deposit_amount) {
        Some(v) => v,
        None => { return Err(MixerError::InsufficientFunds); },
    };
    let pool_after: u64 = match ctx.pool_lamports.checked_add(deposit_amount) {
        Some(v) => v,
        None => { return Err(MixerError::ArithmeticOverflow); },
    };
    let deposits_after: u32 = match ctx.pool.total_deposits.checked_add(1) {
        Some(v) => v,
        None => { return Err(MixerError::ArithmeticOverflow); },
    };
    let leaf_index: u32 = ctx.pool.next_leaf_index;
    ctx.depositor_lamports = depositor_after;
    ctx.pool_lamports = pool_after;
    ctx.commitment_record = CommitmentRecord {
        pool: ctx.pool_key,
        commitment,
        leaf_index,
        timestamp: current_time,
        bump: ctx.commitment_record_bump,
    };
    ctx.encrypted_note = EncryptedNote {
        owner: ctx.depositor,
        encrypted_data,
        pool: ctx.pool_key,
        leaf_index,
        timestamp: current_time,
        bump: ctx.encrypted_note_bump,
    };
    ctx.pool.next_leaf_index = leaf_index + 1;
    ctx.pool.total_deposits = deposits_after;
    Ok(())
}

/// The accounts of the first set-up: the configuration to fill in and the
/// bump of its address.
#[derive(Clone, Copy, Debug, PartialEq, Eq)]
pub struct Initialize {
    pub config: Config,
    pub config_bump: u8,
}

/// Sets the mixer up: `authority` administers it and collects the fees,
/// and nothing is paused.
pub fn initialize(ctx: &mut Initialize, authority: Pubkey) -> (result: Result<(), MixerError>)
    ensures
        result is Ok,
        final(ctx).config_bump == old(ctx).config_bump,
        final(ctx).config == (Config {
            authority: authority,
            fee_collector: authority,
            paused: false,
            bump: old(ctx).config_bump,
        }),
{
    ctx.config.authority = authority;
    ctx.config.paused = false;
    ctx.config.fee_collector = authority;
    ctx.config.bump = ctx.config_bump;
    Ok(())
}

/// The accounts of a pool's creation: the configuration, the pool record
/// to fill in and the bump of its address.
#[derive(Clone, Copy, Debug, PartialEq, Eq)]
pub struct CreatePool {
    pub config: Config,
    pub pool: MixerPool,
    pub pool_bump: u8,
}

/// Whether `denomination` is one of the four that a pool may have.
pub open spec fn spec_valid_denomination(denomination: u64) -> bool {
    ||| denomination == DENOMINATION_01_SOL
    ||| denomination == DENOMINATION_1_SOL
    ||| denomination == DENOMINATION_10_SOL
    ||| denomination == DENOMINATION_100_SOL
}

/// Why a pool cannot be created, if it cannot.
pub open spec fn spec_create_pool_error(denomination: u64, min_delay: i64) -> Option<MixerError> {
    if !spec_valid_denomination(denomination) {
        Some(MixerError::InvalidDenomination)
    } else if min_delay < MIN_TIME_DELAY {
        Some(MixerError::InvalidTimeDelay)
    } else {
        None
    }
}

/// Creates an empty pool of the given denomination and minimum delay;
/// `current_time`, the host's clock in seconds, becomes its creation time.
pub fn create_pool(
    ctx: &mut CreatePool,
    denomination: u64,
    min_delay: i64,
    current_time: i64,
) -> (result: Result<(), MixerError>)
    ensures
        match result {
            Ok(()) => {
                &&& spec_create_pool_error(denomination, min_delay) is None
                &&& final(ctx).config == old(ctx).config
                &&& final(ctx).pool_bump == old(ctx).pool_bump
                &&& final(ctx).pool.wf()
                &&& final(ctx).pool.denomination == denomination
                &&& final(ctx).pool.min_delay == min_delay
                &&& final(ctx).pool.total_deposits == 0
                &&& final(ctx).pool.total_withdrawals == 0
                &&& final(ctx).pool.merkle_root@ == zero_digest()
                &&& final(ctx).pool.next_leaf_index == 0
                &&& final(ctx).pool.creation_timestamp == current_time
                &&& final(ctx).pool.bump == old(ctx).pool_bump
            },
            Err(e) => spec_create_pool_error(denomination, min_delay) == Some(e) && *final(ctx)
                == *old(ctx),
        },
{
    if !(denomination == DENOMINATION_01_SOL || denomination == DENOMINATION_1_SOL || denomination
        == DENOMINATION_10_SOL || denomination == DENOMINATION_100_SOL) {
        return Err(MixerError::InvalidDenomination);
    }
    if min_delay < MIN_TIME_DELAY {
        return Err(MixerError::InvalidTimeDelay);
    }
    let empty_root: [u8; 32] = [0u8; 32];
    assert(empty_root@ =~= zero_digest());
    ctx.pool.denomination = denomination;
    ctx.pool.min_delay = min_delay;
    ctx.pool.total_deposits = 0;
    ctx.pool.total_withdrawals = 0;
    ctx.pool.merkle_root = empty_root;
    ctx.pool.next_leaf_index = 0;
    ctx.pool.creation_timestamp = current_time;
    ctx.pool.bump = ctx.pool_bump;
    Ok(())
}

/// The accounts of a registry's creation: the address of the pool it will
/// serve, the registry record to fill in and the bump of its address.
#[derive(Clone, Debug, PartialEq, Eq)]
pub struct InitializeNullifierRegistry {
    pub pool_key: Pubkey,
    pub nullifier_registry: NullifierRegistry,
    pub nullifier_registry_bump: u8,
}

/// Sets up the empty registry of a pool.
pub fn initialize_nullifier_registry(ctx: &mut InitializeNullifierRegistry) -> (result: Result<
    (),
    MixerError,
>)
    ensures
        result is Ok,
        final(ctx).pool_key == old(ctx).pool_key,
        final(ctx).nullifier_registry_bump == old(ctx).nullifier_registry_bump,
        final(ctx).nullifier_registry.pool == old(ctx).pool_key,
        final(ctx).nullifier_registry.bump == old(ctx).nullifier_registry_bump,
        final(ctx).nullifier_registry.entries() == Seq::<Seq<u8>>::empty(),
        final(ctx).nullifier_registry.wf(),
{
    ctx.nullifier_registry.pool = ctx.pool_key;
    ctx.nullifier_registry.bump = ctx.nullifier_registry_bump;
    ctx.nullifier_registry.nullifiers = Vec::new();
    assert(ctx.nullifier_registry.entries() =~= Seq::<Seq<u8>>::empty());
    Ok(())
}

/// The accounts of an administrative operation: the configuration, and the
/// signer whom the host has matched against its authority.
#[derive(Clone, Copy, Debug, PartialEq, Eq)]
pub struct AdminControl {
    pub config: Config,
    pub authority: Pubkey,
}

/// Suspends deposits and withdrawals.
pub fn pause(ctx: &mut AdminControl) -> (result: Result<(), MixerError>)
    ensures
        result is Ok,
        *final(ctx) == (AdminControl {
            config: (Config { paused: true, ..old(ctx).config }),
            ..*old(ctx)
        }),
{
    ctx.config.paused = true;
    Ok(())
}

/// Resumes deposits and withdrawals.
pub fn unpause(ctx: &mut AdminControl) -> (result: Result<(), MixerError>)
    ensures
        result is Ok,
        *final(ctx) == (AdminControl {
            config: (Config { paused: false, ..old(ctx).config }),
            ..*old(ctx)
        }),
{
    ctx.config.paused = false;
    Ok(())
}

/// Hands the administration over to `new_authority`.
pub fn update_authority(ctx: &mut AdminControl, new_authority: Pubkey) -> (result: Result<
    (),
    MixerError,
>)
    ensures
        result is Ok,
        *final(ctx) == (AdminControl {
            config: (Config { authority: new_authority, ..old(ctx).config }),
            ..*old(ctx)
        }),
{
    ctx.config.authority = new_authority;
    Ok(())
}

/// Names `new_fee_collector` as the account that fees are paid to.
pub fn update_fee_collector(ctx: &mut AdminControl, new_fee_collector: Pubkey) -> (result: Result<
    (),
    MixerError,
>)
    ensures
        result is Ok,
        *final(ctx) == (AdminControl {
            config: (Config { fee_collector: new_fee_collector, ..old(ctx).config }),
            ..*old(ctx)
        }),
{
    ctx.config.fee_collector = new_fee_collector;
    Ok(())
}

/// The accounts of a pool's closing: the pool and its balance, the
/// configuration, and the authority with the balance that takes what the
/// pool still holds.
#[derive(Clone, Copy, Debug, PartialEq, Eq)]
pub struct ClosePool {
    pub pool: MixerPool,
    pub pool_lamports: u64,
    pub config: Config,
    pub authority: Pubkey,
    pub authority_lamports: u64,
}

/// Why a pool cannot be closed, if it cannot.
pub open spec fn spec_close_pool_error(ctx: ClosePool) -> Option<MixerError> {
    if !ctx.pool.settled() {
        Some(MixerError::PoolHasOutstandingDeposits)
    } else if ctx.authority_lamports + ctx.pool_lamports > u64::MAX {
        Some(MixerError::ArithmeticOverflow)
    } else {
        None
    }
}

/// Closes a pool whose deposits have all been withdrawn: what its account
/// still holds goes to the authority.
pub fn close_pool(ctx: &mut ClosePool) -> (result: Result<(), MixerError>)
    ensures
        match result {
            Ok(()) => spec_close_pool_error(*old(ctx)) is None && *final(ctx) == (ClosePool {
                pool_lamports: 0,
                authority_lamports: (old(ctx).authority_lamports + old(ctx).pool_lamports) as u64,
                ..*old(ctx)
            }),
            Err(e) => spec_close_pool_error(*old(ctx)) == Some(e) && *final(ctx) == *old(ctx),
        },
{
    if ctx.pool.total_deposits != ctx.pool.total_withdrawals {
        return Err(MixerError::PoolHasOutstandingDeposits);
    }
    let pool_lamports: u64 = ctx.pool_lamports;
    let authority_after: u64 = match ctx.authority_lamports.checked_add(pool_lamports) {
        Some(v) => v,
        None => { return Err(MixerError::ArithmeticOverflow); },
    };
    ctx.pool_lamports = 0;
    ctx.authority_lamports = authority_after;
    Ok(())
}

/// The accounts of a forced closing: the balance of the account to close,
/// the configuration, and the authority with the balance that takes it.
#[derive(Clone, Copy, Debug, PartialEq, Eq)]
pub struct ForceCloseAccount {
    pub account_to_close_lamports: u64,
    pub config: Config,
    pub authority: Pubkey,
    pub authority_lamports: u64,
}

/// Empties an account of the program into the authority's, whatever the
/// account holds.
pub fn force_close_account(ctx: &mut ForceCloseAccount) -> (result: Result<(), MixerError>)
    ensures
        match result {
            Ok(()) => old(ctx).authority_lamports + old(ctx).account_to_close_lamports <= u64::MAX
                && *final(ctx) == (ForceCloseAccount {
                account_to_close_lamports: 0,
                authority_lamports: (old(ctx).authority_lamports + old(
                    ctx,
                ).account_to_close_lamports) as u64,
                ..*old(ctx)
            }),
            Err(e) => old(ctx).authority_lamports + old(ctx).account_to_close_lamports > u64::MAX
                && e == MixerError::ArithmeticOverflow && *final(ctx) == *old(ctx),
        },
{
    let account_lamports: u64 = ctx.account_to_close_lamports;
    let authority_after: u64 = match ctx.authority_lamports.checked_add(account_lamports) {
        Some(v) => v,
        None => { return Err(MixerError::ArithmeticOverflow); },
    };
    ctx.account_to_close_lamports = 0;
    ctx.authority_lamports = authority_after;
    Ok(())
}

/// Once a withdrawal has gone through, every later withdrawal with the
/// same nullifier from the same pool is refused: as a double spend, unless
/// the mixer was paused meanwhile or the secret offered is the reserved
/// zero value, which are reported first.
pub proof fn lemma_spent_nullifier_refused(
    before: Withdraw,
    after: Withdraw,
    later: Withdraw,
    nullifier: Seq<u8>,
    secret: Seq<u8>,
    merkle_root: Seq<u8>,
    path: Seq<Seq<u8>>,
    indices: Seq<bool>,
    current_time: i64,
    secret2: Seq<u8>,
    merkle_root2: Seq<u8>,
    path2: Seq<Seq<u8>>,
    indices2: Seq<bool>,
    current_time2: i64,
)
    requires
        spec_withdraw_error(before, nullifier, secret, merkle_root, path, indices, current_time)
            is None,
        spec_withdrawn(before, after, nullifier),
        later.nullifier_record == after.nullifier_record,
    ensures
        after.nullifier_record.spec_is_used(nullifier),
        spec_withdraw_error(later, nullifier, secret2, merkle_root2, path2, indices2, current_time2)
            is Some,
        !later.config.paused && secret2 != zero_digest() ==> spec_withdraw_error(
            later,
            nullifier,
            secret2,
            merkle_root2,
            path2,
            indices2,
            current_time2,
        ) == Some(MixerError::NullifierAlreadyUsed),
{
    let entries = after.nullifier_record.entries();
    assert(entries[entries.len() - 1] == nullifier);
}

/// Registries are kept per pool: a withdrawal is refused as a double spend
/// only on account of the registry of its own pool. A nullifier spent in
/// one pool can still be spent in another whose registry does not hold it.
pub proof fn lemma_spent_elsewhere_not_refused(
    before: Withdraw,
    after: Withdraw,
    other_pool: Withdraw,
    nullifier: Seq<u8>,
    secret: Seq<u8>,
    merkle_root: Seq<u8>,
    path: Seq<Seq<u8>>,
    indices: Seq<bool>,
    current_time: i64,
)
    requires
        spec_withdrawn(before, after, nullifier),
        !other_pool.nullifier_record.spec_is_used(nullifier),
    ensures
        spec_withdraw_error(other_pool, nullifier, secret, merkle_root, path, indices, current_time)
            != Some(MixerError::NullifierAlreadyUsed),
{
}

/// A deposit keeps a pool well formed, and a withdrawal does so whenever a
/// deposit was still outstanding; neither lets the registry grow past its
/// capacity.
pub proof fn lemma_pool_stays_well_formed(
    deposit_before: Deposit,
    deposit_after: Deposit,
    commitment: [u8; 32],
    encrypted_data: Seq<u8>,
    withdraw_before: Withdraw,
    withdraw_after: Withdraw,
    nullifier: Seq<u8>,
    secret: Seq<u8>,
    merkle_root: Seq<u8>,
    path: Seq<Seq<u8>>,
    indices: Seq<bool>,
    current_time: i64,
)
    ensures
        deposit_before.pool.wf() && spec_deposit_error(
            deposit_before,
            commitment@,
            encrypted_data.len(),
        ) is None && spec_deposited(
            deposit_before,
            deposit_after,
            commitment,
            encrypted_data,
            current_time,
        ) ==> deposit_after.pool.wf(),
        withdraw_before.pool.wf() && !withdraw_before.pool.settled() && spec_withdrawn(
            withdraw_before,
            withdraw_after,
            nullifier,
        ) ==> withdraw_after.pool.wf(),
        spec_withdraw_error(
            withdraw_before,
            nullifier,
            secret,
            merkle_root,
            path,
            indices,
            current_time,
        ) is None && spec_withdrawn(withdraw_before, withdraw_after, nullifier)
            ==> withdraw_after.nullifier_record.wf(),
{
    if spec_withdraw_error(
        withdraw_before,
        nullifier,
        secret,
        merkle_root,
        path,
        indices,
        current_time,
    ) is None && spec_withdrawn(withdraw_before, withdraw_after, nullifier) {
        assert(withdraw_after.nullifier_record.entries().len()
            == withdraw_before.nullifier_record.entries().len() + 1);
    }
}

} // verus!
