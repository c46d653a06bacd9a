use nullifier::ledger::{
    close_pool, create_pool, deposit, force_close_account, initialize,
    initialize_nullifier_registry, pause, unpause, update_authority, update_fee_collector,
    withdraw, AdminControl, ClosePool, CreatePool, Deposit, ForceCloseAccount, Initialize,
    InitializeNullifierRegistry, Withdraw,
};
use nullifier::merkle::{
    compute_commitment, compute_merkle_root, compute_zero_values, MERKLE_TREE_DEPTH,
};
use nullifier::registry::NullifierRegistry;
use nullifier::state::{
    CommitmentRecord, Config, EncryptedNote, MixerError, MixerPool, Pubkey, DENOMINATION_01_SOL,
    DENOMINATION_100_SOL, DENOMINATION_10_SOL, DENOMINATION_1_SOL, MAX_NULLIFIERS_PER_ACCOUNT,
};

const CREATED: i64 = 1_000;

fn key(byte: u8) -> Pubkey {
    Pubkey { bytes: [byte; 32] }
}

fn config() -> Config {
    Config { authority: key(1), fee_collector: key(2), paused: false, bump: 255 }
}

fn blank_pool() -> MixerPool {
    MixerPool {
        denomination: 0,
        min_delay: 0,
        total_deposits: 0,
        total_withdrawals: 0,
        merkle_root: [0u8; 32],
        next_leaf_index: 0,
        creation_timestamp: 0,
        bump: 0,
    }
}

fn new_pool(denomination: u64, min_delay: i64) -> MixerPool {
    let mut ctx = CreatePool { config: config(), pool: blank_pool(), pool_bump: 250 };
    assert_eq!(create_pool(&mut ctx, denomination, min_delay, CREATED), Ok(()));
    ctx.pool
}

fn new_registry(pool_key: Pubkey) -> NullifierRegistry {
    let mut ctx = InitializeNullifierRegistry {
        pool_key,
        nullifier_registry: NullifierRegistry {
            pool: key(0),
            bump: 0,
            nullifiers: vec![[9u8; 32]],
        },
        nullifier_registry_bump: 249,
    };
    assert_eq!(initialize_nullifier_registry(&mut ctx), Ok(()));
    ctx.nullifier_registry
}

fn deposit_accounts(pool: MixerPool, pool_lamports: u64, depositor_lamports: u64) -> Deposit {
    Deposit {
        config: config(),
        pool,
        pool_key: key(10),
        pool_lamports,
        commitment_record: CommitmentRecord {
            pool: key(0),
            commitment: [0u8; 32],
            leaf_index: 0,
            timestamp: 0,
            bump: 0,
        },
        commitment_record_bump: 248,
        encrypted_note: EncryptedNote {
            owner: key(0),
            encrypted_data: Vec::new(),
            pool: key(0),
            leaf_index: 0,
            timestamp: 0,
            bump: 0,
        },
        encrypted_note_bump: 247,
        depositor: key(20),
        depositor_lamports,
    }
}

/// The branch of the first leaf of a tree whose second leaf is `second` and
/// whose other leaves are empty.
fn first_leaf_branch(second: [u8; 32]) -> [[u8; 32]; MERKLE_TREE_DEPTH] {
    let zeros = compute_zero_values();
    let mut path = [[0u8; 32]; MERKLE_TREE_DEPTH];
    path[0] = second;
    for level in 1..MERKLE_TREE_DEPTH {
        path[level] = zeros[level];
    }
    path
}

struct Spend {
    nullifier: [u8; 32],
    secret: [u8; 32],
    root: [u8; 32],
    path: [[u8; 32]; MERKLE_TREE_DEPTH],
    indices: [bool; MERKLE_TREE_DEPTH],
}

/// A valid spend of the first of two deposits.
fn first_spend() -> Spend {
    let secret = [11u8; 32];
    let nullifier = [12u8; 32];
    let first = compute_commitment(&secret, &nullifier);
    let second = compute_commitment(&[21u8; 32], &[22u8; 32]);
    let path = first_leaf_branch(second);
    let indices = [false; MERKLE_TREE_DEPTH];
    let root = compute_merkle_root(&first, &path, &indices);
    Spend { nullifier, secret, root, path, indices }
}

/// A valid spend of the second of the same two deposits.
fn second_spend() -> Spend {
    let secret = [21u8; 32];
    let nullifier = [22u8; 32];
    let first = compute_commitment(&[11u8; 32], &[12u8; 32]);
    let zeros = compute_zero_values();
    let mut path = [[0u8; 32]; MERKLE_TREE_DEPTH];
    path[0] = first;
    for level in 1..MERKLE_TREE_DEPTH {
        path[level] = zeros[level];
    }
    let mut indices = [false; MERKLE_TREE_DEPTH];
    indices[0] = true;
    let second = compute_commitment(&secret, &nullifier);
    let root = compute_merkle_root(&second, &path, &indices);
    Spend { nullifier, secret, root, path, indices }
}

/// A pool of one SOL with two deposits in it, ready for a withdrawal.
fn funded() -> Withdraw {
    let mut pool = new_pool(DENOMINATION_1_SOL, 60);
    pool.total_deposits = 2;
    pool.next_leaf_index = 2;
    Withdraw {
        config: config(),
        pool,
        pool_lamports: 2 * DENOMINATION_1_SOL + 5_000,
        nullifier_record: new_registry(key(10)),
        recipient_lamports: 7,
        fee_collector_lamports: 11,
    }
}

fn attempt(ctx: &mut Withdraw, spend: &Spend, now: i64) -> Result<(), MixerError> {
    withdraw(ctx, spend.nullifier, spend.secret, spend.root, spend.path, spend.indices, now)
}

#[test]
fn initialize_makes_the_authority_fee_collector_and_unpauses() {
    let mut ctx = Initialize {
        config: Config { authority: key(0), fee_collector: key(9), paused: true, bump: 0 },
        config_bump: 253,
    };
    assert_eq!(initialize(&mut ctx, key(5)), Ok(()));
    assert_eq!(
        ctx.config,
        Config { authority: key(5), fee_collector: key(5), paused: false, bump: 253 }
    );
    assert_eq!(ctx.config_bump, 253);
}

#[test]
fn create_pool_accepts_the_four_denominations() {
    for denomination in
        [DENOMINATION_01_SOL, DENOMINATION_1_SOL, DENOMINATION_10_SOL, DENOMINATION_100_SOL]
    {
        let mut ctx = CreatePool { config: config(), pool: blank_pool(), pool_bump: 250 };
        ctx.pool.total_deposits = 5;
        ctx.pool.merkle_root = [1u8; 32];
        assert_eq!(create_pool(&mut ctx, denomination, 60, 1234), Ok(()));
        assert_eq!(
            ctx.pool,
            MixerPool {
                denomination,
                min_delay: 60,
                total_deposits: 0,
                total_withdrawals: 0,
                merkle_root: [0u8; 32],
                next_leaf_index: 0,
                creation_timestamp: 1234,
                bump: 250,
            }
        );
        assert_eq!(ctx.config, config());
    }
}

#[test]
fn create_pool_refuses_other_denominations() {
    for denomination in [0, 1, 500_000_000, 5_000_000_000, 50_000_000_000, u64::MAX] {
        let mut ctx = CreatePool { config: config(), pool: blank_pool(), pool_bump: 250 };
        let before = ctx;
        assert_eq!(
            create_pool(&mut ctx, denomination, 3600, CREATED),
            Err(MixerError::InvalidDenomination)
        );
        assert_eq!(ctx, before);
    }
}

#[test]
fn create_pool_refuses_a_delay_under_the_floor() {
    for delay in [59, 30, 1, 0, -1, i64::MIN] {
        let mut ctx = CreatePool { config: config(), pool: blank_pool(), pool_bump: 250 };
        let before = ctx;
        assert_eq!(
            create_pool(&mut ctx, DENOMINATION_1_SOL, delay, CREATED),
            Err(MixerError::InvalidTimeDelay)
        );
        assert_eq!(ctx, before);
    }
    // A wrong denomination is reported before a short delay.
    let mut ctx = CreatePool { config: config(), pool: blank_pool(), pool_bump: 250 };
    assert_eq!(create_pool(&mut ctx, 7, 0, CREATED), Err(MixerError::InvalidDenomination));
    for delay in [60, 61, 86_400, i64::MAX] {
        assert_eq!(create_pool(&mut ctx, DENOMINATION_10_SOL, delay, CREATED), Ok(()));
        assert_eq!(ctx.pool.min_delay, delay);
    }
}

#[test]
fn registry_starts_empty_for_its_pool() {
    let registry = new_registry(key(10));
    assert_eq!(registry, NullifierRegistry { pool: key(10), bump: 249, nullifiers: Vec::new() });
    assert!(!registry.is_used(&[9u8; 32]));
}

#[test]
fn deposit_records_the_commitment_and_moves_the_denomination() {
    let mut ctx = deposit_accounts(new_pool(DENOMINATION_1_SOL, 60), 900, 3 * DENOMINATION_1_SOL);
    let commitment = compute_commitment(&[11u8; 32], &[12u8; 32]);
    let note = vec![1u8, 2, 3];
    assert_eq!(deposit(&mut ctx, commitment, note.clone(), 1_500), Ok(()));

    assert_eq!(ctx.depositor_lamports, 2 * DENOMINATION_1_SOL);
    assert_eq!(ctx.pool_lamports, DENOMINATION_1_SOL + 900);
    assert_eq!(
        ctx.commitment_record,
        CommitmentRecord {
            pool: key(10),
            commitment,
            leaf_index: 0,
            timestamp: 1_500,
            bump: 248,
        }
    );
    assert_eq!(
        ctx.encrypted_note,
        EncryptedNote {
            owner: key(20),
            encrypted_data: note,
            pool: key(10),
            leaf_index: 0,
            timestamp: 1_500,
            bump: 247,
        }
    );
    assert_eq!(ctx.pool.next_leaf_index, 1);
    assert_eq!(ctx.pool.total_deposits, 1);
    assert_eq!(ctx.pool.total_withdrawals, 0);
    assert_eq!(ctx.pool.denomination, DENOMINATION_1_SOL);
    assert_eq!(ctx.pool.creation_timestamp, CREATED);

    let second = compute_commitment(&[21u8; 32], &[22u8; 32]);
    assert_eq!(deposit(&mut ctx, second, Vec::new(), 1_600), Ok(()));
    assert_eq!(ctx.commitment_record.leaf_index, 1);
    assert_eq!(ctx.encrypted_note.leaf_index, 1);
    assert_eq!(ctx.pool.next_leaf_index, 2);
    assert_eq!(ctx.pool.total_deposits, 2);
    assert_eq!(ctx.depositor_lamports, DENOMINATION_1_SOL);
    assert_eq!(ctx.pool_lamports, 2 * DENOMINATION_1_SOL + 900);
}

#[test]
fn deposit_is_refused_while_paused() {
    let mut ctx = deposit_accounts(new_pool(DENOMINATION_1_SOL, 60), 0, DENOMINATION_1_SOL);
    ctx.config.paused = true;
    let before = ctx.clone();
    // Paused is reported before anything else that is wrong.
    assert_eq!(deposit(&mut ctx, [0u8; 32], vec![0u8; 201], 0), Err(MixerError::MixerPaused));
    assert_eq!(ctx, before);
}

#[test]
fn deposit_refuses_the_zero_commitment() {
    let mut ctx = deposit_accounts(new_pool(DENOMINATION_1_SOL, 60), 0, DENOMINATION_1_SOL);
    let before = ctx.clone();
    assert_eq!(
        deposit(&mut ctx, [0u8; 32], vec![0u8; 201], 0),
        Err(MixerError::InvalidCommitment)
    );
    assert_eq!(ctx, before);
}

#[test]
fn deposit_refuses_a_note_over_two_hundred_bytes() {
    let mut ctx = deposit_accounts(new_pool(DENOMINATION_1_SOL, 60), 0, DENOMINATION_1_SOL);
    let before = ctx.clone();
    assert_eq!(
        deposit(&mut ctx, [1u8; 32], vec![0u8; 201], 0),
        Err(MixerError::EncryptedDataTooLarge)
    );
    assert_eq!(ctx, before);
    assert_eq!(deposit(&mut ctx, [1u8; 32], vec![7u8; 200], 0), Ok(()));
    assert_eq!(ctx.encrypted_note.encrypted_data, vec![7u8; 200]);
}

#[test]
fn deposit_refuses_a_full_tree() {
    let mut pool = new_pool(DENOMINATION_1_SOL, 60);
    pool.next_leaf_index = 1_048_576;
    pool.total_deposits = 1_048_576;
    let mut ctx = deposit_accounts(pool, 0, DENOMINATION_1_SOL);
    let before = ctx.clone();
    assert_eq!(deposit(&mut ctx, [1u8; 32], Vec::new(), 0), Err(MixerError::TreeFull));
    assert_eq!(ctx, before);

    // The last leaf can still be taken.
    ctx.pool.next_leaf_index = 1_048_575;
    ctx.pool.total_deposits = 1_048_575;
    assert_eq!(deposit(&mut ctx, [1u8; 32], Vec::new(), 0), Ok(()));
    assert_eq!(ctx.commitment_record.leaf_index, 1_048_575);
    assert_eq!(ctx.pool.next_leaf_index, 1_048_576);
    assert_eq!(deposit(&mut ctx, [2u8; 32], Vec::new(), 0), Err(MixerError::TreeFull));
}

#[test]
fn deposit_refuses_a_depositor_without_the_denomination() {
    let mut ctx = deposit_accounts(new_pool(DENOMINATION_1_SOL, 60), 0, DENOMINATION_1_SOL - 1);
    let before = ctx.clone();
    assert_eq!(deposit(&mut ctx, [1u8; 32], Vec::new(), 0), Err(MixerError::InsufficientFunds));
    assert_eq!(ctx, before);
}

#[test]
fn deposit_refuses_what_would_overflow() {
    let mut ctx =
        deposit_accounts(new_pool(DENOMINATION_1_SOL, 60), u64::MAX - 5, DENOMINATION_1_SOL);
    let before = ctx.clone();
    assert_eq!(deposit(&mut ctx, [1u8; 32], Vec::new(), 0), Err(MixerError::ArithmeticOverflow));
    assert_eq!(ctx, before);

    let mut pool = new_pool(DENOMINATION_1_SOL, 60);
    pool.total_deposits = u32::MAX;
    let mut ctx = deposit_accounts(pool, 0, DENOMINATION_1_SOL);
    let before = ctx.clone();
    assert_eq!(deposit(&mut ctx, [1u8; 32], Vec::new(), 0), Err(MixerError::ArithmeticOverflow));
    assert_eq!(ctx, before);
}

#[test]
fn withdrawal_pays_out_once_and_is_refused_on_replay() {
    // Two deposits into a fresh pool of one SOL.
    let first = compute_commitment(&[11u8; 32], &[12u8; 32]);
    let second = compute_commitment(&[21u8; 32], &[22u8; 32]);
    let mut accounts = deposit_accounts(new_pool(DENOMINATION_1_SOL, 60), 0, 5 * DENOMINATION_1_SOL);
    assert_eq!(deposit(&mut accounts, first, vec![1], CREATED), Ok(()));
    assert_eq!(deposit(&mut accounts, second, vec![2], CREATED + 10), Ok(()));

    let mut ctx = Withdraw {
        config: config(),
        pool: accounts.pool,
        pool_lamports: accounts.pool_lamports,
        nullifier_record: new_registry(key(10)),
        recipient_lamports: 0,
        fee_collector_lamports: 0,
    };
    let spend = first_spend();

    // Too early: one second short of the delay, counted from the pool's
    // creation.
    let before = ctx.clone();
    assert_eq!(attempt(&mut ctx, &spend, CREATED + 59), Err(MixerError::TimeDelayNotMet));
    assert_eq!(ctx, before);

    assert_eq!(attempt(&mut ctx, &spend, CREATED + 60), Ok(()));
    assert_eq!(ctx.pool_lamports, DENOMINATION_1_SOL);
    assert_eq!(ctx.recipient_lamports, 999_000_000);
    assert_eq!(ctx.fee_collector_lamports, 1_000_000);
    assert_eq!(ctx.pool.total_withdrawals, 1);
    assert_eq!(ctx.pool.total_deposits, 2);
    assert_eq!(ctx.pool.next_leaf_index, 2);
    assert_eq!(ctx.nullifier_record.nullifiers, vec![spend.nullifier]);
    assert!(ctx.nullifier_record.is_used(&spend.nullifier));
    assert_eq!(ctx.config, config());

    let after = ctx.clone();
    assert_eq!(attempt(&mut ctx, &spend, CREATED + 61), Err(MixerError::NullifierAlreadyUsed));
    assert_eq!(ctx, after);

    // The other deposit can still be withdrawn.
    assert_eq!(attempt(&mut ctx, &second_spend(), CREATED + 62), Ok(()));
    assert_eq!(ctx.pool_lamports, 0);
    assert_eq!(ctx.recipient_lamports, 1_998_000_000);
    assert_eq!(ctx.fee_collector_lamports, 2_000_000);
    assert_eq!(ctx.pool.total_withdrawals, 2);
    assert_eq!(ctx.nullifier_record.nullifiers, vec![[12u8; 32], [22u8; 32]]);
}

#[test]
fn withdrawal_from_a_pool_with_one_deposit_is_refused() {
    let spend = first_spend();
    let mut ctx = funded();
    ctx.pool.total_deposits = 1;
    let before = ctx.clone();
    assert_eq!(
        attempt(&mut ctx, &spend, CREATED + 1_000),
        Err(MixerError::InsufficientAnonymitySet)
    );
    assert_eq!(ctx, before);

    ctx.pool.total_deposits = 0;
    assert_eq!(
        attempt(&mut ctx, &spend, CREATED + 1_000),
        Err(MixerError::InsufficientAnonymitySet)
    );

    // With a wrong proof the proof is what is reported.
    let mut wrong = first_spend();
    wrong.root[0] ^= 1;
    assert_eq!(attempt(&mut ctx, &wrong, CREATED + 1_000), Err(MixerError::InvalidMerkleProof));
}

#[test]
fn nullifier_spent_in_one_pool_is_free_in_another() {
    let spend = first_spend();
    let mut pool_a = funded();
    let mut pool_b = funded();
    pool_b.nullifier_record = new_registry(key(30));
    pool_b.pool.denomination = DENOMINATION_01_SOL;

    assert_eq!(attempt(&mut pool_a, &spend, CREATED + 60), Ok(()));
    assert!(pool_a.nullifier_record.is_used(&spend.nullifier));
    assert!(!pool_b.nullifier_record.is_used(&spend.nullifier));

    assert_eq!(attempt(&mut pool_b, &spend, CREATED + 60), Ok(()));
    assert_eq!(pool_b.recipient_lamports, 7 + 99_900_000);
    assert_eq!(pool_b.fee_collector_lamports, 11 + 100_000);
    assert_eq!(pool_b.pool_lamports, 2 * DENOMINATION_1_SOL + 5_000 - DENOMINATION_01_SOL);

    assert_eq!(attempt(&mut pool_a, &spend, CREATED + 60), Err(MixerError::NullifierAlreadyUsed));
    assert_eq!(attempt(&mut pool_b, &spend, CREATED + 60), Err(MixerError::NullifierAlreadyUsed));
}

#[test]
fn withdrawal_is_refused_while_paused() {
    let mut ctx = funded();
    ctx.config.paused = true;
    let before = ctx.clone();
    let mut spend = first_spend();
    spend.nullifier = [0u8; 32];
    assert_eq!(attempt(&mut ctx, &spend, CREATED + 60), Err(MixerError::MixerPaused));
    assert_eq!(ctx, before);
}

#[test]
fn withdrawal_refuses_the_zero_nullifier_and_the_zero_secret() {
    let mut ctx = funded();
    let before = ctx.clone();
    let mut spend = first_spend();
    spend.nullifier = [0u8; 32];
    spend.secret = [0u8; 32];
    assert_eq!(attempt(&mut ctx, &spend, CREATED + 60), Err(MixerError::InvalidNullifier));

    let mut spend = first_spend();
    spend.secret = [0u8; 32];
    assert_eq!(attempt(&mut ctx, &spend, CREATED + 60), Err(MixerError::InvalidSecret));
    assert_eq!(ctx, before);
}

#[test]
fn withdrawal_refuses_a_proof_that_does_not_lead_to_the_root() {
    let mut ctx = funded();
    let before = ctx.clone();

    let mut spend = first_spend();
    spend.secret[0] ^= 1;
    assert_eq!(attempt(&mut ctx, &spend, CREATED + 60), Err(MixerError::InvalidMerkleProof));

    let mut spend = first_spend();
    spend.path[7][3] ^= 1;
    assert_eq!(attempt(&mut ctx, &spend, CREATED + 60), Err(MixerError::InvalidMerkleProof));

    let mut spend = first_spend();
    spend.indices[19] = true;
    assert_eq!(attempt(&mut ctx, &spend, CREATED + 60), Err(MixerError::InvalidMerkleProof));

    let mut spend = first_spend();
    spend.root[31] ^= 128;
    assert_eq!(attempt(&mut ctx, &spend, CREATED + 60), Err(MixerError::InvalidMerkleProof));
    assert_eq!(ctx, before);
}

#[test]
fn withdrawal_reports_a_clock_that_cannot_be_subtracted() {
    let mut ctx = funded();
    ctx.pool.creation_timestamp = 1;
    let before = ctx.clone();
    assert_eq!(
        attempt(&mut ctx, &first_spend(), i64::MIN),
        Err(MixerError::TimeCalculationError)
    );
    assert_eq!(ctx, before);

    ctx.pool.creation_timestamp = -1;
    assert_eq!(
        attempt(&mut ctx, &first_spend(), i64::MAX),
        Err(MixerError::TimeCalculationError)
    );

    // A clock that runs behind the pool's creation is merely too early.
    ctx.pool.creation_timestamp = CREATED;
    assert_eq!(attempt(&mut ctx, &first_spend(), CREATED - 1), Err(MixerError::TimeDelayNotMet));
}

#[test]
fn withdrawal_refuses_a_pool_that_cannot_pay() {
    let mut ctx = funded();
    ctx.pool_lamports = DENOMINATION_1_SOL - 1;
    let before = ctx.clone();
    assert_eq!(attempt(&mut ctx, &first_spend(), CREATED + 60), Err(MixerError::InsufficientFunds));
    assert_eq!(ctx, before);

    ctx.pool_lamports = DENOMINATION_1_SOL;
    assert_eq!(attempt(&mut ctx, &first_spend(), CREATED + 60), Ok(()));
    assert_eq!(ctx.pool_lamports, 0);
}

#[test]
fn withdrawal_refuses_what_would_overflow() {
    // The fee computation.
    let mut ctx = funded();
    ctx.pool.denomination = u64::MAX / 10 + 1;
    ctx.pool_lamports = u64::MAX;
    let before = ctx.clone();
    assert_eq!(attempt(&mut ctx, &first_spend(), CREATED + 60), Err(MixerError::ArithmeticOverflow));
    assert_eq!(ctx, before);

    // The recipient's balance.
    let mut ctx = funded();
    ctx.recipient_lamports = u64::MAX - 998_999_999;
    let before = ctx.clone();
    assert_eq!(attempt(&mut ctx, &first_spend(), CREATED + 60), Err(MixerError::ArithmeticOverflow));
    assert_eq!(ctx, before);
    ctx.recipient_lamports = u64::MAX - 999_000_000;
    assert_eq!(attempt(&mut ctx, &first_spend(), CREATED + 60), Ok(()));
    assert_eq!(ctx.recipient_lamports, u64::MAX);

    // The fee collector's balance.
    let mut ctx = funded();
    ctx.fee_collector_lamports = u64::MAX - 999_999;
    let before = ctx.clone();
    assert_eq!(attempt(&mut ctx, &first_spend(), CREATED + 60), Err(MixerError::ArithmeticOverflow));
    assert_eq!(ctx, before);

    // The count of withdrawals.
    let mut ctx = funded();
    ctx.pool.total_withdrawals = u32::MAX;
    let before = ctx.clone();
    assert_eq!(attempt(&mut ctx, &first_spend(), CREATED + 60), Err(MixerError::ArithmeticOverflow));
    assert_eq!(ctx, before);
}

#[test]
fn withdrawal_is_refused_once_the_registry_is_full() {
    let mut ctx = funded();
    for i in 0..MAX_NULLIFIERS_PER_ACCOUNT {
        let mut spent = [200u8; 32];
        spent[0] = i as u8;
        assert_eq!(ctx.nullifier_record.add_nullifier(spent), Ok(()));
    }
    let before = ctx.clone();
    assert_eq!(
        attempt(&mut ctx, &first_spend(), CREATED + 60),
        Err(MixerError::NullifierRegistryFull)
    );
    assert_eq!(ctx, before);
    assert!(!ctx.nullifier_record.is_used(&first_spend().nullifier));
}

#[test]
fn full_registry_is_reported_before_a_counter_at_its_maximum() {
    let mut ctx = funded();
    for i in 0..MAX_NULLIFIERS_PER_ACCOUNT {
        let mut spent = [200u8; 32];
        spent[0] = i as u8;
        assert_eq!(ctx.nullifier_record.add_nullifier(spent), Ok(()));
    }
    ctx.pool.total_withdrawals = u32::MAX;
    let before = ctx.clone();
    assert_eq!(
        attempt(&mut ctx, &first_spend(), CREATED + 60),
        Err(MixerError::NullifierRegistryFull)
    );
    assert_eq!(ctx, before);

    // With room in the registry the counter is what stands in the way.
    ctx.nullifier_record.nullifiers.pop();
    let before = ctx.clone();
    assert_eq!(attempt(&mut ctx, &first_spend(), CREATED + 60), Err(MixerError::ArithmeticOverflow));
    assert_eq!(ctx, before);

    // And with the counter one below its maximum the withdrawal goes through.
    ctx.pool.total_withdrawals = u32::MAX - 1;
    assert_eq!(attempt(&mut ctx, &first_spend(), CREATED + 60), Ok(()));
    assert_eq!(ctx.pool.total_withdrawals, u32::MAX);
    assert_eq!(ctx.nullifier_record.nullifiers.len(), MAX_NULLIFIERS_PER_ACCOUNT);
    assert!(ctx.nullifier_record.is_used(&first_spend().nullifier));
}

#[test]
fn withdrawal_checks_come_in_their_order() {
    // Everything is wrong at once; mending the first fault shows the next.
    let mut ctx = funded();
    ctx.config.paused = true;
    ctx.pool.total_deposits = 1;
    ctx.pool_lamports = 0;
    ctx.nullifier_record.nullifiers.push([12u8; 32]);
    let mut spend = first_spend();
    let now = CREATED;
    assert_eq!(attempt(&mut ctx, &spend, now), Err(MixerError::MixerPaused));
    ctx.config.paused = false;
    assert_eq!(attempt(&mut ctx, &spend, now), Err(MixerError::NullifierAlreadyUsed));
    ctx.nullifier_record.nullifiers.clear();
    spend.root[0] ^= 1;
    assert_eq!(attempt(&mut ctx, &spend, now), Err(MixerError::InvalidMerkleProof));
    spend.root[0] ^= 1;
    assert_eq!(attempt(&mut ctx, &spend, now), Err(MixerError::InsufficientAnonymitySet));
    ctx.pool.total_deposits = 2;
    assert_eq!(attempt(&mut ctx, &spend, now), Err(MixerError::TimeDelayNotMet));
    let now = CREATED + 60;
    assert_eq!(attempt(&mut ctx, &spend, now), Err(MixerError::InsufficientFunds));
    ctx.pool_lamports = DENOMINATION_1_SOL;
    assert_eq!(attempt(&mut ctx, &spend, now), Ok(()));
}

#[test]
fn pause_and_unpause_touch_only_the_flag() {
    let mut ctx = AdminControl { config: config(), authority: key(1) };
    assert_eq!(pause(&mut ctx), Ok(()));
    assert_eq!(
        ctx,
        AdminControl { config: Config { paused: true, ..config() }, authority: key(1) }
    );
    assert_eq!(pause(&mut ctx), Ok(()));
    assert!(ctx.config.paused);
    assert_eq!(unpause(&mut ctx), Ok(()));
    assert_eq!(ctx, AdminControl { config: config(), authority: key(1) });
}

#[test]
fn authority_and_fee_collector_can_be_replaced() {
    let mut ctx = AdminControl { config: config(), authority: key(1) };
    assert_eq!(update_authority(&mut ctx, key(50)), Ok(()));
    assert_eq!(
        ctx.config,
        Config { authority: key(50), fee_collector: key(2), paused: false, bump: 255 }
    );
    assert_eq!(update_fee_collector(&mut ctx, key(60)), Ok(()));
    assert_eq!(
        ctx.config,
        Config { authority: key(50), fee_collector: key(60), paused: false, bump: 255 }
    );
    assert_eq!(ctx.authority, key(1));
}

#[test]
fn pool_closes_only_when_everything_was_withdrawn() {
    let mut pool = new_pool(DENOMINATION_1_SOL, 60);
    pool.total_deposits = 3;
    pool.total_withdrawals = 2;
    let mut ctx = ClosePool {
        pool,
        pool_lamports: 1_500,
        config: config(),
        authority: key(1),
        authority_lamports: 40,
    };
    let before = ctx;
    assert_eq!(close_pool(&mut ctx), Err(MixerError::PoolHasOutstandingDeposits));
    assert_eq!(ctx, before);

    ctx.pool.total_withdrawals = 3;
    assert_eq!(close_pool(&mut ctx), Ok(()));
    assert_eq!(ctx.pool_lamports, 0);
    assert_eq!(ctx.authority_lamports, 1_540);
    assert_eq!(ctx.pool, MixerPool { total_withdrawals: 3, ..before.pool });
}

#[test]
fn empty_pool_can_be_closed_at_once() {
    let mut ctx = ClosePool {
        pool: new_pool(DENOMINATION_10_SOL, 60),
        pool_lamports: 2_000,
        config: config(),
        authority: key(1),
        authority_lamports: 0,
    };
    assert_eq!(close_pool(&mut ctx), Ok(()));
    assert_eq!(ctx.authority_lamports, 2_000);
    assert_eq!(ctx.pool_lamports, 0);
}

#[test]
fn closing_refuses_what_would_overflow() {
    let mut ctx = ClosePool {
        pool: new_pool(DENOMINATION_10_SOL, 60),
        pool_lamports: 2,
        config: config(),
        authority: key(1),
        authority_lamports: u64::MAX - 1,
    };
    let before = ctx;
    assert_eq!(close_pool(&mut ctx), Err(MixerError::ArithmeticOverflow));
    assert_eq!(ctx, before);

    let mut ctx = ForceCloseAccount {
        account_to_close_lamports: 2,
        config: config(),
        authority: key(1),
        authority_lamports: u64::MAX - 1,
    };
    let before = ctx;
    assert_eq!(force_close_account(&mut ctx), Err(MixerError::ArithmeticOverflow));
    assert_eq!(ctx, before);
}

#[test]
fn forced_closing_moves_the_whole_balance() {
    let mut ctx = ForceCloseAccount {
        account_to_close_lamports: 123,
        config: config(),
        authority: key(1),
        authority_lamports: 1_000,
    };
    assert_eq!(force_close_account(&mut ctx), Ok(()));
    assert_eq!(
        ctx,
        ForceCloseAccount {
            account_to_close_lamports: 0,
            config: config(),
            authority: key(1),
            authority_lamports: 1_123,
        }
    );
}
