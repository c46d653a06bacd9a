//! The registry of spent nullifiers: an append-only set with a hard
//! capacity.

use crate::merkle::digest_eq;
use crate::state::{MixerError, Pubkey, MAX_NULLIFIERS_PER_ACCOUNT};
use vstd::prelude::*;

verus! {

/// The nullifiers spent in one pool, in the order in which they were spent.
#[derive(Clone, Debug, PartialEq, Eq)]
pub struct NullifierRegistry {
    pub pool: Pubkey,
    pub bump: u8,
    pub nullifiers: Vec<[u8; 32]>,
}

/// What `add_nullifier` does to the entries of a registry: `None` where the
/// registry is full, else the entries with `nullifier` appended.
pub open spec fn spec_add_nullifier(entries: Seq<Seq<u8>>, nullifier: Seq<u8>) -> Option<
    Seq<Seq<u8>>,
> {
    if entries.len() < MAX_NULLIFIERS_PER_ACCOUNT {
        Some(entries.push(nullifier))
    } else {
        None
    }
}

/// Adds the nullifiers of `batch` one after the other, stopping with `None`
/// at the first that the registry has no room for.
pub open spec fn spec_add_all(entries: Seq<Seq<u8>>, batch: Seq<Seq<u8>>) -> Option<Seq<Seq<u8>>>
    decreases batch.len(),
{
    if batch.len() == 0 {
        Some(entries)
    } else {
        match spec_add_all(entries, batch.drop_last()) {
            Some(filled) => spec_add_nullifier(filled, batch.last()),
            None => None,
        }
    }
}

impl NullifierRegistry {
    /// Size of the stored record in bytes, with its 8-byte tag and room for
    /// every nullifier it may hold.
    pub const LEN: usize = 8 + 32 + 1 + 4 + (32 * MAX_NULLIFIERS_PER_ACCOUNT);

    /// The spent nullifiers, each as a byte sequence.
    pub open spec fn entries(&self) -> Seq<Seq<u8>> {
        Seq::new(self.nullifiers@.len(), |i: int| self.nullifiers@[i]@)
    }

    /// The registry holds no more than its capacity.
    pub open spec fn wf(&self) -> bool {
        self.nullifiers@.len() <= MAX_NULLIFIERS_PER_ACCOUNT
    }

    /// Whether `nullifier` has been spent in this pool.
    pub open spec fn spec_is_used(&self, nullifier: Seq<u8>) -> bool {
        self.entries().contains(nullifier)
    }

    /// Tells whether `nullifier` has been spent in this pool.
    pub fn is_used(&self, nullifier: &[u8; 32]) -> (used: bool)
        ensures
            used == self.spec_is_used(nullifier@),
    {
        let n: usize = self.nullifiers.len();
        let mut i: usize = 0;
        while i < n
            invariant
                i <= n,
                n == self.nullifiers@.len(),
                forall|k: int| 0 <= k < i ==> self.entries()[k] != nullifier@,
            decreases n - i,
        {
            if digest_eq(&self.nullifiers[i], nullifier) {
                assert(self.entries()[i as int] == nullifier@);
                return true;
            }
            i += 1;
        }
        false
    }

    /// Records `nullifier` as spent. A full registry refuses it and stays
    /// as it was.
    pub fn add_nullifier(&mut self, nullifier: [u8; 32]) -> (result: Result<(), MixerError>)
        ensures
            final(self).pool == old(self).pool,
            final(self).bump == old(self).bump,
            match spec_add_nullifier(old(self).entries(), nullifier@) {
                Some(entries) => result is Ok && final(self).entries() == entries,
                None => result == Err::<(), MixerError>(MixerError::NullifierRegistryFull)
                    && final(self).nullifiers == old(self).nullifiers,
            },
    {
        if self.nullifiers.len() >= MAX_NULLIFIERS_PER_ACCOUNT {
            return Err(MixerError::NullifierRegistryFull);
        }
        self.nullifiers.push(nullifier);
        assert(self.entries() =~= old(self).entries().push(nullifier@));
        Ok(())
    }
}

/// A nullifier is in the registry after it was added, and what was there
/// before stays there.
pub proof fn lemma_added_nullifier_is_used(
    entries: Seq<Seq<u8>>,
    nullifier: Seq<u8>,
    other: Seq<u8>,
)
    requires
        spec_add_nullifier(entries, nullifier) is Some,
    ensures
        spec_add_nullifier(entries, nullifier)->0.contains(nullifier),
        spec_add_nullifier(entries, nullifier)->0.contains(other) <==> (other == nullifier
            || entries.contains(other)),
{
    let after = entries.push(nullifier);
    assert(after[entries.len() as int] == nullifier);
    if entries.contains(other) {
        let i = choose|i: int| 0 <= i < entries.len() && entries[i] == other;
        assert(after[i] == other);
    }
    if after.contains(other) {
        let j = choose|j: int| 0 <= j < after.len() && after[j] == other;
        if j < entries.len() {
            assert(entries[j] == other);
        }
    }
}

/// An empty registry takes any batch of at most `MAX_NULLIFIERS_PER_ACCOUNT`
/// nullifiers, and then holds exactly that batch; once it holds
/// `MAX_NULLIFIERS_PER_ACCOUNT` it refuses every further one. However many
/// are offered, it never holds more than its capacity.
pub proof fn lemma_registry_capacity(batch: Seq<Seq<u8>>, extra: Seq<u8>)
    ensures
        batch.len() <= MAX_NULLIFIERS_PER_ACCOUNT ==> spec_add_all(Seq::empty(), batch) == Some(
            batch,
        ),
        batch.len() == MAX_NULLIFIERS_PER_ACCOUNT ==> spec_add_nullifier(batch, extra) is None,
        batch.len() > MAX_NULLIFIERS_PER_ACCOUNT ==> spec_add_all(Seq::empty(), batch) is None,
        spec_add_all(Seq::empty(), batch) matches Some(filled) ==> filled.len()
            <= MAX_NULLIFIERS_PER_ACCOUNT,
    decreases batch.len(),
{
    if batch.len() > 0 {
        lemma_registry_capacity(batch.drop_last(), extra);
        if batch.len() <= MAX_NULLIFIERS_PER_ACCOUNT {
            assert(batch.drop_last().push(batch.last()) =~= batch);
        }
    } else {
        assert(spec_add_all(Seq::empty(), batch) == Some(Seq::<Seq<u8>>::empty()));
        assert(batch =~= Seq::<Seq<u8>>::empty());
    }
}

} // verus!
