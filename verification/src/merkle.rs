//! Pairwise hashing, commitments and fixed-depth Merkle membership proofs.

use sha2::Digest;
use vstd::prelude::*;

verus! {

/// Depth of the commitment tree: a proof has exactly this many levels.
pub const MERKLE_TREE_DEPTH: usize = 20;

/// Number of entries in the table of empty-subtree hashes: one per level,
/// leaves and root included.
pub const ZERO_VALUE_LEVELS: usize = 21;

/// The SHA-256 digest of a byte string, as the `sha2` crate computes it.
pub uninterp spec fn sha256(data: Seq<u8>) -> Seq<u8>;

/// Calls `sha2::Sha256::digest` (the one-shot form of `Digest`): the crate
/// hashes `data` with SHA-256 and the 32-byte output is returned as an
/// array. Trusted: the result is `sha256` of the input bytes.
#[verifier::external_body]
fn sha256_digest(data: &[u8]) -> (digest: [u8; 32])
    ensures
        digest@ == sha256(data@),
{
    sha2::Sha256::digest(data).into()
}

/// The pairwise hash: SHA-256 of `left` followed by `right`.
pub open spec fn spec_hash_pair(left: Seq<u8>, right: Seq<u8>) -> Seq<u8> {
    sha256(left + right)
}

/// The commitment that binds a secret to a nullifier.
pub open spec fn spec_commitment(secret: Seq<u8>, nullifier: Seq<u8>) -> Seq<u8> {
    spec_hash_pair(secret, nullifier)
}

/// Writes `left` followed by `right` into one 64-byte buffer.
fn concat_pair(left: &[u8; 32], right: &[u8; 32]) -> (buf: [u8; 64])
    ensures
        buf@ == left@ + right@,
{
    let mut buf: [u8; 64] = [0u8; 64];
    let mut i: usize = 0;
    while i < 32
        invariant
            i <= 32,
            forall|k: int| 0 <= k < i ==> buf@[k] == left@[k],
            forall|k: int| 0 <= k < i ==> buf@[32 + k] == right@[k],
        decreases 32 - i,
    {
        buf[i] = left[i];
        buf[i + 32] = right[i];
        i += 1;
    }
    assert(buf@ =~= left@ + right@);
    buf
}

/// Hashes two 32-byte values into one, order-sensitively.
pub fn hash_pair(left: &[u8; 32], right: &[u8; 32]) -> (digest: [u8; 32])
    ensures
        digest@ == spec_hash_pair(left@, right@),
{
    let buf: [u8; 64] = concat_pair(left, right);
    sha256_digest(&buf)
}

/// Computes the commitment published at deposit time from the depositor's
/// secret and nullifier.
pub fn compute_commitment(secret: &[u8; 32], nullifier: &[u8; 32]) -> (commitment: [u8; 32])
    ensures
        commitment@ == spec_commitment(secret@, nullifier@),
{
    let buf: [u8; 64] = concat_pair(secret, nullifier);
    sha256_digest(&buf)
}

/// Tells whether two 32-byte values hold the same bytes.
pub fn digest_eq(a: &[u8; 32], b: &[u8; 32]) -> (same: bool)
    ensures
        same == (a@ == b@),
{
    let mut i: usize = 0;
    while i < 32
        invariant
            i <= 32,
            forall|k: int| 0 <= k < i ==> a@[k] == b@[k],
        decreases 32 - i,
    {
        if a[i] != b[i] {
            return false;
        }
        i += 1;
    }
    assert(a@ =~= b@);
    true
}

/// Tells whether a 32-byte value is the reserved all-zero value.
pub fn is_zero_digest(a: &[u8; 32]) -> (zero: bool)
    ensures
        zero == (a@ == zero_digest()),
{
    let mut i: usize = 0;
    while i < 32
        invariant
            i <= 32,
            forall|k: int| 0 <= k < i ==> a@[k] == 0u8,
        decreases 32 - i,
    {
        if a[i] != 0 {
            assert(zero_digest()[i as int] == 0u8);
            return false;
        }
        i += 1;
    }
    assert(a@ =~= zero_digest());
    true
}

/// Thirty-two zero bytes: the hash of an empty leaf, and the value that no
/// commitment, nullifier or secret may take.
pub open spec fn zero_digest() -> Seq<u8> {
    Seq::new(32, |i: int| 0u8)
}

/// The sibling digests of a proof, each as a byte sequence.
pub open spec fn siblings(path: [[u8; 32]; MERKLE_TREE_DEPTH]) -> Seq<Seq<u8>> {
    Seq::new(path@.len(), |i: int| path@[i]@)
}

/// One level of the walk from leaf to root. `is_right` says that the node
/// reached so far is the right child, so the sibling goes first.
pub open spec fn spec_merkle_step(current: Seq<u8>, sibling: Seq<u8>, is_right: bool) -> Seq<u8> {
    if is_right {
        spec_hash_pair(sibling, current)
    } else {
        spec_hash_pair(current, sibling)
    }
}

/// The node reached after the first `levels` levels of a proof.
pub open spec fn spec_merkle_fold(
    leaf: Seq<u8>,
    path: Seq<Seq<u8>>,
    indices: Seq<bool>,
    levels: nat,
) -> Seq<u8>
    decreases levels,
{
    if levels == 0 {
        leaf
    } else {
        spec_merkle_step(
            spec_merkle_fold(leaf, path, indices, (levels - 1) as nat),
            path[levels - 1],
            indices[levels - 1],
        )
    }
}

/// The root that a leaf and a full-depth proof lead to.
pub open spec fn spec_merkle_root(leaf: Seq<u8>, path: Seq<Seq<u8>>, indices: Seq<bool>) -> Seq<u8> {
    spec_merkle_fold(leaf, path, indices, MERKLE_TREE_DEPTH as nat)
}

/// A proof is accepted exactly when it leads to the claimed root.
pub open spec fn spec_verify_merkle_proof(
    leaf: Seq<u8>,
    path: Seq<Seq<u8>>,
    indices: Seq<bool>,
    root: Seq<u8>,
) -> bool {
    spec_merkle_root(leaf, path, indices) == root
}

/// The hash of an empty subtree of the given height.
pub open spec fn spec_zero_value(level: nat) -> Seq<u8>
    decreases level,
{
    if level == 0 {
        zero_digest()
    } else {
        spec_hash_pair(spec_zero_value((level - 1) as nat), spec_zero_value((level - 1) as nat))
    }
}

/// Recomputes the root from a leaf and its branch: at each level the
/// direction bit decides on which side the sibling is hashed in.
pub fn compute_merkle_root(
    leaf: &[u8; 32],
    path: &[[u8; 32]; MERKLE_TREE_DEPTH],
    path_indices: &[bool; MERKLE_TREE_DEPTH],
) -> (root: [u8; 32])
    ensures
        root@ == spec_merkle_root(leaf@, siblings(*path), path_indices@),
{
    let mut current: [u8; 32] = *leaf;
    let mut i: usize = 0;
    while i < MERKLE_TREE_DEPTH
        invariant
            i <= MERKLE_TREE_DEPTH,
            current@ == spec_merkle_fold(leaf@, siblings(*path), path_indices@, i as nat),
        decreases MERKLE_TREE_DEPTH - i,
    {
        let next: [u8; 32] = if path_indices[i] {
            hash_pair(&path[i], &current)
        } else {
            hash_pair(&current, &path[i])
        };
        current = next;
        i += 1;
    }
    current
}

/// Checks a membership proof: the branch is folded from the leaf upwards
/// and the result compared with the claimed root. A mismatch gives `false`.
pub fn verify_merkle_proof(
    leaf: &[u8; 32],
    path: &[[u8; 32]; MERKLE_TREE_DEPTH],
    path_indices: &[bool; MERKLE_TREE_DEPTH],
    root: &[u8; 32],
) -> (valid: bool)
    ensures
        valid == spec_verify_merkle_proof(leaf@, siblings(*path), path_indices@, root@),
{
    let computed: [u8; 32] = compute_merkle_root(leaf, path, path_indices);
    digest_eq(&computed, root)
}

/// Builds the table of empty-subtree hashes, level 0 (an empty leaf) first.
pub fn compute_zero_values() -> (zeros: [[u8; 32]; ZERO_VALUE_LEVELS])
    ensures
        forall|level: int|
            0 <= level <= MERKLE_TREE_DEPTH ==> (#[trigger] zeros@[level])@ == spec_zero_value(
                level as nat,
            ),
{
    let mut zeros: [[u8; 32]; ZERO_VALUE_LEVELS] = [[0u8; 32]; ZERO_VALUE_LEVELS];
    assert(zeros@[0]@ =~= zero_digest());
    let mut i: usize = 1;
    while i <= MERKLE_TREE_DEPTH
        invariant
            1 <= i <= MERKLE_TREE_DEPTH + 1,
            forall|level: int|
                0 <= level < i ==> (#[trigger] zeros@[level])@ == spec_zero_value(level as nat),
        decreases MERKLE_TREE_DEPTH + 1 - i,
    {
        let below: [u8; 32] = zeros[i - 1];
        let next: [u8; 32] = hash_pair(&below, &below);
        zeros[i] = next;
        i += 1;
    }
    zeros
}

/// Hashing is a function of its two inputs: equal inputs give equal digests.
pub proof fn lemma_hash_pair_deterministic(
    left1: Seq<u8>,
    right1: Seq<u8>,
    left2: Seq<u8>,
    right2: Seq<u8>,
)
    requires
        left1 == left2,
        right1 == right2,
    ensures
        spec_hash_pair(left1, right1) == spec_hash_pair(left2, right2),
{
}

/// The table of empty-subtree hashes starts at thirty-two zero bytes, and
/// every later level is the hash of the level below paired with itself.
pub proof fn lemma_zero_value_recurrence(level: nat)
    ensures
        spec_zero_value(0) == zero_digest(),
        level > 0 ==> spec_zero_value(level) == spec_hash_pair(
            spec_zero_value((level - 1) as nat),
            spec_zero_value((level - 1) as nat),
        ),
{
}

/// A proof checked against the root that the same leaf and branch fold to
/// is accepted.
pub proof fn lemma_honest_proof_accepted(leaf: Seq<u8>, path: Seq<Seq<u8>>, indices: Seq<bool>)
    ensures
        spec_verify_merkle_proof(leaf, path, indices, spec_merkle_root(leaf, path, indices)),
{
}

/// A proof is rejected against every root other than the one it folds to:
/// changing the claimed root, by one bit or more, makes a proof that was
/// accepted fail.
pub proof fn lemma_changed_root_rejected(
    leaf: Seq<u8>,
    path: Seq<Seq<u8>>,
    indices: Seq<bool>,
    root: Seq<u8>,
)
    requires
        root != spec_merkle_root(leaf, path, indices),
    ensures
        !spec_verify_merkle_proof(leaf, path, indices, root),
{
}

/// The two values hashed at one level, in the order in which they are
/// hashed.
pub open spec fn spec_step_inputs(current: Seq<u8>, sibling: Seq<u8>, is_right: bool) -> (
    Seq<u8>,
    Seq<u8>,
) {
    if is_right {
        (sibling, current)
    } else {
        (current, sibling)
    }
}

/// The pairs that two proofs hash at `level` do not collide: if their
/// digests are equal, the pairs are.
pub open spec fn spec_no_collision_at(
    leaf1: Seq<u8>,
    path1: Seq<Seq<u8>>,
    indices1: Seq<bool>,
    leaf2: Seq<u8>,
    path2: Seq<Seq<u8>>,
    indices2: Seq<bool>,
    level: int,
) -> bool {
    let inputs1 = spec_step_inputs(
        spec_merkle_fold(leaf1, path1, indices1, level as nat),
        path1[level],
        indices1[level],
    );
    let inputs2 = spec_step_inputs(
        spec_merkle_fold(leaf2, path2, indices2, level as nat),
        path2[level],
        indices2[level],
    );
    spec_hash_pair(inputs1.0, inputs1.1) == spec_hash_pair(inputs2.0, inputs2.1) ==> inputs1
        == inputs2
}

/// The hash does not collide on the pairs that two proofs hash, at any
/// level of the tree.
pub open spec fn spec_no_collision(
    leaf1: Seq<u8>,
    path1: Seq<Seq<u8>>,
    indices1: Seq<bool>,
    leaf2: Seq<u8>,
    path2: Seq<Seq<u8>>,
    indices2: Seq<bool>,
) -> bool {
    forall|level: int|
        0 <= level < MERKLE_TREE_DEPTH ==> #[trigger] spec_no_collision_at(
            leaf1,
            path1,
            indices1,
            leaf2,
            path2,
            indices2,
            level,
        )
}

/// Two proofs that agree on everything below `levels` reach the same node
/// there.
proof fn lemma_fold_agrees_below(
    leaf: Seq<u8>,
    path1: Seq<Seq<u8>>,
    indices1: Seq<bool>,
    path2: Seq<Seq<u8>>,
    indices2: Seq<bool>,
    levels: nat,
)
    requires
        forall|k: int| 0 <= k < levels ==> path1[k] == path2[k] && indices1[k] == indices2[k],
    ensures
        spec_merkle_fold(leaf, path1, indices1, levels) == spec_merkle_fold(
            leaf,
            path2,
            indices2,
            levels,
        ),
    decreases levels,
{
    if levels > 0 {
        lemma_fold_agrees_below(leaf, path1, indices1, path2, indices2, (levels - 1) as nat);
    }
}

/// Where two proofs have reached different nodes at level `from` and agree
/// in siblings and directions from there on, they still differ at level
/// `to`, unless the hash collides on the way.
proof fn lemma_difference_climbs(
    leaf1: Seq<u8>,
    path1: Seq<Seq<u8>>,
    indices1: Seq<bool>,
    leaf2: Seq<u8>,
    path2: Seq<Seq<u8>>,
    indices2: Seq<bool>,
    from: nat,
    to: nat,
)
    requires
        from <= to <= MERKLE_TREE_DEPTH,
        spec_merkle_fold(leaf1, path1, indices1, from) != spec_merkle_fold(
            leaf2,
            path2,
            indices2,
            from,
        ),
        forall|k: int| from <= k < to ==> path1[k] == path2[k] && indices1[k] == indices2[k],
        spec_no_collision(leaf1, path1, indices1, leaf2, path2, indices2),
    ensures
        spec_merkle_fold(leaf1, path1, indices1, to) != spec_merkle_fold(
            leaf2,
            path2,
            indices2,
            to,
        ),
    decreases to,
{
    if to > from {
        let below = (to - 1) as nat;
        lemma_difference_climbs(leaf1, path1, indices1, leaf2, path2, indices2, from, below);
        assert(spec_no_collision_at(leaf1, path1, indices1, leaf2, path2, indices2, below as int));
    }
}

/// A proof with another leaf is rejected against the root of the first,
/// provided the hash does not collide on the pairs the two proofs hash.
pub proof fn lemma_changed_leaf_rejected(
    leaf: Seq<u8>,
    path: Seq<Seq<u8>>,
    indices: Seq<bool>,
    leaf2: Seq<u8>,
)
    requires
        leaf2 != leaf,
        spec_no_collision(leaf, path, indices, leaf2, path, indices),
    ensures
        !spec_verify_merkle_proof(leaf2, path, indices, spec_merkle_root(leaf, path, indices)),
{
    lemma_difference_climbs(
        leaf,
        path,
        indices,
        leaf2,
        path,
        indices,
        0,
        MERKLE_TREE_DEPTH as nat,
    );
}

/// A proof in which one sibling was replaced by another value is rejected
/// against the root of the first, provided the hash does not collide on
/// the pairs the two proofs hash.
pub proof fn lemma_changed_sibling_rejected(
    leaf: Seq<u8>,
    path: Seq<Seq<u8>>,
    indices: Seq<bool>,
    level: int,
    sibling2: Seq<u8>,
)
    requires
        path.len() == MERKLE_TREE_DEPTH,
        0 <= level < MERKLE_TREE_DEPTH,
        sibling2 != path[level],
        spec_no_collision(leaf, path, indices, leaf, path.update(level, sibling2), indices),
    ensures
        !spec_verify_merkle_proof(
            leaf,
            path.update(level, sibling2),
            indices,
            spec_merkle_root(leaf, path, indices),
        ),
{
    let path2 = path.update(level, sibling2);
    lemma_fold_agrees_below(leaf, path, indices, path2, indices, level as nat);
    assert(spec_no_collision_at(leaf, path, indices, leaf, path2, indices, level));
    assert(path2[level] == sibling2);
    assert(spec_merkle_fold(leaf, path, indices, (level + 1) as nat) != spec_merkle_fold(
        leaf,
        path2,
        indices,
        (level + 1) as nat,
    ));
    lemma_difference_climbs(
        leaf,
        path,
        indices,
        leaf,
        path2,
        indices,
        (level + 1) as nat,
        MERKLE_TREE_DEPTH as nat,
    );
}

/// A proof in which one direction bit was flipped, at a level where the
/// node reached differs from its sibling, is rejected against the root of
/// the first, provided the hash does not collide on the pairs the two
/// proofs hash.
pub proof fn lemma_flipped_bit_rejected(
    leaf: Seq<u8>,
    path: Seq<Seq<u8>>,
    indices: Seq<bool>,
    level: int,
)
    requires
        indices.len() == MERKLE_TREE_DEPTH,
        0 <= level < MERKLE_TREE_DEPTH,
        spec_merkle_fold(leaf, path, indices, level as nat) != path[level],
        spec_no_collision(
            leaf,
            path,
            indices,
            leaf,
            path,
            indices.update(level, !indices[level]),
        ),
    ensures
        !spec_verify_merkle_proof(
            leaf,
            path,
            indices.update(level, !indices[level]),
            spec_merkle_root(leaf, path, indices),
        ),
{
    let indices2 = indices.update(level, !indices[level]);
    lemma_fold_agrees_below(leaf, path, indices, path, indices2, level as nat);
    assert(spec_no_collision_at(leaf, path, indices, leaf, path, indices2, level));
    assert(indices2[level] == !indices[level]);
    assert(spec_merkle_fold(leaf, path, indices, (level + 1) as nat) != spec_merkle_fold(
        leaf,
        path,
        indices2,
        (level + 1) as nat,
    ));
    lemma_difference_climbs(
        leaf,
        path,
        indices,
        leaf,
        path,
        indices2,
        (level + 1) as nat,
        MERKLE_TREE_DEPTH as nat,
    );
}

} // verus!
