//! The slot for a succinct proof verifier. No pairing-based verifier is
//! wired in, so this module accepts no proof: it defines the shapes of
//! proof, public inputs and verification key, and a verifier that refuses.

use crate::state::MixerError;
use vstd::prelude::*;

verus! {

/// A Groth16 proof: two points of the first group and one of the second,
/// in their 64- and 128-byte encodings.
#[derive(Clone, Debug, PartialEq, Eq)]
pub struct Groth16Proof {
    pub a: [u8; 64],
    pub b: [u8; 128],
    pub c: [u8; 64],
}

/// What a proof is checked against: the root of the commitment tree and
/// the hash of the nullifier being spent.
#[derive(Clone, Debug, PartialEq, Eq)]
pub struct PublicInputs {
    pub root: [u8; 32],
    pub nullifier_hash: [u8; 32],
}

/// The verification key of the circuit.
#[derive(Clone, Debug, PartialEq, Eq)]
pub struct VerificationKey {
    pub alpha_g1: [u8; 64],
    pub beta_g2: [u8; 128],
    pub gamma_g2: [u8; 128],
    pub delta_g2: [u8; 128],
    /// One point per public input, and one for the constant term.
    pub ic: Vec<[u8; 64]>,
}

impl VerificationKey {
    /// Size of the stored record in bytes, with its 8-byte tag and room for
    /// three input points.
    pub const LEN: usize = 8 + 64 + 128 + 128 + 128 + 4 + (64 * 3);
}

impl Default for VerificationKey {
    /// The empty key: every point zero, no input points.
    fn default() -> (key: VerificationKey)
        ensures
            forall|i: int| 0 <= i < 64 ==> key.alpha_g1@[i] == 0u8,
            forall|i: int| 0 <= i < 128 ==> key.beta_g2@[i] == 0u8,
            forall|i: int| 0 <= i < 128 ==> key.gamma_g2@[i] == 0u8,
            forall|i: int| 0 <= i < 128 ==> key.delta_g2@[i] == 0u8,
            key.ic@.len() == 0,
    {
        VerificationKey {
            alpha_g1: [0u8; 64],
            beta_g2: [0u8; 128],
            gamma_g2: [0u8; 128],
            delta_g2: [0u8; 128],
            ic: Vec::new(),
        }
    }
}

/// Checks a proof against public inputs and a verification key. Until a
/// pairing check stands behind it, no proof is accepted: the answer is
/// `Ok(false)` for every input, so that nothing built on this function can
/// take an unchecked proof for a valid one.
pub fn verify_groth16_proof(
    proof: &Groth16Proof,
    public_inputs: &PublicInputs,
    verification_key: &VerificationKey,
) -> (result: Result<bool, MixerError>)
    ensures
        result == Ok::<bool, MixerError>(false),
{
    Ok(false)
}

} // verus!
