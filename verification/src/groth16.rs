use vstd::prelude::*;

use crate::codec::{Proof, VerifyingKey, vk_arity};
use crate::error::Error;

verus! {

/// A verifying key precomputed for the pairing check: it caches
/// `e(alpha_g1, beta_g2)` and the negated, pairing-prepared forms of
/// `gamma_g2` and `delta_g2`, and keeps the key itself inside.
#[verifier::external_body]
#[derive(Debug)]
pub struct PreparedVerifyingKey {
    pub(crate) inner: ark_groth16::PreparedVerifyingKey<ark_bn254::Bn254>,
}

// The prepared form of a verifying key: preparation is a pure function
// of the key.
pub uninterp spec fn prepared_of(vk: VerifyingKey) -> PreparedVerifyingKey;

// The length of the `gamma_abc_g1` commitment vector kept inside a
// prepared key.
pub uninterp spec fn pvk_arity(pvk: PreparedVerifyingKey) -> nat;

/// Relies on `ark_groth16::prepare_verifying_key`: it computes
/// `e(alpha_g1, beta_g2)` and the negations of `gamma_g2` and `delta_g2`
/// in pairing-prepared form, and clones the key — `gamma_abc_g1`
/// included — unchanged into the result.
#[verifier::external_body]
fn prepare_raw(vk: &VerifyingKey) -> (r: PreparedVerifyingKey)
    ensures
        r == prepared_of(*vk),
        pvk_arity(r) == vk_arity(*vk),
{
    PreparedVerifyingKey { inner: ark_groth16::prepare_verifying_key(&vk.inner) }
}

impl PreparedVerifyingKey {
    /// Relies on `Vec::len` applied to the `gamma_abc_g1` field of the
    /// key kept inside.
    #[verifier::external_body]
    pub fn num_commitments(&self) -> (r: usize)
        ensures
            r == pvk_arity(*self),
    {
        self.inner.vk.gamma_abc_g1.len()
    }
}

/// Derives the precomputed form of a verifying key; a pure function of
/// the key that keeps its commitment count.
pub fn prepare(vk: &VerifyingKey) -> (r: PreparedVerifyingKey)
    ensures
        r == prepared_of(*vk),
        pvk_arity(r) == vk_arity(*vk),
{
    prepare_raw(vk)
}

// What the Groth16 pairing check yields once the arity matches:
// `Some(true)` when the multi-pairing product equals the cached
// `e(alpha, beta)`, `Some(false)` when it differs, `None` for the
// degenerate case where the final exponentiation is undefined.  A pure
// function of the prepared key, the proof and the inputs.
pub uninterp spec fn pairing_outcome(
    pvk: PreparedVerifyingKey,
    proof: Proof,
    inputs: Seq<ark_bn254::Fr>,
) -> Option<bool>;

/// Relies on `ark_groth16::verify_proof`: it errors exactly when the
/// input count plus one differs from the `gamma_abc_g1` length, or when
/// the final exponentiation of the multi-pairing is undefined; otherwise
/// it compares the pairing product against the cached `e(alpha, beta)`.
#[verifier::external_body]
fn verify_raw(pvk: &PreparedVerifyingKey, proof: &Proof, inputs: &Vec<ark_bn254::Fr>) -> (r:
    Option<bool>)
    ensures
        inputs@.len() + 1 == pvk_arity(*pvk) ==> r == pairing_outcome(*pvk, *proof, inputs@),
        inputs@.len() + 1 != pvk_arity(*pvk) ==> r is None,
{
    ark_groth16::verify_proof(&pvk.inner, &proof.inner, inputs.as_slice()).ok()
}

/// What the verifier returns: a dimension mismatch is its own error,
/// distinct from a cryptographic rejection, and a pairing product that
/// cannot be evaluated is an error rather than an acceptance.
pub open spec fn verify_spec(
    pvk: PreparedVerifyingKey,
    proof: Proof,
    inputs: Seq<ark_bn254::Fr>,
) -> Result<bool, Error> {
    if inputs.len() + 1 != pvk_arity(pvk) {
        Err(Error::DimensionMismatch)
    } else {
        match pairing_outcome(pvk, proof, inputs) {
            Some(b) => Ok(b),
            None => Err(Error::VerificationFailed),
        }
    }
}

/// Runs the Groth16 pairing check of `proof` against the prepared key
/// and the ordered public inputs.  The input count must be exactly one
/// less than the key's commitment count: a mismatch is reported as
/// `DimensionMismatch`, never silently truncated or padded.
pub fn verify(pvk: &PreparedVerifyingKey, proof: &Proof, public_input: &Vec<ark_bn254::Fr>) -> (r:
    Result<bool, Error>)
    ensures
        r == verify_spec(*pvk, *proof, public_input@),
{
    let arity = pvk.num_commitments();
    if arity == 0 || public_input.len() != arity - 1 {
        return Err(Error::DimensionMismatch);
    }
    match verify_raw(pvk, proof, public_input) {
        Some(b) => Ok(b),
        None => Err(Error::VerificationFailed),
    }
}

/// A public-input count that is not exactly one less than the key's
/// commitment count fails with `DimensionMismatch`, never with silent
/// truncation or padding.
pub proof fn lemma_dimension_enforced(
    pvk: PreparedVerifyingKey,
    proof: Proof,
    inputs: Seq<ark_bn254::Fr>,
)
    requires
        inputs.len() + 1 != pvk_arity(pvk),
    ensures
        verify_spec(pvk, proof, inputs) == Err::<bool, Error>(Error::DimensionMismatch),
{
}

/// The verifier is deterministic: two runs on identical inputs return
/// identical results — the same boolean, or the same error.
pub proof fn lemma_verify_deterministic(
    pvk: PreparedVerifyingKey,
    proof: Proof,
    inputs: Seq<ark_bn254::Fr>,
    r1: Result<bool, Error>,
    r2: Result<bool, Error>,
)
    requires
        r1 == verify_spec(pvk, proof, inputs),
        r2 == verify_spec(pvk, proof, inputs),
    ensures
        r1 == r2,
{
}

} // verus!
