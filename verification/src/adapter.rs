use vstd::prelude::*;

use crate::codec::{decode_proof, decode_verifying_key, proof_of_bytes, vk_of_bytes};
use crate::error::Error;
use crate::groth16::{prepare, prepared_of, verify, verify_spec};
use crate::transform::{fields_of, transform_ok, transform_public_input_flatten};

verus! {

/// All three positional witness segments are present.
pub open spec fn segments_present(
    proof_seg: Option<Vec<u8>>,
    key_seg: Option<Vec<u8>>,
    input_seg: Option<Vec<u8>>,
) -> bool {
    proof_seg is Some && key_seg is Some && input_seg is Some
}

/// The pipeline accepts the three byte segments: the proof and the key
/// deserialize, the input blob splits into canonical field elements,
/// and the pairing check of the decoded objects comes back `true`.
pub open spec fn accepted(proof_bytes: Seq<u8>, key_bytes: Seq<u8>, input_bytes: Seq<u8>) -> bool {
    &&& proof_of_bytes(proof_bytes) is Some
    &&& vk_of_bytes(key_bytes) is Some
    &&& transform_ok(input_bytes)
    &&& verify_spec(
        prepared_of(vk_of_bytes(key_bytes).unwrap()),
        proof_of_bytes(proof_bytes).unwrap(),
        fields_of(input_bytes),
    ) == Ok::<bool, Error>(true)
}

/// The result that `run` owes its caller, as one expression.
pub open spec fn run_spec(
    proof_seg: Option<Vec<u8>>,
    key_seg: Option<Vec<u8>>,
    input_seg: Option<Vec<u8>>,
) -> Result<(), Error> {
    if !segments_present(proof_seg, key_seg, input_seg) {
        Err(Error::MissingWitnessField)
    } else if accepted(proof_seg.unwrap()@, key_seg.unwrap()@, input_seg.unwrap()@) {
        Ok(())
    } else {
        Err(Error::VerificationFailed)
    }
}

/// Drives decode, transform, prepare and verify over the three
/// positional witness segments — proof, verifying key, public input.
///
/// A missing segment is reported as `MissingWitnessField`; every other
/// failure, malformed bytes and cryptographic rejection alike, collapses
/// to the single uniform `VerificationFailed`, so that the boundary
/// leaks no structured failure information.
pub fn run(proof_seg: Option<Vec<u8>>, key_seg: Option<Vec<u8>>, input_seg: Option<Vec<u8>>) -> (r:
    Result<(), Error>)
    ensures
        r == run_spec(proof_seg, key_seg, input_seg),
{
    let (proof_bytes, key_bytes, input_bytes) = match (proof_seg, key_seg, input_seg) {
        (Some(p), Some(k), Some(i)) => (p, k, i),
        _ => {
            return Err(Error::MissingWitnessField);
        },
    };
    let proof = match decode_proof(proof_bytes.as_slice()) {
        Ok(p) => p,
        Err(_) => {
            return Err(Error::VerificationFailed);
        },
    };
    let vk = match decode_verifying_key(key_bytes.as_slice()) {
        Ok(vk) => vk,
        Err(_) => {
            return Err(Error::VerificationFailed);
        },
    };
    let public_input = match transform_public_input_flatten(input_bytes.as_slice()) {
        Ok(v) => v,
        Err(_) => {
            return Err(Error::VerificationFailed);
        },
    };
    let pvk = prepare(&vk);
    match verify(&pvk, &proof, &public_input) {
        Ok(true) => Ok(()),
        _ => Err(Error::VerificationFailed),
    }
}

/// A missing witness segment fails with `MissingWitnessField`, whatever
/// the other segments hold: no partial decoding is attempted.
pub proof fn lemma_missing_segment(
    proof_seg: Option<Vec<u8>>,
    key_seg: Option<Vec<u8>>,
    input_seg: Option<Vec<u8>>,
)
    requires
        !segments_present(proof_seg, key_seg, input_seg),
    ensures
        run_spec(proof_seg, key_seg, input_seg) == Err::<(), Error>(Error::MissingWitnessField),
{
}

/// The whole pipeline is deterministic: two runs on identical witness
/// segments return identical results.
pub proof fn lemma_run_deterministic(
    proof_seg: Option<Vec<u8>>,
    key_seg: Option<Vec<u8>>,
    input_seg: Option<Vec<u8>>,
    r1: Result<(), Error>,
    r2: Result<(), Error>,
)
    requires
        r1 == run_spec(proof_seg, key_seg, input_seg),
        r2 == run_spec(proof_seg, key_seg, input_seg),
    ensures
        r1 == r2,
{
}

} // verus!
