use ark_bn254::{Bn254, Fr};
use ark_ff::bytes::ToBytes;
use ark_ff::One;
use ark_groth16::{create_random_proof, generate_random_parameters};
use ark_relations::r1cs::{
    ConstraintSynthesizer, ConstraintSystemRef, LinearCombination, SynthesisError, Variable,
};
use ark_serialize::CanonicalSerialize;
use ark_std::test_rng;

use hide_email::adapter::run;
use hide_email::codec::{decode_proof, decode_verifying_key};
use hide_email::error::Error;
use hide_email::groth16::{prepare, verify};
use hide_email::transform::transform_public_input_flatten;

/// A toy statement with one public input: the prover knows a witness
/// equal to the public value (the constraint is `w * 1 = x`).
struct EqualityCircuit {
    value: Option<Fr>,
}

impl ConstraintSynthesizer<Fr> for EqualityCircuit {
    fn generate_constraints(self, cs: ConstraintSystemRef<Fr>) -> Result<(), SynthesisError> {
        let w = cs.new_witness_variable(|| self.value.ok_or(SynthesisError::AssignmentMissing))?;
        let x = cs.new_input_variable(|| self.value.ok_or(SynthesisError::AssignmentMissing))?;
        cs.enforce_constraint(
            LinearCombination(vec![(Fr::one(), w)]),
            LinearCombination(vec![(Fr::one(), Variable::One)]),
            LinearCombination(vec![(Fr::one(), x)]),
        )?;
        Ok(())
    }
}

/// Runs setup and proving for `EqualityCircuit` with the given public
/// value; returns the serialized proof, the serialized verifying key
/// and the assigned field element.
fn setup_and_prove(value: u64) -> (Vec<u8>, Vec<u8>, Fr) {
    let rng = &mut test_rng();
    let params =
        generate_random_parameters::<Bn254, _, _>(EqualityCircuit { value: None }, rng).unwrap();
    let assigned = Fr::from(value);
    let proof = create_random_proof(
        EqualityCircuit {
            value: Some(assigned),
        },
        &params,
        rng,
    )
    .unwrap();
    let mut vk_bytes = Vec::new();
    params.vk.serialize(&mut vk_bytes).unwrap();
    let mut proof_bytes = Vec::new();
    proof.serialize(&mut proof_bytes).unwrap();
    (proof_bytes, vk_bytes, assigned)
}

/// The canonical 32-byte little-endian encoding of a field element.
fn le_bytes(value: &Fr) -> Vec<u8> {
    let mut out = Vec::new();
    value.write(&mut out).unwrap();
    out
}

#[test]
fn test_verify() {
    let (proof_bytes, vk_bytes, x) = setup_and_prove(41);

    let vk = decode_verifying_key(&vk_bytes).unwrap();
    let proof = decode_proof(&proof_bytes).unwrap();
    let pvk = prepare(&vk);
    assert!(verify(&pvk, &proof, &vec![x]).unwrap());

    let blob = le_bytes(&x);
    let public_input = transform_public_input_flatten(&blob).unwrap();
    assert!(verify(&pvk, &proof, &public_input).unwrap());

    assert_eq!(run(Some(proof_bytes), Some(vk_bytes), Some(blob)), Ok(()));
}

#[test]
fn test_round_trip_scenario() {
    // A correctly generated proof for `x == 5` with public input `[5]`.
    let (proof_bytes, vk_bytes, five) = setup_and_prove(5);
    let vk = decode_verifying_key(&vk_bytes).unwrap();
    let proof = decode_proof(&proof_bytes).unwrap();
    let pvk = prepare(&vk);
    assert_eq!(verify(&pvk, &proof, &vec![five]), Ok(true));
    assert_eq!(
        run(Some(proof_bytes), Some(vk_bytes), Some(le_bytes(&five))),
        Ok(())
    );
}

#[test]
fn test_wrong_public_input() {
    // The same proof presented with public input `[6]` is rejected
    // cryptographically: `false`, not an error.
    let (proof_bytes, vk_bytes, _) = setup_and_prove(5);
    let vk = decode_verifying_key(&vk_bytes).unwrap();
    let proof = decode_proof(&proof_bytes).unwrap();
    let pvk = prepare(&vk);
    assert_eq!(verify(&pvk, &proof, &vec![Fr::from(6u64)]), Ok(false));
    assert_eq!(
        run(
            Some(proof_bytes),
            Some(vk_bytes),
            Some(le_bytes(&Fr::from(6u64)))
        ),
        Err(Error::VerificationFailed)
    );
}

#[test]
fn test_dimension_mismatch() {
    // A spurious extra element is a dimension error, never silent
    // truncation; so is an empty input vector.
    let (proof_bytes, vk_bytes, five) = setup_and_prove(5);
    let vk = decode_verifying_key(&vk_bytes).unwrap();
    let proof = decode_proof(&proof_bytes).unwrap();
    let pvk = prepare(&vk);
    assert_eq!(
        verify(&pvk, &proof, &vec![five, Fr::from(0u64)]),
        Err(Error::DimensionMismatch)
    );
    assert_eq!(verify(&pvk, &proof, &vec![]), Err(Error::DimensionMismatch));

    let mut blob = le_bytes(&five);
    blob.extend_from_slice(&le_bytes(&Fr::from(0u64)));
    assert_eq!(
        run(Some(proof_bytes), Some(vk_bytes), Some(blob)),
        Err(Error::VerificationFailed)
    );
}

#[test]
fn test_determinism() {
    let (proof_bytes, vk_bytes, five) = setup_and_prove(5);
    let blob = le_bytes(&five);

    let first = run(
        Some(proof_bytes.clone()),
        Some(vk_bytes.clone()),
        Some(blob.clone()),
    );
    let second = run(Some(proof_bytes), Some(vk_bytes), Some(blob));
    assert_eq!(first, second);
    assert_eq!(first, Ok(()));
}

#[test]
fn test_tampered_proof_rejected() {
    let (proof_bytes, vk_bytes, five) = setup_and_prove(5);
    let blob = le_bytes(&five);
    for position in [0usize, 17, 63] {
        let mut tampered = proof_bytes.clone();
        tampered[position] ^= 0x01;
        assert!(
            run(Some(tampered), Some(vk_bytes.clone()), Some(blob.clone())).is_err(),
            "flipping proof byte {} must reject",
            position
        );
    }
}

#[test]
fn test_tampered_public_input_rejected() {
    let (proof_bytes, vk_bytes, five) = setup_and_prove(5);
    let blob = le_bytes(&five);
    for position in [0usize, 13, 31] {
        let mut tampered = blob.clone();
        tampered[position] ^= 0x01;
        assert!(
            run(
                Some(proof_bytes.clone()),
                Some(vk_bytes.clone()),
                Some(tampered)
            )
            .is_err(),
            "flipping input byte {} must reject",
            position
        );
    }
}
