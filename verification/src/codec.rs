use vstd::prelude::*;

use crate::error::Error;

verus! {

// ---------------------------------------------------------------------------
// The scalar field.
//
// `ark_bn254::Fr` is `ark_ff::Fp256<ark_bn254::FrParameters>`, the scalar
// field of BN254.  The type is declared so that field elements can stand
// in signatures; its values are opaque here.
// ---------------------------------------------------------------------------

#[verifier::external_type_specification]
#[verifier::external_body]
#[verifier::reject_recursive_types(P)]
pub struct ExFp256<P>(ark_ff::Fp256<P>);

#[verifier::external_type_specification]
#[verifier::external_body]
pub struct ExFrParameters(ark_bn254::FrParameters);

// ---------------------------------------------------------------------------
// Opaque curve objects.
//
// The generic arkworks point and aggregate types cannot be declared here
// (their bounds name outside traits), so each lives inside a monomorphic
// library type whose single field holds the outside value.  The library
// moves these between the decoders, the key preparation and the pairing
// check without looking inside.
// ---------------------------------------------------------------------------

/// A point of the G1 group of BN254, on the curve and in the right
/// subgroup by construction.
#[verifier::external_body]
#[derive(Debug)]
pub struct G1Point {
    pub(crate) inner: ark_bn254::G1Affine,
}

/// A point of the G2 group of BN254, on the curve and in the right
/// subgroup by construction.
#[verifier::external_body]
#[derive(Debug)]
pub struct G2Point {
    pub(crate) inner: ark_bn254::G2Affine,
}

/// The trusted-setup verifying key: `alpha_g1`, `beta_g2`, `gamma_g2`,
/// `delta_g2` and the input-commitment vector `gamma_abc_g1`.
#[verifier::external_body]
#[derive(Debug)]
pub struct VerifyingKey {
    pub(crate) inner: ark_groth16::VerifyingKey<ark_bn254::Bn254>,
}

/// A Groth16 proof: the group elements `a` in G1, `b` in G2, `c` in G1.
#[verifier::external_body]
#[derive(Debug)]
pub struct Proof {
    pub(crate) inner: ark_groth16::Proof<ark_bn254::Bn254>,
}

// ---------------------------------------------------------------------------
// The field codec.
// ---------------------------------------------------------------------------

/// The order of the BN254 scalar field: a field-element buffer must
/// encode an integer strictly below it.
pub open spec fn fr_modulus() -> nat {
    21888242871839275222246405745257275088548364400416034343698204186575808495617nat
}

/// The integer that a byte sequence encodes in little-endian order.
pub open spec fn le_value(s: Seq<u8>) -> nat
    decreases s.len(),
{
    if s.len() == 0 {
        0
    } else {
        (s.first() as nat) + 256 * le_value(s.drop_first())
    }
}

// The field element that the little-endian decoder of the proving side
// assigns to a 32-byte buffer: `Some` exactly for canonical encodings.
pub uninterp spec fn fr_of_bytes(s: Seq<u8>) -> Option<ark_bn254::Fr>;

/// Relies on `ark_ff::bytes::FromBytes` for `ark_bn254::Fr`: it reads the
/// 32 bytes as a little-endian integer, and `from_repr` accepts that
/// integer exactly when it lies below the field modulus; the result is a
/// function of the bytes alone.
#[verifier::external_body]
fn read_fr(bytes: &[u8]) -> (r: Option<ark_bn254::Fr>)
    requires
        bytes@.len() == 32,
    ensures
        r == fr_of_bytes(bytes@),
        r is Some <==> le_value(bytes@) < fr_modulus(),
{
    <ark_bn254::Fr as ark_ff::bytes::FromBytes>::read(bytes).ok()
}

/// What the field codec returns for a given buffer.
pub open spec fn decode_field_spec(s: Seq<u8>) -> Result<ark_bn254::Fr, Error> {
    if s.len() == 32 && le_value(s) < fr_modulus() {
        Ok(fr_of_bytes(s).unwrap())
    } else {
        Err(Error::MalformedField)
    }
}

/// Decodes one scalar-field element from a fixed 32-byte little-endian
/// buffer; a buffer of any other length, or one encoding a value at or
/// above the field modulus, is rejected rather than reduced.
pub fn decode_field(bytes: &[u8]) -> (r: Result<ark_bn254::Fr, Error>)
    ensures
        r == decode_field_spec(bytes@),
        r is Ok <==> bytes@.len() == 32 && le_value(bytes@) < fr_modulus(),
        r is Ok <==> bytes@.len() == 32 && fr_of_bytes(bytes@) is Some,
{
    if bytes.len() != 32 {
        return Err(Error::MalformedField);
    }
    match read_fr(bytes) {
        Some(f) => Ok(f),
        None => Err(Error::MalformedField),
    }
}

/// A buffer encoding a value at or above the field modulus is rejected
/// by the codec, never silently reduced.
pub proof fn lemma_non_canonical_rejected(s: Seq<u8>)
    requires
        le_value(s) >= fr_modulus(),
    ensures
        decode_field_spec(s) == Err::<ark_bn254::Fr, Error>(Error::MalformedField),
{
}

// ---------------------------------------------------------------------------
// The group and aggregate codecs.
// ---------------------------------------------------------------------------

// The G1 point that the compressed deserializer assigns to a buffer:
// `Some` only for an encoding of a curve point in the right subgroup.
pub uninterp spec fn g1_of_bytes(s: Seq<u8>) -> Option<G1Point>;

/// Relies on `CanonicalDeserialize` for short-Weierstrass affine points:
/// it recovers the point from its compressed x-coordinate and rejects a
/// buffer whose point is off the curve or outside the prime-order
/// subgroup; the result is a function of the bytes alone.
#[verifier::external_body]
fn read_g1(bytes: &[u8]) -> (r: Option<G1Point>)
    ensures
        r == g1_of_bytes(bytes@),
{
    match <ark_bn254::G1Affine as ark_serialize::CanonicalDeserialize>::deserialize(bytes) {
        Ok(p) => Some(G1Point { inner: p }),
        Err(_) => None,
    }
}

// The G2 point that the compressed deserializer assigns to a buffer.
pub uninterp spec fn g2_of_bytes(s: Seq<u8>) -> Option<G2Point>;

/// Relies on `CanonicalDeserialize` for short-Weierstrass affine points
/// over the quadratic extension field, as `read_g1` does for G1.
#[verifier::external_body]
fn read_g2(bytes: &[u8]) -> (r: Option<G2Point>)
    ensures
        r == g2_of_bytes(bytes@),
{
    match <ark_bn254::G2Affine as ark_serialize::CanonicalDeserialize>::deserialize(bytes) {
        Ok(p) => Some(G2Point { inner: p }),
        Err(_) => None,
    }
}

// The verifying key that the deserializer assigns to a buffer: the five
// group-element fields read in order, each validated as in `g1_of_bytes`.
pub uninterp spec fn vk_of_bytes(s: Seq<u8>) -> Option<VerifyingKey>;

// The length of a key's `gamma_abc_g1` commitment vector, one more than
// the public-input count of the circuit the key was set up for.
pub uninterp spec fn vk_arity(vk: VerifyingKey) -> nat;

/// Relies on the derived `CanonicalDeserialize` for
/// `ark_groth16::VerifyingKey`: it reads `alpha_g1`, `beta_g2`,
/// `gamma_g2`, `delta_g2` and the length-prefixed `gamma_abc_g1` vector
/// in order, validating every point; the result is a function of the
/// bytes alone.
#[verifier::external_body]
fn read_vk(bytes: &[u8]) -> (r: Option<VerifyingKey>)
    ensures
        r == vk_of_bytes(bytes@),
{
    match <ark_groth16::VerifyingKey<ark_bn254::Bn254> as ark_serialize::CanonicalDeserialize>::deserialize(
        bytes,
    ) {
        Ok(vk) => Some(VerifyingKey { inner: vk }),
        Err(_) => None,
    }
}

// The proof that the deserializer assigns to a buffer: the points
// `a`, `b`, `c` read in order, each validated as in `g1_of_bytes`.
pub uninterp spec fn proof_of_bytes(s: Seq<u8>) -> Option<Proof>;

/// Relies on the derived `CanonicalDeserialize` for
/// `ark_groth16::Proof`: it reads the compressed points `a`, `b`, `c` in
/// order, validating each; the result is a function of the bytes alone.
#[verifier::external_body]
fn read_proof(bytes: &[u8]) -> (r: Option<Proof>)
    ensures
        r == proof_of_bytes(bytes@),
{
    match <ark_groth16::Proof<ark_bn254::Bn254> as ark_serialize::CanonicalDeserialize>::deserialize(
        bytes,
    ) {
        Ok(p) => Some(Proof { inner: p }),
        Err(_) => None,
    }
}

/// What the G1 codec returns for a given buffer.
pub open spec fn decode_group_g1_spec(s: Seq<u8>) -> Result<G1Point, Error> {
    match g1_of_bytes(s) {
        Some(p) => Ok(p),
        None => Err(Error::MalformedPoint),
    }
}

/// Decodes a compressed G1 point, rejecting any buffer that does not
/// encode a curve point in the right subgroup.
pub fn decode_group_g1(bytes: &[u8]) -> (r: Result<G1Point, Error>)
    ensures
        r == decode_group_g1_spec(bytes@),
        r is Ok <==> g1_of_bytes(bytes@) is Some,
{
    match read_g1(bytes) {
        Some(p) => Ok(p),
        None => Err(Error::MalformedPoint),
    }
}

/// What the G2 codec returns for a given buffer.
pub open spec fn decode_group_g2_spec(s: Seq<u8>) -> Result<G2Point, Error> {
    match g2_of_bytes(s) {
        Some(p) => Ok(p),
        None => Err(Error::MalformedPoint),
    }
}

/// Decodes a compressed G2 point, rejecting any buffer that does not
/// encode a curve point in the right subgroup.
pub fn decode_group_g2(bytes: &[u8]) -> (r: Result<G2Point, Error>)
    ensures
        r == decode_group_g2_spec(bytes@),
        r is Ok <==> g2_of_bytes(bytes@) is Some,
{
    match read_g2(bytes) {
        Some(p) => Ok(p),
        None => Err(Error::MalformedPoint),
    }
}

/// What the verifying-key codec returns for a given buffer.
pub open spec fn decode_verifying_key_spec(s: Seq<u8>) -> Result<VerifyingKey, Error> {
    match vk_of_bytes(s) {
        Some(vk) => Ok(vk),
        None => Err(Error::MalformedKey),
    }
}

/// Deserializes a verifying key, rejecting any buffer whose structure or
/// whose group elements are malformed.
pub fn decode_verifying_key(bytes: &[u8]) -> (r: Result<VerifyingKey, Error>)
    ensures
        r == decode_verifying_key_spec(bytes@),
        r is Ok <==> vk_of_bytes(bytes@) is Some,
{
    match read_vk(bytes) {
        Some(vk) => Ok(vk),
        None => Err(Error::MalformedKey),
    }
}

/// What the proof codec returns for a given buffer.
pub open spec fn decode_proof_spec(s: Seq<u8>) -> Result<Proof, Error> {
    match proof_of_bytes(s) {
        Some(p) => Ok(p),
        None => Err(Error::MalformedProof),
    }
}

/// Deserializes a proof, rejecting any buffer whose structure or whose
/// group elements are malformed.
pub fn decode_proof(bytes: &[u8]) -> (r: Result<Proof, Error>)
    ensures
        r == decode_proof_spec(bytes@),
        r is Ok <==> proof_of_bytes(bytes@) is Some,
{
    match read_proof(bytes) {
        Some(p) => Ok(p),
        None => Err(Error::MalformedProof),
    }
}

} // verus!
