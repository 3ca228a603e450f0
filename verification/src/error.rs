use vstd::prelude::*;

verus! {

/// Every way the verification pipeline can reject its input.
///
/// The enclosing script collapses all of these to a single failure
/// signal; the distinct kinds exist so that each stage can state
/// exactly when it fails.
#[derive(Clone, Copy, Debug, PartialEq, Eq, Structural)]
pub enum Error {
    /// A field-element buffer had the wrong length or encoded a value
    /// at or above the field modulus.
    MalformedField,
    /// A group-element buffer did not decode to a point on the curve
    /// in the right subgroup.
    MalformedPoint,
    /// The verifying-key buffer failed structural deserialization.
    MalformedKey,
    /// The proof buffer failed structural deserialization.
    MalformedProof,
    /// One of the three positional witness segments is absent.
    MissingWitnessField,
    /// The public-input count does not match the verifying key's arity.
    DimensionMismatch,
    /// Decoding succeeded but the pairing equation does not hold.
    VerificationFailed,
}

} // verus!
