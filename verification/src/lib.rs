//! On-chain Groth16 proof verification over the BN254 curve.
//!
//! The library decodes a verifying key, a proof and a flat public-input
//! blob from fixed-layout byte buffers, prepares the key for pairing,
//! runs the Groth16 pairing check, and collapses the outcome to a single
//! accept/reject verdict for the enclosing transaction-validation script.

pub mod adapter;
pub mod codec;
pub mod error;
pub mod groth16;
pub mod transform;
