//! Verification of Groth16 proofs over BN254 as written out by Circom-style
//! tooling: decimal field elements, curve points given as coordinate triples,
//! the three artifacts (public inputs, proof, verifying key), the linear
//! combination of the public inputs and the final pairing equation.

pub mod artifacts;
pub mod bn254;
pub mod decimal;
pub mod error;
pub mod field;
pub mod groth16;
pub mod pairing;
pub mod point;
pub mod uint;

