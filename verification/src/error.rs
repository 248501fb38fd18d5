//! The errors of decoding and of verification.

use vstd::prelude::*;

verus! {

/// Why an artifact, or a part of one, could not be decoded.
#[derive(Clone, Copy, Debug, PartialEq, Eq, Structural)]
pub enum DecodeError {
    /// A string is not a decimal numeral of a canonical field element.
    InvalidNumeral,
    /// A coordinate triple has a zero denominator and is not the identity's encoding.
    InvalidPoint,
    /// The coordinates do not satisfy the curve equation, or the point lies
    /// outside the group of prime order.
    PointNotOnCurve,
    /// The protocol tag is not `groth16`.
    UnsupportedProtocol,
    /// The curve tag is not `bn128`.
    UnsupportedCurve,
    /// The number of input bases is not the declared number of public inputs plus one.
    InconsistentIcLength,
    /// The document does not have the expected shape.
    MalformedJson,
}

/// Why a proof could not be checked against a key and a vector of inputs.
#[derive(Clone, Copy, Debug, PartialEq, Eq, Structural)]
pub enum VerifyError {
    /// The number of public inputs is not the number of input bases minus one.
    PublicInputCountMismatch,
}

/// Why a run from the three raw artifacts to a verdict ended without one.
#[derive(Clone, Copy, Debug, PartialEq, Eq, Structural)]
pub enum VerifierError {
    /// An artifact could not be decoded.
    Decode(DecodeError),
    /// The decoded artifacts do not fit together.
    Verify(VerifyError),
}

} // verus!
