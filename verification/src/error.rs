use vstd::prelude::*;

verus! {

/// Everything that can make a registration or a sign-in attempt fail.
///
/// A proof that is well formed but does not satisfy the verification equation
/// is no error: the sign-in then answers `Ok(false)`.
#[derive(Clone, Copy, Debug, PartialEq, Eq, Structural)]
pub enum AuthenticationError {
    /// The commitment has more than `MAX_HASH_LENGTH` bytes.
    HashTooLong,
    /// The identity already owns a record; records are never overwritten.
    AlreadyRegistered,
    /// The sign-in payload does not have exactly `PAYLOAD_LEN` bytes.
    MalformedPayload,
    /// No verifier can be built: the key does not carry one input point
    /// per public input, plus one.
    VerifierConstruction,
    /// A coordinate of the proof or a public input is not below the modulus
    /// of its field, or an input could not be folded into the key.
    InvalidEncoding,
}

} // verus!
