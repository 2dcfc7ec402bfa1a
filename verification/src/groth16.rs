use vstd::prelude::*;
use groth16_solana::errors::Groth16Error;
use groth16_solana::groth16::{Groth16Verifier, Groth16Verifyingkey};
use crate::error::AuthenticationError;
use crate::field::{encodes_field_elements, field_elements_are_valid};
use crate::payload::{Proof, ProofView, PublicInputs};
use crate::verify_key::{VerifyingKey, VerifyingKeyView};

verus! {

/// The error enum of the `groth16_solana` crate, with its variants, so that
/// the outcome of a verification can be told apart here.
#[verifier::external_type_specification]
pub struct ExGroth16Error(Groth16Error);

/// What `Groth16Verifier::verify` of the `groth16_solana` crate returns for
/// a verifier that holds this proof, these public inputs and this key.
///
/// It stands for the pairing check of the Groth16 scheme on the BN254 curve,
/// which is computed from these bytes alone.
pub uninterp spec fn groth16_verify_result(
    proof: ProofView,
    public_inputs: Seq<Seq<u8>>,
    key: VerifyingKeyView,
) -> Result<bool, Groth16Error>;

/// What `Groth16Verifier::new` followed by `Groth16Verifier::verify` makes
/// of a proof, public inputs and a key: `new` fails, with
/// `InvalidPublicInputsLength`, exactly when the key does not carry one
/// input point more than there are public inputs; otherwise the outcome is
/// that of `verify`.
pub open spec fn groth16_outcome(
    proof: ProofView,
    public_inputs: Seq<Seq<u8>>,
    key: VerifyingKeyView,
) -> Result<bool, Groth16Error> {
    if key.vk_ic.len() != public_inputs.len() + 1 {
        Err(Groth16Error::InvalidPublicInputsLength)
    } else {
        groth16_verify_result(proof, public_inputs, key)
    }
}

/// Builds a verifier with `Groth16Verifier::new` and runs
/// `Groth16Verifier::verify` on it.
///
/// Not proved, but taken from the source of `groth16_solana`:
/// - `new` fails, with `InvalidPublicInputsLength`, exactly when the key does
///   not carry one input point more than there are public inputs;
/// - on a verifier that was built, `verify` answers `Ok(true)` when the
///   pairing check holds, `ProofVerificationFailed` when it does not hold or
///   cannot be computed, and one of the two `PreparingInputs` errors when
///   an input cannot be folded into the key. It never answers `Ok(false)`.
#[verifier::external_body]
fn groth16_verify(proof: &Proof, public_inputs: &PublicInputs, key: &VerifyingKey) -> (r: Result<
    bool,
    Groth16Error,
>)
    ensures
        key@.vk_ic.len() != public_inputs@.len() + 1 ==> r is Err && r->Err_0
            == Groth16Error::InvalidPublicInputsLength,
        key@.vk_ic.len() == public_inputs@.len() + 1 ==> r == groth16_verify_result(
            proof@,
            public_inputs@,
            key@,
        ),
        key@.vk_ic.len() == public_inputs@.len() + 1 ==> verify_answers(r),
{
    let verifyingkey = Groth16Verifyingkey {
        nr_pubinputs: key.nr_pubinputs,
        vk_alpha_g1: key.vk_alpha_g1,
        vk_beta_g2: key.vk_beta_g2,
        vk_gamme_g2: key.vk_gamma_g2,
        vk_delta_g2: key.vk_delta_g2,
        vk_ic: key.vk_ic.as_slice(),
    };
    let elements = &public_inputs.elements;
    let mut verifier = Groth16Verifier::new(&proof.pi_a, &proof.pi_b, &proof.pi_c, elements, &verifyingkey)?;
    verifier.verify()
}

/// The answers that a verification run on a built verifier can give.
pub open spec fn verify_answers(outcome: Result<bool, Groth16Error>) -> bool {
    match outcome {
        Ok(accepted) => accepted,
        Err(Groth16Error::ProofVerificationFailed) => true,
        Err(Groth16Error::PreparingInputsG1MulFailed) => true,
        Err(Groth16Error::PreparingInputsG1AdditionFailed) => true,
        Err(_) => false,
    }
}

/// What this library makes of an outcome of the pairing library.
///
/// An accepted proof is `Ok(true)`. A proof that fails the check is
/// `Ok(false)`: a rejected proof is an answer, not an error. An element that
/// cannot be decoded is `InvalidEncoding`, and a verifier that cannot be
/// built is `VerifierConstruction`.
pub open spec fn verdict_of(outcome: Result<bool, Groth16Error>) -> Result<
    bool,
    AuthenticationError,
> {
    match outcome {
        Ok(accepted) => Ok(accepted),
        Err(Groth16Error::ProofVerificationFailed) => Ok(false),
        Err(Groth16Error::PreparingInputsG1MulFailed) => Err(AuthenticationError::InvalidEncoding),
        Err(Groth16Error::PreparingInputsG1AdditionFailed) => Err(
            AuthenticationError::InvalidEncoding,
        ),
        Err(Groth16Error::DecompressingG1Failed) => Err(AuthenticationError::InvalidEncoding),
        Err(Groth16Error::DecompressingG2Failed) => Err(AuthenticationError::InvalidEncoding),
        Err(Groth16Error::InvalidG1Length) => Err(AuthenticationError::VerifierConstruction),
        Err(Groth16Error::InvalidG2Length) => Err(AuthenticationError::VerifierConstruction),
        Err(Groth16Error::InvalidPublicInputsLength) => Err(
            AuthenticationError::VerifierConstruction,
        ),
        Err(Groth16Error::IncompatibleVerifyingKeyWithNrPublicInputs) => Err(
            AuthenticationError::VerifierConstruction,
        ),
    }
}

/// Turns an outcome of the pairing library into the answer of this library.
pub fn verdict(outcome: Result<bool, Groth16Error>) -> (r: Result<bool, AuthenticationError>)
    ensures
        r == verdict_of(outcome),
{
    match outcome {
        Ok(accepted) => Ok(accepted),
        Err(Groth16Error::ProofVerificationFailed) => Ok(false),
        Err(Groth16Error::PreparingInputsG1MulFailed)
        | Err(Groth16Error::PreparingInputsG1AdditionFailed)
        | Err(Groth16Error::DecompressingG1Failed)
        | Err(Groth16Error::DecompressingG2Failed) => Err(AuthenticationError::InvalidEncoding),
        Err(Groth16Error::InvalidG1Length)
        | Err(Groth16Error::InvalidG2Length)
        | Err(Groth16Error::InvalidPublicInputsLength)
        | Err(Groth16Error::IncompatibleVerifyingKeyWithNrPublicInputs) => Err(
            AuthenticationError::VerifierConstruction,
        ),
    }
}

/// The answer to a verification of `proof` for `public_inputs` under `key`.
///
/// A proof coordinate or a public input that is no field element is an
/// invalid encoding, whatever the pairing library would make of it. Every
/// other proof gets the verdict on the outcome of the pairing library.
pub open spec fn verification(
    proof: ProofView,
    public_inputs: Seq<Seq<u8>>,
    key: VerifyingKeyView,
) -> Result<bool, AuthenticationError> {
    if !encodes_field_elements(proof, public_inputs) {
        Err(AuthenticationError::InvalidEncoding)
    } else {
        verdict_of(groth16_outcome(proof, public_inputs, key))
    }
}

/// Checks a Groth16 proof for the given public inputs under the given key.
///
/// `Ok(true)` means that the proof was accepted and `Ok(false)` that it was
/// rejected. The call fails with `InvalidEncoding` when a coordinate of the
/// proof or a public input is not below the modulus of its field, or when an
/// input could not be folded into the key; and with `VerifierConstruction`
/// exactly when the elements are field elements but the key does not carry
/// one input point more than there are public inputs.
pub fn verify(proof: &Proof, public_inputs: &PublicInputs, key: &VerifyingKey) -> (r: Result<
    bool,
    AuthenticationError,
>)
    ensures
        r == verification(proof@, public_inputs@, key@),
        !encodes_field_elements(proof@, public_inputs@) ==> r is Err && r->Err_0
            == AuthenticationError::InvalidEncoding,
        encodes_field_elements(proof@, public_inputs@) && !key@.fits_circuit() <==> r is Err
            && r->Err_0 == AuthenticationError::VerifierConstruction,
        r is Err ==> r->Err_0 == AuthenticationError::InvalidEncoding || r->Err_0
            == AuthenticationError::VerifierConstruction,
{
    if !field_elements_are_valid(proof, public_inputs) {
        return Err(AuthenticationError::InvalidEncoding);
    }
    verdict(groth16_verify(proof, public_inputs, key))
}

/// Verification is a function of the bytes alone: proofs, inputs and keys
/// that hold the same bytes get the same answer.
pub proof fn lemma_verification_is_deterministic(
    proof1: Proof,
    inputs1: PublicInputs,
    key1: VerifyingKey,
    proof2: Proof,
    inputs2: PublicInputs,
    key2: VerifyingKey,
)
    requires
        proof1@ == proof2@,
        inputs1@ == inputs2@,
        key1@ == key2@,
    ensures
        verification(proof1@, inputs1@, key1@) == verification(proof2@, inputs2@, key2@),
{
}

} // verus!
