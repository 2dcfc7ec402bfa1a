use vstd::prelude::*;

pub mod account;
pub mod error;
pub mod field;
pub mod groth16;
pub mod payload;
pub mod registry;
pub mod verify_key;

pub use account::{Identity, UserData};
pub use error::AuthenticationError;
pub use groth16::{verdict, verify};
pub use payload::{decode, encode, Proof, PublicInputs};
pub use registry::Registry;
pub use verify_key::VerifyingKey;

use crate::field::encodes_field_elements;
use crate::groth16::{groth16_verify_result, verification};
use groth16_solana::errors::Groth16Error;
use crate::payload::{decoded, payload_inputs, payload_proof, PAYLOAD_LEN};
use crate::registry::registration;
use crate::verify_key::VerifyingKeyView;

verus! {

/// Answers a liveness probe of the host. It reads and changes nothing and
/// always succeeds.
pub fn initialize() -> (r: Result<(), AuthenticationError>)
    ensures
        r is Ok,
{
    Ok(())
}

/// Registers `user` with the commitment `hash`.
///
/// The commitment may have at most `MAX_HASH_LENGTH` bytes, else the call
/// fails with `HashTooLong`; and `user` may have no record yet, else it
/// fails with `AlreadyRegistered`. A failed call creates and changes no
/// record.
pub fn user_sign_up(registry: &mut Registry, user: Identity, hash: String) -> (r: Result<
    (),
    AuthenticationError,
>)
    requires
        old(registry).well_formed(),
    ensures
        final(registry).well_formed(),
        match registration(old(registry)@, user@, hash@) {
            Ok(records) => r is Ok && final(registry)@ == records,
            Err(e) => r == Err::<(), _>(e) && final(registry)@ == old(registry)@,
        },
{
    registry.register(user, hash)
}

/// The answer to a sign-in attempt with the payload `raw` under `key`: a
/// payload of the wrong length is malformed, and any other is decoded and
/// its proof verified.
pub open spec fn sign_in(raw: Seq<u8>, key: VerifyingKeyView) -> Result<
    bool,
    AuthenticationError,
> {
    match decoded(raw) {
        Ok((proof, public_inputs)) => verification(proof, public_inputs, key),
        Err(e) => Err(e),
    }
}

/// Answers a sign-in attempt: decodes the payload and verifies the proof it
/// carries under `key`.
///
/// `Ok(true)` means that the proof was accepted, `Ok(false)` that it was
/// rejected. A payload that does not have exactly `PAYLOAD_LEN` bytes fails
/// with `MalformedPayload` before anything is verified, and one that holds
/// a coordinate or a public input that is no field element with
/// `InvalidEncoding`. The record of the caller is not consulted.
pub fn user_sign_in(key: &VerifyingKey, instruction_data: Vec<u8>) -> (r: Result<
    bool,
    AuthenticationError,
>)
    ensures
        r == sign_in(instruction_data@, key@),
        instruction_data@.len() != PAYLOAD_LEN <==> r is Err && r->Err_0
            == AuthenticationError::MalformedPayload,
        instruction_data@.len() == PAYLOAD_LEN && !encodes_field_elements(
            payload_proof(instruction_data@),
            payload_inputs(instruction_data@),
        ) ==> r is Err && r->Err_0 == AuthenticationError::InvalidEncoding,
        instruction_data@.len() == PAYLOAD_LEN && encodes_field_elements(
            payload_proof(instruction_data@),
            payload_inputs(instruction_data@),
        ) && !key@.fits_circuit() <==> r is Err && r->Err_0
            == AuthenticationError::VerifierConstruction,
{
    match decode(instruction_data.as_slice()) {
        Err(e) => Err(e),
        Ok((proof, public_inputs)) => verify(&proof, &public_inputs, key),
    }
}

/// A payload that does not have the exact length is malformed under every
/// key: nothing of it is verified.
pub proof fn lemma_wrong_length_is_malformed(raw: Seq<u8>, key: VerifyingKeyView)
    requires
        raw.len() != PAYLOAD_LEN,
    ensures
        sign_in(raw, key) == Err::<bool, _>(AuthenticationError::MalformedPayload),
{
}

/// A sign-in is accepted only on the word of the pairing library: the
/// payload then has the exact length, every element it carries is a field
/// element, the key fits the circuit, and the pairing library accepted
/// exactly the proof and inputs that the payload decodes to.
pub proof fn lemma_accepted_sign_in(raw: Seq<u8>, key: VerifyingKeyView)
    requires
        sign_in(raw, key) == Ok::<bool, AuthenticationError>(true),
    ensures
        raw.len() == PAYLOAD_LEN,
        encodes_field_elements(payload_proof(raw), payload_inputs(raw)),
        key.fits_circuit(),
        groth16_verify_result(payload_proof(raw), payload_inputs(raw), key) == Ok::<
            bool,
            Groth16Error,
        >(true),
{
}

} // verus!
