use ark_bn254::{Fq, Fr, G1Affine, G2Affine};
use ark_ec::{AffineRepr, CurveGroup};
use ark_ff::{BigInteger, Field, PrimeField};
use groth16_solana::errors::Groth16Error;
use zk_login::payload::{encode, Proof, PublicInputs};
use zk_login::{user_sign_in, verdict, verify, AuthenticationError, VerifyingKey};

fn fq_bytes(v: &Fq) -> Vec<u8> {
    v.into_bigint().to_bytes_be()
}

fn g1_bytes(p: &G1Affine) -> [u8; 64] {
    let mut out = [0u8; 64];
    out[..32].copy_from_slice(&fq_bytes(&p.x));
    out[32..].copy_from_slice(&fq_bytes(&p.y));
    out
}

fn g2_bytes(p: &G2Affine) -> [u8; 128] {
    let mut out = [0u8; 128];
    out[..32].copy_from_slice(&fq_bytes(&p.x.c1));
    out[32..64].copy_from_slice(&fq_bytes(&p.x.c0));
    out[64..96].copy_from_slice(&fq_bytes(&p.y.c1));
    out[96..].copy_from_slice(&fq_bytes(&p.y.c0));
    out
}

fn g1(k: Fr) -> [u8; 64] {
    g1_bytes(&(G1Affine::generator() * k).into_affine())
}

fn g2(k: Fr) -> [u8; 128] {
    g2_bytes(&(G2Affine::generator() * k).into_affine())
}

fn scalar_bytes(k: Fr) -> [u8; 32] {
    let mut out = [0u8; 32];
    out.copy_from_slice(&k.into_bigint().to_bytes_be());
    out
}

// The setup of a toy circuit with one public input. Its secrets are known
// here, which is what lets a test make a proof without a witness.
const ALPHA: u64 = 1_000_003;
const BETA: u64 = 2_000_029;
const GAMMA: u64 = 3_000_017;
const DELTA: u64 = 4_000_037;
const IC0: u64 = 5_000_011;
const IC1: u64 = 6_000_023;

fn toy_key() -> VerifyingKey {
    VerifyingKey {
        nr_pubinputs: 2,
        vk_alpha_g1: g1(Fr::from(ALPHA)),
        vk_beta_g2: g2(Fr::from(BETA)),
        vk_gamma_g2: g2(Fr::from(GAMMA)),
        vk_delta_g2: g2(Fr::from(DELTA)),
        vk_ic: vec![g1(Fr::from(IC0)), g1(Fr::from(IC1))],
    }
}

// A proof that the verification equation accepts for the public input `x`:
// with the points of the proof written as multiples a, b, c of the
// generators, a*b + (ic0 + x*ic1)*gamma + c*delta + alpha*beta is zero.
fn toy_proof(x: Fr, a: u64, b: u64) -> (Proof, PublicInputs) {
    let a = Fr::from(a);
    let b = Fr::from(b);
    let folded = Fr::from(IC0) + x * Fr::from(IC1);
    let rest = a * b + folded * Fr::from(GAMMA) + Fr::from(ALPHA) * Fr::from(BETA);
    let c = -rest * Fr::from(DELTA).inverse().unwrap();
    let proof = Proof { pi_a: g1(a), pi_b: g2(b), pi_c: g1(c) };
    (proof, PublicInputs { elements: [scalar_bytes(x)] })
}

fn toy_payload(x: u64) -> Vec<u8> {
    let (proof, inputs) = toy_proof(Fr::from(x), 77_003, 88_001);
    encode(&proof, &inputs)
}

fn flipping_bits_of_pi_a_never_passes(first_byte: usize, last_byte: usize) {
    let key = toy_key();
    let payload = toy_payload(42);
    for byte in first_byte..last_byte {
        for bit in 0..8 {
            let mut tampered = payload.clone();
            tampered[byte] ^= 1 << bit;
            let answer = user_sign_in(&key, tampered);
            assert!(matches!(answer, Ok(false) | Err(_)));
        }
    }
}

#[test]
fn valid_proof_signs_in() {
    let key = toy_key();
    assert_eq!(user_sign_in(&key, toy_payload(42)), Ok(true));
    assert_eq!(user_sign_in(&key, toy_payload(0)), Ok(true));
    assert_eq!(user_sign_in(&key, toy_payload(1)), Ok(true));
}

#[test]
fn valid_proof_is_accepted_by_verify() {
    let key = toy_key();
    let (proof, inputs) = toy_proof(Fr::from(9u64), 12_345, 67_891);
    assert_eq!(verify(&proof, &inputs, &key), Ok(true));
}

#[test]
fn flipped_bit_in_first_quarter_of_pi_a_is_not_accepted() {
    flipping_bits_of_pi_a_never_passes(0, 16);
}

#[test]
fn flipped_bit_in_second_quarter_of_pi_a_is_not_accepted() {
    flipping_bits_of_pi_a_never_passes(16, 32);
}

#[test]
fn flipped_bit_in_third_quarter_of_pi_a_is_not_accepted() {
    flipping_bits_of_pi_a_never_passes(32, 48);
}

#[test]
fn flipped_bit_in_last_quarter_of_pi_a_is_not_accepted() {
    flipping_bits_of_pi_a_never_passes(48, 64);
}

#[test]
fn proof_for_another_public_input_is_rejected() {
    let key = toy_key();
    let (proof, _) = toy_proof(Fr::from(42u64), 77_003, 88_001);
    let other = PublicInputs { elements: [scalar_bytes(Fr::from(43u64))] };
    assert_eq!(verify(&proof, &other, &key), Ok(false));
    assert_eq!(user_sign_in(&key, encode(&proof, &other)), Ok(false));
}

#[test]
fn proof_with_another_valid_point_is_rejected() {
    let key = toy_key();
    let (mut proof, inputs) = toy_proof(Fr::from(42u64), 77_003, 88_001);
    proof.pi_c = g1(Fr::from(5u64));
    assert_eq!(verify(&proof, &inputs, &key), Ok(false));
    let (mut proof, inputs) = toy_proof(Fr::from(42u64), 77_003, 88_001);
    proof.pi_b = g2(Fr::from(88_002u64));
    assert_eq!(verify(&proof, &inputs, &key), Ok(false));
}

#[test]
fn proof_under_another_key_is_rejected() {
    let mut key = toy_key();
    key.vk_delta_g2 = g2(Fr::from(DELTA + 1));
    assert_eq!(user_sign_in(&key, toy_payload(42)), Ok(false));
}

#[test]
fn payload_of_zeros_is_rejected_not_accepted() {
    let key = toy_key();
    assert_eq!(user_sign_in(&key, vec![0u8; 288]), Ok(false));
}

#[test]
fn payload_of_points_off_the_curve_is_rejected() {
    let key = toy_key();
    assert_eq!(user_sign_in(&key, vec![1u8; 288]), Ok(false));
}

#[test]
fn payload_of_numbers_beyond_the_field_is_an_invalid_encoding() {
    let key = toy_key();
    assert_eq!(user_sign_in(&key, vec![255u8; 288]), Err(AuthenticationError::InvalidEncoding));
}

#[test]
fn set_high_bit_of_a_coordinate_is_an_invalid_encoding() {
    // The pairing library alone would read these bytes as the same point.
    let key = toy_key();
    let mut payload = toy_payload(42);
    payload[32] ^= 0x80;
    assert_eq!(user_sign_in(&key, payload), Err(AuthenticationError::InvalidEncoding));
    let mut payload = toy_payload(42);
    payload[32] ^= 0x40;
    assert_eq!(user_sign_in(&key, payload), Err(AuthenticationError::InvalidEncoding));
}

#[test]
fn public_input_beyond_the_scalar_field_is_an_invalid_encoding() {
    let key = toy_key();
    // The largest scalar is a public input like any other.
    let (proof, inputs) = toy_proof(-Fr::from(1u64), 77_003, 88_001);
    assert_eq!(verify(&proof, &inputs, &key), Ok(true));
    // The modulus itself stands for zero, and a proof for zero must not pass
    // under that other name.
    let (proof, _) = toy_proof(Fr::from(0u64), 77_003, 88_001);
    let mut modulus = [0u8; 32];
    modulus.copy_from_slice(&Fr::MODULUS.to_bytes_be());
    let renamed = PublicInputs { elements: [modulus] };
    assert_eq!(verify(&proof, &renamed, &key), Err(AuthenticationError::InvalidEncoding));
    assert_eq!(
        user_sign_in(&key, encode(&proof, &renamed)),
        Err(AuthenticationError::InvalidEncoding)
    );
}

#[test]
fn invalid_encoding_is_reported_even_under_an_unfit_key() {
    let mut key = toy_key();
    key.vk_ic.pop();
    assert_eq!(user_sign_in(&key, vec![255u8; 288]), Err(AuthenticationError::InvalidEncoding));
}

#[test]
fn payload_of_287_or_289_bytes_is_malformed() {
    let key = toy_key();
    let mut short = toy_payload(42);
    short.pop();
    assert_eq!(short.len(), 287);
    assert_eq!(user_sign_in(&key, short), Err(AuthenticationError::MalformedPayload));
    let mut long = toy_payload(42);
    long.push(0);
    assert_eq!(long.len(), 289);
    assert_eq!(user_sign_in(&key, long), Err(AuthenticationError::MalformedPayload));
}

#[test]
fn payload_of_any_other_length_is_malformed() {
    let key = toy_key();
    for len in [0usize, 1, 31, 32, 64, 128, 256, 286, 290, 576, 1024] {
        assert_eq!(
            user_sign_in(&key, vec![7u8; len]),
            Err(AuthenticationError::MalformedPayload)
        );
    }
}

#[test]
fn wrong_length_is_reported_even_under_an_unfit_key() {
    let mut key = toy_key();
    key.vk_ic.pop();
    assert_eq!(user_sign_in(&key, vec![0u8; 287]), Err(AuthenticationError::MalformedPayload));
}

#[test]
fn key_without_an_input_point_per_public_input_builds_no_verifier() {
    let mut few = toy_key();
    few.vk_ic.pop();
    assert!(!few.fits_circuit());
    assert_eq!(user_sign_in(&few, toy_payload(42)), Err(AuthenticationError::VerifierConstruction));

    let mut many = toy_key();
    many.vk_ic.push(g1(Fr::from(7u64)));
    assert!(!many.fits_circuit());
    assert_eq!(
        user_sign_in(&many, toy_payload(42)),
        Err(AuthenticationError::VerifierConstruction)
    );

    let mut none = toy_key();
    none.vk_ic.clear();
    let (proof, inputs) = toy_proof(Fr::from(42u64), 77_003, 88_001);
    assert_eq!(verify(&proof, &inputs, &none), Err(AuthenticationError::VerifierConstruction));

    assert!(toy_key().fits_circuit());
}

#[test]
fn key_with_an_input_point_off_the_curve_is_an_invalid_encoding() {
    let mut key = toy_key();
    key.vk_ic[1] = [1u8; 64];
    assert_eq!(user_sign_in(&key, toy_payload(42)), Err(AuthenticationError::InvalidEncoding));

    let mut key = toy_key();
    key.vk_ic[0] = [1u8; 64];
    assert_eq!(user_sign_in(&key, toy_payload(42)), Err(AuthenticationError::InvalidEncoding));
}

#[test]
fn verification_gives_the_same_answer_every_time() {
    let key = toy_key();
    let again = toy_key();
    let good = toy_payload(42);
    let mut bad = toy_payload(42);
    bad[200] ^= 4;
    for _ in 0..3 {
        assert_eq!(user_sign_in(&key, good.clone()), Ok(true));
        assert_eq!(user_sign_in(&again, good.clone()), Ok(true));
        assert_eq!(user_sign_in(&key, bad.clone()), user_sign_in(&again, bad.clone()));
    }
}

#[test]
fn verdict_keeps_an_answer_and_sorts_the_errors() {
    assert_eq!(verdict(Ok(true)), Ok(true));
    assert_eq!(verdict(Ok(false)), Ok(false));
    assert_eq!(verdict(Err(Groth16Error::ProofVerificationFailed)), Ok(false));
    assert_eq!(
        verdict(Err(Groth16Error::PreparingInputsG1MulFailed)),
        Err(AuthenticationError::InvalidEncoding)
    );
    assert_eq!(
        verdict(Err(Groth16Error::PreparingInputsG1AdditionFailed)),
        Err(AuthenticationError::InvalidEncoding)
    );
    assert_eq!(
        verdict(Err(Groth16Error::DecompressingG1Failed)),
        Err(AuthenticationError::InvalidEncoding)
    );
    assert_eq!(
        verdict(Err(Groth16Error::DecompressingG2Failed)),
        Err(AuthenticationError::InvalidEncoding)
    );
    assert_eq!(
        verdict(Err(Groth16Error::InvalidG1Length)),
        Err(AuthenticationError::VerifierConstruction)
    );
    assert_eq!(
        verdict(Err(Groth16Error::InvalidG2Length)),
        Err(AuthenticationError::VerifierConstruction)
    );
    assert_eq!(
        verdict(Err(Groth16Error::InvalidPublicInputsLength)),
        Err(AuthenticationError::VerifierConstruction)
    );
    assert_eq!(
        verdict(Err(Groth16Error::IncompatibleVerifyingKeyWithNrPublicInputs)),
        Err(AuthenticationError::VerifierConstruction)
    );
}
