use ark_bn254::{Bn254, G1Affine, G2Affine};
use ark_ec::AffineRepr;
use ark_groth16::{Proof, VerifyingKey};
use ark_serialize::CanonicalSerialize;
use solsafe::errors::ErrorCode;
use solsafe::groth16::{bytes_to_field_element, VoteCommitmentProof, VoteCommitmentVerifyingKey};

fn sample_proof() -> VoteCommitmentProof {
    let proof = Proof::<Bn254> {
        a: G1Affine::generator(),
        b: G2Affine::generator(),
        c: G1Affine::generator(),
    };
    let mut proof_bytes = Vec::new();
    proof.serialize_compressed(&mut proof_bytes).unwrap();
    proof_bytes.resize(192, 0);
    VoteCommitmentProof::from_bytes(&proof_bytes).unwrap()
}

fn vk_with_inputs(n: usize) -> VoteCommitmentVerifyingKey {
    let vk = VerifyingKey::<Bn254> {
        alpha_g1: G1Affine::generator(),
        beta_g2: G2Affine::generator(),
        gamma_g2: G2Affine::generator(),
        delta_g2: G2Affine::generator(),
        gamma_abc_g1: vec![G1Affine::generator(); n],
    };
    let mut vk_bytes = Vec::new();
    vk.serialize_compressed(&mut vk_bytes).unwrap();
    if vk_bytes.len() < 256 {
        vk_bytes.resize(256, 0);
    }
    VoteCommitmentVerifyingKey::from_account_data(&vk_bytes).unwrap()
}

#[test]
fn test_field_element_conversion() {
    let bytes = [1u8; 32];
    let result = bytes_to_field_element(&bytes);
    assert!(result.is_ok());
}

#[test]
fn test_field_element_above_modulus_rejected() {
    // all-ones is far above the BN254 scalar modulus
    let bytes = [0xffu8; 32];
    assert!(bytes_to_field_element(&bytes).is_err());
}

#[test]
fn test_proof_from_short_bytes() {
    let r = VoteCommitmentProof::from_bytes(&[0u8; 64]);
    assert_eq!(r.err(), Some(ErrorCode::InvalidZkProof));
}

#[test]
fn test_verifying_key_from_short_account() {
    let r = VoteCommitmentVerifyingKey::from_account_data(&[0u8; 100]);
    assert_eq!(r.err(), Some(ErrorCode::InvalidZkProof));
}

#[test]
fn test_no_embedded_verifying_key() {
    assert_eq!(
        VoteCommitmentVerifyingKey::default_embedded().err(),
        Some(ErrorCode::InvalidZkProof)
    );
}

#[test]
fn test_verify_rejects_key_with_missing_input_points() {
    // a verifying key whose input-point vector is empty deserializes from
    // account bytes, and the pairing check must refuse it, not fault
    let vk = vk_with_inputs(0);
    let parsed = sample_proof();
    assert!(parsed.public_inputs.is_empty());
    let r = parsed.verify(&vk.vk, &[1u8; 32], 7);
    assert_eq!(r, Err(ErrorCode::InvalidZkProof));
}

#[test]
fn test_verify_rejects_key_of_wrong_arity() {
    // one input point too few: commitment and case id need three
    let vk = vk_with_inputs(2);
    let parsed = sample_proof();
    let r = parsed.verify(&vk.vk, &[1u8; 32], 7);
    assert_eq!(r, Err(ErrorCode::InvalidZkProof));
}

#[test]
fn test_verify_runs_pairing_with_matching_key() {
    // arity matches, so the pairing check itself runs; a garbage proof
    // is reported as not verifying, not as an error
    let vk = vk_with_inputs(3);
    let parsed = sample_proof();
    let r = parsed.verify(&vk.vk, &[1u8; 32], 7);
    assert_eq!(r, Ok(false));
}
