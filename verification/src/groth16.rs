//! Groth16 proof envelopes for vote commitments and evidence encryption:
//! deserializing proofs and verifying keys from account bytes and running
//! the pairing check, all through the arkworks proving stack.
//!
//! What a proof shows is decided entirely by the external proving system;
//! the contracts here pin down the byte-level framing that this crate
//! itself performs.

use ark_serialize::CanonicalDeserialize;
use vstd::prelude::*;
use vstd::slice::slice_subrange;
use crate::errors::ErrorCode;

verus! {

/// Holds an `ark_groth16::Proof<Bn254>`. Declaring the arkworks type
/// itself would need its `Pairing` bound, which the verifier does not
/// take, so the proof travels through this opaque wrapper.
#[verifier::external_body]
pub struct Bn254Proof {
    inner: ark_groth16::Proof<ark_bn254::Bn254>,
}

/// Holds an `ark_groth16::VerifyingKey<Bn254>`; opaque for the same
/// reason as [`Bn254Proof`].
#[verifier::external_body]
pub struct Bn254VerifyingKey {
    inner: ark_groth16::VerifyingKey<ark_bn254::Bn254>,
}

/// Holds an `ark_bn254::Fr` scalar; opaque for the same reason as
/// [`Bn254Proof`].
#[verifier::external_body]
pub struct Bn254Scalar {
    inner: ark_bn254::Fr,
}

/// Relies on `ark_serialize::CanonicalDeserialize` for
/// `ark_groth16::Proof<Bn254>`: reads a compressed, validated proof from
/// bytes, or reports why not. Which bytes parse is the codec's own rule.
#[verifier::external_body]
fn deserialize_proof(bytes: &[u8]) -> (r: Result<Bn254Proof, ErrorCode>) {
    match ark_groth16::Proof::<ark_bn254::Bn254>::deserialize_compressed(bytes) {
        Ok(p) => Ok(Bn254Proof { inner: p }),
        Err(_) => Err(ErrorCode::InvalidZkProof),
    }
}

/// Relies on `ark_serialize::CanonicalDeserialize` for
/// `ark_groth16::VerifyingKey<Bn254>`: reads a compressed, validated
/// verifying key from bytes, or reports why not.
#[verifier::external_body]
fn deserialize_vk(bytes: &[u8]) -> (r: Result<Bn254VerifyingKey, ErrorCode>) {
    match ark_groth16::VerifyingKey::<ark_bn254::Bn254>::deserialize_compressed(bytes) {
        Ok(vk) => Ok(Bn254VerifyingKey { inner: vk }),
        Err(_) => Err(ErrorCode::InvalidZkProof),
    }
}

/// Relies on `ark_serialize::CanonicalDeserialize` for `ark_bn254::Fr`:
/// reads a little-endian field element below the modulus, or reports why
/// not.
#[verifier::external_body]
fn deserialize_fr(bytes: &[u8]) -> (r: Result<Bn254Scalar, ErrorCode>) {
    match ark_bn254::Fr::deserialize_compressed(bytes) {
        Ok(fr) => Ok(Bn254Scalar { inner: fr }),
        Err(_) => Err(ErrorCode::InvalidZkProof),
    }
}

/// Relies on `ark_bn254::Fr::from` for `u64`: embeds an integer in the
/// scalar field.
#[verifier::external_body]
fn fr_from_u64(x: u64) -> (r: Bn254Scalar) {
    Bn254Scalar { inner: ark_bn254::Fr::from(x) }
}

/// Relies on `ark_groth16::Groth16::<Bn254>::verify_proof` (with
/// `prepare_verifying_key`): the pairing check of a Groth16 proof against
/// public inputs. Whether it accepts is the proving system's own rule.
/// A key whose `gamma_abc_g1` arity does not match the public inputs is
/// rejected here before the call: `verify_proof` in this arkworks version
/// indexes `gamma_abc_g1[0]` unchecked (and would silently truncate extra
/// inputs), so the wrapper restores the arity guard that earlier versions
/// made. With the arity right, the final exponentiation succeeds because
/// the inputs are validated curve points, whose Miller loop output is
/// nonzero.
#[verifier::external_body]
fn groth16_verify(
    vk: &Bn254VerifyingKey,
    inputs: &Vec<Bn254Scalar>,
    groth_proof: &Bn254Proof,
) -> (r: Result<bool, ErrorCode>) {
    if vk.inner.gamma_abc_g1.len() != inputs.len() + 1 {
        return Err(ErrorCode::InvalidZkProof);
    }
    let pvk = ark_groth16::prepare_verifying_key(&vk.inner);
    let scalars: std::vec::Vec<ark_bn254::Fr> = inputs.iter().map(|s| s.inner).collect();
    match ark_groth16::Groth16::<ark_bn254::Bn254>::verify_proof(&pvk, &groth_proof.inner, &scalars) {
        Ok(b) => Ok(b),
        Err(_) => Err(ErrorCode::InvalidZkProof),
    }
}

/// Size of a compressed BN254 Groth16 proof in bytes.
pub const GROTH16_PROOF_LEN: usize = 192;

/// Size of one serialized public input in bytes.
pub const FIELD_ELEMENT_LEN: usize = 32;

/// Least account data that can hold a verifying key.
pub const MIN_VERIFYING_KEY_LEN: usize = 256;

/// Reinterpret 32 big-endian bytes as a BN254 scalar. The bytes must
/// encode a value below the field modulus, else `InvalidZkProof`.
pub fn bytes_to_field_element(bytes: &[u8; 32]) -> (r: Result<Bn254Scalar, ErrorCode>) {
    let mut le_bytes: [u8; 32] = [0u8; 32];
    let mut i: usize = 0;
    while i < 32
        invariant
            i <= 32,
            forall|j: int| 0 <= j < i ==> le_bytes@[j] == bytes@[31 - j],
        decreases 32 - i,
    {
        le_bytes[i] = bytes[31 - i];
        i = i + 1;
    }
    deserialize_fr(le_bytes.as_slice())
}

/// A Groth16 proof that a vote commitment is well-formed, together with
/// the public inputs it was framed with.
pub struct VoteCommitmentProof {
    pub groth_proof: Bn254Proof,
    pub public_inputs: Vec<Bn254Scalar>,
}

impl VoteCommitmentProof {
    /// Run the pairing check against the commitment and case id as the
    /// circuit's public inputs. What it accepts is the proving system's
    /// rule; this core decides nothing from it beyond pass or fail.
    pub fn verify(
        &self,
        verifying_key: &Bn254VerifyingKey,
        commitment: &[u8; 32],
        case_id: u64,
    ) -> (r: Result<bool, ErrorCode>) {
        let commitment_fr = match bytes_to_field_element(commitment) {
            Ok(fr) => fr,
            Err(e) => {
                return Err(e);
            },
        };
        let case_id_fr = fr_from_u64(case_id);
        let mut public_inputs: Vec<Bn254Scalar> = Vec::new();
        public_inputs.push(commitment_fr);
        public_inputs.push(case_id_fr);
        groth16_verify(verifying_key, &public_inputs, &self.groth_proof)
    }

    /// Parse a proof from account bytes: the first 192 bytes are the
    /// compressed proof, and whatever full 32-byte words follow are
    /// public inputs.
    pub fn from_bytes(proof_bytes: &[u8]) -> (r: Result<VoteCommitmentProof, ErrorCode>)
        ensures
            proof_bytes@.len() < GROTH16_PROOF_LEN ==> r == Err::<VoteCommitmentProof, ErrorCode>(
                ErrorCode::InvalidZkProof,
            ),
            r matches Ok(p) ==> proof_bytes@.len() >= GROTH16_PROOF_LEN && p.public_inputs@.len()
                == (proof_bytes@.len() - GROTH16_PROOF_LEN) / (FIELD_ELEMENT_LEN as int),
    {
        if proof_bytes.len() < GROTH16_PROOF_LEN {
            return Err(ErrorCode::InvalidZkProof);
        }
        let head = slice_subrange(proof_bytes, 0, GROTH16_PROOF_LEN);
        let groth_proof = match deserialize_proof(head) {
            Ok(p) => p,
            Err(e) => {
                return Err(e);
            },
        };
        let len = proof_bytes.len();
        let mut public_inputs: Vec<Bn254Scalar> = Vec::new();
        let mut offset: usize = GROTH16_PROOF_LEN;
        while offset <= len - FIELD_ELEMENT_LEN
            invariant
                len == proof_bytes@.len(),
                len >= GROTH16_PROOF_LEN,
                GROTH16_PROOF_LEN <= offset <= len,
                (offset - GROTH16_PROOF_LEN) % (FIELD_ELEMENT_LEN as int) == 0,
                public_inputs@.len() == (offset - GROTH16_PROOF_LEN) / (FIELD_ELEMENT_LEN as int),
            decreases len - offset,
        {
            let mut word: [u8; 32] = [0u8; 32];
            let mut i: usize = 0;
            while i < FIELD_ELEMENT_LEN
                invariant
                    i <= FIELD_ELEMENT_LEN,
                    offset + FIELD_ELEMENT_LEN <= len,
                    len == proof_bytes@.len(),
                decreases FIELD_ELEMENT_LEN - i,
            {
                word[i] = proof_bytes[offset + i];
                i = i + 1;
            }
            let fr = match bytes_to_field_element(&word) {
                Ok(fr) => fr,
                Err(e) => {
                    return Err(e);
                },
            };
            public_inputs.push(fr);
            offset = offset + FIELD_ELEMENT_LEN;
        }
        Ok(VoteCommitmentProof { groth_proof, public_inputs })
    }
}

/// The verifying key of the vote commitment circuit.
pub struct VoteCommitmentVerifyingKey {
    pub vk: Bn254VerifyingKey,
}

impl VoteCommitmentVerifyingKey {
    /// Load the verifying key from account data.
    pub fn from_account_data(data: &[u8]) -> (r: Result<VoteCommitmentVerifyingKey, ErrorCode>)
        ensures
            data@.len() < MIN_VERIFYING_KEY_LEN ==> r == Err::<
                VoteCommitmentVerifyingKey,
                ErrorCode,
            >(ErrorCode::InvalidZkProof),
    {
        if data.len() < MIN_VERIFYING_KEY_LEN {
            return Err(ErrorCode::InvalidZkProof);
        }
        match deserialize_vk(data) {
            Ok(vk) => Ok(VoteCommitmentVerifyingKey { vk }),
            Err(e) => Err(e),
        }
    }

    /// There is no embedded verifying key: a real key must be loaded from
    /// an account, so this always fails.
    pub fn default_embedded() -> (r: Result<VoteCommitmentVerifyingKey, ErrorCode>)
        ensures
            r == Err::<VoteCommitmentVerifyingKey, ErrorCode>(ErrorCode::InvalidZkProof),
    {
        Err(ErrorCode::InvalidZkProof)
    }
}

/// A Groth16 proof that evidence was properly encrypted.
pub struct EvidenceEncryptionProof {
    pub groth_proof: Bn254Proof,
}

impl EvidenceEncryptionProof {
    /// Run the pairing check against the evidence hash as the circuit's
    /// public input.
    pub fn verify(
        &self,
        verifying_key: &Bn254VerifyingKey,
        evidence_hash: &[u8; 32],
    ) -> (r: Result<bool, ErrorCode>) {
        let hash_fr = match bytes_to_field_element(evidence_hash) {
            Ok(fr) => fr,
            Err(e) => {
                return Err(e);
            },
        };
        let mut public_inputs: Vec<Bn254Scalar> = Vec::new();
        public_inputs.push(hash_fr);
        groth16_verify(verifying_key, &public_inputs, &self.groth_proof)
    }
}

} // verus!
