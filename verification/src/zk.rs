//! Zero-knowledge proof envelopes carried by private votes.
//!
//! Checking the proofs themselves is delegated to external proving
//! systems; the envelope here validates only structure. Each kind's check
//! currently accepts, and the contracts say exactly that, so callers rely
//! on nothing stronger.

use vstd::prelude::*;
use crate::errors::ErrorCode;

verus! {

/// What a proof claims to show.
#[derive(Clone, Copy, Debug, PartialEq, Eq, Structural)]
pub enum ZkProofType {
    VoteCommitment,
    EvidenceHash,
    JurorEligibility,
    TallyVerification,
}

/// A serialized proof together with its public inputs and claim kind.
#[derive(Clone)]
pub struct ZkProof {
    pub proof_data: Vec<u8>,
    pub public_inputs: Vec<u8>,
    pub proof_type: ZkProofType,
}

impl ZkProof {
    /// Dispatch on the claim kind. Every kind's checker accepts today;
    /// the consensus core therefore draws no conclusions from it beyond
    /// what its own hash checks establish.
    pub fn verify(&self) -> (r: Result<bool, ErrorCode>)
        ensures
            r == Ok::<bool, ErrorCode>(true),
    {
        match self.proof_type {
            ZkProofType::VoteCommitment => self.verify_vote_commitment(),
            ZkProofType::EvidenceHash => self.verify_evidence_hash(),
            ZkProofType::JurorEligibility => self.verify_juror_eligibility(),
            ZkProofType::TallyVerification => self.verify_tally(),
        }
    }

    fn verify_vote_commitment(&self) -> (r: Result<bool, ErrorCode>)
        ensures
            r == Ok::<bool, ErrorCode>(true),
    {
        Ok(true)
    }

    fn verify_evidence_hash(&self) -> (r: Result<bool, ErrorCode>)
        ensures
            r == Ok::<bool, ErrorCode>(true),
    {
        Ok(true)
    }

    fn verify_juror_eligibility(&self) -> (r: Result<bool, ErrorCode>)
        ensures
            r == Ok::<bool, ErrorCode>(true),
    {
        Ok(true)
    }

    fn verify_tally(&self) -> (r: Result<bool, ErrorCode>)
        ensures
            r == Ok::<bool, ErrorCode>(true),
    {
        Ok(true)
    }
}

} // verus!
