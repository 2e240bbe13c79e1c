//! Private evidence: commitments to encrypted evidence, juror share
//! verification bookkeeping, and threshold reconstruction gating.

use vstd::prelude::*;
use crate::errors::ErrorCode;
use crate::sha256::{sha256, sha256_of};
use crate::types::{bytes32_eq, Address, Digest32};

verus! {

/// Largest encrypted evidence payload a commitment accepts, in bytes.
pub const MAX_ENCRYPTED_EVIDENCE_LEN: usize = 1024;

/// A commitment to encrypted evidence of a case, with the count of juror
/// share verifications against it.
pub struct EvidenceCommitment {
    pub case_id: u64,
    pub evidence_hash: Digest32,
    pub encrypted_evidence: Vec<u8>,
    pub commitment: Digest32,
    pub juror_count: u8,
    pub threshold: u8,
}

impl EvidenceCommitment {
    /// Commit to evidence: the commitment is the hash of the evidence
    /// hash itself.
    pub fn new(
        case_id: u64,
        evidence_hash: Digest32,
        encrypted_evidence: Vec<u8>,
        threshold: u8,
    ) -> (r: EvidenceCommitment)
        ensures
            r.case_id == case_id,
            r.evidence_hash == evidence_hash,
            r.encrypted_evidence@ == encrypted_evidence@,
            r.commitment@ == sha256_of(evidence_hash@),
            r.juror_count == 0,
            r.threshold == threshold,
    {
        let commitment = Self::compute_commitment(&evidence_hash);
        EvidenceCommitment {
            case_id,
            evidence_hash,
            encrypted_evidence,
            commitment,
            juror_count: 0,
            threshold,
        }
    }

    fn compute_commitment(evidence_hash: &[u8; 32]) -> (r: Digest32)
        ensures
            r@ == sha256_of(evidence_hash@),
    {
        sha256(evidence_hash.as_slice())
    }

    /// Whether a claimed hash is the committed evidence hash.
    pub fn verify_hash(&self, claimed_hash: &[u8; 32]) -> (r: bool)
        ensures
            r <==> self.evidence_hash@ == claimed_hash@,
    {
        bytes32_eq(&self.evidence_hash, claimed_hash)
    }
}

/// One juror's record of having verified their evidence share.
pub struct JurorEvidenceShare {
    pub juror: Address,
    pub case_id: u64,
    pub share_commitment: Digest32,
    pub has_verified: bool,
    pub verification_timestamp: i64,
}

/// Create the private-evidence commitment for a case, validating the
/// deployment bounds on its inputs.
pub fn initialize_private_evidence(
    case_id: u64,
    evidence_hash: Digest32,
    encrypted_evidence: Vec<u8>,
    threshold: u8,
) -> (r: Result<EvidenceCommitment, ErrorCode>)
    ensures
        r is Ok <==> encrypted_evidence@.len() <= MAX_ENCRYPTED_EVIDENCE_LEN && threshold > 0,
        r matches Ok(e) ==> {
            &&& e.case_id == case_id
            &&& e.evidence_hash == evidence_hash
            &&& e.encrypted_evidence@ == encrypted_evidence@
            &&& e.commitment@ == sha256_of(evidence_hash@)
            &&& e.juror_count == 0
            &&& e.threshold == threshold
        },
        encrypted_evidence@.len() > MAX_ENCRYPTED_EVIDENCE_LEN ==> r == Err::<
            EvidenceCommitment,
            ErrorCode,
        >(ErrorCode::EvidenceTooLarge),
        encrypted_evidence@.len() <= MAX_ENCRYPTED_EVIDENCE_LEN && threshold == 0 ==> r == Err::<
            EvidenceCommitment,
            ErrorCode,
        >(ErrorCode::InvalidThreshold),
{
    if encrypted_evidence.len() > MAX_ENCRYPTED_EVIDENCE_LEN {
        return Err(ErrorCode::EvidenceTooLarge);
    }
    if threshold == 0 {
        return Err(ErrorCode::InvalidThreshold);
    }
    Ok(EvidenceCommitment::new(case_id, evidence_hash, encrypted_evidence, threshold))
}

/// Record that a juror verified their share of the evidence, and count
/// it against the commitment.
pub fn verify_evidence_share(
    evidence: &mut EvidenceCommitment,
    juror: Address,
    share_commitment: Digest32,
    now: i64,
) -> (r: Result<JurorEvidenceShare, ErrorCode>)
    ensures
        r is Ok <==> old(evidence).juror_count < u8::MAX,
        r matches Ok(s) ==> {
            &&& final(evidence).juror_count == old(evidence).juror_count + 1
            &&& final(evidence).case_id == old(evidence).case_id
            &&& final(evidence).evidence_hash == old(evidence).evidence_hash
            &&& final(evidence).encrypted_evidence@ == old(evidence).encrypted_evidence@
            &&& final(evidence).commitment == old(evidence).commitment
            &&& final(evidence).threshold == old(evidence).threshold
            &&& s.juror == juror
            &&& s.case_id == old(evidence).case_id
            &&& s.share_commitment == share_commitment
            &&& s.has_verified
            &&& s.verification_timestamp == now
        },
        r is Err ==> *final(evidence) == *old(evidence) && r == Err::<
            JurorEvidenceShare,
            ErrorCode,
        >(ErrorCode::ArithmeticOverflow),
{
    let next_count = match evidence.juror_count.checked_add(1) {
        Some(c) => c,
        None => {
            return Err(ErrorCode::ArithmeticOverflow);
        },
    };
    evidence.juror_count = next_count;
    Ok(
        JurorEvidenceShare {
            juror,
            case_id: evidence.case_id,
            share_commitment,
            has_verified: true,
            verification_timestamp: now,
        },
    )
}

/// Gate evidence reconstruction on the threshold. The reconstruction
/// itself is delegated to the external MPC service; this core hands back
/// no plaintext.
pub fn reconstruct_evidence(shares: Vec<Digest32>, threshold: u8) -> (r: Result<
    Vec<u8>,
    ErrorCode,
>)
    ensures
        r is Ok <==> shares@.len() >= threshold,
        r matches Ok(v) ==> v@ == Seq::<u8>::empty(),
        r is Err ==> r == Err::<Vec<u8>, ErrorCode>(ErrorCode::InsufficientShares),
{
    if shares.len() < threshold as usize {
        return Err(ErrorCode::InsufficientShares);
    }
    Ok(Vec::new())
}

} // verus!
