use solsafe::errors::ErrorCode;
use solsafe::private_vote::{VoteCommitment, VoteLedger};
use solsafe::state::{CaseAccount, CaseState, CaseStatus, GlobalConfig};
use solsafe::zk::{ZkProof, ZkProofType};

fn addr(n: u8) -> [u8; 32] {
    let mut a = [0u8; 32];
    a[0] = n;
    a
}

fn voting_case(case_id: u64, jurors: Vec<[u8; 32]>) -> CaseAccount {
    CaseAccount {
        case_id,
        scam_address: addr(99),
        evidence: Vec::new(),
        jurors: jurors.clone(),
        juror_candidates: jurors,
        votes_for: 0,
        votes_against: 0,
        voted_jurors: Vec::new(),
        status: CaseStatus::Open,
        state: CaseState::Voting,
        vrf_request: None,
    }
}

fn vote_proof() -> ZkProof {
    ZkProof {
        proof_data: Vec::new(),
        public_inputs: Vec::new(),
        proof_type: ZkProofType::VoteCommitment,
    }
}

#[test]
fn test_commitment_matches_runtime_hash() {
    // the commitment is the runtime's SHA-256 of vote byte and salt,
    // and the nullifier chains the case id onto it
    let salt = [7u8; 32];
    let vc = VoteCommitment::new(5, true, salt, 0);
    let expected = solana_program::hash::hashv(&[&[1u8], &salt]).to_bytes();
    assert_eq!(vc.commitment, expected);
    let expected_nullifier =
        solana_program::hash::hashv(&[&5u64.to_le_bytes(), &expected]).to_bytes();
    assert_eq!(vc.nullifier, expected_nullifier);
}

#[test]
fn test_commit_and_reveal_roundtrip() {
    let juror = addr(10);
    let mut case = voting_case(5, vec![juror, addr(11), addr(12)]);
    let config = GlobalConfig::initialize(addr(1), 2, 3);
    let mut ledger = VoteLedger::new(5);

    let salt = [3u8; 32];
    let vc = VoteCommitment::new(5, true, salt, 100);
    assert!(ledger
        .commit_vote(&case, juror, vc.commitment, vc.nullifier, &vote_proof(), 100)
        .is_ok());
    assert_eq!(case.votes_for, 0);

    let freeze = ledger
        .reveal_vote(&mut case, &config, juror, true, salt)
        .unwrap();
    assert!(!freeze);
    assert_eq!(case.votes_for, 1);
    assert_eq!(case.votes_against, 0);
}

#[test]
fn test_reveal_wrong_salt_fails() {
    let juror = addr(10);
    let mut case = voting_case(5, vec![juror]);
    let config = GlobalConfig::initialize(addr(1), 2, 1);
    let mut ledger = VoteLedger::new(5);
    let salt = [3u8; 32];
    let vc = VoteCommitment::new(5, true, salt, 100);
    ledger
        .commit_vote(&case, juror, vc.commitment, vc.nullifier, &vote_proof(), 100)
        .unwrap();

    let wrong_salt = [4u8; 32];
    assert_eq!(
        ledger.reveal_vote(&mut case, &config, juror, true, wrong_salt),
        Err(ErrorCode::InvalidReveal)
    );
    // the right salt but the other vote fails too
    assert_eq!(
        ledger.reveal_vote(&mut case, &config, juror, false, salt),
        Err(ErrorCode::InvalidReveal)
    );
    assert_eq!(case.votes_for, 0);
    assert_eq!(case.votes_against, 0);
}

#[test]
fn test_double_commit_fails() {
    let juror = addr(10);
    let case = voting_case(5, vec![juror]);
    let mut ledger = VoteLedger::new(5);
    let vc = VoteCommitment::new(5, true, [3u8; 32], 100);
    ledger
        .commit_vote(&case, juror, vc.commitment, vc.nullifier, &vote_proof(), 100)
        .unwrap();
    let vc2 = VoteCommitment::new(5, false, [9u8; 32], 101);
    assert_eq!(
        ledger.commit_vote(&case, juror, vc2.commitment, vc2.nullifier, &vote_proof(), 101),
        Err(ErrorCode::AlreadyVoted)
    );
}

#[test]
fn test_double_reveal_fails() {
    let juror = addr(10);
    let mut case = voting_case(5, vec![juror, addr(11), addr(12)]);
    let config = GlobalConfig::initialize(addr(1), 2, 3);
    let mut ledger = VoteLedger::new(5);
    let salt = [3u8; 32];
    let vc = VoteCommitment::new(5, true, salt, 100);
    ledger
        .commit_vote(&case, juror, vc.commitment, vc.nullifier, &vote_proof(), 100)
        .unwrap();
    ledger
        .reveal_vote(&mut case, &config, juror, true, salt)
        .unwrap();
    assert_eq!(
        ledger.reveal_vote(&mut case, &config, juror, true, salt),
        Err(ErrorCode::AlreadyVoted)
    );
    assert_eq!(case.votes_for, 1);
}

#[test]
fn test_commit_guards() {
    let juror = addr(10);
    let mut case = voting_case(5, vec![juror]);
    let mut ledger = VoteLedger::new(5);
    let vc = VoteCommitment::new(5, true, [3u8; 32], 100);

    // wrong proof kind
    let mut wrong_kind = vote_proof();
    wrong_kind.proof_type = ZkProofType::EvidenceHash;
    assert_eq!(
        ledger.commit_vote(&case, juror, vc.commitment, vc.nullifier, &wrong_kind, 100),
        Err(ErrorCode::InvalidProofType)
    );

    // a nullifier that is not hash(case_id, commitment)
    assert_eq!(
        ledger.commit_vote(&case, juror, vc.commitment, [0u8; 32], &vote_proof(), 100),
        Err(ErrorCode::InvalidZkProof)
    );

    // not a juror of the case
    assert_eq!(
        ledger.commit_vote(&case, addr(77), vc.commitment, vc.nullifier, &vote_proof(), 100),
        Err(ErrorCode::NotJuror)
    );

    // case not open for voting
    case.state = CaseState::Approved;
    case.status = CaseStatus::Frozen;
    assert_eq!(
        ledger.commit_vote(&case, juror, vc.commitment, vc.nullifier, &vote_proof(), 100),
        Err(ErrorCode::CaseNotVoting)
    );
}

#[test]
fn test_nullifier_replay_across_jurors() {
    let a = addr(10);
    let b = addr(11);
    let case = voting_case(5, vec![a, b]);
    let mut ledger = VoteLedger::new(5);
    // both jurors submit the same commitment, hence the same nullifier
    let vc = VoteCommitment::new(5, true, [3u8; 32], 100);
    ledger
        .commit_vote(&case, a, vc.commitment, vc.nullifier, &vote_proof(), 100)
        .unwrap();
    assert_eq!(
        ledger.commit_vote(&case, b, vc.commitment, vc.nullifier, &vote_proof(), 100),
        Err(ErrorCode::NullifierAlreadyUsed)
    );
}

#[test]
fn test_reveal_reaching_quorum_freezes() {
    let a = addr(10);
    let b = addr(11);
    let mut case = voting_case(5, vec![a, b, addr(12)]);
    let config = GlobalConfig::initialize(addr(1), 2, 3);
    let mut ledger = VoteLedger::new(5);
    let vca = VoteCommitment::new(5, true, [1u8; 32], 100);
    let vcb = VoteCommitment::new(5, true, [2u8; 32], 100);
    ledger
        .commit_vote(&case, a, vca.commitment, vca.nullifier, &vote_proof(), 100)
        .unwrap();
    ledger
        .commit_vote(&case, b, vcb.commitment, vcb.nullifier, &vote_proof(), 100)
        .unwrap();
    assert_eq!(
        ledger.reveal_vote(&mut case, &config, a, true, [1u8; 32]),
        Ok(false)
    );
    assert_eq!(
        ledger.reveal_vote(&mut case, &config, b, true, [2u8; 32]),
        Ok(true)
    );
    assert_eq!(case.state, CaseState::Approved);
    assert_eq!(case.status, CaseStatus::Frozen);
}

#[test]
fn test_zk_proof_envelope_accepts() {
    assert_eq!(vote_proof().verify(), Ok(true));
    let mut p = vote_proof();
    p.proof_type = ZkProofType::TallyVerification;
    assert_eq!(p.verify(), Ok(true));
}
