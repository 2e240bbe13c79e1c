use solsafe::errors::ErrorCode;
use solsafe::evidence::{initialize_private_evidence, verify_evidence_share, EvidenceCommitment};
use solsafe::mpc::{init_mpc, submit_partial_decryption, submit_share, MpcState, MpcVoteAggregation};

fn addr(n: u8) -> [u8; 32] {
    let mut a = [0u8; 32];
    a[0] = n;
    a
}

fn empty_aggregation(case_id: u64) -> MpcVoteAggregation {
    MpcVoteAggregation {
        case_id,
        encrypted_tally: Vec::new(),
        partial_decryptions: Vec::new(),
        final_result: None,
        computation_complete: false,
    }
}

#[test]
fn test_init_mpc_bounds() {
    assert_eq!(init_mpc(1, 0, 3, 0).err(), Some(ErrorCode::InvalidThreshold));
    assert_eq!(init_mpc(1, 4, 3, 0).err(), Some(ErrorCode::InvalidThreshold));
    assert_eq!(init_mpc(1, 2, 21, 0).err(), Some(ErrorCode::TooManyJurors));
    let c = init_mpc(1, 2, 3, 0).unwrap();
    assert_eq!(c.threshold, 2);
    assert_eq!(c.total_jurors, 3);
    assert_eq!(c.current_shares, 0);
    assert_eq!(c.state, MpcState::Initialized);
}

#[test]
fn test_computation_id_binds_case_and_time() {
    let a = init_mpc(1, 2, 3, 50).unwrap();
    let b = init_mpc(1, 2, 3, 50).unwrap();
    let c = init_mpc(2, 2, 3, 50).unwrap();
    let d = init_mpc(1, 2, 3, 51).unwrap();
    assert_eq!(a.computation_id, b.computation_id);
    assert_ne!(a.computation_id, c.computation_id);
    assert_ne!(a.computation_id, d.computation_id);
    let expected = solana_program::hash::hashv(&[
        b"arcium_mpc",
        &1u64.to_le_bytes(),
        &50i64.to_le_bytes(),
    ])
    .to_bytes();
    assert_eq!(a.computation_id, expected);
}

#[test]
fn test_share_collection_reaches_threshold() {
    let mut config = init_mpc(1, 2, 3, 0).unwrap();
    let s1 = submit_share(&mut config, addr(10), [1u8; 32], [2u8; 32], 5).unwrap();
    assert_eq!(s1.share_index, 0);
    assert!(!s1.verified);
    assert_eq!(config.state, MpcState::CollectingShares);
    submit_share(&mut config, addr(11), [1u8; 32], [2u8; 32], 6).unwrap();
    assert_eq!(config.state, MpcState::ThresholdReached);
    submit_share(&mut config, addr(12), [1u8; 32], [2u8; 32], 7).unwrap();
    assert_eq!(config.current_shares, 3);
    assert_eq!(
        submit_share(&mut config, addr(13), [1u8; 32], [2u8; 32], 8).err(),
        Some(ErrorCode::AllSharesSubmitted)
    );
}

#[test]
fn test_partial_decryption_flow() {
    let mut config = init_mpc(1, 2, 3, 0).unwrap();
    let mut share_a = submit_share(&mut config, addr(10), [1u8; 32], [2u8; 32], 5).unwrap();
    let mut share_b = submit_share(&mut config, addr(11), [1u8; 32], [2u8; 32], 6).unwrap();
    let mut agg = empty_aggregation(1);

    // an unverified share cannot decrypt
    assert_eq!(
        submit_partial_decryption(&mut agg, &config, &share_a, addr(10), [3u8; 32], [0u8; 64]),
        Err(ErrorCode::ShareNotVerified)
    );
    share_a.mark_verified();
    share_b.mark_verified();

    assert!(submit_partial_decryption(&mut agg, &config, &share_a, addr(10), [3u8; 32], [0u8; 64])
        .is_ok());
    assert!(agg.final_result.is_none());
    assert!(!agg.computation_complete);

    // the same juror cannot submit twice
    assert_eq!(
        submit_partial_decryption(&mut agg, &config, &share_a, addr(10), [3u8; 32], [0u8; 64]),
        Err(ErrorCode::AlreadyVoted)
    );

    assert!(submit_partial_decryption(&mut agg, &config, &share_b, addr(11), [4u8; 32], [0u8; 64])
        .is_ok());
    assert!(agg.computation_complete);
    let result = agg.final_result.clone().unwrap();
    assert_eq!(result.total_votes, 2);
    assert!(result.verified);

    // the frozen result never changes
    assert_eq!(
        submit_partial_decryption(&mut agg, &config, &share_b, addr(12), [5u8; 32], [0u8; 64]),
        Err(ErrorCode::ComputationComplete)
    );
    assert_eq!(agg.final_result.unwrap().total_votes, 2);
}

#[test]
fn test_partial_decryption_needs_threshold_state() {
    let mut config = init_mpc(1, 2, 3, 0).unwrap();
    let mut share = submit_share(&mut config, addr(10), [1u8; 32], [2u8; 32], 5).unwrap();
    share.mark_verified();
    assert_eq!(config.state, MpcState::CollectingShares);
    let mut agg = empty_aggregation(1);
    assert_eq!(
        submit_partial_decryption(&mut agg, &config, &share, addr(10), [3u8; 32], [0u8; 64]),
        Err(ErrorCode::ThresholdNotReached)
    );
}

#[test]
fn test_private_evidence_bounds() {
    assert_eq!(
        initialize_private_evidence(1, [5u8; 32], vec![0u8; 1025], 2).err(),
        Some(ErrorCode::EvidenceTooLarge)
    );
    assert_eq!(
        initialize_private_evidence(1, [5u8; 32], vec![0u8; 10], 0).err(),
        Some(ErrorCode::InvalidThreshold)
    );
    let e = initialize_private_evidence(1, [5u8; 32], vec![9u8; 10], 2).unwrap();
    assert_eq!(e.juror_count, 0);
    assert_eq!(e.threshold, 2);
    let expected = solana_program::hash::hash(&[5u8; 32]).to_bytes();
    assert_eq!(e.commitment, expected);
}

#[test]
fn test_evidence_share_counting_and_hash_check() {
    let mut e = EvidenceCommitment::new(1, [5u8; 32], vec![9u8; 10], 2);
    let s = verify_evidence_share(&mut e, addr(10), [7u8; 32], 123).unwrap();
    assert!(s.has_verified);
    assert_eq!(s.case_id, 1);
    assert_eq!(e.juror_count, 1);
    assert!(e.verify_hash(&[5u8; 32]));
    assert!(!e.verify_hash(&[6u8; 32]));
}

#[test]
fn test_reconstruct_evidence_gating() {
    assert_eq!(
        solsafe::evidence::reconstruct_evidence(vec![[1u8; 32]], 2).err(),
        Some(ErrorCode::InsufficientShares)
    );
    let v = solsafe::evidence::reconstruct_evidence(vec![[1u8; 32], [2u8; 32]], 2).unwrap();
    assert!(v.is_empty());
}
