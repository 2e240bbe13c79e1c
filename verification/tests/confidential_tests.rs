use solsafe::confidential::{
    add_encrypted_values, apply_confidential_transfer, audit_transfer,
    initiate_confidential_transfer, subtract_encrypted_values, ConfidentialBalance,
    ConfidentialTransferConfig, TransferStatus,
};
use solsafe::errors::ErrorCode;
use solsafe::light_compression::{BatchVoteCommitment, CompressedVoteState};
use solsafe::private_vote::VoteCommitment;

fn addr(n: u8) -> [u8; 32] {
    let mut a = [0u8; 32];
    a[0] = n;
    a
}

fn config(enabled: bool) -> ConfidentialTransferConfig {
    ConfidentialTransferConfig {
        enabled,
        compliance_pubkey: addr(1),
        max_transfer_amount: 1000,
        require_proof: true,
        whitelisted_tokens: Vec::new(),
    }
}

fn balance(owner: [u8; 32], encrypted: [u8; 64]) -> ConfidentialBalance {
    ConfidentialBalance {
        owner,
        mint: addr(42),
        encrypted_balance: encrypted,
        pending_balance: [0u8; 64],
        decryptable_balance: 0,
        last_update: 0,
    }
}

#[test]
fn test_encrypted_arithmetic_wraps_per_byte() {
    let mut a = [0u8; 64];
    let mut b = [0u8; 64];
    a[0] = 250;
    b[0] = 10;
    a[1] = 3;
    b[1] = 4;
    let sum = add_encrypted_values(&a, &b);
    assert_eq!(sum[0], 4); // 250 + 10 wraps
    assert_eq!(sum[1], 7);
    assert_eq!(sum[2], 0);
    let diff = subtract_encrypted_values(&a, &b);
    assert_eq!(diff[0], 240);
    assert_eq!(diff[1], 255); // 3 - 4 wraps
    // subtraction undoes addition
    assert_eq!(subtract_encrypted_values(&sum, &b), a);
}

#[test]
fn test_initiate_requires_enabled() {
    let r = initiate_confidential_transfer(
        &config(false),
        addr(2),
        &balance(addr(2), [0u8; 64]),
        &balance(addr(3), [0u8; 64]),
        9,
        [1u8; 64],
        vec![0u8; 8],
        vec![0u8; 8],
        77,
    );
    assert_eq!(r.err(), Some(ErrorCode::ConfidentialTransfersDisabled));
}

#[test]
fn test_transfer_lifecycle() {
    let cfg = config(true);
    let sender = addr(2);
    let mut sender_balance = balance(sender, [10u8; 64]);
    let mut recipient_balance = balance(addr(3), [1u8; 64]);
    let mut amount = [0u8; 64];
    amount[0] = 5;

    let mut transfer = initiate_confidential_transfer(
        &cfg,
        sender,
        &sender_balance,
        &recipient_balance,
        9,
        amount,
        vec![0u8; 8],
        vec![0u8; 8],
        77,
    )
    .unwrap();
    assert_eq!(transfer.status, TransferStatus::Pending);
    assert_eq!(transfer.recipient, addr(3));
    assert_eq!(transfer.timestamp, 77);
    let expected_auditor = solana_program::hash::hashv(&[
        &9u64.to_le_bytes(),
        &amount,
        &cfg.compliance_pubkey,
    ])
    .to_bytes();
    assert_eq!(transfer.auditor_data, expected_auditor);

    apply_confidential_transfer(&mut transfer, &mut sender_balance, &mut recipient_balance, 80)
        .unwrap();
    assert_eq!(transfer.status, TransferStatus::Completed);
    assert_eq!(sender_balance.encrypted_balance[0], 5); // 10 - 5
    assert_eq!(sender_balance.encrypted_balance[1], 10);
    assert_eq!(recipient_balance.encrypted_balance[0], 6); // 1 + 5
    assert_eq!(sender_balance.last_update, 80);

    // a completed transfer cannot apply twice
    assert_eq!(
        apply_confidential_transfer(&mut transfer, &mut sender_balance, &mut recipient_balance, 81),
        Err(ErrorCode::TransferNotPending)
    );

    // only the compliance authority audits
    assert_eq!(
        audit_transfer(&mut transfer, &cfg, addr(9), true),
        Err(ErrorCode::Unauthorized)
    );
    audit_transfer(&mut transfer, &cfg, cfg.compliance_pubkey, true).unwrap();
    assert_eq!(transfer.status, TransferStatus::Flagged);
    audit_transfer(&mut transfer, &cfg, cfg.compliance_pubkey, false).unwrap();
    assert_eq!(transfer.status, TransferStatus::Audited);
}

#[test]
fn test_compressed_state_absorbs_commitments() {
    let mut state = CompressedVoteState::initialize(5);
    assert_eq!(state.merkle_root, [0u8; 32]);
    assert_eq!(state.total_commitments, 0);

    let vc = VoteCommitment::new(5, true, [3u8; 32], 100);
    let old_root = state.merkle_root;
    state.add_commitment(&vc).unwrap();
    assert_eq!(state.total_commitments, 1);
    let expected = solana_program::hash::hashv(&[&old_root, &vc.commitment]).to_bytes();
    assert_eq!(state.merkle_root, expected);

    // membership: absorbing the commitment into the old root gives the root
    let path = vec![vc.commitment.to_vec()];
    assert!(state.verify_membership(&old_root, &path).unwrap());
    let wrong_path = vec![[9u8; 32].to_vec()];
    assert!(!state.verify_membership(&old_root, &wrong_path).unwrap());
}

#[test]
fn test_batch_commitment_digest() {
    let commitments = vec![[1u8; 32], [2u8; 32]];
    let nullifiers = vec![[3u8; 32], [4u8; 32]];
    let batch = BatchVoteCommitment::new(commitments.clone(), nullifiers);
    let mut concat = Vec::new();
    concat.extend_from_slice(&commitments[0]);
    concat.extend_from_slice(&commitments[1]);
    let expected = solana_program::hash::hash(&concat).to_bytes().to_vec();
    assert_eq!(batch.batch_proof, expected);
    assert_eq!(batch.verify(), Ok(true));
}

#[test]
fn test_batch_size_mismatch() {
    let batch = BatchVoteCommitment::new(vec![[1u8; 32]], vec![[3u8; 32], [4u8; 32]]);
    assert_eq!(batch.verify(), Err(ErrorCode::InvalidBatchSize));
}
