use sha3::{Digest, Sha3_256};
use solsafe::merkle::{
    compute_merkle_root, hash_evidence, hash_leaf, hash_pair, verify_merkle_proof,
    ErrorCode as MerkleError,
};

#[test]
fn test_merkle_proof() {
    let leaves = vec![
        b"tx1".to_vec(),
        b"tx2".to_vec(),
        b"tx3".to_vec(),
        b"tx4".to_vec(),
    ];

    let root = compute_merkle_root(&leaves).unwrap();

    // Build proof for leaf 0
    let sibling1 = hash_leaf(&leaves[1]);
    let parent2 = hash_pair(&hash_leaf(&leaves[2]), &hash_leaf(&leaves[3]));

    let proof_nodes = vec![sibling1, parent2];

    assert!(verify_merkle_proof(&leaves[0], &root, &proof_nodes, 0));
}

#[test]
fn test_hash_consistency() {
    let data = b"test evidence data";
    let hash1 = hash_leaf(data);
    let hash2 = hash_leaf(data);
    assert_eq!(hash1, hash2);
}

#[test]
fn test_merkle_proof_wrong_index() {
    let leaves = vec![b"tx1".to_vec(), b"tx2".to_vec()];
    let root = compute_merkle_root(&leaves).unwrap();
    let proof_nodes = vec![hash_leaf(&leaves[1])];
    assert!(verify_merkle_proof(&leaves[0], &root, &proof_nodes, 0));
    assert!(!verify_merkle_proof(&leaves[0], &root, &proof_nodes, 1));
    assert!(!verify_merkle_proof(&leaves[1], &root, &proof_nodes, 0));
}

#[test]
fn test_merkle_root_empty() {
    let r = compute_merkle_root(&Vec::new());
    assert_eq!(r.err(), Some(MerkleError::EmptyMerkleTree));
}

#[test]
fn test_merkle_root_single_leaf() {
    let leaves = vec![b"only".to_vec()];
    let root = compute_merkle_root(&leaves).unwrap();
    assert_eq!(root, hash_leaf(b"only"));
}

#[test]
fn test_merkle_root_odd_leaves_duplicates_last() {
    let leaves = vec![b"tx1".to_vec(), b"tx2".to_vec(), b"tx3".to_vec()];
    let root = compute_merkle_root(&leaves).unwrap();
    let l0 = hash_leaf(b"tx1");
    let l1 = hash_leaf(b"tx2");
    let l2 = hash_leaf(b"tx3");
    let expected = hash_pair(&hash_pair(&l0, &l1), &hash_pair(&l2, &l2));
    assert_eq!(root, expected);
}

#[test]
fn test_hash_leaf_is_domain_separated() {
    // the leaf hash is a real digest of the tagged data, not the data back
    let data = b"tx1";
    let mut hasher = Sha3_256::new();
    hasher.update(b"SOLSAFE_LEAF:");
    hasher.update(data);
    let expected: [u8; 32] = hasher.finalize().into();
    assert_eq!(hash_leaf(data), expected);
    assert_ne!(hash_leaf(data), hash_evidence("tx1"));
}

#[test]
fn test_hash_evidence_matches_sha3() {
    let doc = "{\"kind\":\"report\"}";
    let expected: [u8; 32] = Sha3_256::digest(doc.as_bytes()).into();
    assert_eq!(hash_evidence(doc), expected);
}
