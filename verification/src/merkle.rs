//! Evidence-integrity hashing: SHA3-256 Merkle trees over transaction
//! evidence, proof verification against a root, and a freshness check on
//! evidence timestamps.

use sha3::Digest;
use vstd::string::StringSliceAdditionalSpecFns;
use vstd::prelude::*;
use crate::types::Digest32;

verus! {

/// Failures of the evidence-integrity checks.
#[derive(Clone, Copy, Debug, PartialEq, Eq, Structural)]
pub enum ErrorCode {
    /// A Merkle tree needs at least one leaf.
    EmptyMerkleTree,
    /// The evidence claims a timestamp after the current time.
    FutureTimestamp,
    /// The evidence is older than the acceptance window.
    EvidenceTooOld,
    /// A Merkle proof did not reproduce the root.
    InvalidMerkleProof,
}

/// The SHA3-256 digest of a byte sequence. The digest of given bytes is a
/// fixed 32-byte value; nothing more is assumed of it.
pub uninterp spec fn sha3_of(data: Seq<u8>) -> Seq<u8>;

/// Relies on `sha3::Sha3_256`: the SHA3-256 digest of the input bytes, a
/// function of those bytes alone.
#[verifier::external_body]
fn sha3_256(data: &[u8]) -> (r: Digest32)
    ensures
        r@ == sha3_of(data@),
{
    let mut hasher = sha3::Sha3_256::new();
    hasher.update(data);
    hasher.finalize().into()
}

/// The domain-separation tag in front of leaf data.
pub open spec fn leaf_tag() -> Seq<u8> {
    // "SOLSAFE_LEAF:"
    seq![83u8, 79u8, 76u8, 83u8, 65u8, 70u8, 69u8, 95u8, 76u8, 69u8, 65u8, 70u8, 58u8]
}

/// The domain-separation tag in front of inner-node data.
pub open spec fn node_tag() -> Seq<u8> {
    // "SOLSAFE_NODE:"
    seq![83u8, 79u8, 76u8, 83u8, 65u8, 70u8, 69u8, 95u8, 78u8, 79u8, 68u8, 69u8, 58u8]
}

/// Digest of a leaf: the tagged leaf data.
pub open spec fn leaf_hash_of(data: Seq<u8>) -> Seq<u8> {
    sha3_of(leaf_tag() + data)
}

/// Digest of an inner node: the tagged pair of children.
pub open spec fn node_hash_of(left: Seq<u8>, right: Seq<u8>) -> Seq<u8> {
    sha3_of(node_tag() + left + right)
}

/// Hash a leaf node, under the leaf domain-separation tag.
pub fn hash_leaf(data: &[u8]) -> (r: Digest32)
    ensures
        r@ == leaf_hash_of(data@),
{
    let tag: [u8; 13] = [83u8, 79u8, 76u8, 83u8, 65u8, 70u8, 69u8, 95u8, 76u8, 69u8, 65u8, 70u8, 58u8];
    let mut bytes: Vec<u8> = Vec::new();
    bytes.extend_from_slice(tag.as_slice());
    bytes.extend_from_slice(data);
    assert(bytes@ =~= leaf_tag() + data@);
    sha3_256(bytes.as_slice())
}

/// Hash two child digests together, under the node tag.
pub fn hash_pair(left: &[u8; 32], right: &[u8; 32]) -> (r: Digest32)
    ensures
        r@ == node_hash_of(left@, right@),
{
    let tag: [u8; 13] = [83u8, 79u8, 76u8, 83u8, 65u8, 70u8, 69u8, 95u8, 78u8, 79u8, 68u8, 69u8, 58u8];
    let mut bytes: Vec<u8> = Vec::new();
    bytes.extend_from_slice(tag.as_slice());
    bytes.extend_from_slice(left.as_slice());
    bytes.extend_from_slice(right.as_slice());
    assert(bytes@ =~= node_tag() + left@ + right@);
    sha3_256(bytes.as_slice())
}

/// Digest of an evidence document's bytes.
pub fn hash_evidence(evidence_json: &str) -> (r: Digest32)
    ensures
        r@ == sha3_of(evidence_json.spec_bytes()),
{
    sha3_256(evidence_json.as_bytes())
}

/// The views of a sequence of 32-byte digests.
pub open spec fn digests_of(s: Seq<[u8; 32]>) -> Seq<Seq<u8>> {
    s.map_values(|a: [u8; 32]| a@)
}

/// Climb from a starting digest to a root candidate: at each level hash
/// with the given sibling, on the side the node index dictates.
pub open spec fn merkle_climb(h: Seq<u8>, siblings: Seq<Seq<u8>>, index: int) -> Seq<u8>
    decreases siblings.len(),
{
    if siblings.len() == 0 {
        h
    } else {
        let next = if index % 2 == 0 {
            node_hash_of(h, siblings[0])
        } else {
            node_hash_of(siblings[0], h)
        };
        merkle_climb(next, siblings.drop_first(), index / 2)
    }
}

/// Check that a leaf sits at `index` of the tree with the given root,
/// using the sibling digests along its path.
pub fn verify_merkle_proof(
    leaf: &[u8],
    merkle_root: &[u8; 32],
    siblings: &[[u8; 32]],
    index: usize,
) -> (r: bool)
    ensures
        r <==> merkle_climb(leaf_hash_of(leaf@), digests_of(siblings@), index as int)
            == merkle_root@,
{
    let mut computed: Digest32 = hash_leaf(leaf);
    let mut idx: usize = index;
    let mut i: usize = 0;
    assert(digests_of(siblings@).skip(0) =~= digests_of(siblings@));
    while i < siblings.len()
        invariant
            i <= siblings@.len(),
            merkle_climb(computed@, digests_of(siblings@).skip(i as int), idx as int)
                == merkle_climb(leaf_hash_of(leaf@), digests_of(siblings@), index as int),
        decreases siblings@.len() - i,
    {
        let ghost pre = computed@;
        let ghost pre_idx = idx as int;
        let ghost rest = digests_of(siblings@).skip(i as int);
        if idx % 2 == 0 {
            computed = hash_pair(&computed, &siblings[i]);
        } else {
            computed = hash_pair(&siblings[i], &computed);
        }
        idx = idx / 2;
        i = i + 1;
        proof {
            assert(rest[0] == digests_of(siblings@)[i - 1]);
            assert(rest.drop_first() =~= digests_of(siblings@).skip(i as int));
            assert(merkle_climb(pre, rest, pre_idx) == merkle_climb(
                computed@,
                digests_of(siblings@).skip(i as int),
                idx as int,
            ));
        }
    }
    assert(digests_of(siblings@).skip(siblings@.len() as int) =~= Seq::<Seq<u8>>::empty());
    crate::types::bytes32_eq(&computed, merkle_root)
}

/// One combining pass of root computation: hash adjacent pairs, pairing a
/// trailing odd node with itself.
pub open spec fn combine_level(level: Seq<Seq<u8>>) -> Seq<Seq<u8>> {
    Seq::new(
        ((level.len() + 1) / 2) as nat,
        |j: int|
            if 2 * j + 1 < level.len() {
                node_hash_of(level[2 * j], level[2 * j + 1])
            } else {
                node_hash_of(level[2 * j], level[2 * j])
            },
    )
}

/// The root reached by combining a level until one digest is left.
pub open spec fn root_of_level(level: Seq<Seq<u8>>) -> Seq<u8>
    recommends
        level.len() >= 1,
    decreases level.len(),
{
    if level.len() <= 1 {
        level[0]
    } else {
        root_of_level(combine_level(level))
    }
}

/// The Merkle root of a sequence of leaves.
pub open spec fn merkle_root_of(leaves: Seq<Seq<u8>>) -> Seq<u8>
    recommends
        leaves.len() >= 1,
{
    root_of_level(leaves.map_values(|l: Seq<u8>| leaf_hash_of(l)))
}

/// Build the Merkle tree over the given leaves and return its root.
/// Fails only on an empty leaf list.
pub fn compute_merkle_root(leaves: &Vec<Vec<u8>>) -> (r: Result<Digest32, ErrorCode>)
    ensures
        r is Ok <==> leaves@.len() > 0,
        r matches Ok(root) ==> root@ == merkle_root_of(leaves@.map_values(|v: Vec<u8>| v@)),
        r is Err ==> r == Err::<Digest32, ErrorCode>(ErrorCode::EmptyMerkleTree),
{
    if leaves.len() == 0 {
        return Err(ErrorCode::EmptyMerkleTree);
    }
    let ghost target = merkle_root_of(leaves@.map_values(|v: Vec<u8>| v@));
    let mut current: Vec<Digest32> = Vec::new();
    let mut i: usize = 0;
    while i < leaves.len()
        invariant
            i <= leaves@.len(),
            current@.len() == i,
            forall|j: int|
                0 <= j < i ==> (#[trigger] current@[j])@ == leaf_hash_of(leaves@[j]@),
        decreases leaves@.len() - i,
    {
        current.push(hash_leaf(leaves[i].as_slice()));
        i = i + 1;
    }
    proof {
        assert(digests_of(current@) =~= leaves@.map_values(|v: Vec<u8>| v@).map_values(
            |l: Seq<u8>| leaf_hash_of(l),
        ));
    }
    while current.len() > 1
        invariant
            current@.len() >= 1,
            root_of_level(digests_of(current@)) == target,
        decreases current@.len(),
    {
        let ghost level = digests_of(current@);
        let mut next: Vec<Digest32> = Vec::new();
        let half: usize = current.len() / 2 + current.len() % 2;
        let mut j: usize = 0;
        while j < half
            invariant
                current@.len() >= 2,
                current@.len() <= usize::MAX,
                half == (current@.len() + 1) / 2,
                j <= half,
                next@.len() == j,
                level == digests_of(current@),
                forall|t: int|
                    0 <= t < j ==> (#[trigger] next@[t])@ == combine_level(level)[t],
            decreases half - j,
        {
            assert(2 * (j as int) < current@.len());
            let i = 2 * j;
            if i + 1 < current.len() {
                let h = hash_pair(&current[i], &current[i + 1]);
                next.push(h);
            } else {
                let h = hash_pair(&current[i], &current[i]);
                next.push(h);
            }
            j = j + 1;
        }
        proof {
            assert(next@.len() == (current@.len() + 1) / 2);
            assert(digests_of(next@) =~= combine_level(level));
            assert(root_of_level(level) == root_of_level(combine_level(level)));
        }
        current = next;
    }
    assert(digests_of(current@)[0] == current@[0]@);
    Ok(current[0])
}

/// Check an evidence timestamp: not in the future against `now`, and not
/// older than the acceptance window.
pub fn verify_timestamp(timestamp: i64, max_age_seconds: i64, now: i64) -> (r: Result<
    (),
    ErrorCode,
>)
    ensures
        r is Ok <==> timestamp <= now && now - timestamp <= max_age_seconds,
        r == Err::<(), ErrorCode>(ErrorCode::FutureTimestamp) <==> timestamp > now,
        timestamp <= now && now - timestamp > max_age_seconds ==> r == Err::<(), ErrorCode>(
            ErrorCode::EvidenceTooOld,
        ),
{
    if timestamp > now {
        return Err(ErrorCode::FutureTimestamp);
    }
    let age: i64 = match now.checked_sub(timestamp) {
        Some(a) => a,
        None => {
            return Err(ErrorCode::EvidenceTooOld);
        },
    };
    if age > max_age_seconds {
        return Err(ErrorCode::EvidenceTooOld);
    }
    Ok(())
}

} // verus!
