//! Compressed vote state: a running hash chain over vote commitments,
//! with membership checks and batched commitment digests.

use vstd::prelude::*;
use crate::errors::ErrorCode;
use crate::private_vote::VoteCommitment;
use crate::sha256::{sha256, sha256_of, sha256_pair, sha256_pair_of};
use crate::types::{bytes32_eq, Address, Digest32};

verus! {

/// Height of the compressed state tree; bounds the votes it can absorb.
pub const COMPRESSED_TREE_HEIGHT: u8 = 20;

/// The running compressed digest of a case's vote commitments.
pub struct CompressedVoteState {
    pub merkle_root: Digest32,
    pub case_id: u64,
    pub total_commitments: u64,
    pub tree_height: u8,
}

impl CompressedVoteState {
    /// The empty compressed state of a case: an all-zero root.
    pub fn initialize(case_id: u64) -> (r: CompressedVoteState)
        ensures
            r.case_id == case_id,
            r.total_commitments == 0,
            r.tree_height == COMPRESSED_TREE_HEIGHT,
            forall|i: int| 0 <= i < 32 ==> r.merkle_root@[i] == 0u8,
    {
        CompressedVoteState {
            merkle_root: [0u8; 32],
            case_id,
            total_commitments: 0,
            tree_height: COMPRESSED_TREE_HEIGHT,
        }
    }

    fn compute_new_root(&self, commitment: &[u8; 32]) -> (r: Digest32)
        ensures
            r@ == sha256_pair_of(self.merkle_root@, commitment@),
    {
        sha256_pair(self.merkle_root.as_slice(), commitment.as_slice())
    }

    /// Absorb one vote commitment: the root becomes the hash of the old
    /// root and the commitment, and the counter advances.
    pub fn add_commitment(&mut self, commitment: &VoteCommitment) -> (r: Result<(), ErrorCode>)
        ensures
            r is Ok <==> old(self).total_commitments < u64::MAX,
            r is Ok ==> {
                &&& final(self).merkle_root@ == sha256_pair_of(
                    old(self).merkle_root@,
                    commitment.commitment@,
                )
                &&& final(self).total_commitments == old(self).total_commitments + 1
                &&& final(self).case_id == old(self).case_id
                &&& final(self).tree_height == old(self).tree_height
            },
            r is Err ==> *final(self) == *old(self) && r == Err::<(), ErrorCode>(
                ErrorCode::ArithmeticOverflow,
            ),
    {
        let next_total = match self.total_commitments.checked_add(1) {
            Some(t) => t,
            None => {
                return Err(ErrorCode::ArithmeticOverflow);
            },
        };
        self.merkle_root = self.compute_new_root(&commitment.commitment);
        self.total_commitments = next_total;
        Ok(())
    }

    /// The digest reached by absorbing each sibling into a running hash.
    pub open spec fn chain_climb(h: Seq<u8>, siblings: Seq<Seq<u8>>) -> Seq<u8>
        decreases siblings.len(),
    {
        if siblings.len() == 0 {
            h
        } else {
            Self::chain_climb(sha256_of(h + siblings[0]), siblings.drop_first())
        }
    }

    /// Check a membership path: absorbing the path nodes into the claimed
    /// commitment must reproduce the current root.
    pub fn verify_membership(&self, commitment: &[u8; 32], path: &Vec<Vec<u8>>) -> (r: Result<
        bool,
        ErrorCode,
    >)
        ensures
            r matches Ok(b) ==> (b <==> Self::chain_climb(
                commitment@,
                path@.map_values(|v: Vec<u8>| v@),
            ) == self.merkle_root@),
            r is Ok,
    {
        let ghost nodes = path@.map_values(|v: Vec<u8>| v@);
        let mut current: Digest32 = *commitment;
        let mut i: usize = 0;
        assert(nodes.skip(0) =~= nodes);
        while i < path.len()
            invariant
                i <= path@.len(),
                nodes == path@.map_values(|v: Vec<u8>| v@),
                Self::chain_climb(current@, nodes.skip(i as int)) == Self::chain_climb(
                    commitment@,
                    nodes,
                ),
            decreases path@.len() - i,
        {
            let ghost pre = current@;
            let ghost rest = nodes.skip(i as int);
            current = self.hash_with(&current, path[i].as_slice());
            i = i + 1;
            proof {
                assert(rest[0] == nodes[i - 1]);
                assert(rest.drop_first() =~= nodes.skip(i as int));
                assert(Self::chain_climb(pre, rest) == Self::chain_climb(
                    current@,
                    nodes.skip(i as int),
                ));
            }
        }
        assert(nodes.skip(path@.len() as int) =~= Seq::<Seq<u8>>::empty());
        Ok(bytes32_eq(&current, &self.merkle_root))
    }

    fn hash_with(&self, left: &[u8; 32], right: &[u8]) -> (r: Digest32)
        ensures
            r@ == sha256_of(left@ + right@),
    {
        sha256_pair(left.as_slice(), right)
    }
}

/// Configuration of the compression layer.
pub struct LightCompressionConfig {
    pub authority: Address,
    pub compression_enabled: bool,
    pub max_tree_depth: u8,
    pub state_tree_count: u64,
}

/// The concatenation of a run of 32-byte digests, from index `i` on.
pub open spec fn concat_digests_from(s: Seq<[u8; 32]>, i: int) -> Seq<u8>
    decreases s.len() - i,
{
    if i < 0 || i >= s.len() {
        Seq::empty()
    } else {
        s[i]@ + concat_digests_from(s, i + 1)
    }
}

/// The concatenation of a sequence of 32-byte digests.
pub open spec fn concat_digests(s: Seq<[u8; 32]>) -> Seq<u8> {
    concat_digests_from(s, 0)
}

/// A batch of vote commitments with a single proof digest over them.
pub struct BatchVoteCommitment {
    pub commitments: Vec<Digest32>,
    pub nullifiers: Vec<Digest32>,
    pub batch_proof: Vec<u8>,
}

impl BatchVoteCommitment {
    /// Bundle commitments and nullifiers, deriving the batch digest over
    /// the concatenated commitments.
    pub fn new(commitments: Vec<Digest32>, nullifiers: Vec<Digest32>) -> (r: BatchVoteCommitment)
        ensures
            r.commitments@ == commitments@,
            r.nullifiers@ == nullifiers@,
            r.batch_proof@ == sha256_of(concat_digests(commitments@)),
    {
        let batch_proof = Self::generate_batch_proof(&commitments);
        BatchVoteCommitment { commitments, nullifiers, batch_proof }
    }

    fn generate_batch_proof(commitments: &Vec<Digest32>) -> (r: Vec<u8>)
        ensures
            r@ == sha256_of(concat_digests(commitments@)),
    {
        let ghost s = commitments@;
        let mut data: Vec<u8> = Vec::new();
        let mut i: usize = 0;
        while i < commitments.len()
            invariant
                i <= s.len(),
                s == commitments@,
                concat_digests(s) == data@ + concat_digests_from(s, i as int),
            decreases s.len() - i,
        {
            let ghost pre = data@;
            data.extend_from_slice(commitments[i].as_slice());
            i = i + 1;
            proof {
                assert(concat_digests_from(s, i - 1) == s[i - 1]@ + concat_digests_from(
                    s,
                    i as int,
                ));
                assert(pre + (s[i - 1]@ + concat_digests_from(s, i as int)) =~= data@
                    + concat_digests_from(s, i as int));
            }
        }
        assert(data@ + concat_digests_from(s, s.len() as int) =~= data@);
        let digest = sha256(data.as_slice());
        let mut out: Vec<u8> = Vec::new();
        out.extend_from_slice(digest.as_slice());
        assert(out@ =~= digest@);
        out
    }

    /// Structural check of a batch: commitment and nullifier counts must
    /// agree. No more is checked here; the proof systems live outside.
    pub fn verify(&self) -> (r: Result<bool, ErrorCode>)
        ensures
            r is Ok <==> self.commitments@.len() == self.nullifiers@.len(),
            r is Ok ==> r == Ok::<bool, ErrorCode>(true),
            r is Err ==> r == Err::<bool, ErrorCode>(ErrorCode::InvalidBatchSize),
    {
        if self.commitments.len() != self.nullifiers.len() {
            return Err(ErrorCode::InvalidBatchSize);
        }
        Ok(true)
    }
}

} // verus!
