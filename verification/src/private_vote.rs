//! The commit-reveal vote ledger: hidden vote commitments with
//! replay-proof nullifiers, revealed later under a binding hash check.

use vstd::bytes::{spec_u64_to_le_bytes, u64_to_le_bytes};
use vstd::pervasive::VecAdditionalExecFns;
use vstd::prelude::*;
use crate::errors::ErrorCode;
use crate::lifecycle::{lemma_vote_step_wf, vote_step};
use crate::sha256::{sha256_of, sha256_pair};
use crate::state::{CaseAccount, CaseModel, CaseState, CaseStatus, GlobalConfig};
use crate::types::{bytes32_eq, Address, Digest32};
use crate::zk::{ZkProof, ZkProofType};

verus! {

/// The byte a vote choice contributes to its commitment hash.
pub open spec fn vote_byte_of(vote: bool) -> u8 {
    if vote {
        1u8
    } else {
        0u8
    }
}

/// The commitment a juror publishes for a hidden vote: the hash of the
/// vote byte followed by the salt.
pub open spec fn commitment_of(vote: bool, salt: Seq<u8>) -> Seq<u8> {
    sha256_of(seq![vote_byte_of(vote)] + salt)
}

/// The one-time tag derived from a commitment: the hash of the case id in
/// little-endian bytes followed by the commitment. Unique per case and
/// commitment, it prevents replaying a commitment.
pub open spec fn nullifier_of(case_id: u64, commitment: Seq<u8>) -> Seq<u8> {
    sha256_of(spec_u64_to_le_bytes(case_id) + commitment)
}

/// A hidden vote: commitment, derived nullifier, and bookkeeping.
#[derive(Clone)]
pub struct VoteCommitment {
    pub commitment: Digest32,
    pub nullifier: Digest32,
    pub case_id: u64,
    pub timestamp: i64,
}

impl VoteCommitment {
    /// Commit to `vote` under `salt` for a case, deriving the nullifier.
    pub fn new(case_id: u64, vote: bool, salt: [u8; 32], timestamp: i64) -> (r: VoteCommitment)
        ensures
            r.commitment@ == commitment_of(vote, salt@),
            r.nullifier@ == nullifier_of(case_id, r.commitment@),
            r.case_id == case_id,
            r.timestamp == timestamp,
    {
        let commitment = Self::compute_commitment(vote, &salt);
        let nullifier = Self::compute_nullifier(case_id, &commitment);
        VoteCommitment { commitment, nullifier, case_id, timestamp }
    }

    /// The binding hash of a vote and its salt.
    pub fn compute_commitment(vote: bool, salt: &[u8; 32]) -> (r: Digest32)
        ensures
            r@ == commitment_of(vote, salt@),
    {
        let vote_byte: [u8; 1] = [if vote {
            1u8
        } else {
            0u8
        }];
        let r = sha256_pair(vote_byte.as_slice(), salt.as_slice());
        assert(vote_byte@ =~= seq![vote_byte_of(vote)]);
        r
    }

    /// The one-time tag for a commitment within a case.
    pub fn compute_nullifier(case_id: u64, commitment: &[u8; 32]) -> (r: Digest32)
        ensures
            r@ == nullifier_of(case_id, commitment@),
    {
        let id_bytes = u64_to_le_bytes(case_id);
        sha256_pair(id_bytes.as_slice(), commitment.as_slice())
    }
}

/// One juror's stored hidden vote for one case.
#[derive(Clone, Copy)]
pub struct VoteCommitmentAccount {
    pub juror: Address,
    pub case_id: u64,
    pub commitment: Digest32,
    pub nullifier: Digest32,
    pub timestamp: i64,
    pub revealed: bool,
}

/// All hidden votes recorded for one case.
pub struct VoteLedger {
    pub case_id: u64,
    pub commitments: Vec<VoteCommitmentAccount>,
}

/// Mathematical view of [`VoteLedger`].
#[verifier::ext_equal]
pub struct LedgerModel {
    pub case_id: u64,
    pub commitments: Seq<VoteCommitmentAccount>,
}

impl View for VoteLedger {
    type V = LedgerModel;

    open spec fn view(&self) -> LedgerModel {
        LedgerModel { case_id: self.case_id, commitments: self.commitments@ }
    }
}

impl LedgerModel {
    /// One commitment per juror, one nullifier per entry, all entries of
    /// this ledger's case.
    pub open spec fn wf(self) -> bool {
        &&& (forall|i: int|
            0 <= i < self.commitments.len() ==> (#[trigger] self.commitments[i]).case_id
                == self.case_id)
        &&& (forall|i: int, j: int|
            0 <= i < self.commitments.len() && 0 <= j < self.commitments.len() && i != j
                ==> (#[trigger] self.commitments[i]).juror != (#[trigger] self.commitments[j]).juror)
        &&& (forall|i: int, j: int|
            0 <= i < self.commitments.len() && 0 <= j < self.commitments.len() && i != j
                ==> (#[trigger] self.commitments[i]).nullifier@
                != (#[trigger] self.commitments[j]).nullifier@)
    }

    /// Whether this juror already holds a commitment here.
    pub open spec fn has_commitment(self, juror: Address) -> bool {
        exists|i: int|
            0 <= i < self.commitments.len() && (#[trigger] self.commitments[i]).juror == juror
    }

    /// The index of this juror's commitment. Unique under [`Self::wf`].
    pub open spec fn commitment_index(self, juror: Address) -> int {
        choose|i: int|
            0 <= i < self.commitments.len() && (#[trigger] self.commitments[i]).juror == juror
    }

    /// Whether some entry already carries this nullifier.
    pub open spec fn nullifier_used(self, nullifier: Seq<u8>) -> bool {
        exists|i: int|
            0 <= i < self.commitments.len() && (#[trigger] self.commitments[i]).nullifier@
                == nullifier
    }
}

/// Under [`LedgerModel::wf`], a juror's commitment index is the only
/// entry carrying that juror.
pub proof fn lemma_index_unique(ledger: LedgerModel, juror: Address, i: int)
    requires
        ledger.wf(),
        0 <= i < ledger.commitments.len(),
        ledger.commitments[i].juror == juror,
    ensures
        ledger.has_commitment(juror),
        ledger.commitment_index(juror) == i,
{
    assert(ledger.has_commitment(juror));
    let j = ledger.commitment_index(juror);
    assert(0 <= j < ledger.commitments.len() && ledger.commitments[j].juror == juror);
    if i != j {
        assert(ledger.commitments[i].juror != ledger.commitments[j].juror);
    }
}

/// Step relation of [`VoteLedger::commit_vote`]. Stores the hidden vote;
/// the tally is untouched until reveal.
pub open spec fn commit_step(
    case: CaseModel,
    ledger: LedgerModel,
    juror: Address,
    commitment: Digest32,
    nullifier: Digest32,
    proof_type: ZkProofType,
    now: i64,
) -> Result<LedgerModel, ErrorCode> {
    if ledger.case_id != case.case_id {
        Err(ErrorCode::InvalidCase)
    } else if case.state != CaseState::Voting {
        Err(ErrorCode::CaseNotVoting)
    } else if proof_type != ZkProofType::VoteCommitment {
        Err(ErrorCode::InvalidProofType)
    } else if nullifier@ != nullifier_of(case.case_id, commitment@) {
        Err(ErrorCode::InvalidZkProof)
    } else if !case.jurors.contains(juror) {
        Err(ErrorCode::NotJuror)
    } else if ledger.has_commitment(juror) {
        Err(ErrorCode::AlreadyVoted)
    } else if ledger.nullifier_used(nullifier@) {
        Err(ErrorCode::NullifierAlreadyUsed)
    } else {
        Ok(
            LedgerModel {
                commitments: ledger.commitments.push(
                    VoteCommitmentAccount {
                        juror,
                        case_id: case.case_id,
                        commitment,
                        nullifier,
                        timestamp: now,
                        revealed: false,
                    },
                ),
                ..ledger
            },
        )
    }
}

/// A successful commit preserves the ledger invariants.
pub proof fn lemma_commit_step_wf(
    case: CaseModel,
    ledger: LedgerModel,
    juror: Address,
    commitment: Digest32,
    nullifier: Digest32,
    proof_type: ZkProofType,
    now: i64,
)
    requires
        ledger.wf(),
    ensures
        commit_step(case, ledger, juror, commitment, nullifier, proof_type, now) matches Ok(post)
            ==> post.wf(),
{
    match commit_step(case, ledger, juror, commitment, nullifier, proof_type, now) {
        Ok(post) => {
            let s = post.commitments;
            let old_len = ledger.commitments.len() as int;
            assert forall|i: int, j: int|
                0 <= i < s.len() && 0 <= j < s.len() && i != j implies (#[trigger] s[i]).juror
                != (#[trigger] s[j]).juror by {
                if i < old_len && j < old_len {
                } else if i < old_len {
                    assert(s[j].juror == juror);
                    assert(!ledger.has_commitment(juror));
                } else {
                    assert(s[i].juror == juror);
                    assert(!ledger.has_commitment(juror));
                }
            }
            assert forall|i: int, j: int|
                0 <= i < s.len() && 0 <= j < s.len() && i != j implies (#[trigger] s[i]).nullifier@
                != (#[trigger] s[j]).nullifier@ by {
                if i < old_len && j < old_len {
                } else if i < old_len {
                    assert(s[j].nullifier@ == nullifier@);
                    assert(!ledger.nullifier_used(nullifier@));
                } else {
                    assert(s[i].nullifier@ == nullifier@);
                    assert(!ledger.nullifier_used(nullifier@));
                }
            }
        },
        Err(_) => {},
    }
}

/// Step relation of [`VoteLedger::reveal_vote`]. A reveal that passes the
/// binding check counts the vote through the same quorum logic as the
/// public path and marks the commitment spent.
pub open spec fn reveal_step(
    case: CaseModel,
    quorum: u8,
    ledger: LedgerModel,
    juror: Address,
    vote: bool,
    salt: [u8; 32],
) -> Result<(CaseModel, LedgerModel, bool), ErrorCode> {
    if ledger.case_id != case.case_id {
        Err(ErrorCode::InvalidCase)
    } else if !ledger.has_commitment(juror) {
        Err(ErrorCode::InvalidReveal)
    } else {
        let i = ledger.commitment_index(juror);
        let stored = ledger.commitments[i];
        if stored.revealed {
            Err(ErrorCode::AlreadyVoted)
        } else if commitment_of(vote, salt@) != stored.commitment@ {
            Err(ErrorCode::InvalidReveal)
        } else {
            match vote_step(case, quorum, juror, vote) {
                Ok(p) => Ok(
                    (
                        p.0,
                        LedgerModel {
                            commitments: ledger.commitments.update(
                                i,
                                VoteCommitmentAccount { revealed: true, ..stored },
                            ),
                            ..ledger
                        },
                        p.1,
                    ),
                ),
                Err(e) => Err(e),
            }
        }
    }
}

/// A successful reveal preserves the invariants of both the case and the
/// ledger.
pub proof fn lemma_reveal_step_wf(
    case: CaseModel,
    quorum: u8,
    ledger: LedgerModel,
    juror: Address,
    vote: bool,
    salt: [u8; 32],
)
    requires
        case.wf(),
        ledger.wf(),
    ensures
        reveal_step(case, quorum, ledger, juror, vote, salt) matches Ok(p) ==> p.0.wf()
            && p.1.wf(),
{
    if reveal_step(case, quorum, ledger, juror, vote, salt) is Ok {
        lemma_vote_step_wf(case, quorum, juror, vote);
    }
}

} // verus!

verus! {

impl VoteLedger {
    /// The empty ledger of a case.
    pub fn new(case_id: u64) -> (l: VoteLedger)
        ensures
            l@.case_id == case_id,
            l@.commitments == Seq::<VoteCommitmentAccount>::empty(),
            l@.wf(),
    {
        VoteLedger { case_id, commitments: Vec::new() }
    }

    fn find_juror(&self, juror: &Address) -> (r: Option<usize>)
        ensures
            match r {
                Some(i) => i < self@.commitments.len() && self@.commitments[i as int].juror
                    == *juror,
                None => !self@.has_commitment(*juror),
            },
    {
        let mut i: usize = 0;
        while i < self.commitments.len()
            invariant
                i <= self@.commitments.len(),
                forall|j: int| 0 <= j < i ==> (#[trigger] self@.commitments[j]).juror != *juror,
            decreases self@.commitments.len() - i,
        {
            if bytes32_eq(&self.commitments[i].juror, juror) {
                assert(self@.commitments[i as int].juror =~= *juror);
                return Some(i);
            }
            i = i + 1;
        }
        None
    }

    fn nullifier_in_use(&self, nullifier: &[u8; 32]) -> (r: bool)
        ensures
            r <==> self@.nullifier_used(nullifier@),
    {
        let mut i: usize = 0;
        while i < self.commitments.len()
            invariant
                i <= self@.commitments.len(),
                forall|j: int|
                    0 <= j < i ==> (#[trigger] self@.commitments[j]).nullifier@ != nullifier@,
            decreases self@.commitments.len() - i,
        {
            if bytes32_eq(&self.commitments[i].nullifier, nullifier) {
                return true;
            }
            i = i + 1;
        }
        false
    }

    /// Store a hidden vote for a juror of the case: the proof envelope
    /// must claim a vote commitment, the nullifier must be correctly
    /// derived and fresh, and the juror must not have committed before.
    /// Tallies are untouched until reveal.
    pub fn commit_vote(
        &mut self,
        case: &CaseAccount,
        juror: Address,
        commitment: [u8; 32],
        nullifier: [u8; 32],
        zk_proof: &ZkProof,
        now: i64,
    ) -> (r: Result<(), ErrorCode>)
        ensures
            old(self)@.wf() ==> final(self)@.wf(),
            r matches Ok(()) ==> commit_step(
                case@,
                old(self)@,
                juror,
                commitment,
                nullifier,
                zk_proof.proof_type,
                now,
            ) == Ok::<LedgerModel, ErrorCode>(final(self)@),
            r matches Err(e) ==> final(self)@ == old(self)@ && commit_step(
                case@,
                old(self)@,
                juror,
                commitment,
                nullifier,
                zk_proof.proof_type,
                now,
            ) == Err::<LedgerModel, ErrorCode>(e),
    {
        if self.case_id != case.case_id {
            return Err(ErrorCode::InvalidCase);
        }
        if !matches!(case.state, CaseState::Voting) {
            return Err(ErrorCode::CaseNotVoting);
        }
        if !matches!(zk_proof.proof_type, ZkProofType::VoteCommitment) {
            return Err(ErrorCode::InvalidProofType);
        }
        let proof_ok = match zk_proof.verify() {
            Ok(b) => b,
            Err(e) => {
                return Err(e);
            },
        };
        if !proof_ok {
            return Err(ErrorCode::InvalidZkProof);
        }
        let expected = VoteCommitment::compute_nullifier(case.case_id, &commitment);
        if !bytes32_eq(&nullifier, &expected) {
            return Err(ErrorCode::InvalidZkProof);
        }
        if !crate::types::contains_address(&case.jurors, &juror) {
            return Err(ErrorCode::NotJuror);
        }
        if self.find_juror(&juror).is_some() {
            return Err(ErrorCode::AlreadyVoted);
        }
        if self.nullifier_in_use(&nullifier) {
            return Err(ErrorCode::NullifierAlreadyUsed);
        }
        self.commitments.push(
            VoteCommitmentAccount {
                juror,
                case_id: self.case_id,
                commitment,
                nullifier,
                timestamp: now,
                revealed: false,
            },
        );
        proof {
            if old(self)@.wf() {
                lemma_commit_step_wf(
                    case@,
                    old(self)@,
                    juror,
                    commitment,
                    nullifier,
                    zk_proof.proof_type,
                    now,
                );
            }
        }
        Ok(())
    }

    /// Open a hidden vote: recompute the commitment from the claimed
    /// vote and salt, demand it match the stored one, then count the vote
    /// through the same quorum logic as the public path and spend the
    /// commitment. The returned flag is the freeze signal.
    pub fn reveal_vote(
        &mut self,
        case: &mut CaseAccount,
        config: &GlobalConfig,
        juror: Address,
        vote: bool,
        salt: [u8; 32],
    ) -> (r: Result<bool, ErrorCode>)
        requires
            old(case)@.wf(),
            old(self)@.wf(),
        ensures
            final(case)@.wf(),
            final(self)@.wf(),
            r matches Ok(freeze) ==> reveal_step(
                old(case)@,
                config@.quorum,
                old(self)@,
                juror,
                vote,
                salt,
            ) == Ok::<(CaseModel, LedgerModel, bool), ErrorCode>(
                (final(case)@, final(self)@, freeze),
            ),
            r matches Err(e) ==> final(case)@ == old(case)@ && final(self)@ == old(self)@
                && reveal_step(old(case)@, config@.quorum, old(self)@, juror, vote, salt)
                == Err::<(CaseModel, LedgerModel, bool), ErrorCode>(e),
    {
        if self.case_id != case.case_id {
            return Err(ErrorCode::InvalidCase);
        }
        let i: usize = match self.find_juror(&juror) {
            None => {
                return Err(ErrorCode::InvalidReveal);
            },
            Some(i) => i,
        };
        proof {
            lemma_index_unique(self@, juror, i as int);
        }
        let stored: VoteCommitmentAccount = self.commitments[i];
        if stored.revealed {
            return Err(ErrorCode::AlreadyVoted);
        }
        let expected = VoteCommitment::compute_commitment(vote, &salt);
        if !bytes32_eq(&expected, &stored.commitment) {
            return Err(ErrorCode::InvalidReveal);
        }
        let freeze = match case.vote(config, juror, vote) {
            Err(e) => {
                return Err(e);
            },
            Ok(f) => f,
        };
        self.commitments.set(i, VoteCommitmentAccount { revealed: true, ..stored });
        proof {
            lemma_reveal_step_wf(old(case)@, config@.quorum, old(self)@, juror, vote, salt);
        }
        Ok(freeze)
    }
}

/// Reveal binding: for a juror holding an unspent commitment on a case
/// open for voting, the reveal succeeds exactly when the hash of the
/// claimed vote and salt equals the stored commitment, and any other
/// pair fails with `InvalidReveal`.
pub proof fn lemma_reveal_binding(
    case: CaseModel,
    quorum: u8,
    ledger: LedgerModel,
    juror: Address,
    vote: bool,
    salt: [u8; 32],
)
    requires
        case.wf(),
        ledger.wf(),
        ledger.case_id == case.case_id,
        ledger.has_commitment(juror),
        !ledger.commitments[ledger.commitment_index(juror)].revealed,
        case.state == CaseState::Voting,
        case.jurors.contains(juror),
        !case.voted.contains(juror),
    ensures
        reveal_step(case, quorum, ledger, juror, vote, salt) is Ok <==> commitment_of(vote, salt@)
            == ledger.commitments[ledger.commitment_index(juror)].commitment@,
        commitment_of(vote, salt@) != ledger.commitments[ledger.commitment_index(
            juror,
        )].commitment@ ==> reveal_step(case, quorum, ledger, juror, vote, salt) == Err::<
            (CaseModel, LedgerModel, bool),
            ErrorCode,
        >(ErrorCode::InvalidReveal),
{
}

/// No double voting on the private path, commit side: once a juror's
/// commitment is stored, any further commit by that juror fails.
pub proof fn lemma_no_double_commit(
    case: CaseModel,
    case2: CaseModel,
    ledger: LedgerModel,
    juror: Address,
    commitment: Digest32,
    nullifier: Digest32,
    proof_type: ZkProofType,
    now: i64,
    commitment2: Digest32,
    nullifier2: Digest32,
    proof_type2: ZkProofType,
    now2: i64,
)
    ensures
        commit_step(case, ledger, juror, commitment, nullifier, proof_type, now) matches Ok(l2)
            ==> commit_step(case2, l2, juror, commitment2, nullifier2, proof_type2, now2) is Err,
{
    match commit_step(case, ledger, juror, commitment, nullifier, proof_type, now) {
        Ok(l2) => {
            let n = ledger.commitments.len() as int;
            assert(l2.commitments[n].juror == juror);
            assert(l2.has_commitment(juror));
        },
        Err(_) => {},
    }
}

/// No double voting on the private path, reveal side: a spent commitment
/// cannot be revealed again, and the juror it belongs to cannot vote
/// again on the resulting case either.
pub proof fn lemma_no_double_reveal(
    case: CaseModel,
    quorum: u8,
    ledger: LedgerModel,
    juror: Address,
    vote: bool,
    salt: [u8; 32],
    vote2: bool,
    salt2: [u8; 32],
)
    requires
        case.wf(),
        ledger.wf(),
    ensures
        reveal_step(case, quorum, ledger, juror, vote, salt) matches Ok(p) ==> reveal_step(
            p.0,
            quorum,
            p.1,
            juror,
            vote2,
            salt2,
        ) is Err,
        reveal_step(case, quorum, ledger, juror, vote, salt) matches Ok(p) ==> vote_step(
            p.0,
            quorum,
            juror,
            vote2,
        ) is Err,
{
    match reveal_step(case, quorum, ledger, juror, vote, salt) {
        Ok(p) => {
            let i = ledger.commitment_index(juror);
            lemma_reveal_step_wf(case, quorum, ledger, juror, vote, salt);
            assert(p.1.commitments[i].juror == juror);
            assert(p.1.commitments[i].revealed);
            lemma_index_unique(p.1, juror, i);
            crate::lifecycle::lemma_no_double_vote(case, quorum, juror, vote, vote2);
        },
        Err(_) => {},
    }
}

/// A closed or frozen case accepts neither commits nor reveals.
pub proof fn lemma_terminal_no_private_vote(
    case: CaseModel,
    quorum: u8,
    ledger: LedgerModel,
    juror: Address,
    commitment: Digest32,
    nullifier: Digest32,
    proof_type: ZkProofType,
    now: i64,
    vote: bool,
    salt: [u8; 32],
)
    requires
        case.wf(),
        case.status != CaseStatus::Open,
    ensures
        commit_step(case, ledger, juror, commitment, nullifier, proof_type, now) is Err,
        reveal_step(case, quorum, ledger, juror, vote, salt) is Err,
{
}

} // verus!
