//! The threshold decryption aggregator: MPC key-share collection and
//! partial-decryption aggregation with a write-once final result.
//!
//! The homomorphic combination itself belongs to the external MPC
//! service; this module's contracts are about when shares and partial
//! decryptions are accepted and that the result, once frozen, never
//! changes.

use vstd::bytes::{spec_u64_to_le_bytes, u64_to_le_bytes};
use vstd::prelude::*;
use crate::errors::ErrorCode;
use crate::sha256::{sha256_of, sha256_triple};
use crate::types::{bytes32_eq, Address, Digest32};

verus! {

/// Hard cap on jurors in one MPC group; bounds storage and recombination
/// cost.
pub const MAX_MPC_JURORS: u8 = 20;

/// Progress of one MPC session.
#[derive(Clone, Copy, Debug, PartialEq, Eq, Structural)]
pub enum MpcState {
    Initialized,
    CollectingShares,
    ThresholdReached,
    ComputationComplete,
}

/// The domain-separation tag of MPC computation identifiers.
pub open spec fn mpc_tag() -> Seq<u8> {
    // "arcium_mpc"
    seq![97u8, 114u8, 99u8, 105u8, 117u8, 109u8, 95u8, 109u8, 112u8, 99u8]
}

/// The computation identifier of a session opened for a case at a time.
pub open spec fn computation_id_of(case_id: u64, now: i64) -> Seq<u8> {
    sha256_of(mpc_tag() + spec_u64_to_le_bytes(case_id) + spec_u64_to_le_bytes(now as u64))
}

/// One case's MPC session configuration.
#[verifier::ext_equal]
pub struct MpcConfig {
    pub case_id: u64,
    pub threshold: u8,
    pub total_jurors: u8,
    pub current_shares: u8,
    pub computation_id: Digest32,
    pub state: MpcState,
}

/// One juror's MPC key share.
#[verifier::ext_equal]
pub struct MpcKeyShare {
    pub juror: Address,
    pub case_id: u64,
    pub share_index: u8,
    pub public_share: Digest32,
    pub share_commitment: Digest32,
    pub verified: bool,
    pub timestamp: i64,
}

impl MpcKeyShare {
    /// Record that this share's commitment checked out against the
    /// external verifier.
    pub fn mark_verified(&mut self)
        ensures
            *final(self) == (MpcKeyShare { verified: true, ..*old(self) }),
    {
        self.verified = true;
    }
}

/// Open an MPC session for a case: the threshold must be positive, at
/// most the group size, and the group within the hard cap.
pub fn init_mpc(case_id: u64, threshold: u8, total_jurors: u8, now: i64) -> (r: Result<
    MpcConfig,
    ErrorCode,
>)
    ensures
        r is Ok <==> 0 < threshold <= total_jurors <= MAX_MPC_JURORS,
        r matches Ok(c) ==> {
            &&& c.case_id == case_id
            &&& c.threshold == threshold
            &&& c.total_jurors == total_jurors
            &&& c.current_shares == 0
            &&& c.computation_id@ == computation_id_of(case_id, now)
            &&& c.state == MpcState::Initialized
        },
        !(0 < threshold <= total_jurors) ==> r == Err::<MpcConfig, ErrorCode>(
            ErrorCode::InvalidThreshold,
        ),
        0 < threshold <= total_jurors && total_jurors > MAX_MPC_JURORS ==> r == Err::<
            MpcConfig,
            ErrorCode,
        >(ErrorCode::TooManyJurors),
{
    if threshold == 0 || threshold > total_jurors {
        return Err(ErrorCode::InvalidThreshold);
    }
    if total_jurors > MAX_MPC_JURORS {
        return Err(ErrorCode::TooManyJurors);
    }
    let computation_id = generate_computation_id(case_id, now);
    Ok(
        MpcConfig {
            case_id,
            threshold,
            total_jurors,
            current_shares: 0,
            computation_id,
            state: MpcState::Initialized,
        },
    )
}

fn generate_computation_id(case_id: u64, now: i64) -> (r: Digest32)
    ensures
        r@ == computation_id_of(case_id, now),
{
    let tag: [u8; 10] = [97u8, 114u8, 99u8, 105u8, 117u8, 109u8, 95u8, 109u8, 112u8, 99u8];
    let id_bytes = u64_to_le_bytes(case_id);
    #[verifier::truncate]
    let now_u64: u64 = now as u64;
    let now_bytes = u64_to_le_bytes(now_u64);
    let r = sha256_triple(tag.as_slice(), id_bytes.as_slice(), now_bytes.as_slice());
    assert(tag@ =~= mpc_tag());
    r
}

/// Step relation of [`submit_share`]. On success it returns the advanced
/// session and the stored share record.
pub open spec fn submit_share_step(
    pre: MpcConfig,
    juror: Address,
    public_share: Digest32,
    share_commitment: Digest32,
    now: i64,
) -> Result<(MpcConfig, MpcKeyShare), ErrorCode> {
    if pre.current_shares >= pre.total_jurors {
        Err(ErrorCode::AllSharesSubmitted)
    } else {
        let share = MpcKeyShare {
            juror,
            case_id: pre.case_id,
            share_index: pre.current_shares,
            public_share,
            share_commitment,
            verified: false,
            timestamp: now,
        };
        let next = MpcConfig {
            current_shares: (pre.current_shares + 1) as u8,
            state: if pre.current_shares + 1 >= pre.threshold {
                MpcState::ThresholdReached
            } else {
                MpcState::CollectingShares
            },
            ..pre
        };
        Ok((next, share))
    }
}

/// Accept one juror's key share into the session, advancing its state to
/// `ThresholdReached` once enough shares arrived.
pub fn submit_share(
    config: &mut MpcConfig,
    juror: Address,
    public_share: Digest32,
    share_commitment: Digest32,
    now: i64,
) -> (r: Result<MpcKeyShare, ErrorCode>)
    ensures
        r matches Ok(share) ==> submit_share_step(
            *old(config),
            juror,
            public_share,
            share_commitment,
            now,
        ) == Ok::<(MpcConfig, MpcKeyShare), ErrorCode>((*final(config), share)),
        r matches Err(e) ==> *final(config) == *old(config) && submit_share_step(
            *old(config),
            juror,
            public_share,
            share_commitment,
            now,
        ) == Err::<(MpcConfig, MpcKeyShare), ErrorCode>(e),
{
    if config.current_shares >= config.total_jurors {
        return Err(ErrorCode::AllSharesSubmitted);
    }
    let share = MpcKeyShare {
        juror,
        case_id: config.case_id,
        share_index: config.current_shares,
        public_share,
        share_commitment,
        verified: false,
        timestamp: now,
    };
    config.current_shares = config.current_shares + 1;
    config.state = if config.current_shares >= config.threshold {
        MpcState::ThresholdReached
    } else {
        MpcState::CollectingShares
    };
    Ok(share)
}

/// One juror's partial decryption of the aggregate tally.
#[verifier::ext_equal]
pub struct PartialDecryption {
    pub juror: Address,
    pub decryption_share: Digest32,
    pub proof_bytes: [u8; 64],
}

/// A decrypted tally as the MPC service reports it.
#[derive(Clone, Copy)]
#[verifier::ext_equal]
pub struct VoteResult {
    pub votes_for: u64,
    pub votes_against: u64,
    pub total_votes: u64,
    pub verified: bool,
}

/// A case's aggregation record: the encrypted tally, the partial
/// decryptions received, and the write-once final result.
pub struct MpcVoteAggregation {
    pub case_id: u64,
    pub encrypted_tally: Vec<u8>,
    pub partial_decryptions: Vec<PartialDecryption>,
    pub final_result: Option<VoteResult>,
    pub computation_complete: bool,
}

/// Mathematical view of [`MpcVoteAggregation`].
#[verifier::ext_equal]
pub struct AggregationModel {
    pub case_id: u64,
    pub encrypted_tally: Seq<u8>,
    pub partial_decryptions: Seq<PartialDecryption>,
    pub final_result: Option<VoteResult>,
    pub computation_complete: bool,
}

impl View for MpcVoteAggregation {
    type V = AggregationModel;

    open spec fn view(&self) -> AggregationModel {
        AggregationModel {
            case_id: self.case_id,
            encrypted_tally: self.encrypted_tally@,
            partial_decryptions: self.partial_decryptions@,
            final_result: self.final_result,
            computation_complete: self.computation_complete,
        }
    }
}

impl AggregationModel {
    /// Each juror holds at most one partial decryption.
    pub open spec fn wf(self) -> bool {
        forall|i: int, j: int|
            0 <= i < self.partial_decryptions.len() && 0 <= j < self.partial_decryptions.len()
                && i != j ==> (#[trigger] self.partial_decryptions[i]).juror
                != (#[trigger] self.partial_decryptions[j]).juror
    }

    /// Whether this juror already submitted a partial decryption.
    pub open spec fn has_partial(self, juror: Address) -> bool {
        exists|i: int|
            0 <= i < self.partial_decryptions.len() && (#[trigger] self.partial_decryptions[i]).juror
                == juror
    }
}

/// What the external MPC service's combination is held to here: a result
/// accounting for the given partial decryptions, marked verified. The
/// counted tallies come from the service and are not modelled.
pub open spec fn combined_result(partials: Seq<PartialDecryption>) -> VoteResult {
    VoteResult { votes_for: 0, votes_against: 0, total_votes: partials.len() as u64, verified: true }
}

fn combine_partial_decryptions(partials: &Vec<PartialDecryption>) -> (r: VoteResult)
    ensures
        r == combined_result(partials@),
{
    VoteResult {
        votes_for: 0,
        votes_against: 0,
        total_votes: partials.len() as u64,
        verified: true,
    }
}

/// Step relation of [`submit_partial_decryption`].
pub open spec fn submit_partial_step(
    agg: AggregationModel,
    config: MpcConfig,
    share: MpcKeyShare,
    juror: Address,
    decryption_share: Digest32,
    proof_bytes: [u8; 64],
) -> Result<AggregationModel, ErrorCode> {
    if !share.verified {
        Err(ErrorCode::ShareNotVerified)
    } else if config.state != MpcState::ThresholdReached {
        Err(ErrorCode::ThresholdNotReached)
    } else if agg.computation_complete {
        Err(ErrorCode::ComputationComplete)
    } else if agg.has_partial(juror) {
        Err(ErrorCode::AlreadyVoted)
    } else {
        let pds = agg.partial_decryptions.push(
            PartialDecryption { juror, decryption_share, proof_bytes },
        );
        if pds.len() >= config.threshold {
            Ok(
                AggregationModel {
                    partial_decryptions: pds,
                    final_result: Some(combined_result(pds)),
                    computation_complete: true,
                    ..agg
                },
            )
        } else {
            Ok(AggregationModel { partial_decryptions: pds, ..agg })
        }
    }
}

/// Accept one juror's partial decryption once their share is verified
/// and the session reached its threshold; when enough partials are in,
/// combine them and freeze the result for good.
#[verifier::loop_isolation(false)]
pub fn submit_partial_decryption(
    agg: &mut MpcVoteAggregation,
    config: &MpcConfig,
    share: &MpcKeyShare,
    juror: Address,
    decryption_share: Digest32,
    proof_bytes: [u8; 64],
) -> (r: Result<(), ErrorCode>)
    requires
        old(agg)@.wf(),
    ensures
        final(agg)@.wf(),
        r matches Ok(()) ==> submit_partial_step(
            old(agg)@,
            *config,
            *share,
            juror,
            decryption_share,
            proof_bytes,
        ) == Ok::<AggregationModel, ErrorCode>(final(agg)@),
        r matches Err(e) ==> final(agg)@ == old(agg)@ && submit_partial_step(
            old(agg)@,
            *config,
            *share,
            juror,
            decryption_share,
            proof_bytes,
        ) == Err::<AggregationModel, ErrorCode>(e),
{
    if !share.verified {
        return Err(ErrorCode::ShareNotVerified);
    }
    if !matches!(config.state, MpcState::ThresholdReached) {
        return Err(ErrorCode::ThresholdNotReached);
    }
    if agg.computation_complete {
        return Err(ErrorCode::ComputationComplete);
    }
    let mut i: usize = 0;
    while i < agg.partial_decryptions.len()
        invariant
            i <= agg@.partial_decryptions.len(),
            forall|j: int|
                0 <= j < i ==> (#[trigger] agg@.partial_decryptions[j]).juror != juror,
        decreases agg@.partial_decryptions.len() - i,
    {
        if bytes32_eq(&agg.partial_decryptions[i].juror, &juror) {
            assert(agg@.partial_decryptions[i as int].juror =~= juror);
            assert(agg@.has_partial(juror));
            return Err(ErrorCode::AlreadyVoted);
        }
        i = i + 1;
    }
    agg.partial_decryptions.push(PartialDecryption { juror, decryption_share, proof_bytes });
    proof {
        let s = agg@.partial_decryptions;
        let n = old(agg)@.partial_decryptions.len() as int;
        assert forall|a: int, b: int|
            0 <= a < s.len() && 0 <= b < s.len() && a != b implies (#[trigger] s[a]).juror
            != (#[trigger] s[b]).juror by {
            if a < n && b < n {
            } else if a < n {
                assert(s[b].juror == juror && s[a] == old(agg)@.partial_decryptions[a]);
            } else {
                assert(s[a].juror == juror && s[b] == old(agg)@.partial_decryptions[b]);
            }
        }
    }
    if agg.partial_decryptions.len() >= config.threshold as usize {
        let result = combine_partial_decryptions(&agg.partial_decryptions);
        agg.final_result = Some(result);
        agg.computation_complete = true;
    }
    Ok(())
}

/// The final result is write-once: a completed aggregation accepts no
/// further partial decryptions, so the stored result never changes.
pub proof fn lemma_mpc_result_immutable(
    agg: AggregationModel,
    config: MpcConfig,
    share: MpcKeyShare,
    juror: Address,
    decryption_share: Digest32,
    proof_bytes: [u8; 64],
)
    requires
        agg.computation_complete,
    ensures
        submit_partial_step(agg, config, share, juror, decryption_share, proof_bytes) is Err,
{
}

/// A result is only ever frozen with at least `threshold` partial
/// decryptions accounted for, and it is frozen as soon as they are.
pub proof fn lemma_threshold_gates_result(
    agg: AggregationModel,
    config: MpcConfig,
    share: MpcKeyShare,
    juror: Address,
    decryption_share: Digest32,
    proof_bytes: [u8; 64],
)
    requires
        agg.wf(),
        agg.final_result is None,
        !agg.computation_complete,
    ensures
        submit_partial_step(agg, config, share, juror, decryption_share, proof_bytes) matches Ok(
            post,
        ) ==> {
            &&& (post.final_result is Some <==> post.partial_decryptions.len()
                >= config.threshold)
            &&& (post.final_result is Some <==> post.computation_complete)
            &&& (post.final_result matches Some(vr) ==> vr == combined_result(
                post.partial_decryptions,
            ))
        },
{
}

} // verus!
