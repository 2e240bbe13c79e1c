//! Data model of the consensus core: the validator registry and the case
//! record, together with their mathematical views and well-formedness.

use vstd::prelude::*;
use vstd::seq_lib::*;
use vstd::set_lib::lemma_len_subset;
use crate::types::Address;

verus! {

/// Lifecycle of a case as a resource: open for work, closed by a decision,
/// or frozen after an approved decision triggered the freeze path.
#[derive(Clone, Copy, Debug, PartialEq, Eq, Structural)]
pub enum CaseStatus {
    Open,
    Closed,
    Frozen,
}

/// Voting phase of a case. It only ever advances, in this order.
#[derive(Clone, Copy, Debug, PartialEq, Eq, Structural)]
pub enum CaseState {
    PendingJurors,
    Voting,
    Approved,
    Rejected,
    Executed,
}

/// The validator registry: the admin-curated pool of eligible jurors,
/// with the deployment's quorum and juror-count parameters.
pub struct GlobalConfig {
    pub admin: Address,
    pub validator_list: Vec<Address>,
    pub quorum: u8,
    pub min_jurors: u8,
}

/// Mathematical view of [`GlobalConfig`].
#[verifier::ext_equal]
pub struct ConfigModel {
    pub admin: Address,
    pub validators: Seq<Address>,
    pub quorum: u8,
    pub min_jurors: u8,
}

impl View for GlobalConfig {
    type V = ConfigModel;

    open spec fn view(&self) -> ConfigModel {
        ConfigModel {
            admin: self.admin,
            validators: self.validator_list@,
            quorum: self.quorum,
            min_jurors: self.min_jurors,
        }
    }
}

impl ConfigModel {
    /// The registry holds a set: no validator is listed twice.
    pub open spec fn wf(self) -> bool {
        self.validators.no_duplicates()
    }
}

/// One reported case: the accused address, its evidence reference, the
/// selected jurors and the running tally.
pub struct CaseAccount {
    pub case_id: u64,
    pub scam_address: Address,
    pub evidence: Vec<u8>,
    pub jurors: Vec<Address>,
    pub juror_candidates: Vec<Address>,
    pub votes_for: u64,
    pub votes_against: u64,
    pub voted_jurors: Vec<Address>,
    pub status: CaseStatus,
    pub state: CaseState,
    pub vrf_request: Option<Address>,
}

/// Mathematical view of [`CaseAccount`].
#[verifier::ext_equal]
pub struct CaseModel {
    pub case_id: u64,
    pub scam_address: Address,
    pub evidence: Seq<u8>,
    pub jurors: Seq<Address>,
    pub juror_candidates: Seq<Address>,
    pub votes_for: u64,
    pub votes_against: u64,
    pub voted: Seq<Address>,
    pub status: CaseStatus,
    pub state: CaseState,
    pub vrf_request: Option<Address>,
}

impl View for CaseAccount {
    type V = CaseModel;

    open spec fn view(&self) -> CaseModel {
        CaseModel {
            case_id: self.case_id,
            scam_address: self.scam_address,
            evidence: self.evidence@,
            jurors: self.jurors@,
            juror_candidates: self.juror_candidates@,
            votes_for: self.votes_for,
            votes_against: self.votes_against,
            voted: self.voted_jurors@,
            status: self.status,
            state: self.state,
            vrf_request: self.vrf_request,
        }
    }
}

impl CaseModel {
    /// Invariants that hold of a case at every observable boundary:
    /// jurors are distinct, only jurors vote and each at most once, the
    /// counters tally the voters, and status and phase agree.
    pub open spec fn wf(self) -> bool {
        &&& self.jurors.no_duplicates()
        &&& self.voted.no_duplicates()
        &&& (forall|i: int|
            0 <= i < self.voted.len() ==> self.jurors.contains(#[trigger] self.voted[i]))
        &&& (forall|i: int|
            0 <= i < self.jurors.len() ==> self.juror_candidates.contains(
                #[trigger] self.jurors[i],
            ))
        &&& self.votes_for + self.votes_against == self.voted.len()
        &&& self.voted.len() <= self.jurors.len()
        &&& self.jurors.len() <= u64::MAX
        &&& (self.status == CaseStatus::Open <==> (self.state == CaseState::PendingJurors
            || self.state == CaseState::Voting))
        &&& (self.status == CaseStatus::Frozen ==> self.state == CaseState::Approved)
        &&& (self.state == CaseState::PendingJurors ==> self.jurors.len() == 0
            && self.voted.len() == 0)
    }
}

/// A distinct sequence drawn from another sequence is no longer than it.
pub proof fn lemma_distinct_subset_len<A>(sub: Seq<A>, sup: Seq<A>)
    requires
        sub.no_duplicates(),
        forall|i: int| 0 <= i < sub.len() ==> sup.contains(#[trigger] sub[i]),
    ensures
        sub.len() <= sup.len(),
{
    broadcast use seq_to_set_is_finite;

    sub.unique_seq_to_set();
    sup.lemma_cardinality_of_set();
    assert forall|a: A| sub.to_set().contains(a) implies sup.to_set().contains(a) by {
        let i = choose|i: int| 0 <= i < sub.len() && sub[i] == a;
        assert(sup.contains(sub[i]));
    }
    lemma_len_subset(sub.to_set(), sup.to_set());
}

/// Pushing an element a distinct sequence lacks keeps it distinct.
pub proof fn lemma_push_distinct<A>(s: Seq<A>, a: A)
    requires
        s.no_duplicates(),
        !s.contains(a),
    ensures
        s.push(a).no_duplicates(),
{
    let t = s.push(a);
    assert forall|i: int, j: int|
        0 <= i < t.len() && 0 <= j < t.len() && i != j implies t[i] != t[j] by {
        if i < s.len() && j < s.len() {
            assert(t[i] == s[i] && t[j] == s[j]);
        } else if i < s.len() {
            assert(t[j] == a && t[i] == s[i]);
            assert(s.contains(s[i]));
        } else {
            assert(t[i] == a && t[j] == s[j]);
            assert(s.contains(s[j]));
        }
    }
}

/// The public record of one cast vote, as handed to downstream consumers.
pub struct VoteRecord {
    pub juror: Address,
    pub case_id: u64,
    pub approved: bool,
    pub timestamp: i64,
}

} // verus!
