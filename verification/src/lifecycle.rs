//! The case state machine: registry management, case creation, the
//! randomness request, the public vote path and its quorum rules.
//!
//! Each operation is specified by a spec-level step function over the
//! mathematical models; the executable methods are proved to implement
//! those steps exactly, and the laws of the machine are proved of the
//! steps themselves.

use vstd::prelude::*;
use crate::errors::ErrorCode;
use crate::state::{CaseAccount, CaseModel, CaseState, CaseStatus, ConfigModel, GlobalConfig};
use crate::state::{lemma_distinct_subset_len, lemma_push_distinct};
use crate::types::{contains_address, Address};

verus! {

/// Largest evidence payload a case record accepts, in bytes.
pub const MAX_EVIDENCE_LEN: usize = 1024;

impl GlobalConfig {
    /// Create the one registry of a deployment, with an empty validator
    /// pool.
    pub fn initialize(admin: Address, quorum: u8, min_jurors: u8) -> (c: GlobalConfig)
        ensures
            c@ == (ConfigModel { admin, validators: Seq::<Address>::empty(), quorum, min_jurors }),
            c@.wf(),
    {
        GlobalConfig { admin, validator_list: Vec::new(), quorum, min_jurors }
    }

    /// Replace the validator pool atomically. Only the admin may do so;
    /// the pool may shrink below an in-flight case's needs, which is
    /// checked lazily at selection time.
    pub fn set_validators(&mut self, caller: Address, validators: Vec<Address>) -> (r: Result<
        (),
        ErrorCode,
    >)
        requires
            validators@.no_duplicates(),
        ensures
            r is Ok <==> caller == old(self)@.admin,
            r is Ok ==> final(self)@ == (ConfigModel { validators: validators@, ..old(self)@ }),
            r is Err ==> final(self)@ == old(self)@ && r == Err::<(), ErrorCode>(
                ErrorCode::Unauthorized,
            ),
            r is Ok ==> final(self)@.wf(),
            old(self)@.wf() ==> final(self)@.wf(),
    {
        if !crate::types::bytes32_eq(&caller, &self.admin) {
            return Err(ErrorCode::Unauthorized);
        }
        assert(caller =~= self@.admin);
        self.validator_list = validators;
        Ok(())
    }
}

/// The case a freshly submitted report creates: open, awaiting jurors,
/// with empty juror and vote records.
pub open spec fn new_case(case_id: u64, scam_address: Address, evidence: Seq<u8>) -> CaseModel {
    CaseModel {
        case_id,
        scam_address,
        evidence,
        jurors: Seq::empty(),
        juror_candidates: Seq::empty(),
        votes_for: 0,
        votes_against: 0,
        voted: Seq::empty(),
        status: CaseStatus::Open,
        state: CaseState::PendingJurors,
        vrf_request: None,
    }
}

/// Step relation of [`CaseAccount::request_randomness`].
pub open spec fn request_step(pre: CaseModel, case_id: u64, oracle: Address) -> Result<
    CaseModel,
    ErrorCode,
> {
    if pre.case_id != case_id {
        Err(ErrorCode::InvalidCase)
    } else if pre.status != CaseStatus::Open {
        Err(ErrorCode::CaseNotOpen)
    } else if pre.state != CaseState::PendingJurors {
        Err(ErrorCode::InvalidCase)
    } else {
        Ok(CaseModel { vrf_request: Some(oracle), ..pre })
    }
}

/// Step relation of [`CaseAccount::vote`]. On success it returns the new
/// case together with the freeze signal owed to the freeze service.
pub open spec fn vote_step(pre: CaseModel, quorum: u8, juror: Address, approve: bool) -> Result<
    (CaseModel, bool),
    ErrorCode,
> {
    if pre.state != CaseState::Voting {
        Err(ErrorCode::CaseNotVoting)
    } else if !pre.jurors.contains(juror) {
        Err(ErrorCode::NotJuror)
    } else if pre.voted.contains(juror) {
        Err(ErrorCode::AlreadyVoted)
    } else {
        let counted = CaseModel {
            votes_for: if approve {
                (pre.votes_for + 1) as u64
            } else {
                pre.votes_for
            },
            votes_against: if approve {
                pre.votes_against
            } else {
                (pre.votes_against + 1) as u64
            },
            voted: pre.voted.push(juror),
            ..pre
        };
        if counted.votes_for >= quorum {
            Ok((CaseModel { state: CaseState::Approved, status: CaseStatus::Frozen, ..counted }, true))
        } else if counted.votes_for + counted.votes_against >= counted.jurors.len() {
            if counted.votes_for > counted.votes_against {
                Ok((CaseModel { state: CaseState::Approved, status: CaseStatus::Closed, ..counted }, false))
            } else {
                Ok((CaseModel { state: CaseState::Rejected, status: CaseStatus::Closed, ..counted }, false))
            }
        } else {
            Ok((counted, false))
        }
    }
}

impl CaseAccount {
    /// File a report: create a case over the accused address, holding the
    /// evidence reference, open and awaiting juror selection.
    pub fn submit_case(case_id: u64, scam_address: Address, evidence: Vec<u8>) -> (r: Result<
        CaseAccount,
        ErrorCode,
    >)
        ensures
            r is Ok <==> evidence@.len() <= MAX_EVIDENCE_LEN,
            r matches Ok(c) ==> c@ == new_case(case_id, scam_address, evidence@) && c@.wf(),
            r is Err ==> r == Err::<CaseAccount, ErrorCode>(ErrorCode::EvidenceTooLarge),
    {
        if evidence.len() > MAX_EVIDENCE_LEN {
            return Err(ErrorCode::EvidenceTooLarge);
        }
        let c = CaseAccount {
            case_id,
            scam_address,
            evidence,
            jurors: Vec::new(),
            juror_candidates: Vec::new(),
            votes_for: 0,
            votes_against: 0,
            voted_jurors: Vec::new(),
            status: CaseStatus::Open,
            state: CaseState::PendingJurors,
            vrf_request: None,
        };
        Ok(c)
    }

    /// Record which oracle account will supply the selection entropy.
    /// Callable, and re-callable, only while the case still awaits jurors.
    pub fn request_randomness(&mut self, case_id: u64, oracle: Address) -> (r: Result<
        (),
        ErrorCode,
    >)
        ensures
            r matches Ok(()) ==> request_step(old(self)@, case_id, oracle) == Ok::<_, ErrorCode>(
                final(self)@,
            ),
            r matches Err(e) ==> final(self)@ == old(self)@ && request_step(
                old(self)@,
                case_id,
                oracle,
            ) == Err::<CaseModel, ErrorCode>(e),
            old(self)@.wf() ==> final(self)@.wf(),
    {
        if self.case_id != case_id {
            return Err(ErrorCode::InvalidCase);
        }
        if !matches!(self.status, CaseStatus::Open) {
            return Err(ErrorCode::CaseNotOpen);
        }
        if !matches!(self.state, CaseState::PendingJurors) {
            return Err(ErrorCode::InvalidCase);
        }
        self.vrf_request = Some(oracle);
        Ok(())
    }

    /// Cast a public vote. On success the returned flag says whether this
    /// vote reached quorum, so that the caller owes the external freeze
    /// action exactly once.
    pub fn vote(&mut self, config: &GlobalConfig, juror: Address, approve: bool) -> (r: Result<
        bool,
        ErrorCode,
    >)
        requires
            old(self)@.wf(),
        ensures
            final(self)@.wf(),
            r matches Ok(freeze) ==> vote_step(old(self)@, config@.quorum, juror, approve)
                == Ok::<_, ErrorCode>((final(self)@, freeze)),
            r matches Err(e) ==> final(self)@ == old(self)@ && vote_step(
                old(self)@,
                config@.quorum,
                juror,
                approve,
            ) == Err::<(CaseModel, bool), ErrorCode>(e),
    {
        if !matches!(self.state, CaseState::Voting) {
            return Err(ErrorCode::CaseNotVoting);
        }
        if !contains_address(&self.jurors, &juror) {
            return Err(ErrorCode::NotJuror);
        }
        if contains_address(&self.voted_jurors, &juror) {
            return Err(ErrorCode::AlreadyVoted);
        }
        proof {
            lemma_vote_room(self@, juror);
        }
        if approve {
            self.votes_for = self.votes_for + 1;
        } else {
            self.votes_against = self.votes_against + 1;
        }
        self.voted_jurors.push(juror);
        proof {
            lemma_vote_step_wf(old(self)@, config@.quorum, juror, approve);
        }
        let quorum: u64 = config.quorum as u64;
        if self.votes_for >= quorum {
            self.state = CaseState::Approved;
            self.status = CaseStatus::Frozen;
            return Ok(true);
        }
        if self.votes_for + self.votes_against >= self.jurors.len() as u64 {
            if self.votes_for > self.votes_against {
                self.state = CaseState::Approved;
            } else {
                self.state = CaseState::Rejected;
            }
            self.status = CaseStatus::Closed;
            return Ok(false);
        }
        Ok(false)
    }
}

/// A juror who may still vote leaves room in the tally: fewer have voted
/// than there are jurors, and the new voter list stays distinct and drawn
/// from the jurors.
pub proof fn lemma_vote_room(pre: CaseModel, juror: Address)
    requires
        pre.wf(),
        pre.jurors.contains(juror),
        !pre.voted.contains(juror),
    ensures
        pre.voted.len() < pre.jurors.len(),
        pre.voted.push(juror).no_duplicates(),
        forall|i: int|
            0 <= i < pre.voted.push(juror).len() ==> pre.jurors.contains(
                #[trigger] pre.voted.push(juror)[i],
            ),
{
    let pushed = pre.voted.push(juror);
    lemma_push_distinct(pre.voted, juror);
    assert forall|i: int| 0 <= i < pushed.len() implies pre.jurors.contains(
        #[trigger] pushed[i],
    ) by {
        if i < pre.voted.len() {
            assert(pushed[i] == pre.voted[i]);
        } else {
            assert(pushed[i] == juror);
        }
    }
    lemma_distinct_subset_len(pushed, pre.jurors);
}

/// A successful vote step preserves every case invariant.
pub proof fn lemma_vote_step_wf(pre: CaseModel, quorum: u8, juror: Address, approve: bool)
    requires
        pre.wf(),
    ensures
        vote_step(pre, quorum, juror, approve) matches Ok(p) ==> p.0.wf(),
{
    if vote_step(pre, quorum, juror, approve) is Ok {
        lemma_vote_room(pre, juror);
    }
}

/// No double voting on the public path: once a juror's vote is counted,
/// any further vote by that juror fails, whatever it says.
pub proof fn lemma_no_double_vote(
    pre: CaseModel,
    quorum: u8,
    juror: Address,
    approve: bool,
    approve2: bool,
)
    requires
        pre.wf(),
    ensures
        vote_step(pre, quorum, juror, approve) matches Ok(p) ==> vote_step(
            p.0,
            quorum,
            juror,
            approve2,
        ) is Err,
{
    match vote_step(pre, quorum, juror, approve) {
        Ok(p) => {
            assert(p.0.voted.contains(juror)) by {
                assert(p.0.voted == pre.voted.push(juror));
                assert(p.0.voted[pre.voted.len() as int] == juror);
            }
        },
        Err(_) => {},
    }
}

/// Quorum soundness of a single vote step: the phase reaches `Approved`
/// exactly when the tally reached quorum or every juror voted and the
/// majority was in favour; it reaches `Rejected` only when every juror
/// voted without quorum and without a majority in favour; and the freeze
/// signal fires exactly when quorum was reached.
pub proof fn lemma_quorum_soundness(pre: CaseModel, quorum: u8, juror: Address, approve: bool)
    requires
        pre.wf(),
    ensures
        vote_step(pre, quorum, juror, approve) matches Ok(p) ==> {
            &&& (p.0.state == CaseState::Approved <==> (p.0.votes_for >= quorum || (
            p.0.votes_for + p.0.votes_against == p.0.jurors.len() && p.0.votes_for
                > p.0.votes_against)))
            &&& (p.0.state == CaseState::Rejected ==> p.0.votes_for + p.0.votes_against
                == p.0.jurors.len() && p.0.votes_for < quorum && p.0.votes_for
                <= p.0.votes_against)
            &&& (p.0.status == CaseStatus::Frozen <==> p.0.votes_for >= quorum)
            &&& (p.1 <==> p.0.votes_for >= quorum)
        },
{
    if vote_step(pre, quorum, juror, approve) is Ok {
        lemma_vote_step_wf(pre, quorum, juror, approve);
        lemma_distinct_subset_len(pre.voted.push(juror), pre.jurors);
    }
}

/// Terminal immutability, on this module's steps: once a case is closed
/// or frozen, no vote and no randomness request succeeds.
pub proof fn lemma_terminal_immutable(
    pre: CaseModel,
    quorum: u8,
    juror: Address,
    approve: bool,
    case_id: u64,
    oracle: Address,
)
    requires
        pre.wf(),
        pre.status != CaseStatus::Open,
    ensures
        vote_step(pre, quorum, juror, approve) is Err,
        request_step(pre, case_id, oracle) is Err,
{
}

} // verus!
