use solsafe::errors::ErrorCode;
use solsafe::merkle::{verify_timestamp, ErrorCode as MerkleError};
use solsafe::state::{CaseAccount, CaseState, CaseStatus, GlobalConfig};

fn addr(n: u8) -> [u8; 32] {
    let mut a = [0u8; 32];
    a[0] = n;
    a
}

fn voting_case(jurors: Vec<[u8; 32]>) -> CaseAccount {
    CaseAccount {
        case_id: 1,
        scam_address: addr(99),
        evidence: b"evidence".to_vec(),
        jurors: jurors.clone(),
        juror_candidates: jurors,
        votes_for: 0,
        votes_against: 0,
        voted_jurors: Vec::new(),
        status: CaseStatus::Open,
        state: CaseState::Voting,
        vrf_request: None,
    }
}

#[test]
fn test_initialize_and_set_validators() {
    let admin = addr(1);
    let mut config = GlobalConfig::initialize(admin, 2, 3);
    assert_eq!(config.quorum, 2);
    assert_eq!(config.min_jurors, 3);
    assert!(config.validator_list.is_empty());
    let validators = vec![addr(10), addr(11), addr(12)];
    assert!(config.set_validators(admin, validators.clone()).is_ok());
    assert_eq!(config.validator_list, validators);
}

#[test]
fn test_set_validators_unauthorized() {
    let admin = addr(1);
    let mut config = GlobalConfig::initialize(admin, 2, 3);
    let r = config.set_validators(addr(2), vec![addr(10)]);
    assert_eq!(r, Err(ErrorCode::Unauthorized));
    assert!(config.validator_list.is_empty());
}

#[test]
fn test_submit_case_fields() {
    let case = CaseAccount::submit_case(7, addr(99), b"bad actor".to_vec()).unwrap();
    assert_eq!(case.case_id, 7);
    assert_eq!(case.scam_address, addr(99));
    assert_eq!(case.status, CaseStatus::Open);
    assert_eq!(case.state, CaseState::PendingJurors);
    assert_eq!(case.votes_for, 0);
    assert_eq!(case.votes_against, 0);
    assert!(case.jurors.is_empty());
    assert!(case.vrf_request.is_none());
}

#[test]
fn test_submit_case_evidence_too_large() {
    let r = CaseAccount::submit_case(7, addr(99), vec![0u8; 1025]);
    assert_eq!(r.err(), Some(ErrorCode::EvidenceTooLarge));
}

#[test]
fn test_request_randomness() {
    let mut case = CaseAccount::submit_case(7, addr(99), b"e".to_vec()).unwrap();
    assert_eq!(
        case.request_randomness(8, addr(50)),
        Err(ErrorCode::InvalidCase)
    );
    assert!(case.request_randomness(7, addr(50)).is_ok());
    assert_eq!(case.vrf_request, Some(addr(50)));
    // re-requesting while still pending is allowed
    assert!(case.request_randomness(7, addr(51)).is_ok());
    assert_eq!(case.vrf_request, Some(addr(51)));
}

#[test]
fn test_request_randomness_closed_case() {
    let mut case = voting_case(vec![addr(10)]);
    case.status = CaseStatus::Closed;
    case.state = CaseState::Rejected;
    assert_eq!(
        case.request_randomness(1, addr(50)),
        Err(ErrorCode::CaseNotOpen)
    );
}

#[test]
fn test_select_jurors_validity_and_determinism() {
    let admin = addr(1);
    let mut config = GlobalConfig::initialize(admin, 2, 3);
    let validators = vec![addr(10), addr(11), addr(12), addr(13), addr(14)];
    config.set_validators(admin, validators.clone()).unwrap();

    let oracle = addr(50);
    let mut vrf_data = vec![0u8; 40];
    for (i, b) in vrf_data.iter_mut().enumerate() {
        *b = (i * 37 + 5) as u8;
    }

    let mut case = CaseAccount::submit_case(1, addr(99), b"e".to_vec()).unwrap();
    case.request_randomness(1, oracle).unwrap();
    case.select_jurors(&config, oracle, &vrf_data).unwrap();

    assert_eq!(case.state, CaseState::Voting);
    assert_eq!(case.jurors.len(), 3);
    assert_eq!(case.juror_candidates, validators);
    for j in &case.jurors {
        assert!(validators.contains(j));
    }
    for i in 0..case.jurors.len() {
        for j in 0..i {
            assert_ne!(case.jurors[i], case.jurors[j]);
        }
    }

    // same seed and registry: the same jurors, in the same order
    let mut case2 = CaseAccount::submit_case(2, addr(98), b"e".to_vec()).unwrap();
    case2.request_randomness(2, oracle).unwrap();
    case2.select_jurors(&config, oracle, &vrf_data).unwrap();
    assert_eq!(case.jurors, case2.jurors);

    // one-shot: a case that left PendingJurors is never re-selected
    assert_eq!(
        case.select_jurors(&config, oracle, &vrf_data),
        Err(ErrorCode::InvalidCase)
    );
}

#[test]
fn test_select_jurors_guards() {
    let admin = addr(1);
    let mut config = GlobalConfig::initialize(admin, 2, 3);
    config
        .set_validators(admin, vec![addr(10), addr(11)])
        .unwrap();
    let oracle = addr(50);
    let vrf_data = vec![7u8; 40];

    let mut case = CaseAccount::submit_case(1, addr(99), b"e".to_vec()).unwrap();
    assert_eq!(
        case.select_jurors(&config, oracle, &vrf_data),
        Err(ErrorCode::VrfNotReady)
    );
    case.request_randomness(1, oracle).unwrap();
    assert_eq!(
        case.select_jurors(&config, addr(51), &vrf_data),
        Err(ErrorCode::InvalidCase)
    );
    assert_eq!(
        case.select_jurors(&config, oracle, &vrf_data[..39]),
        Err(ErrorCode::VrfNotReady)
    );
    // only two validators for three jurors
    assert_eq!(
        case.select_jurors(&config, oracle, &vrf_data),
        Err(ErrorCode::NotEnoughValidators)
    );
}

#[test]
fn test_extract_seed() {
    let mut data = vec![0u8; 48];
    for (i, b) in data.iter_mut().enumerate() {
        *b = i as u8;
    }
    let seed = solsafe::selection::extract_seed(&data).unwrap();
    assert_eq!(&seed[..], &data[8..40]);
    assert_eq!(
        solsafe::selection::extract_seed(&data[..39]),
        Err(ErrorCode::VrfNotReady)
    );
}

#[test]
fn test_quorum_example() {
    // registry {A,B,C,D,E}, min_jurors 3, quorum 2; selection gave {A,C,E}
    let a = addr(10);
    let c = addr(12);
    let e = addr(14);
    let admin = addr(1);
    let mut config = GlobalConfig::initialize(admin, 2, 3);
    config
        .set_validators(
            admin,
            vec![addr(10), addr(11), addr(12), addr(13), addr(14)],
        )
        .unwrap();
    let mut case = voting_case(vec![a, c, e]);

    assert_eq!(case.vote(&config, a, true), Ok(false));
    assert_eq!(case.votes_for, 1);
    assert_eq!(case.state, CaseState::Voting);

    assert_eq!(case.vote(&config, c, true), Ok(true));
    assert_eq!(case.votes_for, 2);
    assert_eq!(case.state, CaseState::Approved);
    assert_eq!(case.status, CaseStatus::Frozen);

    assert_eq!(case.vote(&config, e, false), Err(ErrorCode::CaseNotVoting));
    assert_eq!(case.votes_for, 2);
    assert_eq!(case.votes_against, 0);
}

#[test]
fn test_vote_guards() {
    let admin = addr(1);
    let config = GlobalConfig::initialize(admin, 2, 3);
    let mut case = voting_case(vec![addr(10), addr(11), addr(12)]);
    assert_eq!(
        case.vote(&config, addr(77), true),
        Err(ErrorCode::NotJuror)
    );
    assert_eq!(case.vote(&config, addr(10), true), Ok(false));
    assert_eq!(
        case.vote(&config, addr(10), false),
        Err(ErrorCode::AlreadyVoted)
    );
    assert_eq!(case.votes_for, 1);
    assert_eq!(case.votes_against, 0);
}

#[test]
fn test_majority_approval_without_quorum() {
    // quorum out of reach: all jurors vote, majority in favour
    let admin = addr(1);
    let config = GlobalConfig::initialize(admin, 200, 3);
    let mut case = voting_case(vec![addr(10), addr(11), addr(12)]);
    assert_eq!(case.vote(&config, addr(10), true), Ok(false));
    assert_eq!(case.vote(&config, addr(11), true), Ok(false));
    assert_eq!(case.vote(&config, addr(12), false), Ok(false));
    assert_eq!(case.state, CaseState::Approved);
    assert_eq!(case.status, CaseStatus::Closed);
}

#[test]
fn test_tie_rejects() {
    // an exact tie favours rejection
    let admin = addr(1);
    let config = GlobalConfig::initialize(admin, 200, 2);
    let mut case = voting_case(vec![addr(10), addr(11)]);
    assert_eq!(case.vote(&config, addr(10), true), Ok(false));
    assert_eq!(case.vote(&config, addr(11), false), Ok(false));
    assert_eq!(case.state, CaseState::Rejected);
    assert_eq!(case.status, CaseStatus::Closed);
}

#[test]
fn test_timestamp_window() {
    assert!(verify_timestamp(900, 200, 1000).is_ok());
    assert_eq!(
        verify_timestamp(1100, 200, 1000),
        Err(MerkleError::FutureTimestamp)
    );
    assert_eq!(
        verify_timestamp(700, 200, 1000),
        Err(MerkleError::EvidenceTooOld)
    );
}
