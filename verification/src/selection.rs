//! Juror selection: extracting the oracle seed and drawing a distinct
//! juror subset from the registry by rejection sampling.
//!
//! The seed is treated as an entropy pool of eight 4-byte little-endian
//! windows. Each draw takes the next window modulo the validator count;
//! an index already chosen is rejected and drawn again; when the windows
//! are exhausted the pool is re-hashed. A fixed retry cap keeps the
//! procedure terminating whatever the seed.

use vstd::prelude::*;
use crate::errors::ErrorCode;
use crate::sha256::{sha256, sha256_of};
use crate::state::{CaseAccount, CaseModel, CaseState, CaseStatus, ConfigModel, GlobalConfig};
use crate::state::{lemma_distinct_subset_len, lemma_push_distinct};
use crate::types::Address;

verus! {

/// Bytes of entropy a randomness account must provide.
pub const SEED_LEN: usize = 32;

/// Length of the discriminator prefix before the entropy in a randomness
/// account's data.
pub const SEED_PREFIX_LEN: usize = 8;

/// Hard cap on rejection-sampling draws. Unreachable under honest
/// parameters; it bounds the work done on any seed.
pub const SELECT_ATTEMPT_CAP: u32 = 1000;

/// 4-byte windows in a 32-byte entropy pool.
pub const WINDOWS_PER_POOL: usize = 8;

/// The value of the 4-byte little-endian window `w` of `pool`.
pub open spec fn window_word(pool: Seq<u8>, w: int) -> int
    recommends
        0 <= w < WINDOWS_PER_POOL,
        pool.len() == SEED_LEN,
{
    pool[4 * w] + 0x100 * pool[4 * w + 1] + 0x1_0000 * pool[4 * w + 2] + 0x100_0000 * pool[4 * w
        + 3]
}

/// Rejection sampling of `k` distinct indexes below `n`, drawn from the
/// entropy pool. `window` is the next unconsumed window; `chosen` the
/// indexes drawn so far; `attempts` the draws already spent against the
/// cap. `None` means the cap ran out first.
pub open spec fn draw_indexes(
    pool: Seq<u8>,
    window: int,
    chosen: Seq<int>,
    n: int,
    k: int,
    attempts: int,
) -> Option<Seq<int>>
    decreases SELECT_ATTEMPT_CAP - attempts,
{
    if chosen.len() >= k {
        Some(chosen)
    } else if attempts >= SELECT_ATTEMPT_CAP {
        None
    } else {
        let pool2 = if window >= WINDOWS_PER_POOL {
            sha256_of(pool)
        } else {
            pool
        };
        let window2: int = if window >= WINDOWS_PER_POOL {
            0
        } else {
            window
        };
        let idx = window_word(pool2, window2) % n;
        let chosen2 = if chosen.contains(idx) {
            chosen
        } else {
            chosen.push(idx)
        };
        draw_indexes(pool2, window2 + 1, chosen2, n, k, attempts + 1)
    }
}

/// What a completed draw guarantees: exactly `k` indexes, all distinct,
/// all below `n`, whenever the starting set already satisfied the same.
pub proof fn lemma_draw_indexes_props(
    pool: Seq<u8>,
    window: int,
    chosen: Seq<int>,
    n: int,
    k: int,
    attempts: int,
)
    requires
        n > 0,
        chosen.no_duplicates(),
        forall|i: int| 0 <= i < chosen.len() ==> 0 <= #[trigger] chosen[i] < n,
        chosen.len() <= k,
    ensures
        draw_indexes(pool, window, chosen, n, k, attempts) matches Some(res) ==> res.len() == k
            && res.no_duplicates() && (forall|i: int|
            0 <= i < res.len() ==> 0 <= #[trigger] res[i] < n),
    decreases SELECT_ATTEMPT_CAP - attempts,
{
    if chosen.len() >= k {
    } else if attempts >= SELECT_ATTEMPT_CAP {
    } else {
        let pool2 = if window >= WINDOWS_PER_POOL {
            sha256_of(pool)
        } else {
            pool
        };
        let window2: int = if window >= WINDOWS_PER_POOL {
            0
        } else {
            window
        };
        let idx = window_word(pool2, window2) % n;
        let chosen2 = if chosen.contains(idx) {
            chosen
        } else {
            chosen.push(idx)
        };
        if !chosen.contains(idx) {
            lemma_push_distinct(chosen, idx);
        }
        lemma_draw_indexes_props(pool2, window2 + 1, chosen2, n, k, attempts + 1);
    }
}

/// The addresses the drawn indexes pick out of the validator pool.
pub open spec fn jurors_of(validators: Seq<Address>, sel: Seq<int>) -> Seq<Address> {
    sel.map_values(|i: int| validators[i])
}

/// Distinct indexes into a duplicate-free pool pick distinct addresses,
/// each of them a validator.
pub proof fn lemma_jurors_of_props(validators: Seq<Address>, sel: Seq<int>)
    requires
        validators.no_duplicates(),
        sel.no_duplicates(),
        forall|i: int| 0 <= i < sel.len() ==> 0 <= #[trigger] sel[i] < validators.len(),
    ensures
        jurors_of(validators, sel).no_duplicates(),
        jurors_of(validators, sel).len() == sel.len(),
        forall|i: int|
            0 <= i < sel.len() ==> validators.contains(#[trigger] jurors_of(validators, sel)[i]),
{
    let js = jurors_of(validators, sel);
    assert forall|i: int, j: int|
        0 <= i < js.len() && 0 <= j < js.len() && i != j implies js[i] != js[j] by {
        assert(js[i] == validators[sel[i]]);
        assert(js[j] == validators[sel[j]]);
    }
    assert forall|i: int| 0 <= i < sel.len() implies validators.contains(#[trigger] js[i]) by {
        assert(js[i] == validators[sel[i]]);
    }
}

/// Step relation of [`CaseAccount::select_jurors`]. Deterministic in the
/// seed and the registry snapshot: the same `vrf_data` and validator list
/// always yield the same jurors.
pub open spec fn select_step(
    pre: CaseModel,
    config: ConfigModel,
    vrf_account: Address,
    vrf_data: Seq<u8>,
) -> Result<CaseModel, ErrorCode> {
    if pre.vrf_request is None {
        Err(ErrorCode::VrfNotReady)
    } else if pre.state != CaseState::PendingJurors {
        Err(ErrorCode::InvalidCase)
    } else if pre.vrf_request != Some(vrf_account) {
        Err(ErrorCode::InvalidCase)
    } else if vrf_data.len() < SEED_PREFIX_LEN + SEED_LEN {
        Err(ErrorCode::VrfNotReady)
    } else if config.validators.len() < config.min_jurors {
        Err(ErrorCode::NotEnoughValidators)
    } else {
        let seed = vrf_data.subrange(
            SEED_PREFIX_LEN as int,
            SEED_PREFIX_LEN as int + SEED_LEN as int,
        );
        match draw_indexes(
            seed,
            0,
            Seq::empty(),
            config.validators.len() as int,
            config.min_jurors as int,
            0,
        ) {
            Some(sel) => Ok(
                CaseModel {
                    juror_candidates: config.validators,
                    jurors: jurors_of(config.validators, sel),
                    state: CaseState::Voting,
                    ..pre
                },
            ),
            None => Err(ErrorCode::JurorSelectionFailed),
        }
    }
}

/// Selection validity: whenever selection succeeds it yields exactly
/// `min_jurors` distinct addresses, every one of them a registered
/// validator, and the candidate snapshot is the registry itself. That the
/// draw is reproducible for a fixed seed and registry is definitional:
/// [`select_step`] is a function of its arguments. A seed whose draws
/// exhaust the retry cap before the set fills does not succeed at all:
/// selection then returns `JurorSelectionFailed` and leaves the case
/// unchanged, as [`CaseAccount::select_jurors`]'s contract states.
pub proof fn lemma_selection_validity(
    pre: CaseModel,
    config: ConfigModel,
    vrf_account: Address,
    vrf_data: Seq<u8>,
)
    requires
        pre.wf(),
        config.wf(),
    ensures
        select_step(pre, config, vrf_account, vrf_data) matches Ok(post) ==> {
            &&& post.jurors.len() == config.min_jurors
            &&& post.jurors.no_duplicates()
            &&& (forall|i: int|
                0 <= i < post.jurors.len() ==> config.validators.contains(
                    #[trigger] post.jurors[i],
                ))
            &&& post.juror_candidates == config.validators
            &&& post.state == CaseState::Voting
            &&& post.wf()
        },
{
    if select_step(pre, config, vrf_account, vrf_data) is Ok {
        let seed = vrf_data.subrange(
            SEED_PREFIX_LEN as int,
            SEED_PREFIX_LEN as int + SEED_LEN as int,
        );
        let n = config.validators.len() as int;
        let k = config.min_jurors as int;
        if n > 0 {
            lemma_draw_indexes_props(seed, 0, Seq::empty(), n, k, 0);
            let sel = draw_indexes(seed, 0, Seq::empty(), n, k, 0)->Some_0;
            lemma_jurors_of_props(config.validators, sel);
        } else {
            // an empty registry admits only min_jurors == 0, and the draw
            // returns the empty selection at once
            assert(draw_indexes(seed, 0, Seq::empty(), n, k, 0) == Some(Seq::<int>::empty()));
        }
    }
}

/// Mathematical view of a vector of drawn indexes.
pub open spec fn idxs(v: Seq<usize>) -> Seq<int> {
    v.map_values(|u: usize| u as int)
}

proof fn lemma_idxs_contains(v: Seq<usize>, x: usize)
    ensures
        v.contains(x) <==> idxs(v).contains(x as int),
{
    if v.contains(x) {
        let i = choose|i: int| 0 <= i < v.len() && v[i] == x;
        assert(idxs(v)[i] == x as int);
    }
    if idxs(v).contains(x as int) {
        let i = choose|i: int| 0 <= i < idxs(v).len() && idxs(v)[i] == x as int;
        assert(v[i] == x);
    }
}

fn contains_usize(v: &Vec<usize>, x: usize) -> (r: bool)
    ensures
        r <==> v@.contains(x),
{
    let mut i: usize = 0;
    while i < v.len()
        invariant
            i <= v@.len(),
            forall|j: int| 0 <= j < i ==> v@[j] != x,
        decreases v@.len() - i,
    {
        if v[i] == x {
            return true;
        }
        i = i + 1;
    }
    false
}

/// Read the selection seed out of a randomness account's data: 32 bytes
/// of entropy after the 8-byte discriminator prefix.
pub fn extract_seed(data: &[u8]) -> (r: Result<[u8; 32], ErrorCode>)
    ensures
        r is Ok <==> data@.len() >= SEED_PREFIX_LEN + SEED_LEN,
        r matches Ok(seed) ==> seed@ == data@.subrange(
            SEED_PREFIX_LEN as int,
            SEED_PREFIX_LEN as int + SEED_LEN as int,
        ),
        r is Err ==> r == Err::<[u8; 32], ErrorCode>(ErrorCode::VrfNotReady),
{
    if data.len() < SEED_PREFIX_LEN + SEED_LEN {
        return Err(ErrorCode::VrfNotReady);
    }
    let mut seed: [u8; 32] = [0u8; 32];
    let mut i: usize = 0;
    while i < SEED_LEN
        invariant
            i <= SEED_LEN,
            data@.len() >= SEED_PREFIX_LEN + SEED_LEN,
            forall|j: int| 0 <= j < i ==> seed@[j] == data@[SEED_PREFIX_LEN + j],
        decreases SEED_LEN - i,
    {
        seed[i] = data[SEED_PREFIX_LEN + i];
        i = i + 1;
    }
    assert(seed@ =~= data@.subrange(
        SEED_PREFIX_LEN as int,
        SEED_PREFIX_LEN as int + SEED_LEN as int,
    ));
    Ok(seed)
}

/// One rejection-sampling run, mirroring [`draw_indexes`] step for step.
fn draw_rec(
    pool: [u8; 32],
    window: usize,
    chosen: Vec<usize>,
    n: usize,
    k: usize,
    attempts: u32,
) -> (r: Result<Vec<usize>, ErrorCode>)
    requires
        window <= WINDOWS_PER_POOL,
        attempts <= SELECT_ATTEMPT_CAP,
        n > 0 || chosen@.len() >= k,
    ensures
        r matches Ok(v) ==> draw_indexes(
            pool@,
            window as int,
            idxs(chosen@),
            n as int,
            k as int,
            attempts as int,
        ) == Some(idxs(v@)),
        r is Err ==> r == Err::<Vec<usize>, ErrorCode>(ErrorCode::JurorSelectionFailed)
            && draw_indexes(
            pool@,
            window as int,
            idxs(chosen@),
            n as int,
            k as int,
            attempts as int,
        ) is None,
    decreases SELECT_ATTEMPT_CAP - attempts,
{
    if chosen.len() >= k {
        return Ok(chosen);
    }
    if attempts >= SELECT_ATTEMPT_CAP {
        return Err(ErrorCode::JurorSelectionFailed);
    }
    let pool2: [u8; 32] = if window >= WINDOWS_PER_POOL {
        sha256(pool.as_slice())
    } else {
        pool
    };
    let window2: usize = if window >= WINDOWS_PER_POOL {
        0
    } else {
        window
    };
    let base = 4 * window2;
    let word: u32 = pool2[base] as u32 + 0x100 * (pool2[base + 1] as u32) + 0x1_0000 * (pool2[base
        + 2] as u32) + 0x100_0000 * (pool2[base + 3] as u32);
    assert(word as int == window_word(pool2@, window2 as int));
    let idx: usize = (word as usize) % n;
    let ghost spec_idx = window_word(pool2@, window2 as int) % (n as int);
    assert(idx as int == spec_idx);
    let mut chosen2 = chosen;
    let ghost pre_chosen = chosen2@;
    proof {
        lemma_idxs_contains(pre_chosen, idx);
    }
    if !contains_usize(&chosen2, idx) {
        chosen2.push(idx);
        assert(idxs(chosen2@) =~= idxs(pre_chosen).push(idx as int));
    }
    let r = draw_rec(pool2, window2 + 1, chosen2, n, k, attempts + 1);
    proof {
        assert(draw_indexes(
            pool@,
            window as int,
            idxs(pre_chosen),
            n as int,
            k as int,
            attempts as int,
        ) == draw_indexes(
            pool2@,
            window2 as int + 1,
            idxs(chosen2@),
            n as int,
            k as int,
            attempts as int + 1,
        ));
    }
    r
}

fn copy_addresses(src: &Vec<Address>) -> (r: Vec<Address>)
    ensures
        r@ == src@,
{
    let mut out: Vec<Address> = Vec::new();
    let mut i: usize = 0;
    while i < src.len()
        invariant
            i <= src@.len(),
            out@ =~= src@.take(i as int),
        decreases src@.len() - i,
    {
        out.push(src[i]);
        i = i + 1;
    }
    assert(out@ =~= src@);
    out
}

impl CaseAccount {
    /// Populate the case's juror set from the oracle's revealed entropy
    /// and the current registry snapshot, and open voting. One-shot: a
    /// case that left `PendingJurors` is never re-selected.
    pub fn select_jurors(
        &mut self,
        config: &GlobalConfig,
        vrf_account: Address,
        vrf_data: &[u8],
    ) -> (r: Result<(), ErrorCode>)
        requires
            old(self)@.wf(),
            config@.wf(),
        ensures
            final(self)@.wf(),
            r matches Ok(()) ==> select_step(old(self)@, config@, vrf_account, vrf_data@)
                == Ok::<CaseModel, ErrorCode>(final(self)@),
            r matches Err(e) ==> final(self)@ == old(self)@ && select_step(
                old(self)@,
                config@,
                vrf_account,
                vrf_data@,
            ) == Err::<CaseModel, ErrorCode>(e),
    {
        let oracle: Address = match self.vrf_request {
            None => {
                return Err(ErrorCode::VrfNotReady);
            },
            Some(a) => a,
        };
        if !matches!(self.state, CaseState::PendingJurors) {
            return Err(ErrorCode::InvalidCase);
        }
        if !crate::types::bytes32_eq(&oracle, &vrf_account) {
            return Err(ErrorCode::InvalidCase);
        }
        assert(oracle =~= vrf_account);
        let seed: [u8; 32] = match extract_seed(vrf_data) {
            Ok(s) => s,
            Err(e) => {
                return Err(e);
            },
        };
        let k = config.min_jurors as usize;
        let n = config.validator_list.len();
        if n < k {
            return Err(ErrorCode::NotEnoughValidators);
        }
        assert(idxs(Seq::<usize>::empty()) =~= Seq::<int>::empty());
        let sel: Vec<usize> = match draw_rec(seed, 0, Vec::new(), n, k, 0) {
            Ok(v) => v,
            Err(e) => {
                return Err(e);
            },
        };
        proof {
            if k > 0 {
                lemma_draw_indexes_props(
                    seed@,
                    0,
                    Seq::<int>::empty(),
                    n as int,
                    k as int,
                    0,
                );
            }
            assert(forall|j: int| 0 <= j < sel@.len() ==> idxs(sel@)[j] == #[trigger] sel@[j] as int);
        }
        self.juror_candidates = copy_addresses(&config.validator_list);
        let mut jurors: Vec<Address> = Vec::new();
        let mut i: usize = 0;
        while i < sel.len()
            invariant
                i <= sel@.len(),
                n == config@.validators.len(),
                forall|j: int| 0 <= j < sel@.len() ==> #[trigger] sel@[j] < n,
                jurors@.len() == i,
                forall|j: int|
                    0 <= j < i ==> #[trigger] jurors@[j] == config@.validators[sel@[j] as int],
            decreases sel@.len() - i,
        {
            jurors.push(config.validator_list[sel[i]]);
            i = i + 1;
        }
        assert(jurors@ =~= jurors_of(config@.validators, idxs(sel@)));
        self.jurors = jurors;
        self.state = CaseState::Voting;
        proof {
            lemma_selection_validity(old(self)@, config@, vrf_account, vrf_data@);
            assert(select_step(old(self)@, config@, vrf_account, vrf_data@) matches Ok(post)
                ==> post =~= self@);
        }
        Ok(())
    }
}

/// A closed or frozen case selects no more jurors.
pub proof fn lemma_terminal_no_selection(
    pre: CaseModel,
    config: ConfigModel,
    vrf_account: Address,
    vrf_data: Seq<u8>,
)
    requires
        pre.wf(),
        pre.status != CaseStatus::Open,
    ensures
        select_step(pre, config, vrf_account, vrf_data) is Err,
{
}

} // verus!
