//! Error taxonomy shared by the whole engine.

use vstd::prelude::*;

verus! {

/// Why an operation on a registry, case, vote ledger or MPC session failed.
///
/// Every operation either completes fully or returns one of these and
/// leaves its resource unchanged.
#[derive(Clone, Copy, Debug, PartialEq, Eq, Structural)]
pub enum ErrorCode {
    /// The caller is not the registry admin.
    Unauthorized,
    /// The case account does not match the request or is not in the
    /// phase the operation needs.
    InvalidCase,
    /// The case is not `Open`.
    CaseNotOpen,
    /// The randomness reference is absent or holds too little entropy.
    VrfNotReady,
    /// Fewer registered validators than jurors to select.
    NotEnoughValidators,
    /// The voter is not one of the case's jurors.
    NotJuror,
    /// The decision was not `Approved`.
    NotApproved,
    /// This juror's vote was already counted for this case.
    AlreadyVoted,
    /// The case is not in its voting phase.
    CaseNotVoting,
    /// Rejection sampling hit its retry cap without filling the juror set.
    JurorSelectionFailed,
    /// The supplied proof is not of the kind the operation expects.
    InvalidProofType,
    /// The zero-knowledge proof or the derived nullifier does not check out.
    InvalidZkProof,
    /// A revealed `(vote, salt)` pair does not match the stored commitment.
    InvalidReveal,
    /// The nullifier was already recorded for this case.
    NullifierAlreadyUsed,
    /// An MPC threshold outside `1..=total_jurors`.
    InvalidThreshold,
    /// More jurors than the MPC hard cap allows.
    TooManyJurors,
    /// Every expected MPC key share was already submitted.
    AllSharesSubmitted,
    /// The juror's key share was never marked verified.
    ShareNotVerified,
    /// Too few shares or partial decryptions for the threshold.
    ThresholdNotReached,
    /// Fewer reconstruction shares than the threshold.
    InsufficientShares,
    /// The MPC result is already frozen; no further submissions count.
    ComputationComplete,
    /// Evidence payload above the deployment bound.
    EvidenceTooLarge,
    /// A batch's commitment and nullifier lists differ in length.
    InvalidBatchSize,
    /// A counter would exceed its machine bound.
    ArithmeticOverflow,
    /// Confidential transfers are switched off in the configuration.
    ConfidentialTransfersDisabled,
    /// The range proof on an encrypted amount failed.
    InvalidRangeProof,
    /// The compliance proof on a transfer failed.
    InvalidComplianceProof,
    /// The transfer is not awaiting application.
    TransferNotPending,
}

} // verus!
