//! Rejections: every failed operation names the invariant it violated.

use vstd::prelude::*;

verus! {

/// The five classes a rejection falls under.
#[derive(Clone, Copy, PartialEq, Eq, Structural, Debug)]
pub enum ErrorKind {
    /// The referenced commitment id does not exist.
    NotFound,
    /// The caller is not the required principal.
    Unauthorized,
    /// A supplied value breaks a validity bound.
    InvalidArgument,
    /// A time-window guard is not met.
    TimingViolation,
    /// The commitment's status forbids the operation.
    InvalidState,
}

/// One variant per distinct rejection, so that every failure names exactly
/// the guard that turned the operation away.
#[derive(Clone, Copy, PartialEq, Eq, Structural, Debug)]
pub enum FundError {
    CommitmentNotFound,
    AmountMustBePositive,
    RecipientZero,
    TitleTooLong,
    DeadlineTooSoon,
    CooldownMustBePositive,
    OnlyCreatorCanSubmitProof,
    NotActive,
    InvalidProofUrlLength,
    DeadlinePassed,
    ProofAlreadySubmitted,
    DeadlineNotReached,
    CannotFinalize,
    OnlyRecipientCanClaim,
    NotFailed,
    NotFinalized,
    CooldownNotReached,
    OnlyCreatorCanCancel,
    DeadlineAlreadyReached,
}

impl FundError {
    /// The class this rejection falls under.
    pub open spec fn kind_spec(self) -> ErrorKind {
        match self {
            FundError::CommitmentNotFound => ErrorKind::NotFound,
            FundError::AmountMustBePositive => ErrorKind::InvalidArgument,
            FundError::RecipientZero => ErrorKind::InvalidArgument,
            FundError::TitleTooLong => ErrorKind::InvalidArgument,
            FundError::DeadlineTooSoon => ErrorKind::TimingViolation,
            FundError::CooldownMustBePositive => ErrorKind::InvalidArgument,
            FundError::OnlyCreatorCanSubmitProof => ErrorKind::Unauthorized,
            FundError::NotActive => ErrorKind::InvalidState,
            FundError::InvalidProofUrlLength => ErrorKind::InvalidArgument,
            FundError::DeadlinePassed => ErrorKind::TimingViolation,
            FundError::ProofAlreadySubmitted => ErrorKind::InvalidState,
            FundError::DeadlineNotReached => ErrorKind::TimingViolation,
            FundError::CannotFinalize => ErrorKind::InvalidState,
            FundError::OnlyRecipientCanClaim => ErrorKind::Unauthorized,
            FundError::NotFailed => ErrorKind::InvalidState,
            FundError::NotFinalized => ErrorKind::InvalidState,
            FundError::CooldownNotReached => ErrorKind::TimingViolation,
            FundError::OnlyCreatorCanCancel => ErrorKind::Unauthorized,
            FundError::DeadlineAlreadyReached => ErrorKind::TimingViolation,
        }
    }

    /// The class this rejection falls under.
    pub fn kind(self) -> (r: ErrorKind)
        ensures
            r == self.kind_spec(),
    {
        match self {
            FundError::CommitmentNotFound => ErrorKind::NotFound,
            FundError::AmountMustBePositive => ErrorKind::InvalidArgument,
            FundError::RecipientZero => ErrorKind::InvalidArgument,
            FundError::TitleTooLong => ErrorKind::InvalidArgument,
            FundError::DeadlineTooSoon => ErrorKind::TimingViolation,
            FundError::CooldownMustBePositive => ErrorKind::InvalidArgument,
            FundError::OnlyCreatorCanSubmitProof => ErrorKind::Unauthorized,
            FundError::NotActive => ErrorKind::InvalidState,
            FundError::InvalidProofUrlLength => ErrorKind::InvalidArgument,
            FundError::DeadlinePassed => ErrorKind::TimingViolation,
            FundError::ProofAlreadySubmitted => ErrorKind::InvalidState,
            FundError::DeadlineNotReached => ErrorKind::TimingViolation,
            FundError::CannotFinalize => ErrorKind::InvalidState,
            FundError::OnlyRecipientCanClaim => ErrorKind::Unauthorized,
            FundError::NotFailed => ErrorKind::InvalidState,
            FundError::NotFinalized => ErrorKind::InvalidState,
            FundError::CooldownNotReached => ErrorKind::TimingViolation,
            FundError::OnlyCreatorCanCancel => ErrorKind::Unauthorized,
            FundError::DeadlineAlreadyReached => ErrorKind::TimingViolation,
        }
    }

    /// The human-readable message of this rejection.
    pub open spec fn message_spec(self) -> Seq<char> {
        match self {
            FundError::CommitmentNotFound => "Commitment not found"@,
            FundError::AmountMustBePositive => "Amount must be > 0"@,
            FundError::RecipientZero => "Recipient cannot be zero address"@,
            FundError::TitleTooLong => "Title too long"@,
            FundError::DeadlineTooSoon => "Deadline too soon"@,
            FundError::CooldownMustBePositive => "Cooldown must be > 0"@,
            FundError::OnlyCreatorCanSubmitProof => "Only creator can submit proof"@,
            FundError::NotActive => "Commitment is not active"@,
            FundError::InvalidProofUrlLength => "Invalid proof URL length"@,
            FundError::DeadlinePassed => "Deadline passed"@,
            FundError::ProofAlreadySubmitted => "Proof already submitted"@,
            FundError::DeadlineNotReached => "Deadline not reached"@,
            FundError::CannotFinalize => "Commitment cannot be finalized"@,
            FundError::OnlyRecipientCanClaim => "Only recipient can claim"@,
            FundError::NotFailed => "Commitment is not failed"@,
            FundError::NotFinalized => "Commitment not finalized"@,
            FundError::CooldownNotReached => "Cooldown not reached"@,
            FundError::OnlyCreatorCanCancel => "Only creator can cancel"@,
            FundError::DeadlineAlreadyReached => "Deadline already reached"@,
        }
    }

    /// The human-readable message of this rejection.
    pub fn message(self) -> (r: &'static str)
        ensures
            r@ == self.message_spec(),
    {
        match self {
            FundError::CommitmentNotFound => "Commitment not found",
            FundError::AmountMustBePositive => "Amount must be > 0",
            FundError::RecipientZero => "Recipient cannot be zero address",
            FundError::TitleTooLong => "Title too long",
            FundError::DeadlineTooSoon => "Deadline too soon",
            FundError::CooldownMustBePositive => "Cooldown must be > 0",
            FundError::OnlyCreatorCanSubmitProof => "Only creator can submit proof",
            FundError::NotActive => "Commitment is not active",
            FundError::InvalidProofUrlLength => "Invalid proof URL length",
            FundError::DeadlinePassed => "Deadline passed",
            FundError::ProofAlreadySubmitted => "Proof already submitted",
            FundError::DeadlineNotReached => "Deadline not reached",
            FundError::CannotFinalize => "Commitment cannot be finalized",
            FundError::OnlyRecipientCanClaim => "Only recipient can claim",
            FundError::NotFailed => "Commitment is not failed",
            FundError::NotFinalized => "Commitment not finalized",
            FundError::CooldownNotReached => "Cooldown not reached",
            FundError::OnlyCreatorCanCancel => "Only creator can cancel",
            FundError::DeadlineAlreadyReached => "Deadline already reached",
        }
    }
}

} // verus!
