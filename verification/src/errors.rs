//! Errors the court's instructions answer with.

use vstd::prelude::*;

use solana_program::program_error::ProgramError;

verus! {

/// Why an instruction was refused.
#[derive(PartialEq, Eq, Structural, Clone, Copy, Debug)]
pub enum CourtError {
    /// Settings have been already created.
    SettingsAlreadyCreated,
    /// You are not authorize to join this dispute.
    NoJoinAuthorize,
    /// Metadata of the juror NFT is not initialized.
    MetadataNotInitialized,
    /// Master Edition of the juror NFT is not initialized.
    MasterEditionNotInitialized,
    /// Juror NFT is not valid.
    NFTNotValid,
    /// Total shares can not exceed more than 100 percent.
    SharesExceeded,
    /// First applicant party should be the transaction fee payer.
    PayerNotMatchFirstApplicantParty,
    /// Length of provided jurors is not correct.
    JurorNumbersNotCorrect,
    /// Juror did not signed the transaction.
    JurorNotMatchedSigner,
    /// Juror joining deadline, juror drawing deadline and dispute closure deadline not in a valid order with respect to current time.
    DisputeTimingsNotValid,
    /// Join party not allowed outside of it's deadline.
    JoinPartyDeadlineViolated,
    /// Can't approve a dispute when it's deadlines passed from current time.
    ApproveMissedDeadlineDispute,
    /// Dispute has already been approved.
    DisputeAlreadyApproved,
    /// Join juror not allowed outside of it's deadline.
    JoinJurorDeadlineViolated,
    /// Draw juror not allowed outside of it's deadline.
    DrawJurorDeadlineViolated,
    /// Voting not allowed outside of it's deadline.
    VoteDeadlineViolated,
    /// Can't withdraw before drawing jurors.
    WithdrawBeforeJurorDrawProhibited,
    /// Can't withdraw before closing dispute.
    WithdrawBeforeClosingDisputeProhibited,
    /// Juror has already claimed the reward.
    JurorAlreadyClaimedReward,
    /// Nothing to withdraw.
    NothingToWithdraw,
}

/// The message that explains each error to a user.
pub open spec fn court_error_message(e: CourtError) -> Seq<char> {
    match e {
        CourtError::SettingsAlreadyCreated => "Settings have been already created."@,
        CourtError::NoJoinAuthorize => "You are not authorize to join this dispute."@,
        CourtError::MetadataNotInitialized => "Metadata of the juror NFT is not initialized."@,
        CourtError::MasterEditionNotInitialized => "Master Edition of the juror NFT is not initialized."@,
        CourtError::NFTNotValid => "Juror NFT is not valid."@,
        CourtError::SharesExceeded => "Total shares can not exceed more than 100 percent."@,
        CourtError::PayerNotMatchFirstApplicantParty => "First applicant party should be the transaction fee payer."@,
        CourtError::JurorNumbersNotCorrect => "Length of provided jurors is not correct."@,
        CourtError::JurorNotMatchedSigner => "Juror did not signed the transaction."@,
        CourtError::DisputeTimingsNotValid => "Juror joining deadline, juror drawing deadline and dispute closure deadline not in a valid order with respect to current time."@,
        CourtError::JoinPartyDeadlineViolated => "Join party not allowed outside of it's deadline."@,
        CourtError::ApproveMissedDeadlineDispute => "Can't approve a dispute when it's deadlines passed from current time."@,
        CourtError::DisputeAlreadyApproved => "Dispute has already been approved."@,
        CourtError::JoinJurorDeadlineViolated => "Join juror not allowed outside of it's deadline."@,
        CourtError::DrawJurorDeadlineViolated => "Draw juror not allowed outside of it's deadline."@,
        CourtError::VoteDeadlineViolated => "Voting not allowed outside of it's deadline."@,
        CourtError::WithdrawBeforeJurorDrawProhibited => "Can't withdraw before drawing jurors."@,
        CourtError::WithdrawBeforeClosingDisputeProhibited => "Can't withdraw before closing dispute."@,
        CourtError::JurorAlreadyClaimedReward => "Juror has already claimed the reward."@,
        CourtError::NothingToWithdraw => "Nothing to withdraw."@,
    }
}

impl CourtError {
    /// The message that explains this error to a user.
    pub fn message(&self) -> (r: &'static str)
        ensures
            r@ == court_error_message(*self),
    {
        match self {
            CourtError::SettingsAlreadyCreated => "Settings have been already created.",
            CourtError::NoJoinAuthorize => "You are not authorize to join this dispute.",
            CourtError::MetadataNotInitialized => "Metadata of the juror NFT is not initialized.",
            CourtError::MasterEditionNotInitialized => "Master Edition of the juror NFT is not initialized.",
            CourtError::NFTNotValid => "Juror NFT is not valid.",
            CourtError::SharesExceeded => "Total shares can not exceed more than 100 percent.",
            CourtError::PayerNotMatchFirstApplicantParty => "First applicant party should be the transaction fee payer.",
            CourtError::JurorNumbersNotCorrect => "Length of provided jurors is not correct.",
            CourtError::JurorNotMatchedSigner => "Juror did not signed the transaction.",
            CourtError::DisputeTimingsNotValid => "Juror joining deadline, juror drawing deadline and dispute closure deadline not in a valid order with respect to current time.",
            CourtError::JoinPartyDeadlineViolated => "Join party not allowed outside of it's deadline.",
            CourtError::ApproveMissedDeadlineDispute => "Can't approve a dispute when it's deadlines passed from current time.",
            CourtError::DisputeAlreadyApproved => "Dispute has already been approved.",
            CourtError::JoinJurorDeadlineViolated => "Join juror not allowed outside of it's deadline.",
            CourtError::DrawJurorDeadlineViolated => "Draw juror not allowed outside of it's deadline.",
            CourtError::VoteDeadlineViolated => "Voting not allowed outside of it's deadline.",
            CourtError::WithdrawBeforeJurorDrawProhibited => "Can't withdraw before drawing jurors.",
            CourtError::WithdrawBeforeClosingDisputeProhibited => "Can't withdraw before closing dispute.",
            CourtError::JurorAlreadyClaimedReward => "Juror has already claimed the reward.",
            CourtError::NothingToWithdraw => "Nothing to withdraw.",
        }
    }
}

/// Why `join_juror` was refused: a court rule, or the juror NFT's metadata
/// account did not read as metadata.
#[derive(Debug)]
pub enum InstructionError {
    Court(CourtError),
    Metadata(ProgramError),
}

} // verus!
