//! Named failure conditions.
//!
//! Every operation fails synchronously with one of these conditions and
//! leaves all state untouched; the engine never retries or rolls back.

use vstd::prelude::*;

verus! {

/// The specific condition on which an operation was refused.
#[derive(Clone, Copy, PartialEq, Eq, Structural, Debug)]
pub enum LockinError {
    /// The stake amount must be positive.
    InvalidAmount,
    /// The challenge must run for at least one day.
    InvalidDuration,
    /// The win threshold must be at most 10000 basis points.
    InvalidThreshold,
    /// The platform fee must be at most 1000 basis points.
    InvalidFee,
    /// The start time must lie strictly in the future.
    InvalidStartTime,
    /// The challenge identifier must not be empty.
    ChallengeIdEmpty,
    /// The challenge identifier must fit in `MAX_ID_LENGTH` bytes.
    ChallengeIdTooLong,
    /// The identifier supplied with the call does not name this challenge.
    ChallengeIdMismatch,
    /// The challenge is not in a status that admits this operation.
    InvalidChallengeStatus,
    /// The challenge has already started.
    ChallengeStarted,
    /// The challenge has not started yet.
    ChallengeNotStarted,
    /// The challenge period is already over.
    ChallengeEnded,
    /// The user never joined this challenge.
    NotJoined,
    /// The caller is not the designated oracle.
    InvalidOracle,
    /// The challenge period is not over yet.
    ChallengeNotEnded,
    /// The participant was already settled.
    AlreadySettled,
    /// Not every participant has been settled yet.
    SettlementIncomplete,
    /// The challenge has not been finalized.
    ChallengeNotSettled,
    /// The participant did not meet the threshold.
    NotWinner,
    /// The payout was already claimed.
    PayoutAlreadyClaimed,
    /// The caller is not entitled to this action.
    Unauthorized,
    /// The challenge was not cancelled.
    NotCancelled,
    /// The refund was already claimed.
    AlreadyClaimed,
    /// There are no fees to withdraw.
    NoFees,
    /// The participant has not been settled yet.
    NotSettled,
    /// A counter increment or an addition would overflow.
    MathOverflow,
    /// The challenge has not reached a terminal status.
    ChallengeStillActive,
    /// Winner payouts are still outstanding.
    PendingWinnerPayouts,
    /// Every winner payout has already been claimed.
    AllPayoutsClaimed,
    /// The division remainder has not been fully handed out.
    PendingRemainderDistribution,
    /// Participant records remain open.
    ParticipantsRemaining,
    /// The winner has not claimed the payout yet.
    PayoutNotClaimed,
    /// The refund has not been claimed yet.
    RefundNotClaimed,
    /// Platform fees are still held in escrow.
    FeesUncollected,
}

} // verus!
