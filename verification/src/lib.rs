//! An escrow-backed habit-challenge staking engine.
//!
//! Participants lock a stake in a challenge's escrow, a designated oracle
//! attests daily proof-of-activity, and once the challenge period ends the
//! stakes of participants who missed the required-days threshold are
//! redistributed to those who met it, net of a platform fee.
//!
//! The crate holds the challenge lifecycle state machine, the settlement and
//! distribution arithmetic, and the claim/refund/fee disbursement rules, all
//! over plain values. Moving tokens on the underlying ledger, deriving
//! custodial addresses, and verifying caller signatures are the host's work:
//! every operation here takes the caller's identity and the current time as
//! arguments and returns the event record the host must act on.

pub mod disbursement;
pub mod errors;
pub mod events;
pub mod ids;
pub mod laws;
pub mod lifecycle;
pub mod settlement;
pub mod state;

pub use disbursement::{claim_payout, claim_refund, close_challenge, close_participant, withdraw_fees};
pub use errors::LockinError;
pub use events::{
    ChallengeCancelled, ChallengeClosed, ChallengeCreated, ChallengeJoined, ChallengeSettled,
    ChallengeSettlementStarted, FeeWithdrawn, ParticipantClosed, ParticipantSettled, PayoutClaimed,
    ProofRecorded, RefundClaimed,
};
pub use ids::{ids_equal, AccountId, MAX_ID_LENGTH};
pub use lifecycle::{cancel_challenge, create_challenge, join_challenge, record_proof};
pub use settlement::{finalize_settlement, settle_challenge, settle_participant};
pub use state::{Challenge, ChallengeStatus, Participant};
