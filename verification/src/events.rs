//! Event records.
//!
//! Every successful operation returns one of these structured records for
//! off-engine observers; the engine itself never consumes them. Where an
//! operation moves value, its event also carries the exact amount the host
//! must transfer on the ledger.

use vstd::prelude::*;

use crate::ids::AccountId;

verus! {

/// A challenge was created and its escrow opened.
#[derive(Clone, Copy, PartialEq, Eq, Structural, Debug)]
pub struct ChallengeCreated {
    pub challenge_id: AccountId,
    pub admin: AccountId,
    pub stake_amount: u64,
    pub total_days: u32,
    pub start_ts: i64,
}

/// A user joined and `stake_amount` moved into escrow.
#[derive(Clone, Copy, PartialEq, Eq, Structural, Debug)]
pub struct ChallengeJoined {
    pub challenge_id: AccountId,
    pub user: AccountId,
    pub stake_amount: u64,
}

/// The oracle recorded one day of proof for a user.
#[derive(Clone, Copy, PartialEq, Eq, Structural, Debug)]
pub struct ProofRecorded {
    pub challenge_id: AccountId,
    pub user: AccountId,
    pub proof_days: u32,
}

/// The period is over; classification may begin against `required_days`.
#[derive(Clone, Copy, PartialEq, Eq, Structural, Debug)]
pub struct ChallengeSettlementStarted {
    pub challenge_id: AccountId,
    pub required_days: u32,
}

/// One participant was classified as winner or loser.
#[derive(Clone, Copy, PartialEq, Eq, Structural, Debug)]
pub struct ParticipantSettled {
    pub challenge_id: AccountId,
    pub user: AccountId,
    pub is_winner: bool,
    pub proof_days: u32,
    pub required_days: u32,
}

/// Distribution was finalized; payouts may be claimed.
#[derive(Clone, Copy, PartialEq, Eq, Structural, Debug)]
pub struct ChallengeSettled {
    pub challenge_id: AccountId,
    pub winner_count: u32,
    pub loser_count: u32,
    pub bonus_per_winner: u64,
}

/// A winner was paid `amount` out of escrow.
#[derive(Clone, Copy, PartialEq, Eq, Structural, Debug)]
pub struct PayoutClaimed {
    pub challenge_id: AccountId,
    pub user: AccountId,
    pub amount: u64,
}

/// The admin cancelled the challenge before it started.
#[derive(Clone, Copy, PartialEq, Eq, Structural, Debug)]
pub struct ChallengeCancelled {
    pub challenge_id: AccountId,
    pub admin: AccountId,
}

/// A participant's deposit of `amount` was returned out of escrow.
#[derive(Clone, Copy, PartialEq, Eq, Structural, Debug)]
pub struct RefundClaimed {
    pub challenge_id: AccountId,
    pub user: AccountId,
    pub amount: u64,
}

/// The accumulated platform fee of `amount` was paid to the admin.
#[derive(Clone, Copy, PartialEq, Eq, Structural, Debug)]
pub struct FeeWithdrawn {
    pub challenge_id: AccountId,
    pub admin: AccountId,
    pub amount: u64,
}

/// A participant record was closed and its storage reclaimed.
#[derive(Clone, Copy, PartialEq, Eq, Structural, Debug)]
pub struct ParticipantClosed {
    pub challenge_id: AccountId,
    pub user: AccountId,
    pub closed_by: AccountId,
}

/// The challenge record was closed and its storage reclaimed.
#[derive(Clone, Copy, PartialEq, Eq, Structural, Debug)]
pub struct ChallengeClosed {
    pub challenge_id: AccountId,
    pub admin: AccountId,
}

} // verus!
