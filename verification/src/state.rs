//! The challenge and participant records and their invariants.
//!
//! A challenge holds only aggregate counters, never a collection of its
//! participants: each participant record is independently addressable and
//! independently settled, claimed, and closed, so every operation stays O(1)
//! whatever the participant count.

use vstd::prelude::*;

use crate::ids::{AccountId, MAX_ID_LENGTH};

verus! {

/// Lifecycle of a challenge. `Created → Started → Ended → Settled`, with the
/// alternate terminal `Cancelled` reachable only from `Created`; no transition
/// skips a state and none is reversible.
#[derive(Clone, Copy, PartialEq, Eq, Structural, Debug)]
pub enum ChallengeStatus {
    /// Open for joining; no proof recorded yet.
    Created,
    /// At least one proof has been recorded.
    Started,
    /// The period is over; participants are being classified.
    Ended,
    /// Distribution has been computed; payouts may be claimed.
    Settled,
    /// Cancelled before start; stakes are refunded.
    Cancelled,
}

/// One staking competition: its immutable configuration and the aggregate
/// counters that the lifecycle mutates.
#[derive(Clone, Debug, PartialEq)]
pub struct Challenge {
    /// On-ledger address of this record, derived by the host from
    /// `challenge_id` and `admin`.
    pub address: AccountId,
    /// Short human-chosen identifier, unique per admin; 1 to
    /// `MAX_ID_LENGTH` bytes.
    pub challenge_id: Vec<u8>,
    /// Identity that created the challenge and collects the platform fee.
    pub admin: AccountId,
    /// The fungible asset staked in this challenge.
    pub token_mint: AccountId,
    /// Custodial account that holds all stakes while the challenge runs.
    pub escrow_vault: AccountId,
    /// Units of the asset each participant locks on joining; positive.
    pub stake_amount: u64,
    /// Length of the challenge period in days; positive.
    pub total_days: u32,
    /// Basis points of `total_days` a participant must prove to win.
    pub threshold_bps: u16,
    /// Basis points of the forfeited stakes taken as platform fee.
    pub platform_fee_bps: u16,
    /// Where in the lifecycle this challenge stands.
    pub status: ChallengeStatus,
    /// When the challenge period begins.
    pub start_ts: i64,
    /// When the challenge period ends: `start_ts + total_days * 86400`.
    pub end_ts: i64,
    /// How many participants ever joined.
    pub participant_count: u32,
    /// How many participant records are still open.
    pub active_participants: u32,
    /// How many settled participants met the threshold.
    pub winner_count: u32,
    /// How many settled participants missed the threshold.
    pub loser_count: u32,
    /// Units every winner receives on top of the returned stake.
    pub bonus_per_winner: u64,
    /// Platform fee still held in escrow for the admin.
    pub fee_amount: u64,
    /// Units of the distributable amount not covered by `bonus_per_winner`.
    pub remainder: u64,
    /// How many winners have claimed their payout.
    pub payouts_claimed_count: u32,
    /// How much of `remainder` has been handed out, one unit per claim.
    pub remainder_claimed: u64,
    /// The only identity allowed to record proofs and drive settlement.
    pub oracle_signer: AccountId,
    /// Derivation seed byte for the record's address, kept for the host.
    pub bump: u8,
}

/// One (challenge, user) enrollment: the user's stake, proof counter, and
/// settlement flags.
#[derive(Clone, Copy, Debug, PartialEq)]
pub struct Participant {
    /// The enrolled user.
    pub user: AccountId,
    /// Address of the owning challenge record.
    pub challenge: AccountId,
    /// Set when the record is created at join time.
    pub joined: bool,
    /// Exactly what the user deposited, kept apart from `stake_amount` for
    /// auditability; refunds return this value.
    pub stake_deposited: u64,
    /// How many proofs the oracle has recorded for this user.
    pub proof_days: u32,
    /// Whether settlement classified this user as a winner.
    pub is_winner: bool,
    /// Whether this user has been classified; set by exactly one settlement.
    pub is_settled: bool,
    /// Whether the winner payout has been transferred.
    pub payout_claimed: bool,
    /// Whether the cancellation refund has been transferred.
    pub refund_claimed: bool,
    /// Derivation seed byte for the record's address, kept for the host.
    pub bump: u8,
}

impl Challenge {
    /// Days of proof a participant needs to win:
    /// `floor(total_days * threshold_bps / 10000)`.
    pub open spec fn required_days(self) -> int {
        (self.total_days as int) * (self.threshold_bps as int) / 10000
    }

    /// Total stake forfeited by losing participants.
    pub open spec fn losers_stakes(self) -> int {
        (self.loser_count as int) * (self.stake_amount as int)
    }

    /// Platform's cut of the forfeited stakes:
    /// `floor(losers_stakes * platform_fee_bps / 10000)`.
    pub open spec fn platform_fee(self) -> int {
        self.losers_stakes() * (self.platform_fee_bps as int) / 10000
    }

    /// What is split among the winners: the forfeited stakes net of the fee.
    pub open spec fn distributable_amount(self) -> int {
        self.losers_stakes() - self.platform_fee()
    }

    /// The immutable configuration is valid as `create_challenge` demands.
    pub open spec fn config_wf(self) -> bool {
        &&& self.stake_amount > 0
        &&& self.total_days > 0
        &&& self.threshold_bps <= 10000
        &&& self.platform_fee_bps <= 1000
        &&& 1 <= self.challenge_id@.len() <= MAX_ID_LENGTH
        &&& self.end_ts as int == self.start_ts as int + (self.total_days as int) * 86400
    }

    /// The aggregate counters are consistent: no more active records than
    /// ever joined, no more classified participants than ever joined, and
    /// before a terminal status every joined record is still open.
    pub open spec fn counters_wf(self) -> bool {
        &&& self.active_participants <= self.participant_count
        &&& self.winner_count as int + self.loser_count as int <= self.participant_count as int
        &&& (self.status is Created || self.status is Started || self.status is Ended)
            ==> self.active_participants == self.participant_count
    }

    /// No distribution figure has been computed or claimed yet.
    pub open spec fn money_untouched(self) -> bool {
        &&& self.bonus_per_winner == 0
        &&& self.fee_amount == 0
        &&& self.remainder == 0
        &&& self.payouts_claimed_count == 0
        &&& self.remainder_claimed == 0
    }

    /// What `finalize_settlement` establishes and every later operation
    /// preserves: not a unit of the distributable amount is lost or handed
    /// out twice.
    pub open spec fn settled_wf(self) -> bool {
        &&& self.winner_count as int + self.loser_count as int == self.participant_count as int
        &&& (self.bonus_per_winner as int) * (self.winner_count as int) + self.remainder as int
            == self.distributable_amount()
        &&& self.payouts_claimed_count <= self.winner_count
        &&& self.fee_amount as int == self.platform_fee() || self.fee_amount == 0
        &&& self.winner_count > 0 ==> {
            &&& (self.remainder as int) < (self.winner_count as int)
            &&& self.remainder_claimed as int == if (self.payouts_claimed_count as int)
                <= (self.remainder as int) { self.payouts_claimed_count as int } else { self.remainder as int }
        }
        &&& self.winner_count == 0 ==> {
            &&& self.bonus_per_winner == 0
            &&& self.remainder as int == self.distributable_amount()
            &&& self.remainder_claimed == self.remainder
            &&& self.payouts_claimed_count == 0
        }
    }

    /// Well-formedness of a challenge record: established at creation and
    /// preserved by every operation of the engine.
    pub open spec fn wf(self) -> bool {
        &&& self.config_wf()
        &&& self.counters_wf()
        &&& (self.status is Created || self.status is Started || self.status is Cancelled)
            ==> (self.winner_count == 0 && self.loser_count == 0 && self.money_untouched())
        &&& self.status is Ended ==> self.money_untouched()
        &&& self.status is Settled ==> self.settled_wf()
    }

    /// What the k-th winner to claim (counting from zero) is paid: the stake
    /// back, the bonus, and one extra unit while the remainder lasts.
    pub open spec fn kth_payout(self, k: int) -> int {
        self.stake_amount as int + self.bonus_per_winner as int
            + if k < self.remainder as int { 1int } else { 0int }
    }

    /// Total paid out by the first `n` claims.
    pub open spec fn total_payouts(self, n: int) -> int
        decreases n,
    {
        if n <= 0 {
            0
        } else {
            self.total_payouts(n - 1) + self.kth_payout(n - 1)
        }
    }
}

} // verus!
