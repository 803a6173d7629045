//! Disbursement: payouts, refunds, fee withdrawal, and closing records.
//!
//! Every operation here is single-shot per logical event; replay is
//! prevented by the record's flags and monotone counters, never by outside
//! deduplication. On success the host must perform the ledger transfer or
//! storage reclamation the returned event records.

use vstd::prelude::*;

use crate::errors::LockinError;
use crate::events::{
    ChallengeClosed, FeeWithdrawn, ParticipantClosed, PayoutClaimed, RefundClaimed,
};
use crate::ids::{ids_equal, AccountId};
use crate::state::{Challenge, ChallengeStatus, Participant};

verus! {

/// The conditions `claim_payout` enforces, in check order.
pub open spec fn claim_payout_checks(
    c: Challenge,
    p: Participant,
    challenge_id: Seq<u8>,
) -> Result<(), LockinError> {
    if c.challenge_id@ != challenge_id {
        Err(LockinError::ChallengeIdMismatch)
    } else if !(c.status is Settled) {
        Err(LockinError::ChallengeNotSettled)
    } else if !p.is_settled {
        Err(LockinError::NotSettled)
    } else if !p.is_winner {
        Err(LockinError::NotWinner)
    } else if p.payout_claimed {
        Err(LockinError::PayoutAlreadyClaimed)
    } else if c.payouts_claimed_count >= c.winner_count {
        Err(LockinError::AllPayoutsClaimed)
    } else if c.remainder_claimed < c.remainder && c.bonus_per_winner == u64::MAX {
        Err(LockinError::MathOverflow)
    } else if c.stake_amount as int + c.bonus_per_winner as int + (
        if c.remainder_claimed < c.remainder { 1int } else { 0int }
    ) > u64::MAX as int {
        Err(LockinError::MathOverflow)
    } else {
        Ok(())
    }
}

/// Pays a settled winner the stake back plus the bonus, with one extra unit
/// while the division remainder lasts — the remainder goes to the first
/// `remainder` winners in claim order, not stake order.
///
/// The `payout_claimed` flag and the `payouts_claimed_count` bound make the
/// payout at-most-once per participant. On success the host must move the
/// event's `amount` from the escrow vault to the participant, authorized by
/// the challenge's own derived authority.
pub fn claim_payout(
    challenge: &mut Challenge,
    participant: &mut Participant,
    challenge_id: &Vec<u8>,
) -> (r: Result<PayoutClaimed, LockinError>)
    requires
        old(challenge).wf(),
    ensures
        final(challenge).wf(),
        r is Err <==> claim_payout_checks(*old(challenge), *old(participant), challenge_id@) is Err,
        r is Err ==> r->Err_0 == claim_payout_checks(
            *old(challenge), *old(participant), challenge_id@,
        )->Err_0 && *final(challenge) == *old(challenge) && *final(participant) == *old(
            participant,
        ),
        r is Ok ==> ({
            let c0 = *old(challenge);
            let extra = if c0.remainder_claimed < c0.remainder { 1int } else { 0int };
            &&& *final(participant) == (Participant { payout_claimed: true, ..*old(participant) })
            &&& *final(challenge) == (Challenge {
                payouts_claimed_count: (c0.payouts_claimed_count + 1) as u32,
                remainder_claimed: (c0.remainder_claimed + extra) as u64,
                ..c0
            })
            &&& r->Ok_0.amount as int == c0.stake_amount as int + c0.bonus_per_winner as int
                + extra
            &&& r->Ok_0.amount as int == c0.kth_payout(c0.payouts_claimed_count as int)
            &&& r->Ok_0.challenge_id == c0.address
            &&& r->Ok_0.user == old(participant).user
        }),
{
    if !ids_equal(&challenge.challenge_id, challenge_id) {
        return Err(LockinError::ChallengeIdMismatch);
    }
    if !matches!(challenge.status, ChallengeStatus::Settled) {
        return Err(LockinError::ChallengeNotSettled);
    }
    if !participant.is_settled {
        return Err(LockinError::NotSettled);
    }
    if !participant.is_winner {
        return Err(LockinError::NotWinner);
    }
    if participant.payout_claimed {
        return Err(LockinError::PayoutAlreadyClaimed);
    }
    if challenge.payouts_claimed_count >= challenge.winner_count {
        return Err(LockinError::AllPayoutsClaimed);
    }
    let mut bonus: u64 = challenge.bonus_per_winner;
    let mut remainder_increment: u64 = 0;
    if challenge.remainder_claimed < challenge.remainder {
        bonus = match bonus.checked_add(1) {
            Some(b) => b,
            None => {
                return Err(LockinError::MathOverflow);
            },
        };
        remainder_increment = 1;
    }
    let payout_amount: u64 = match challenge.stake_amount.checked_add(bonus) {
        Some(v) => v,
        None => {
            return Err(LockinError::MathOverflow);
        },
    };
    participant.payout_claimed = true;
    challenge.payouts_claimed_count = challenge.payouts_claimed_count + 1;
    challenge.remainder_claimed = challenge.remainder_claimed + remainder_increment;
    let event = PayoutClaimed {
        challenge_id: challenge.address,
        user: participant.user,
        amount: payout_amount,
    };
    Ok(event)
}

/// The conditions `claim_refund` enforces, in check order.
pub open spec fn claim_refund_checks(
    c: Challenge,
    p: Participant,
    challenge_id: Seq<u8>,
) -> Result<(), LockinError> {
    if c.challenge_id@ != challenge_id {
        Err(LockinError::ChallengeIdMismatch)
    } else if !(c.status is Cancelled) {
        Err(LockinError::NotCancelled)
    } else if !p.joined {
        Err(LockinError::NotJoined)
    } else if p.refund_claimed {
        Err(LockinError::AlreadyClaimed)
    } else {
        Ok(())
    }
}

/// Returns a participant's deposit after cancellation — always exactly
/// `stake_deposited`, independent of the challenge's `stake_amount` at the
/// time of the refund.
///
/// On success the host must move the event's `amount` from the escrow vault
/// back to the participant.
pub fn claim_refund(
    challenge: &Challenge,
    participant: &mut Participant,
    challenge_id: &Vec<u8>,
) -> (r: Result<RefundClaimed, LockinError>)
    ensures
        r is Err <==> claim_refund_checks(*challenge, *old(participant), challenge_id@) is Err,
        r is Err ==> r->Err_0 == claim_refund_checks(
            *challenge, *old(participant), challenge_id@,
        )->Err_0 && *final(participant) == *old(participant),
        r is Ok ==> ({
            &&& *final(participant) == (Participant {
                refund_claimed: true,
                ..*old(participant)
            })
            &&& r->Ok_0 == (RefundClaimed {
                challenge_id: challenge.address,
                user: old(participant).user,
                amount: old(participant).stake_deposited,
            })
        }),
{
    if !ids_equal(&challenge.challenge_id, challenge_id) {
        return Err(LockinError::ChallengeIdMismatch);
    }
    if !matches!(challenge.status, ChallengeStatus::Cancelled) {
        return Err(LockinError::NotCancelled);
    }
    if !participant.joined {
        return Err(LockinError::NotJoined);
    }
    if participant.refund_claimed {
        return Err(LockinError::AlreadyClaimed);
    }
    participant.refund_claimed = true;
    let event = RefundClaimed {
        challenge_id: challenge.address,
        user: participant.user,
        amount: participant.stake_deposited,
    };
    Ok(event)
}

/// The conditions `withdraw_fees` enforces, in check order.
pub open spec fn withdraw_fees_checks(
    c: Challenge,
    admin: AccountId,
    challenge_id: Seq<u8>,
) -> Result<(), LockinError> {
    if c.challenge_id@ != challenge_id {
        Err(LockinError::ChallengeIdMismatch)
    } else if admin != c.admin {
        Err(LockinError::Unauthorized)
    } else if !(c.status is Settled || c.status is Cancelled) {
        Err(LockinError::InvalidChallengeStatus)
    } else if c.fee_amount == 0 {
        Err(LockinError::NoFees)
    } else {
        Ok(())
    }
}

/// Pays the accumulated platform fee to the admin and zeroes it; the zero
/// guard makes a second withdrawal fail.
///
/// On success the host must move the event's `amount` from the escrow vault
/// to the admin.
pub fn withdraw_fees(
    challenge: &mut Challenge,
    admin: AccountId,
    challenge_id: &Vec<u8>,
) -> (r: Result<FeeWithdrawn, LockinError>)
    requires
        old(challenge).wf(),
    ensures
        final(challenge).wf(),
        r is Err <==> withdraw_fees_checks(*old(challenge), admin, challenge_id@) is Err,
        r is Err ==> r->Err_0 == withdraw_fees_checks(*old(challenge), admin, challenge_id@)->Err_0
            && *final(challenge) == *old(challenge),
        r is Ok ==> ({
            &&& *final(challenge) == (Challenge { fee_amount: 0u64, ..*old(challenge) })
            &&& old(challenge).fee_amount > 0
            &&& r->Ok_0 == (FeeWithdrawn {
                challenge_id: old(challenge).address,
                admin: old(challenge).admin,
                amount: old(challenge).fee_amount,
            })
        }),
{
    if !ids_equal(&challenge.challenge_id, challenge_id) {
        return Err(LockinError::ChallengeIdMismatch);
    }
    if admin != challenge.admin {
        return Err(LockinError::Unauthorized);
    }
    if !(matches!(challenge.status, ChallengeStatus::Settled)
        || matches!(challenge.status, ChallengeStatus::Cancelled)) {
        return Err(LockinError::InvalidChallengeStatus);
    }
    if challenge.fee_amount == 0 {
        return Err(LockinError::NoFees);
    }
    let fee_amount = challenge.fee_amount;
    challenge.fee_amount = 0;
    let event = FeeWithdrawn {
        challenge_id: challenge.address,
        admin: challenge.admin,
        amount: fee_amount,
    };
    Ok(event)
}

/// The conditions `close_participant` enforces, in check order.
pub open spec fn close_participant_checks(
    c: Challenge,
    p: Participant,
    authority: AccountId,
    destination: AccountId,
    challenge_id: Seq<u8>,
) -> Result<(), LockinError> {
    if c.challenge_id@ != challenge_id {
        Err(LockinError::ChallengeIdMismatch)
    } else if p.user != destination {
        Err(LockinError::Unauthorized)
    } else if !(authority == p.user || authority == c.admin) {
        Err(LockinError::Unauthorized)
    } else if c.status is Settled {
        if !p.is_settled {
            Err(LockinError::NotSettled)
        } else if p.is_winner && !p.payout_claimed {
            Err(LockinError::PayoutNotClaimed)
        } else if c.active_participants == 0 {
            Err(LockinError::MathOverflow)
        } else {
            Ok(())
        }
    } else if c.status is Cancelled {
        if !p.refund_claimed {
            Err(LockinError::RefundNotClaimed)
        } else if c.active_participants == 0 {
            Err(LockinError::MathOverflow)
        } else {
            Ok(())
        }
    } else {
        Err(LockinError::ChallengeStillActive)
    }
}

/// Closes a participant record once its terminal obligation — payout for a
/// winner, nothing for a loser, refund after cancellation — is satisfied,
/// and uncounts it from `active_participants`, which therefore never goes
/// below zero.
///
/// The caller must be the participant or the admin, and the reclaimed
/// storage must go to the participant's own identity. On success the host
/// must reclaim the record's storage to `destination`.
pub fn close_participant(
    challenge: &mut Challenge,
    participant: &Participant,
    authority: AccountId,
    destination: AccountId,
    challenge_id: &Vec<u8>,
) -> (r: Result<ParticipantClosed, LockinError>)
    requires
        old(challenge).wf(),
    ensures
        final(challenge).wf(),
        r is Err <==> close_participant_checks(
            *old(challenge), *participant, authority, destination, challenge_id@,
        ) is Err,
        r is Err ==> r->Err_0 == close_participant_checks(
            *old(challenge), *participant, authority, destination, challenge_id@,
        )->Err_0 && *final(challenge) == *old(challenge),
        r is Ok ==> ({
            &&& old(challenge).active_participants > 0
            &&& *final(challenge) == (Challenge {
                active_participants: (old(challenge).active_participants - 1) as u32,
                ..*old(challenge)
            })
            &&& r->Ok_0 == (ParticipantClosed {
                challenge_id: old(challenge).address,
                user: participant.user,
                closed_by: authority,
            })
        }),
{
    if !ids_equal(&challenge.challenge_id, challenge_id) {
        return Err(LockinError::ChallengeIdMismatch);
    }
    if participant.user != destination {
        return Err(LockinError::Unauthorized);
    }
    if !(authority == participant.user || authority == challenge.admin) {
        return Err(LockinError::Unauthorized);
    }
    match challenge.status {
        ChallengeStatus::Settled => {
            if !participant.is_settled {
                return Err(LockinError::NotSettled);
            }
            if participant.is_winner && !participant.payout_claimed {
                return Err(LockinError::PayoutNotClaimed);
            }
        },
        ChallengeStatus::Cancelled => {
            if !participant.refund_claimed {
                return Err(LockinError::RefundNotClaimed);
            }
        },
        _ => {
            return Err(LockinError::ChallengeStillActive);
        },
    }
    if challenge.active_participants == 0 {
        return Err(LockinError::MathOverflow);
    }
    challenge.active_participants = challenge.active_participants - 1;
    let event = ParticipantClosed {
        challenge_id: challenge.address,
        user: participant.user,
        closed_by: authority,
    };
    Ok(event)
}

/// The conditions `close_challenge` enforces, in check order.
pub open spec fn close_challenge_checks(
    c: Challenge,
    admin: AccountId,
    challenge_id: Seq<u8>,
) -> Result<(), LockinError> {
    if c.challenge_id@ != challenge_id {
        Err(LockinError::ChallengeIdMismatch)
    } else if admin != c.admin {
        Err(LockinError::Unauthorized)
    } else if c.status is Settled {
        if c.payouts_claimed_count != c.winner_count {
            Err(LockinError::PendingWinnerPayouts)
        } else if c.remainder_claimed != c.remainder {
            Err(LockinError::PendingRemainderDistribution)
        } else if c.fee_amount != 0 {
            Err(LockinError::FeesUncollected)
        } else if c.active_participants != 0 {
            Err(LockinError::ParticipantsRemaining)
        } else {
            Ok(())
        }
    } else if c.status is Cancelled {
        if c.fee_amount != 0 {
            Err(LockinError::FeesUncollected)
        } else if c.active_participants != 0 {
            Err(LockinError::ParticipantsRemaining)
        } else {
            Ok(())
        }
    } else {
        Err(LockinError::ChallengeStillActive)
    }
}

/// Approves reclaiming the challenge record once every obligation is
/// discharged: for `Settled`, all payouts claimed, the remainder fully
/// handed out, and the fee collected; for `Cancelled`, the fee collected;
/// and in both cases no participant record still open.
///
/// On success the host must reclaim the record's storage to the admin.
pub fn close_challenge(
    challenge: &Challenge,
    admin: AccountId,
    challenge_id: &Vec<u8>,
) -> (r: Result<ChallengeClosed, LockinError>)
    ensures
        r is Err <==> close_challenge_checks(*challenge, admin, challenge_id@) is Err,
        r is Err ==> r->Err_0 == close_challenge_checks(*challenge, admin, challenge_id@)->Err_0,
        r is Ok ==> ({
            &&& challenge.active_participants == 0
            &&& challenge.fee_amount == 0
            &&& challenge.status is Settled ==> {
                &&& challenge.payouts_claimed_count == challenge.winner_count
                &&& challenge.remainder_claimed == challenge.remainder
            }
            &&& r->Ok_0 == (ChallengeClosed {
                challenge_id: challenge.address,
                admin: challenge.admin,
            })
        }),
{
    if !ids_equal(&challenge.challenge_id, challenge_id) {
        return Err(LockinError::ChallengeIdMismatch);
    }
    if admin != challenge.admin {
        return Err(LockinError::Unauthorized);
    }
    match challenge.status {
        ChallengeStatus::Settled => {
            if challenge.payouts_claimed_count != challenge.winner_count {
                return Err(LockinError::PendingWinnerPayouts);
            }
            if challenge.remainder_claimed != challenge.remainder {
                return Err(LockinError::PendingRemainderDistribution);
            }
            if challenge.fee_amount != 0 {
                return Err(LockinError::FeesUncollected);
            }
        },
        ChallengeStatus::Cancelled => {
            if challenge.fee_amount != 0 {
                return Err(LockinError::FeesUncollected);
            }
        },
        _ => {
            return Err(LockinError::ChallengeStillActive);
        },
    }
    if challenge.active_participants != 0 {
        return Err(LockinError::ParticipantsRemaining);
    }
    let event = ChallengeClosed {
        challenge_id: challenge.address,
        admin: challenge.admin,
    };
    Ok(event)
}

} // verus!
