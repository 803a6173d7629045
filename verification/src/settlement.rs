//! Settlement: ending the period, classifying participants, and computing
//! the distribution.
//!
//! Settlement is split into three oracle-driven steps so that each call does
//! O(1) work whatever the participant count: `settle_challenge` ends the
//! period, `settle_participant` classifies one participant per call, and
//! `finalize_settlement` — gated on every participant having been classified
//! — computes the fee, the bonus per winner, and the remainder.

use vstd::prelude::*;

use vstd::arithmetic::div_mod::{
    lemma_div_pos_is_pos, lemma_fundamental_div_mod, lemma_mod_division_less_than_divisor,
    lemma_multiply_divide_le,
};
use vstd::arithmetic::mul::{lemma_mul_inequality, lemma_mul_upper_bound};

use crate::errors::LockinError;
use crate::events::{ChallengeSettled, ChallengeSettlementStarted, ParticipantSettled};
use crate::ids::{ids_equal, AccountId};
use crate::state::{Challenge, ChallengeStatus, Participant};

verus! {

/// The conditions `settle_challenge` enforces, in check order.
pub open spec fn settle_challenge_checks(
    c: Challenge,
    oracle: AccountId,
    challenge_id: Seq<u8>,
    now: i64,
) -> Result<(), LockinError> {
    if c.challenge_id@ != challenge_id {
        Err(LockinError::ChallengeIdMismatch)
    } else if !(c.status is Created || c.status is Started) {
        Err(LockinError::InvalidChallengeStatus)
    } else if now <= c.end_ts {
        Err(LockinError::ChallengeNotEnded)
    } else if oracle != c.oracle_signer {
        Err(LockinError::InvalidOracle)
    } else {
        Ok(())
    }
}

/// Ends the challenge period: oracle only, only after `end_ts`. Transitions
/// to `Ended` and reports the required-days threshold for observers; no
/// participant is touched.
pub fn settle_challenge(
    challenge: &mut Challenge,
    oracle: AccountId,
    challenge_id: &Vec<u8>,
    now: i64,
) -> (r: Result<ChallengeSettlementStarted, LockinError>)
    requires
        old(challenge).wf(),
    ensures
        final(challenge).wf(),
        r is Err <==> settle_challenge_checks(*old(challenge), oracle, challenge_id@, now) is Err,
        r is Err ==> r->Err_0 == settle_challenge_checks(
            *old(challenge), oracle, challenge_id@, now,
        )->Err_0 && *final(challenge) == *old(challenge),
        r is Ok ==> ({
            &&& *final(challenge) == (Challenge {
                status: ChallengeStatus::Ended,
                ..*old(challenge)
            })
            &&& r->Ok_0.challenge_id == old(challenge).address
            &&& r->Ok_0.required_days as int == old(challenge).required_days()
        }),
{
    if !ids_equal(&challenge.challenge_id, challenge_id) {
        return Err(LockinError::ChallengeIdMismatch);
    }
    if !(matches!(challenge.status, ChallengeStatus::Created)
        || matches!(challenge.status, ChallengeStatus::Started)) {
        return Err(LockinError::InvalidChallengeStatus);
    }
    if now <= challenge.end_ts {
        return Err(LockinError::ChallengeNotEnded);
    }
    if oracle != challenge.oracle_signer {
        return Err(LockinError::InvalidOracle);
    }
    let required_days = required_days_of(challenge);
    challenge.status = ChallengeStatus::Ended;
    let event = ChallengeSettlementStarted {
        challenge_id: challenge.address,
        required_days,
    };
    Ok(event)
}

/// Computes `floor(total_days * threshold_bps / 10000)`, the proof-days a
/// participant needs to win; never more than `total_days`.
fn required_days_of(challenge: &Challenge) -> (r: u32)
    requires
        challenge.threshold_bps <= 10000,
    ensures
        r as int == challenge.required_days(),
{
    let total_days: u64 = challenge.total_days as u64;
    let threshold_bps: u64 = challenge.threshold_bps as u64;
    proof {
        lemma_mul_upper_bound(total_days as int, u32::MAX as int, threshold_bps as int, 10000);
        lemma_mul_inequality(threshold_bps as int, 10000, total_days as int);
        lemma_multiply_divide_le(
            total_days as int * threshold_bps as int,
            10000,
            total_days as int,
        );
        lemma_div_pos_is_pos(total_days as int * threshold_bps as int, 10000);
    }
    let required_days: u64 = total_days * threshold_bps / 10000;
    required_days as u32
}

/// The conditions `settle_participant` enforces, in check order.
pub open spec fn settle_participant_checks(
    c: Challenge,
    p: Participant,
    oracle: AccountId,
    challenge_id: Seq<u8>,
) -> Result<(), LockinError> {
    if c.challenge_id@ != challenge_id {
        Err(LockinError::ChallengeIdMismatch)
    } else if !(c.status is Ended) {
        Err(LockinError::InvalidChallengeStatus)
    } else if oracle != c.oracle_signer {
        Err(LockinError::InvalidOracle)
    } else if p.is_settled {
        Err(LockinError::AlreadySettled)
    } else if p.proof_days as int >= c.required_days() && c.winner_count == u32::MAX {
        Err(LockinError::MathOverflow)
    } else if (p.proof_days as int) < c.required_days() && c.loser_count == u32::MAX {
        Err(LockinError::MathOverflow)
    } else {
        Ok(())
    }
}

/// Classifies one participant — winner if `proof_days` reached the
/// required-days threshold, loser otherwise — counts the outcome in the
/// challenge aggregates, and marks the participant settled.
///
/// The `is_settled` guard makes a second call on the same participant fail
/// rather than double-count; the order of calls across participants is
/// irrelevant. Well-formedness of the challenge is kept whenever some
/// joined participant is still unclassified, which the host guarantees by
/// only handing over participant records of this challenge.
pub fn settle_participant(
    challenge: &mut Challenge,
    participant: &mut Participant,
    oracle: AccountId,
    challenge_id: &Vec<u8>,
) -> (r: Result<ParticipantSettled, LockinError>)
    requires
        old(challenge).wf(),
    ensures
        r is Err ==> final(challenge).wf(),
        r is Ok && (old(challenge).winner_count as int + old(challenge).loser_count as int)
            < (old(challenge).participant_count as int) ==> final(challenge).wf(),
        r is Err <==> settle_participant_checks(
            *old(challenge), *old(participant), oracle, challenge_id@,
        ) is Err,
        r is Err ==> r->Err_0 == settle_participant_checks(
            *old(challenge), *old(participant), oracle, challenge_id@,
        )->Err_0 && *final(challenge) == *old(challenge) && *final(participant) == *old(
            participant,
        ),
        r is Ok ==> ({
            let won = old(participant).proof_days as int >= old(challenge).required_days();
            &&& *final(participant) == (Participant {
                is_winner: won || old(participant).is_winner,
                is_settled: true,
                ..*old(participant)
            })
            &&& *final(challenge) == (Challenge {
                winner_count: if won { (old(challenge).winner_count + 1) as u32 } else {
                    old(challenge).winner_count
                },
                loser_count: if won { old(challenge).loser_count } else {
                    (old(challenge).loser_count + 1) as u32
                },
                ..*old(challenge)
            })
            &&& r->Ok_0 == (ParticipantSettled {
                challenge_id: old(challenge).address,
                user: old(participant).user,
                is_winner: final(participant).is_winner,
                proof_days: old(participant).proof_days,
                required_days: old(challenge).required_days() as u32,
            })
        }),
{
    if !ids_equal(&challenge.challenge_id, challenge_id) {
        return Err(LockinError::ChallengeIdMismatch);
    }
    if !matches!(challenge.status, ChallengeStatus::Ended) {
        return Err(LockinError::InvalidChallengeStatus);
    }
    if oracle != challenge.oracle_signer {
        return Err(LockinError::InvalidOracle);
    }
    if participant.is_settled {
        return Err(LockinError::AlreadySettled);
    }
    let required_days = required_days_of(challenge);
    if participant.proof_days >= required_days {
        if challenge.winner_count == u32::MAX {
            return Err(LockinError::MathOverflow);
        }
        participant.is_winner = true;
        challenge.winner_count = challenge.winner_count + 1;
    } else {
        if challenge.loser_count == u32::MAX {
            return Err(LockinError::MathOverflow);
        }
        challenge.loser_count = challenge.loser_count + 1;
    }
    participant.is_settled = true;
    let event = ParticipantSettled {
        challenge_id: challenge.address,
        user: participant.user,
        is_winner: participant.is_winner,
        proof_days: participant.proof_days,
        required_days,
    };
    Ok(event)
}

/// The conditions `finalize_settlement` enforces, in check order.
pub open spec fn finalize_checks(
    c: Challenge,
    oracle: AccountId,
    challenge_id: Seq<u8>,
) -> Result<(), LockinError> {
    if c.challenge_id@ != challenge_id {
        Err(LockinError::ChallengeIdMismatch)
    } else if !(c.status is Ended) {
        Err(LockinError::InvalidChallengeStatus)
    } else if oracle != c.oracle_signer {
        Err(LockinError::InvalidOracle)
    } else if c.winner_count as int + c.loser_count as int != c.participant_count as int {
        Err(LockinError::SettlementIncomplete)
    } else if c.losers_stakes() > u64::MAX as int {
        Err(LockinError::MathOverflow)
    } else if c.losers_stakes() * (c.platform_fee_bps as int) > u64::MAX as int {
        Err(LockinError::MathOverflow)
    } else {
        Ok(())
    }
}

/// Computes the distribution once every participant is classified, and
/// transitions to `Settled` — a one-shot step, guarded by the transition
/// itself.
///
/// The forfeited stakes, net of the platform fee, are split evenly among
/// the winners; the division remainder is handed out one unit per claim.
/// With no winners the whole distributable amount is marked claimed at
/// once: nobody can claim it, and it leaves escrow only through the
/// fee and close paths.
pub fn finalize_settlement(
    challenge: &mut Challenge,
    oracle: AccountId,
    challenge_id: &Vec<u8>,
) -> (r: Result<ChallengeSettled, LockinError>)
    requires
        old(challenge).wf(),
    ensures
        final(challenge).wf(),
        r is Err <==> finalize_checks(*old(challenge), oracle, challenge_id@) is Err,
        r is Err ==> r->Err_0 == finalize_checks(*old(challenge), oracle, challenge_id@)->Err_0
            && *final(challenge) == *old(challenge),
        r is Ok ==> ({
            let c0 = *old(challenge);
            let w = c0.winner_count as int;
            let d = c0.distributable_amount();
            &&& *final(challenge) == (Challenge {
                status: ChallengeStatus::Settled,
                fee_amount: c0.platform_fee() as u64,
                bonus_per_winner: if w > 0 { (d / w) as u64 } else { 0u64 },
                remainder: if w > 0 { (d % w) as u64 } else { d as u64 },
                payouts_claimed_count: 0u32,
                remainder_claimed: if w > 0 { 0u64 } else { d as u64 },
                ..c0
            })
            &&& (final(challenge).bonus_per_winner as int) * w + final(challenge).remainder as int
                == d
            &&& r->Ok_0 == (ChallengeSettled {
                challenge_id: c0.address,
                winner_count: c0.winner_count,
                loser_count: c0.loser_count,
                bonus_per_winner: final(challenge).bonus_per_winner,
            })
        }),
{
    if !ids_equal(&challenge.challenge_id, challenge_id) {
        return Err(LockinError::ChallengeIdMismatch);
    }
    if !matches!(challenge.status, ChallengeStatus::Ended) {
        return Err(LockinError::InvalidChallengeStatus);
    }
    if oracle != challenge.oracle_signer {
        return Err(LockinError::InvalidOracle);
    }
    if !(challenge.winner_count as u64 + challenge.loser_count as u64
        == challenge.participant_count as u64) {
        return Err(LockinError::SettlementIncomplete);
    }
    let losers_stakes: u64 = match (challenge.loser_count as u64).checked_mul(
        challenge.stake_amount,
    ) {
        Some(v) => v,
        None => {
            return Err(LockinError::MathOverflow);
        },
    };
    let scaled: u64 = match losers_stakes.checked_mul(challenge.platform_fee_bps as u64) {
        Some(v) => v,
        None => {
            return Err(LockinError::MathOverflow);
        },
    };
    let platform_fee: u64 = scaled / 10000;
    proof {
        let ls: int = losers_stakes as int;
        let bps: int = challenge.platform_fee_bps as int;
        assert(ls * bps <= 10000 * ls) by (nonlinear_arith)
            requires
                0 <= ls,
                0 <= bps,
                bps <= 10000,
        ;
        lemma_multiply_divide_le(ls * bps, 10000, ls);
        lemma_div_pos_is_pos(ls * bps, 10000);
    }
    let distributable_amount: u64 = losers_stakes - platform_fee;

    challenge.fee_amount = platform_fee;
    challenge.payouts_claimed_count = 0;
    challenge.remainder_claimed = 0;
    if challenge.winner_count > 0 {
        let winners: u64 = challenge.winner_count as u64;
        challenge.bonus_per_winner = distributable_amount / winners;
        challenge.remainder = distributable_amount % winners;
        proof {
            lemma_fundamental_div_mod(distributable_amount as int, winners as int);
            lemma_mod_division_less_than_divisor(distributable_amount as int, winners as int);
        }
    } else {
        challenge.bonus_per_winner = 0;
        challenge.remainder = distributable_amount;
        challenge.remainder_claimed = distributable_amount;
    }
    challenge.status = ChallengeStatus::Settled;
    let event = ChallengeSettled {
        challenge_id: challenge.address,
        winner_count: challenge.winner_count,
        loser_count: challenge.loser_count,
        bonus_per_winner: challenge.bonus_per_winner,
    };
    Ok(event)
}

} // verus!
