//! Challenge lifecycle: creation, joining, proof recording, cancellation.
//!
//! Each operation first runs the precondition checks of its `..._checks`
//! spec function, in that exact order, and fails with the first violated
//! condition, touching no state. The host verifies caller signatures and
//! supplies the caller's identity and the current time.

use vstd::prelude::*;

use crate::errors::LockinError;
use crate::events::{ChallengeCancelled, ChallengeCreated, ChallengeJoined, ProofRecorded};
use crate::ids::{ids_equal, AccountId, MAX_ID_LENGTH};
use crate::state::{Challenge, ChallengeStatus, Participant};

verus! {

/// The conditions `create_challenge` enforces, in check order.
pub open spec fn create_checks(
    challenge_id: Seq<u8>,
    stake_amount: u64,
    total_days: u32,
    threshold_bps: u16,
    platform_fee_bps: u16,
    start_ts: i64,
    now: i64,
) -> Result<(), LockinError> {
    if stake_amount == 0 {
        Err(LockinError::InvalidAmount)
    } else if total_days == 0 {
        Err(LockinError::InvalidDuration)
    } else if threshold_bps > 10000 {
        Err(LockinError::InvalidThreshold)
    } else if platform_fee_bps > 1000 {
        Err(LockinError::InvalidFee)
    } else if start_ts <= now {
        Err(LockinError::InvalidStartTime)
    } else if challenge_id.len() == 0 {
        Err(LockinError::ChallengeIdEmpty)
    } else if challenge_id.len() > MAX_ID_LENGTH {
        Err(LockinError::ChallengeIdTooLong)
    } else if start_ts as int + (total_days as int) * 86400 > i64::MAX as int {
        Err(LockinError::MathOverflow)
    } else {
        Ok(())
    }
}

/// Validates the configuration and initializes a challenge in status
/// `Created` with every aggregate counter at zero.
///
/// The host derives `address`, `escrow_vault`, and `bump` from
/// `challenge_id` and `admin`, opens the escrow, and checks that `admin`
/// signed the call; `now` is the current ledger time.
pub fn create_challenge(
    address: AccountId,
    admin: AccountId,
    token_mint: AccountId,
    escrow_vault: AccountId,
    bump: u8,
    challenge_id: Vec<u8>,
    stake_amount: u64,
    total_days: u32,
    threshold_bps: u16,
    platform_fee_bps: u16,
    start_ts: i64,
    oracle_signer: AccountId,
    now: i64,
) -> (r: Result<(Challenge, ChallengeCreated), LockinError>)
    ensures
        r is Err <==> create_checks(
            challenge_id@, stake_amount, total_days, threshold_bps,
            platform_fee_bps, start_ts, now,
        ) is Err,
        r is Err ==> r->Err_0 == create_checks(
            challenge_id@, stake_amount, total_days, threshold_bps,
            platform_fee_bps, start_ts, now,
        )->Err_0,
        r is Ok ==> ({
            let c = r->Ok_0.0;
            let ev = r->Ok_0.1;
            &&& c == (Challenge {
                address,
                challenge_id,
                admin,
                token_mint,
                escrow_vault,
                stake_amount,
                total_days,
                threshold_bps,
                platform_fee_bps,
                status: ChallengeStatus::Created,
                start_ts,
                end_ts: (start_ts + (total_days as int) * 86400) as i64,
                participant_count: 0,
                active_participants: 0,
                winner_count: 0,
                loser_count: 0,
                bonus_per_winner: 0,
                fee_amount: 0,
                remainder: 0,
                payouts_claimed_count: 0,
                remainder_claimed: 0,
                oracle_signer,
                bump,
            })
            &&& c.wf()
            &&& ev == (ChallengeCreated { challenge_id: address, admin, stake_amount, total_days, start_ts })
        }),
{
    if stake_amount == 0 {
        return Err(LockinError::InvalidAmount);
    }
    if total_days == 0 {
        return Err(LockinError::InvalidDuration);
    }
    if threshold_bps > 10000 {
        return Err(LockinError::InvalidThreshold);
    }
    if platform_fee_bps > 1000 {
        return Err(LockinError::InvalidFee);
    }
    if start_ts <= now {
        return Err(LockinError::InvalidStartTime);
    }
    if challenge_id.len() == 0 {
        return Err(LockinError::ChallengeIdEmpty);
    }
    if challenge_id.len() > MAX_ID_LENGTH {
        return Err(LockinError::ChallengeIdTooLong);
    }
    let duration: i64 = (total_days as i64) * 86400;
    let end_ts: i64 = match start_ts.checked_add(duration) {
        Some(e) => e,
        None => {
            return Err(LockinError::MathOverflow);
        },
    };
    let challenge = Challenge {
        address,
        challenge_id,
        admin,
        token_mint,
        escrow_vault,
        stake_amount,
        total_days,
        threshold_bps,
        platform_fee_bps,
        status: ChallengeStatus::Created,
        start_ts,
        end_ts,
        participant_count: 0,
        active_participants: 0,
        winner_count: 0,
        loser_count: 0,
        bonus_per_winner: 0,
        fee_amount: 0,
        remainder: 0,
        payouts_claimed_count: 0,
        remainder_claimed: 0,
        oracle_signer,
        bump,
    };
    let event = ChallengeCreated { challenge_id: address, admin, stake_amount, total_days, start_ts };
    Ok((challenge, event))
}

/// The conditions `join_challenge` enforces, in check order.
pub open spec fn join_checks(c: Challenge, challenge_id: Seq<u8>, now: i64) -> Result<
    (),
    LockinError,
> {
    if c.challenge_id@ != challenge_id {
        Err(LockinError::ChallengeIdMismatch)
    } else if !(c.status is Created) {
        Err(LockinError::InvalidChallengeStatus)
    } else if now >= c.start_ts {
        Err(LockinError::ChallengeStarted)
    } else if c.participant_count == u32::MAX || c.active_participants == u32::MAX {
        Err(LockinError::MathOverflow)
    } else {
        Ok(())
    }
}

/// Enrolls `user`: creates the participant record and counts it in the
/// challenge aggregates.
///
/// On success the host must move `stake_amount` from the user's token
/// account into the escrow vault, as the returned event records, and store
/// the returned participant record at the address it derives from the
/// challenge address and `user` (with seed byte `bump`).
pub fn join_challenge(
    challenge: &mut Challenge,
    user: AccountId,
    bump: u8,
    challenge_id: &Vec<u8>,
    now: i64,
) -> (r: Result<(Participant, ChallengeJoined), LockinError>)
    requires
        old(challenge).wf(),
    ensures
        final(challenge).wf(),
        r is Err <==> join_checks(*old(challenge), challenge_id@, now) is Err,
        r is Err ==> r->Err_0 == join_checks(*old(challenge), challenge_id@, now)->Err_0
            && *final(challenge) == *old(challenge),
        r is Ok ==> ({
            let p = r->Ok_0.0;
            let ev = r->Ok_0.1;
            &&& *final(challenge) == (Challenge {
                participant_count: (old(challenge).participant_count + 1) as u32,
                active_participants: (old(challenge).active_participants + 1) as u32,
                ..*old(challenge)
            })
            &&& p == (Participant {
                user,
                challenge: old(challenge).address,
                joined: true,
                stake_deposited: old(challenge).stake_amount,
                proof_days: 0,
                is_winner: false,
                is_settled: false,
                payout_claimed: false,
                refund_claimed: false,
                bump,
            })
            &&& ev == (ChallengeJoined {
                challenge_id: old(challenge).address,
                user,
                stake_amount: old(challenge).stake_amount,
            })
        }),
{
    if !ids_equal(&challenge.challenge_id, challenge_id) {
        return Err(LockinError::ChallengeIdMismatch);
    }
    if !matches!(challenge.status, ChallengeStatus::Created) {
        return Err(LockinError::InvalidChallengeStatus);
    }
    if now >= challenge.start_ts {
        return Err(LockinError::ChallengeStarted);
    }
    if challenge.participant_count == u32::MAX || challenge.active_participants == u32::MAX {
        return Err(LockinError::MathOverflow);
    }
    let participant = Participant {
        user,
        challenge: challenge.address,
        joined: true,
        stake_deposited: challenge.stake_amount,
        proof_days: 0,
        is_winner: false,
        is_settled: false,
        payout_claimed: false,
        refund_claimed: false,
        bump,
    };
    challenge.participant_count = challenge.participant_count + 1;
    challenge.active_participants = challenge.active_participants + 1;
    let event = ChallengeJoined {
        challenge_id: challenge.address,
        user,
        stake_amount: challenge.stake_amount,
    };
    Ok((participant, event))
}

/// The conditions `record_proof` enforces, in check order.
pub open spec fn record_proof_checks(
    c: Challenge,
    p: Participant,
    oracle: AccountId,
    challenge_id: Seq<u8>,
    now: i64,
) -> Result<(), LockinError> {
    if c.challenge_id@ != challenge_id {
        Err(LockinError::ChallengeIdMismatch)
    } else if !(c.status is Created || c.status is Started) {
        Err(LockinError::InvalidChallengeStatus)
    } else if now < c.start_ts {
        Err(LockinError::ChallengeNotStarted)
    } else if now > c.end_ts {
        Err(LockinError::ChallengeEnded)
    } else if !p.joined {
        Err(LockinError::NotJoined)
    } else if oracle != c.oracle_signer {
        Err(LockinError::InvalidOracle)
    } else if p.proof_days == u32::MAX {
        Err(LockinError::MathOverflow)
    } else {
        Ok(())
    }
}

/// Records one day of proof-of-activity for a participant, moving the
/// challenge from `Created` to `Started` on the first proof.
///
/// Only the designated oracle may call, and only inside the challenge
/// period. Call cadence is entirely the oracle's responsibility: nothing
/// here prevents several proofs on the same calendar day, or more than
/// `total_days` proofs in all.
pub fn record_proof(
    challenge: &mut Challenge,
    participant: &mut Participant,
    oracle: AccountId,
    challenge_id: &Vec<u8>,
    now: i64,
) -> (r: Result<ProofRecorded, LockinError>)
    requires
        old(challenge).wf(),
    ensures
        final(challenge).wf(),
        r is Err <==> record_proof_checks(
            *old(challenge), *old(participant), oracle, challenge_id@, now,
        ) is Err,
        r is Err ==> r->Err_0 == record_proof_checks(
            *old(challenge), *old(participant), oracle, challenge_id@, now,
        )->Err_0 && *final(challenge) == *old(challenge) && *final(participant) == *old(
            participant,
        ),
        r is Ok ==> ({
            &&& *final(challenge) == (Challenge {
                status: ChallengeStatus::Started,
                ..*old(challenge)
            })
            &&& *final(participant) == (Participant {
                proof_days: (old(participant).proof_days + 1) as u32,
                ..*old(participant)
            })
            &&& r->Ok_0 == (ProofRecorded {
                challenge_id: old(challenge).address,
                user: old(participant).user,
                proof_days: (old(participant).proof_days + 1) as u32,
            })
        }),
{
    if !ids_equal(&challenge.challenge_id, challenge_id) {
        return Err(LockinError::ChallengeIdMismatch);
    }
    if !(matches!(challenge.status, ChallengeStatus::Created)
        || matches!(challenge.status, ChallengeStatus::Started)) {
        return Err(LockinError::InvalidChallengeStatus);
    }
    if now < challenge.start_ts {
        return Err(LockinError::ChallengeNotStarted);
    }
    if now > challenge.end_ts {
        return Err(LockinError::ChallengeEnded);
    }
    if !participant.joined {
        return Err(LockinError::NotJoined);
    }
    if oracle != challenge.oracle_signer {
        return Err(LockinError::InvalidOracle);
    }
    if participant.proof_days == u32::MAX {
        return Err(LockinError::MathOverflow);
    }
    challenge.status = ChallengeStatus::Started;
    participant.proof_days = participant.proof_days + 1;
    let event = ProofRecorded {
        challenge_id: challenge.address,
        user: participant.user,
        proof_days: participant.proof_days,
    };
    Ok(event)
}

/// The conditions `cancel_challenge` enforces, in check order.
pub open spec fn cancel_checks(
    c: Challenge,
    admin: AccountId,
    challenge_id: Seq<u8>,
    now: i64,
) -> Result<(), LockinError> {
    if c.challenge_id@ != challenge_id {
        Err(LockinError::ChallengeIdMismatch)
    } else if admin != c.admin {
        Err(LockinError::Unauthorized)
    } else if !(c.status is Created) {
        Err(LockinError::InvalidChallengeStatus)
    } else if now >= c.start_ts {
        Err(LockinError::ChallengeStarted)
    } else {
        Ok(())
    }
}

/// Cancels a challenge, admin only, only from `Created` and only before
/// `start_ts`. No funds move here: each participant claims a refund
/// afterwards, and the record closes once all refunds are out.
pub fn cancel_challenge(
    challenge: &mut Challenge,
    admin: AccountId,
    challenge_id: &Vec<u8>,
    now: i64,
) -> (r: Result<ChallengeCancelled, LockinError>)
    requires
        old(challenge).wf(),
    ensures
        final(challenge).wf(),
        r is Err <==> cancel_checks(*old(challenge), admin, challenge_id@, now) is Err,
        r is Err ==> r->Err_0 == cancel_checks(*old(challenge), admin, challenge_id@, now)->Err_0
            && *final(challenge) == *old(challenge),
        r is Ok ==> ({
            &&& *final(challenge) == (Challenge {
                status: ChallengeStatus::Cancelled,
                ..*old(challenge)
            })
            &&& r->Ok_0 == (ChallengeCancelled {
                challenge_id: old(challenge).address,
                admin: old(challenge).admin,
            })
        }),
{
    if !ids_equal(&challenge.challenge_id, challenge_id) {
        return Err(LockinError::ChallengeIdMismatch);
    }
    if admin != challenge.admin {
        return Err(LockinError::Unauthorized);
    }
    if !matches!(challenge.status, ChallengeStatus::Created) {
        return Err(LockinError::InvalidChallengeStatus);
    }
    if now >= challenge.start_ts {
        return Err(LockinError::ChallengeStarted);
    }
    challenge.status = ChallengeStatus::Cancelled;
    let event = ChallengeCancelled {
        challenge_id: challenge.address,
        admin: challenge.admin,
    };
    Ok(event)
}

} // verus!
