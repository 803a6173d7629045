//! The engine's cross-operation guarantees, stated as proof functions.
//!
//! Each law is proved from the operations' contracts and the record
//! invariants alone; nothing here is executable.

use vstd::prelude::*;

use crate::disbursement::{claim_payout_checks, close_challenge_checks};
use crate::errors::LockinError;
use crate::ids::AccountId;
use crate::settlement::settle_participant_checks;
use crate::state::{Challenge, Participant};

verus! {

/// Law: in every finalized challenge,
/// `bonus_per_winner * winner_count + remainder == distributable_amount`,
/// where the distributable amount is the forfeited stakes net of the
/// platform fee — the split loses no unit and allocates none twice.
pub proof fn lemma_finalized_conservation(c: Challenge)
    requires
        c.wf(),
        c.status is Settled,
    ensures
        (c.bonus_per_winner as int) * (c.winner_count as int) + c.remainder as int
            == c.distributable_amount(),
        c.distributable_amount() == (c.loser_count as int) * (c.stake_amount as int)
            - c.platform_fee(),
{
}

/// Law: a participant is settled by at most one `settle_participant` call.
/// Once the `is_settled` flag stands, a further attempt on the same record
/// fails with `AlreadySettled` and counts nothing.
pub proof fn lemma_settle_participant_at_most_once(
    c: Challenge,
    p: Participant,
    oracle: AccountId,
    challenge_id: Seq<u8>,
)
    requires
        p.is_settled,
        c.challenge_id@ == challenge_id,
        c.status is Ended,
        oracle == c.oracle_signer,
    ensures
        settle_participant_checks(c, p, oracle, challenge_id) == Err::<(), LockinError>(
            LockinError::AlreadySettled,
        ),
{
}

/// The first `n` payouts total `n * (stake_amount + bonus_per_winner)`
/// plus however much of the remainder the first `n` claims could take.
proof fn lemma_total_payouts_value(c: Challenge, n: int)
    requires
        0 <= n,
    ensures
        c.total_payouts(n) == n * (c.stake_amount as int + c.bonus_per_winner as int) + if n
            <= c.remainder as int { n } else { c.remainder as int },
    decreases n,
{
    if n > 0 {
        lemma_total_payouts_value(c, n - 1);
        let x: int = c.stake_amount as int + c.bonus_per_winner as int;
        assert(n * x == (n - 1) * x + x) by (nonlinear_arith);
    }
}

/// Law: with at least one winner, the amounts paid over all `winner_count`
/// payout claims sum to `winner_count * stake_amount` plus the whole
/// distributable amount — every forfeited unit net of the fee reaches a
/// winner exactly once, whatever the claim order.
pub proof fn lemma_payout_conservation(c: Challenge)
    requires
        c.wf(),
        c.status is Settled,
        c.winner_count > 0,
    ensures
        c.total_payouts(c.winner_count as int) == (c.winner_count as int) * (
        c.stake_amount as int) + c.distributable_amount(),
{
    let w: int = c.winner_count as int;
    let stake: int = c.stake_amount as int;
    let bonus: int = c.bonus_per_winner as int;
    lemma_total_payouts_value(c, w);
    assert(w * (stake + bonus) == w * stake + w * bonus) by (nonlinear_arith);
    assert(w * bonus == bonus * w) by (nonlinear_arith);
}

/// Law: in a finalized challenge the claim counter never exceeds the winner
/// count.
pub proof fn lemma_payouts_never_exceed_winners(c: Challenge)
    requires
        c.wf(),
        c.status is Settled,
    ensures
        c.payouts_claimed_count <= c.winner_count,
{
}

/// Law: once `payouts_claimed_count` has reached `winner_count`, a claim
/// attempt fails with `AllPayoutsClaimed` even for a settled, unpaid
/// winner.
pub proof fn lemma_claim_after_all_paid_fails(
    c: Challenge,
    p: Participant,
    challenge_id: Seq<u8>,
)
    requires
        c.status is Settled,
        c.payouts_claimed_count == c.winner_count,
        c.challenge_id@ == challenge_id,
        p.is_settled,
        p.is_winner,
        !p.payout_claimed,
    ensures
        claim_payout_checks(c, p, challenge_id) == Err::<(), LockinError>(
            LockinError::AllPayoutsClaimed,
        ),
{
}

/// Law: `close_challenge` never succeeds while participant records remain
/// open, whoever calls and whatever the status.
pub proof fn lemma_close_challenge_needs_no_active(
    c: Challenge,
    admin: AccountId,
    challenge_id: Seq<u8>,
)
    requires
        c.active_participants != 0,
    ensures
        close_challenge_checks(c, admin, challenge_id) is Err,
{
}

/// Law: a challenge finalized with no winners carries no bonus, keeps the
/// whole distributable amount as the remainder, and marks it claimed at
/// once — nobody can ever claim it, and closing is not blocked on it.
pub proof fn lemma_no_winners_remainder_settled(c: Challenge)
    requires
        c.wf(),
        c.status is Settled,
        c.winner_count == 0,
    ensures
        c.bonus_per_winner == 0,
        c.remainder as int == c.distributable_amount(),
        c.remainder_claimed == c.remainder,
        c.payouts_claimed_count == 0,
{
}

} // verus!
