use lockin_stake::{
    create_challenge, finalize_settlement, join_challenge, record_proof, settle_challenge,
    settle_participant, AccountId, Challenge, ChallengeStatus, LockinError, Participant,
};

fn acct(v: u64) -> AccountId {
    AccountId { value: v }
}

/// stake 100, 10 days, threshold 7000 bps, fee 500 bps, start 1000, end 865000.
fn new_challenge() -> Challenge {
    let (c, _) = create_challenge(
        acct(1),
        acct(2),
        acct(3),
        acct(4),
        255,
        b"habit".to_vec(),
        100,
        10,
        7000,
        500,
        1_000,
        acct(5),
        0,
    )
    .unwrap();
    c
}

fn join_n(c: &mut Challenge, n: u64) -> Vec<Participant> {
    let id = b"habit".to_vec();
    let mut ps = Vec::new();
    for i in 0..n {
        let (p, _) = join_challenge(c, acct(100 + i), 1, &id, 10).unwrap();
        ps.push(p);
    }
    ps
}

fn give_proofs(c: &mut Challenge, p: &mut Participant, days: u32) {
    let id = b"habit".to_vec();
    for _ in 0..days {
        record_proof(c, p, acct(5), &id, 1_000).unwrap();
    }
}

#[test]
fn settle_challenge_ends_period() {
    let mut c = new_challenge();
    let mut ps = join_n(&mut c, 1);
    give_proofs(&mut c, &mut ps[0], 3);
    let ev = settle_challenge(&mut c, acct(5), &b"habit".to_vec(), 865_001).unwrap();
    assert_eq!(c.status, ChallengeStatus::Ended);
    assert_eq!(ev.challenge_id, acct(1));
    assert_eq!(ev.required_days, 7);
}

#[test]
fn settle_required_days_floors() {
    // threshold 6999 of 10 days floors to 6; 10000 gives all days; 0 gives none.
    for (threshold, expected) in [(6999u16, 6u32), (7000, 7), (10_000, 10), (0, 0)] {
        let (mut c, _) = create_challenge(
            acct(1), acct(2), acct(3), acct(4), 255, b"habit".to_vec(), 100, 10, threshold, 500,
            1_000, acct(5), 0,
        )
        .unwrap();
        let ev = settle_challenge(&mut c, acct(5), &b"habit".to_vec(), 865_001).unwrap();
        assert_eq!(ev.required_days, expected);
    }
}

#[test]
fn settle_challenge_rejects_before_end() {
    let mut c = new_challenge();
    let r = settle_challenge(&mut c, acct(5), &b"habit".to_vec(), 865_000);
    assert_eq!(r.unwrap_err(), LockinError::ChallengeNotEnded);
    assert_eq!(c.status, ChallengeStatus::Created);
}

#[test]
fn settle_challenge_rejects_wrong_oracle() {
    let mut c = new_challenge();
    let r = settle_challenge(&mut c, acct(6), &b"habit".to_vec(), 865_001);
    assert_eq!(r.unwrap_err(), LockinError::InvalidOracle);
}

#[test]
fn settle_challenge_rejects_ended_status() {
    let mut c = new_challenge();
    settle_challenge(&mut c, acct(5), &b"habit".to_vec(), 865_001).unwrap();
    let r = settle_challenge(&mut c, acct(5), &b"habit".to_vec(), 865_002);
    assert_eq!(r.unwrap_err(), LockinError::InvalidChallengeStatus);
}

#[test]
fn settle_participant_classifies_winner() {
    let mut c = new_challenge();
    let mut ps = join_n(&mut c, 2);
    give_proofs(&mut c, &mut ps[0], 7);
    settle_challenge(&mut c, acct(5), &b"habit".to_vec(), 865_001).unwrap();
    let ev = settle_participant(&mut c, &mut ps[0], acct(5), &b"habit".to_vec()).unwrap();
    assert!(ps[0].is_winner);
    assert!(ps[0].is_settled);
    assert_eq!(c.winner_count, 1);
    assert_eq!(c.loser_count, 0);
    assert_eq!(ev.user, acct(100));
    assert!(ev.is_winner);
    assert_eq!(ev.proof_days, 7);
    assert_eq!(ev.required_days, 7);
}

#[test]
fn settle_participant_classifies_loser() {
    let mut c = new_challenge();
    let mut ps = join_n(&mut c, 2);
    give_proofs(&mut c, &mut ps[0], 6);
    settle_challenge(&mut c, acct(5), &b"habit".to_vec(), 865_001).unwrap();
    let ev = settle_participant(&mut c, &mut ps[0], acct(5), &b"habit".to_vec()).unwrap();
    assert!(!ps[0].is_winner);
    assert!(ps[0].is_settled);
    assert_eq!(c.winner_count, 0);
    assert_eq!(c.loser_count, 1);
    assert!(!ev.is_winner);
}

#[test]
fn settle_participant_rejects_second_call() {
    let mut c = new_challenge();
    let mut ps = join_n(&mut c, 2);
    give_proofs(&mut c, &mut ps[0], 7);
    settle_challenge(&mut c, acct(5), &b"habit".to_vec(), 865_001).unwrap();
    settle_participant(&mut c, &mut ps[0], acct(5), &b"habit".to_vec()).unwrap();
    let r = settle_participant(&mut c, &mut ps[0], acct(5), &b"habit".to_vec());
    assert_eq!(r.unwrap_err(), LockinError::AlreadySettled);
    assert_eq!(c.winner_count, 1);
    assert_eq!(c.loser_count, 0);
}

#[test]
fn settle_participant_rejects_active_status() {
    let mut c = new_challenge();
    let mut ps = join_n(&mut c, 1);
    let r = settle_participant(&mut c, &mut ps[0], acct(5), &b"habit".to_vec());
    assert_eq!(r.unwrap_err(), LockinError::InvalidChallengeStatus);
}

#[test]
fn settle_participant_rejects_wrong_oracle() {
    let mut c = new_challenge();
    let mut ps = join_n(&mut c, 1);
    settle_challenge(&mut c, acct(5), &b"habit".to_vec(), 865_001).unwrap();
    let r = settle_participant(&mut c, &mut ps[0], acct(6), &b"habit".to_vec());
    assert_eq!(r.unwrap_err(), LockinError::InvalidOracle);
}

#[test]
fn finalize_example_distribution() {
    // stake 100, 3 winners, 2 losers, fee 500 bps:
    // forfeited 200, fee 10, distributable 190, bonus 63, remainder 1.
    let mut c = new_challenge();
    let mut ps = join_n(&mut c, 5);
    for p in ps.iter_mut().take(3) {
        give_proofs(&mut c, p, 7);
    }
    settle_challenge(&mut c, acct(5), &b"habit".to_vec(), 865_001).unwrap();
    for p in ps.iter_mut() {
        settle_participant(&mut c, p, acct(5), &b"habit".to_vec()).unwrap();
    }
    assert_eq!(c.winner_count, 3);
    assert_eq!(c.loser_count, 2);
    let ev = finalize_settlement(&mut c, acct(5), &b"habit".to_vec()).unwrap();
    assert_eq!(c.status, ChallengeStatus::Settled);
    assert_eq!(c.fee_amount, 10);
    assert_eq!(c.bonus_per_winner, 63);
    assert_eq!(c.remainder, 1);
    assert_eq!(c.payouts_claimed_count, 0);
    assert_eq!(c.remainder_claimed, 0);
    assert_eq!(ev.winner_count, 3);
    assert_eq!(ev.loser_count, 2);
    assert_eq!(ev.bonus_per_winner, 63);
    // Conservation: bonus * winners + remainder == distributable.
    assert_eq!(63 * 3 + 1, 190);
}

#[test]
fn finalize_conservation_holds_on_uneven_split() {
    // stake 7, 4 winners, 5 losers, fee 123 bps: forfeited 35, fee 0,
    // distributable 35, bonus 8, remainder 3.
    let (mut c, _) = create_challenge(
        acct(1), acct(2), acct(3), acct(4), 255, b"habit".to_vec(), 7, 10, 7000, 123, 1_000,
        acct(5), 0,
    )
    .unwrap();
    let mut ps = join_n(&mut c, 9);
    for p in ps.iter_mut().take(4) {
        give_proofs(&mut c, p, 7);
    }
    settle_challenge(&mut c, acct(5), &b"habit".to_vec(), 865_001).unwrap();
    for p in ps.iter_mut() {
        settle_participant(&mut c, p, acct(5), &b"habit".to_vec()).unwrap();
    }
    finalize_settlement(&mut c, acct(5), &b"habit".to_vec()).unwrap();
    assert_eq!(c.fee_amount, 0);
    assert_eq!(c.bonus_per_winner, 8);
    assert_eq!(c.remainder, 3);
    assert_eq!(
        c.bonus_per_winner * c.winner_count as u64 + c.remainder,
        c.loser_count as u64 * c.stake_amount - c.fee_amount
    );
}

#[test]
fn finalize_no_winners_edge() {
    // All lose: distributable 475 stays in escrow, remainder marked claimed.
    let mut c = new_challenge();
    let mut ps = join_n(&mut c, 5);
    settle_challenge(&mut c, acct(5), &b"habit".to_vec(), 865_001).unwrap();
    for p in ps.iter_mut() {
        settle_participant(&mut c, p, acct(5), &b"habit".to_vec()).unwrap();
    }
    assert_eq!(c.loser_count, 5);
    finalize_settlement(&mut c, acct(5), &b"habit".to_vec()).unwrap();
    assert_eq!(c.fee_amount, 25);
    assert_eq!(c.bonus_per_winner, 0);
    assert_eq!(c.remainder, 475);
    assert_eq!(c.remainder_claimed, 475);
}

#[test]
fn finalize_rejects_incomplete_settlement() {
    let mut c = new_challenge();
    let mut ps = join_n(&mut c, 2);
    settle_challenge(&mut c, acct(5), &b"habit".to_vec(), 865_001).unwrap();
    settle_participant(&mut c, &mut ps[0], acct(5), &b"habit".to_vec()).unwrap();
    let r = finalize_settlement(&mut c, acct(5), &b"habit".to_vec());
    assert_eq!(r.unwrap_err(), LockinError::SettlementIncomplete);
    assert_eq!(c.status, ChallengeStatus::Ended);
}

#[test]
fn finalize_rejects_active_status() {
    let mut c = new_challenge();
    let r = finalize_settlement(&mut c, acct(5), &b"habit".to_vec());
    assert_eq!(r.unwrap_err(), LockinError::InvalidChallengeStatus);
}

#[test]
fn finalize_rejects_second_call() {
    let mut c = new_challenge();
    settle_challenge(&mut c, acct(5), &b"habit".to_vec(), 865_001).unwrap();
    finalize_settlement(&mut c, acct(5), &b"habit".to_vec()).unwrap();
    let r = finalize_settlement(&mut c, acct(5), &b"habit".to_vec());
    assert_eq!(r.unwrap_err(), LockinError::InvalidChallengeStatus);
}

#[test]
fn finalize_rejects_forfeit_overflow() {
    let mut c = new_challenge();
    c.status = ChallengeStatus::Ended;
    c.stake_amount = u64::MAX / 2;
    c.participant_count = 3;
    c.active_participants = 3;
    c.winner_count = 0;
    c.loser_count = 3;
    let r = finalize_settlement(&mut c, acct(5), &b"habit".to_vec());
    assert_eq!(r.unwrap_err(), LockinError::MathOverflow);
}
