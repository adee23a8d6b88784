use pvp_program::errors::PvpError;
use pvp_program::settlement::settle;

#[test]
fn settle_example_numbers() {
    // stake 50_000_000, team size 2 each, 1% fee
    let s = settle(50_000_000, 2, 2, 1, 100).unwrap();
    assert_eq!(s.pot, 200_000_000);
    assert_eq!(s.fee_final, 2_000_000);
    assert_eq!(s.payout_per_winner, 99_000_000);
    assert_eq!(s.winners_count, 2);
    assert_eq!(s.fee_final + s.payout_per_winner * s.winners_count, s.pot);
}

#[test]
fn settle_folds_division_remainder_into_fee() {
    // an even split leaves no remainder and no fee at rate zero
    let s = settle(50, 1, 2, 1, 0).unwrap();
    assert_eq!(s.pot, 150);
    assert_eq!(s.winners_count, 2);
    assert_eq!(s.payout_per_winner, 75);
    assert_eq!(s.fee_final, 0);

    let s2 = settle(100, 1, 3, 1, 0).unwrap();
    assert_eq!(s2.pot, 400);
    assert_eq!(s2.payout_per_winner, 133);
    // 400 = 133 × 3 + 1: the odd lamport folds into the fee
    assert_eq!(s2.fee_final, 1);
    assert_eq!(s2.fee_final + s2.payout_per_winner * s2.winners_count, s2.pot);
}

#[test]
fn settle_conserves_pot_across_inputs() {
    let cases: [(u64, u64, u64, u8, u64); 6] = [
        (50_000_000, 2, 2, 0, 100),
        (50_000_000, 5, 5, 1, 100),
        (1, 1, 1, 0, 9_999),
        (123_456_789, 3, 4, 1, 10_000),
        (7, 5, 2, 0, 1),
        (1_000_000_000_000, 5, 5, 1, 100),
    ];
    for (stake, t1, t2, side, bps) in cases {
        let s = settle(stake, t1, t2, side, bps).unwrap();
        assert_eq!(s.pot, stake * (t1 + t2));
        assert_eq!(
            s.fee_final + s.payout_per_winner * s.winners_count,
            s.pot,
            "pot not conserved for stake={} t1={} t2={} side={} bps={}",
            stake,
            t1,
            t2,
            side,
            bps
        );
    }
}

#[test]
fn settle_with_full_fee_rate_pays_nothing_out() {
    let s = settle(100, 2, 2, 0, 10_000).unwrap();
    assert_eq!(s.pot, 400);
    assert_eq!(s.fee_final, 400);
    assert_eq!(s.payout_per_winner, 0);
}

#[test]
fn settle_rejects_empty_winning_side() {
    let r = settle(50_000_000, 0, 2, 0, 100);
    assert_eq!(r.unwrap_err(), PvpError::NotEnoughPlayers);
    let r2 = settle(50_000_000, 2, 0, 1, 100);
    assert_eq!(r2.unwrap_err(), PvpError::NotEnoughPlayers);
}
