use vstd::prelude::*;
use vstd::arithmetic::div_mod::{
    lemma_div_is_ordered, lemma_div_multiples_vanish, lemma_fundamental_div_mod, lemma_mod_bound,
};
use vstd::arithmetic::mul::{lemma_mul_inequality, lemma_mul_upper_bound};

use crate::errors::PvpError;
use crate::params::BPS_DENOMINATOR;

verus! {

/// The platform fee before remainder folding: `floor(pot × fee_bps / 10000)`.
pub open spec fn spec_fee(pot: int, fee_bps: int) -> int {
    pot * fee_bps / (BPS_DENOMINATOR as int)
}

/// What each winner receives: the distributable pot (pot minus fee) split
/// evenly, rounded down.
pub open spec fn spec_payout_per_winner(pot: int, fee_bps: int, winners_count: int) -> int {
    (pot - spec_fee(pot, fee_bps)) / winners_count
}

/// The fee actually charged: the base fee plus the integer-division
/// remainder of the even split, so that no lamport is lost in rounding.
pub open spec fn spec_fee_final(pot: int, fee_bps: int, winners_count: int) -> int {
    spec_fee(pot, fee_bps) + ((pot - spec_fee(pot, fee_bps)) - spec_payout_per_winner(
        pot,
        fee_bps,
        winners_count,
    ) * winners_count)
}

/// What a resolution pays out.
#[derive(Clone, Copy, Debug, PartialEq, Eq, Structural)]
pub struct Settlement {
    /// The whole escrow: stake × total participants.
    pub pot: u64,
    /// The platform fee with the rounding remainder folded in.
    pub fee_final: u64,
    /// The even share of the distributable pot each winner receives.
    pub payout_per_winner: u64,
    /// Number of members on the winning side.
    pub winners_count: u64,
}

/// Fee and payout arithmetic for a settled lobby.
///
/// Fails with `NotEnoughPlayers` exactly when the winning side is empty.
/// On success, the final fee plus the per-winner payout times the winner
/// count equals the pot exactly.
pub fn settle(
    stake_lamports: u64,
    team1_size: u64,
    team2_size: u64,
    winner_side: u8,
    fee_bps: u64,
) -> (r: Result<Settlement, PvpError>)
    requires
        team1_size + team2_size <= u64::MAX,
        stake_lamports * (team1_size + team2_size) <= u64::MAX,
        fee_bps <= BPS_DENOMINATOR,
        winner_side <= 1,
    ensures
        ({
            let winners = if winner_side == 0 {
                team1_size as int
            } else {
                team2_size as int
            };
            let pot = stake_lamports * (team1_size + team2_size);
            &&& (winners == 0 <==> r == Err::<Settlement, PvpError>(PvpError::NotEnoughPlayers))
            &&& (winners != 0 <==> r is Ok)
            &&& (r matches Ok(s) ==> {
                &&& s.pot == pot
                &&& s.winners_count == winners
                &&& s.payout_per_winner == spec_payout_per_winner(pot, fee_bps as int, winners)
                &&& s.fee_final == spec_fee_final(pot, fee_bps as int, winners)
                &&& s.fee_final + s.payout_per_winner * s.winners_count == pot
            })
        }),
{
    let winners_count = if winner_side == 0 {
        team1_size
    } else {
        team2_size
    };
    if winners_count == 0 {
        return Err(PvpError::NotEnoughPlayers);
    }
    let total = team1_size + team2_size;
    let pot = stake_lamports * total;
    proof {
        // pot × fee_bps fits in u128, and the fee is at most the pot
        lemma_mul_upper_bound(pot as int, u64::MAX as int, fee_bps as int, BPS_DENOMINATOR as int);
        lemma_mul_inequality(fee_bps as int, BPS_DENOMINATOR as int, pot as int);
        lemma_div_is_ordered(
            pot * fee_bps,
            pot * (BPS_DENOMINATOR as int),
            BPS_DENOMINATOR as int,
        );
        lemma_div_multiples_vanish(pot as int, BPS_DENOMINATOR as int);
    }
    let fee = ((pot as u128) * (fee_bps as u128) / (BPS_DENOMINATOR as u128)) as u64;
    let distributable = pot - fee;
    let payout_per_winner = distributable / winners_count;
    proof {
        // payout × winners is the distributable pot less its remainder
        lemma_fundamental_div_mod(distributable as int, winners_count as int);
        lemma_mod_bound(distributable as int, winners_count as int);
    }
    let fee_final = fee + (distributable - payout_per_winner * winners_count);
    Ok(Settlement { pot, fee_final, payout_per_winner, winners_count })
}

/// Settlement conserves the pot: for every pot, fee rate and nonzero winner
/// count, the final fee plus the per-winner payout times the winner count
/// equals the pot exactly — rounding can move lamports into the fee, but
/// never lose or mint them.
pub proof fn lemma_settlement_conserves_pot(pot: int, fee_bps: int, winners_count: int)
    requires
        pot >= 0,
        winners_count >= 1,
    ensures
        spec_fee_final(pot, fee_bps, winners_count) + spec_payout_per_winner(
            pot,
            fee_bps,
            winners_count,
        ) * winners_count == pot,
{
}

} // verus!
