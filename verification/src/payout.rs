use vstd::prelude::*;
use vstd::arithmetic::mul::lemma_mul_is_distributive_add;

use crate::errors::PvpError;
use crate::ids::{AccountId, Config};
use crate::lobby::{same_state, Lobby, LobbyStatus};
use crate::oracle::{
    randomness_value_of, read_randomness, record_fulfilled, spec_winner_side, winner_side_of,
    MIN_RECORD_LEN, RECORD_FULFILLED_TAG, RECORD_STATUS_OFFSET,
};
use crate::params::{PLATFORM_FEE_BPS, REFUND_LOCK_SECS};
use crate::settlement::{settle, spec_fee_final, spec_payout_per_winner};

verus! {

/// One planned movement of lamports out of the lobby's escrow. The host
/// performs the transfers in list order: that order is part of the audit
/// contract.
#[derive(Clone, Copy, Debug, PartialEq, Eq, Structural)]
pub struct Transfer {
    pub to: AccountId,
    pub lamports: u64,
}

/// Total lamports a plan of transfers moves.
pub open spec fn total_lamports(s: Seq<Transfer>) -> int
    decreases s.len(),
{
    if s.len() == 0 {
        0
    } else {
        total_lamports(s.drop_last()) + s.last().lamports
    }
}

/// Appending a transfer grows the total by exactly its amount.
pub proof fn lemma_total_lamports_push(s: Seq<Transfer>, t: Transfer)
    ensures
        total_lamports(s.push(t)) == total_lamports(s) + t.lamports,
{
    assert(s.push(t).drop_last() =~= s);
}

/// The refund plan of a lobby: one stake back to every participant, team1
/// first, each team in join order.
pub open spec fn refund_transfers(l: Lobby) -> Seq<Transfer> {
    Seq::new(
        l.participants().len(),
        |i: int| Transfer { to: l.participants()[i], lamports: l.stake_lamports },
    )
}

/// The recipient list a resolution requires: the fee receiver first, then
/// team1 and team2 in join order.
pub open spec fn resolve_recipients(l: Lobby, cfg: Config) -> Seq<AccountId> {
    seq![cfg.treasury] + l.participants()
}

/// The lobby fields that no settlement or refund path touches.
pub open spec fn core_unchanged(pre: Lobby, post: Lobby) -> bool {
    &&& post.lobby_id == pre.lobby_id
    &&& post.creator == pre.creator
    &&& post.team_size == pre.team_size
    &&& post.stake_lamports == pre.stake_lamports
    &&& post.created_at == pre.created_at
    &&& post.team1@ == pre.team1@
    &&& post.team2@ == pre.team2@
    &&& post.vrf_seed == pre.vrf_seed
    &&& post.vrf_request == pre.vrf_request
}

/// Whether the refund lock has elapsed at `now`.
pub open spec fn refund_lock_elapsed(l: Lobby, now: i64) -> bool {
    now >= l.created_at + REFUND_LOCK_SECS
}

/// Who may drive a refund: the lobby's creator or the configured admin.
pub open spec fn refund_authorized(l: Lobby, requester: AccountId, cfg: Config) -> bool {
    requester == l.creator || requester == cfg.admin
}

/// Announcement of a completed refund.
#[derive(Clone, Copy, Debug, PartialEq, Eq, Structural)]
pub struct LobbyRefunded {
    pub refunded_count: u8,
    pub total_refunded: u64,
}

/// Announcement of a resolved lobby, with the randomness value for
/// transparency.
#[derive(Clone, Copy, Debug, PartialEq, Eq, Structural)]
pub struct LobbyResolved {
    pub winner_side: u8,
    pub randomness_value: u64,
    pub total_pot: u64,
    pub platform_fee: u64,
    pub payout_per_winner: u64,
}

/// What the caller supplies for a refund: the requesting identity, the
/// ledger's current time, and the ordered participant list that receives
/// the refunds (team1 then team2, in join order).
pub struct Refund {
    pub requester: AccountId,
    pub now: i64,
    pub recipients: Vec<AccountId>,
}

/// What the caller supplies for a resolution: the identity of the
/// randomness record offered, its raw bytes, and the ordered recipient
/// list `[fee receiver, team1, team2]`.
pub struct ResolveMatch {
    pub vrf_request: AccountId,
    pub randomness_data: Vec<u8>,
    pub recipients: Vec<AccountId>,
}

/// Whether `recipients[offset..offset + team.len()]` equals `team`,
/// entry for entry.
fn lists_match_at(recipients: &Vec<AccountId>, offset: usize, team: &Vec<AccountId>) -> (b: bool)
    requires
        offset + team@.len() <= recipients@.len(),
    ensures
        b <==> (forall|k: int| 0 <= k < team@.len() ==> recipients@[offset + k] == team@[k]),
{
    let n = recipients.len();
    let mut i: usize = 0;
    while i < team.len()
        invariant
            i <= team@.len(),
            n == recipients@.len(),
            offset + team@.len() <= n,
            forall|k: int| 0 <= k < i ==> recipients@[offset + k] == team@[k],
        decreases team@.len() - i,
    {
        if !(recipients[offset + i] == team[i]) {
            proof {
                assert(recipients@[offset + i as int] != team@[i as int]);
            }
            return false;
        }
        i += 1;
    }
    true
}

/// The shared terminal step of both refund paths: mark the lobby finalized
/// and refunded before any transfer, then plan one stake back to every
/// participant, draining the escrow exactly.
fn refund_payout(l: &mut Lobby) -> (ts: Vec<Transfer>)
    requires
        old(l).wf(),
        !old(l).finalized,
    ensures
        final(l).wf(),
        final(l).status is Refunded,
        final(l).finalized,
        final(l).escrow_lamports == 0,
        final(l).winner_side == old(l).winner_side,
        core_unchanged(*old(l), *final(l)),
        ts@ == refund_transfers(*old(l)),
        total_lamports(ts@) == old(l).escrow_lamports,
{
    l.finalized = true;
    l.status = LobbyStatus::Refunded;
    l.escrow_lamports = 0;
    let stake = l.stake_lamports;
    let mut ts: Vec<Transfer> = Vec::new();
    let mut i: usize = 0;
    while i < l.team1.len()
        invariant
            i <= l.team1@.len(),
            stake == l.stake_lamports,
            ts@.len() == i,
            forall|k: int|
                0 <= k < i ==> ts@[k] == (Transfer { to: l.team1@[k], lamports: stake }),
            total_lamports(ts@) == stake * i,
        decreases l.team1@.len() - i,
    {
        let ghost pre_ts = ts@;
        let t = Transfer { to: l.team1[i], lamports: stake };
        ts.push(t);
        proof {
            lemma_total_lamports_push(pre_ts, t);
            lemma_mul_is_distributive_add(stake as int, i as int, 1);
        }
        i += 1;
    }
    let team1_len = l.team1.len();
    let mut j: usize = 0;
    while j < l.team2.len()
        invariant
            j <= l.team2@.len(),
            team1_len == l.team1@.len(),
            stake == l.stake_lamports,
            ts@.len() == team1_len + j,
            forall|k: int|
                0 <= k < team1_len ==> ts@[k] == (Transfer { to: l.team1@[k], lamports: stake }),
            forall|k: int|
                0 <= k < j ==> ts@[team1_len + k] == (Transfer {
                    to: l.team2@[k],
                    lamports: stake,
                }),
            total_lamports(ts@) == stake * (team1_len + j),
        decreases l.team2@.len() - j,
    {
        let ghost pre_ts = ts@;
        let t = Transfer { to: l.team2[j], lamports: stake };
        ts.push(t);
        proof {
            lemma_total_lamports_push(pre_ts, t);
            lemma_mul_is_distributive_add(stake as int, team1_len + j as int, 1);
        }
        j += 1;
    }
    proof {
        assert(ts@ =~= refund_transfers(*old(l)));
    }
    ts
}

/// Refund a still-open lobby once the lock period has elapsed: one stake
/// back to every participant, in roster order, nothing to anyone else.
///
/// `ctx.recipients` must repeat the stored rosters exactly — the engine
/// never infers recipients, it only validates the caller's list.
pub fn refund(l: &mut Lobby, ctx: &Refund, cfg: &Config) -> (r: Result<
    (Vec<Transfer>, LobbyRefunded),
    PvpError,
>)
    requires
        old(l).wf(),
    ensures
        final(l).wf(),
        r is Err ==> same_state(*old(l), *final(l)),
        old(l).finalized ==> r == Err::<(Vec<Transfer>, LobbyRefunded), PvpError>(
            PvpError::AlreadyFinalized,
        ),
        !old(l).finalized && !(old(l).status is Open) ==> r == Err::<
            (Vec<Transfer>, LobbyRefunded),
            PvpError,
        >(PvpError::LobbyNotOpen),
        !old(l).finalized && old(l).status is Open && !refund_lock_elapsed(*old(l), ctx.now) ==> r
            == Err::<(Vec<Transfer>, LobbyRefunded), PvpError>(PvpError::TooSoonToRefund),
        !old(l).finalized && old(l).status is Open && refund_lock_elapsed(*old(l), ctx.now)
            && !refund_authorized(*old(l), ctx.requester, *cfg) ==> r == Err::<
            (Vec<Transfer>, LobbyRefunded),
            PvpError,
        >(PvpError::Unauthorized),
        !old(l).finalized && old(l).status is Open && refund_lock_elapsed(*old(l), ctx.now)
            && refund_authorized(*old(l), ctx.requester, *cfg) && ctx.recipients@.len() != old(
            l,
        ).participants().len() ==> r == Err::<(Vec<Transfer>, LobbyRefunded), PvpError>(
            PvpError::BadRemainingAccounts,
        ),
        !old(l).finalized && old(l).status is Open && refund_lock_elapsed(*old(l), ctx.now)
            && refund_authorized(*old(l), ctx.requester, *cfg) && ctx.recipients@.len() == old(
            l,
        ).participants().len() && ctx.recipients@ != old(l).participants() ==> r == Err::<
            (Vec<Transfer>, LobbyRefunded),
            PvpError,
        >(PvpError::RemainingAccountsMismatch),
        !old(l).finalized && old(l).status is Open && refund_lock_elapsed(*old(l), ctx.now)
            && refund_authorized(*old(l), ctx.requester, *cfg) && ctx.recipients@ == old(
            l,
        ).participants() ==> (r matches Ok((ts, ev)) && {
            &&& final(l).status is Refunded
            &&& final(l).finalized
            &&& final(l).escrow_lamports == 0
            &&& final(l).winner_side == old(l).winner_side
            &&& core_unchanged(*old(l), *final(l))
            &&& ts@ == refund_transfers(*old(l))
            &&& total_lamports(ts@) == old(l).escrow_lamports
            &&& ev == (LobbyRefunded {
                refunded_count: old(l).participants().len() as u8,
                total_refunded: old(l).escrow_lamports,
            })
        }),
{
    if l.finalized {
        return Err(PvpError::AlreadyFinalized);
    }
    if !(l.status == LobbyStatus::Open) {
        return Err(PvpError::LobbyNotOpen);
    }
    if (ctx.now as i128) < (l.created_at as i128) + (REFUND_LOCK_SECS as i128) {
        return Err(PvpError::TooSoonToRefund);
    }
    if !(ctx.requester == l.creator || ctx.requester == cfg.admin) {
        return Err(PvpError::Unauthorized);
    }
    let team1_len = l.team1.len();
    let total = team1_len + l.team2.len();
    if ctx.recipients.len() != total {
        return Err(PvpError::BadRemainingAccounts);
    }
    let m1 = lists_match_at(&ctx.recipients, 0, &l.team1);
    let m2 = lists_match_at(&ctx.recipients, team1_len, &l.team2);
    proof {
        if m1 && m2 {
            assert(ctx.recipients@ =~= l.participants());
        }
    }
    if !(m1 && m2) {
        return Err(PvpError::RemainingAccountsMismatch);
    }
    let total_refunded = l.escrow_lamports;
    let ts = refund_payout(l);
    let ev = LobbyRefunded { refunded_count: total as u8, total_refunded };
    Ok((ts, ev))
}

/// Refund a lobby from any non-finalized state, bypassing the time lock:
/// the operational escape hatch for lobbies stuck in Pending behind an
/// oracle that never fulfills. Same authorization and same payout plan as
/// `refund`.
pub fn force_refund(l: &mut Lobby, ctx: &Refund, cfg: &Config) -> (r: Result<
    (Vec<Transfer>, LobbyRefunded),
    PvpError,
>)
    requires
        old(l).wf(),
    ensures
        final(l).wf(),
        r is Err ==> same_state(*old(l), *final(l)),
        old(l).finalized ==> r == Err::<(Vec<Transfer>, LobbyRefunded), PvpError>(
            PvpError::AlreadyFinalized,
        ),
        !old(l).finalized && !refund_authorized(*old(l), ctx.requester, *cfg) ==> r == Err::<
            (Vec<Transfer>, LobbyRefunded),
            PvpError,
        >(PvpError::Unauthorized),
        !old(l).finalized && refund_authorized(*old(l), ctx.requester, *cfg)
            && ctx.recipients@.len() != old(l).participants().len() ==> r == Err::<
            (Vec<Transfer>, LobbyRefunded),
            PvpError,
        >(PvpError::BadRemainingAccounts),
        !old(l).finalized && refund_authorized(*old(l), ctx.requester, *cfg)
            && ctx.recipients@.len() == old(l).participants().len() && ctx.recipients@ != old(
            l,
        ).participants() ==> r == Err::<(Vec<Transfer>, LobbyRefunded), PvpError>(
            PvpError::RemainingAccountsMismatch,
        ),
        !old(l).finalized && refund_authorized(*old(l), ctx.requester, *cfg) && ctx.recipients@
            == old(l).participants() ==> (r matches Ok((ts, ev)) && {
            &&& final(l).status is Refunded
            &&& final(l).finalized
            &&& final(l).escrow_lamports == 0
            &&& final(l).winner_side == old(l).winner_side
            &&& core_unchanged(*old(l), *final(l))
            &&& ts@ == refund_transfers(*old(l))
            &&& total_lamports(ts@) == old(l).escrow_lamports
            &&& ev == (LobbyRefunded {
                refunded_count: old(l).participants().len() as u8,
                total_refunded: old(l).escrow_lamports,
            })
        }),
{
    if l.finalized {
        return Err(PvpError::AlreadyFinalized);
    }
    if !(ctx.requester == l.creator || ctx.requester == cfg.admin) {
        return Err(PvpError::Unauthorized);
    }
    let team1_len = l.team1.len();
    let total = team1_len + l.team2.len();
    if ctx.recipients.len() != total {
        return Err(PvpError::BadRemainingAccounts);
    }
    let m1 = lists_match_at(&ctx.recipients, 0, &l.team1);
    let m2 = lists_match_at(&ctx.recipients, team1_len, &l.team2);
    proof {
        if m1 && m2 {
            assert(ctx.recipients@ =~= l.participants());
        }
    }
    if !(m1 && m2) {
        return Err(PvpError::RemainingAccountsMismatch);
    }
    let total_refunded = l.escrow_lamports;
    let ts = refund_payout(l);
    let ev = LobbyRefunded { refunded_count: total as u8, total_refunded };
    Ok((ts, ev))
}

/// Resolve a pending lobby from the oracle's fulfilled randomness record:
/// pick the winning side by the fixed rule, mark the lobby finalized and
/// resolved before any transfer, then plan the fee to the configured
/// receiver followed by an even payout to every winner, draining the
/// escrow exactly.
///
/// Oracle-data failures (`RandomnessNotFulfilled`, `InvalidRandomnessData`,
/// `WrongRandomnessAccount`) leave the lobby untouched, so the caller may
/// retry later.
pub fn resolve_match(l: &mut Lobby, ctx: &ResolveMatch, cfg: &Config) -> (r: Result<
    (Vec<Transfer>, LobbyResolved),
    PvpError,
>)
    requires
        old(l).wf(),
    ensures
        final(l).wf(),
        r is Err ==> same_state(*old(l), *final(l)),
        old(l).finalized ==> r == Err::<(Vec<Transfer>, LobbyResolved), PvpError>(
            PvpError::AlreadyFinalized,
        ),
        !old(l).finalized && !(old(l).status is Pending) ==> r == Err::<
            (Vec<Transfer>, LobbyResolved),
            PvpError,
        >(PvpError::NotPending),
        !old(l).finalized && old(l).status is Pending && old(l).vrf_request != Some(
            ctx.vrf_request,
        ) ==> r == Err::<(Vec<Transfer>, LobbyResolved), PvpError>(
            PvpError::WrongRandomnessAccount,
        ),
        !old(l).finalized && old(l).status is Pending && old(l).vrf_request == Some(
            ctx.vrf_request,
        ) && ctx.randomness_data@.len() < MIN_RECORD_LEN ==> r == Err::<
            (Vec<Transfer>, LobbyResolved),
            PvpError,
        >(PvpError::InvalidRandomnessData),
        !old(l).finalized && old(l).status is Pending && old(l).vrf_request == Some(
            ctx.vrf_request,
        ) && ctx.randomness_data@.len() >= MIN_RECORD_LEN && ctx.randomness_data@[
            RECORD_STATUS_OFFSET as int
        ] != RECORD_FULFILLED_TAG ==> r == Err::<(Vec<Transfer>, LobbyResolved), PvpError>(
            PvpError::RandomnessNotFulfilled,
        ),
        !old(l).finalized && old(l).status is Pending && old(l).vrf_request == Some(
            ctx.vrf_request,
        ) && record_fulfilled(ctx.randomness_data@) && ctx.recipients@.len() != 1 + old(
            l,
        ).participants().len() ==> r == Err::<(Vec<Transfer>, LobbyResolved), PvpError>(
            PvpError::BadRemainingAccounts,
        ),
        !old(l).finalized && old(l).status is Pending && old(l).vrf_request == Some(
            ctx.vrf_request,
        ) && record_fulfilled(ctx.randomness_data@) && ctx.recipients@.len() == 1 + old(
            l,
        ).participants().len() && ctx.recipients@ != resolve_recipients(*old(l), *cfg) ==> r
            == Err::<(Vec<Transfer>, LobbyResolved), PvpError>(PvpError::RemainingAccountsMismatch),
        !old(l).finalized && old(l).status is Pending && old(l).vrf_request == Some(
            ctx.vrf_request,
        ) && record_fulfilled(ctx.randomness_data@) && ctx.recipients@ == resolve_recipients(
            *old(l),
            *cfg,
        ) ==> ({
            let rv = randomness_value_of(ctx.randomness_data@);
            let w = spec_winner_side(rv);
            let winners = if w == 0 {
                old(l).team1@
            } else {
                old(l).team2@
            };
            let pot = old(l).stake_lamports * old(l).total_joined();
            let fee = spec_fee_final(pot, PLATFORM_FEE_BPS as int, winners.len() as int);
            let pay = spec_payout_per_winner(pot, PLATFORM_FEE_BPS as int, winners.len() as int);
            r matches Ok((ts, ev)) && {
                &&& final(l).status is Resolved
                &&& final(l).finalized
                &&& final(l).winner_side == w
                &&& final(l).escrow_lamports == 0
                &&& core_unchanged(*old(l), *final(l))
                &&& ts@.len() == 1 + winners.len()
                &&& ts@[0].to == cfg.treasury
                &&& ts@[0].lamports == fee
                &&& (forall|k: int|
                    0 <= k < winners.len() ==> ts@[1 + k].to == winners[k] && ts@[1
                        + k].lamports == pay)
                &&& total_lamports(ts@) == pot
                &&& total_lamports(ts@) == old(l).escrow_lamports
                &&& ev == (LobbyResolved {
                    winner_side: w,
                    randomness_value: rv,
                    total_pot: old(l).escrow_lamports,
                    platform_fee: fee as u64,
                    payout_per_winner: pay as u64,
                })
            }
        }),
{
    if l.finalized {
        return Err(PvpError::AlreadyFinalized);
    }
    if !(l.status == LobbyStatus::Pending) {
        return Err(PvpError::NotPending);
    }
    let handle_ok = match l.vrf_request {
        Some(h) => h == ctx.vrf_request,
        None => false,
    };
    if !handle_ok {
        return Err(PvpError::WrongRandomnessAccount);
    }
    let rv = match read_randomness(ctx.randomness_data.as_slice()) {
        Ok(v) => v,
        Err(e) => {
            return Err(e);
        },
    };
    let w = winner_side_of(rv);
    let team1_len = l.team1.len();
    let total = team1_len + l.team2.len();
    if ctx.recipients.len() != 1 + total {
        return Err(PvpError::BadRemainingAccounts);
    }
    let m0 = ctx.recipients[0] == cfg.treasury;
    let m1 = lists_match_at(&ctx.recipients, 1, &l.team1);
    let m2 = lists_match_at(&ctx.recipients, 1 + team1_len, &l.team2);
    proof {
        if m0 && m1 && m2 {
            assert(ctx.recipients@ =~= resolve_recipients(*old(l), *cfg));
        }
    }
    if !(m0 && m1 && m2) {
        return Err(PvpError::RemainingAccountsMismatch);
    }
    let st = match settle(
        l.stake_lamports,
        team1_len as u64,
        l.team2.len() as u64,
        w,
        PLATFORM_FEE_BPS,
    ) {
        Ok(s) => s,
        Err(e) => {
            proof {
                // unreachable: Pending means both rosters are full, and a
                // full roster holds team_size >= 1 members
                assert(false);
            }
            return Err(e);
        },
    };
    l.winner_side = w;
    l.finalized = true;
    l.status = LobbyStatus::Resolved;
    l.escrow_lamports = 0;
    let mut ts: Vec<Transfer> = Vec::new();
    ts.push(Transfer { to: cfg.treasury, lamports: st.fee_final });
    proof {
        lemma_total_lamports_push(Seq::empty(), Transfer { to: cfg.treasury, lamports: st.fee_final });
    }
    let ghost winners = if w == 0 {
        l.team1@
    } else {
        l.team2@
    };
    let winners_len = if w == 0 {
        team1_len
    } else {
        l.team2.len()
    };
    let mut i: usize = 0;
    while i < winners_len
        invariant
            i <= winners_len,
            w <= 1,
            w == 0 ==> winners == l.team1@,
            w != 0 ==> winners == l.team2@,
            winners_len == winners.len(),
            ts@.len() == 1 + i,
            ts@[0] == (Transfer { to: cfg.treasury, lamports: st.fee_final }),
            forall|k: int|
                0 <= k < i ==> (#[trigger] ts@[1 + k]) == (Transfer {
                    to: winners[k],
                    lamports: st.payout_per_winner,
                }),
            total_lamports(ts@) == st.fee_final + st.payout_per_winner * i,
        decreases winners_len - i,
    {
        let ghost pre_ts = ts@;
        let p = if w == 0 {
            l.team1[i]
        } else {
            l.team2[i]
        };
        let t = Transfer { to: p, lamports: st.payout_per_winner };
        ts.push(t);
        proof {
            lemma_total_lamports_push(pre_ts, t);
            lemma_mul_is_distributive_add(st.payout_per_winner as int, i as int, 1);
            assert forall|k: int| 0 <= k < i + 1 implies (#[trigger] ts@[1 + k]) == (Transfer {
                to: winners[k],
                lamports: st.payout_per_winner,
            }) by {
                if k < i {
                    assert(ts@[1 + k] == pre_ts[1 + k]);
                } else {
                    assert(ts@[1 + k] == t);
                    assert(t.to == winners[k]);
                }
            }
        }
        i += 1;
    }
    let ev = LobbyResolved {
        winner_side: w,
        randomness_value: rv,
        total_pot: st.pot,
        platform_fee: st.fee_final,
        payout_per_winner: st.payout_per_winner,
    };
    Ok((ts, ev))
}

} // verus!
