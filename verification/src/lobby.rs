use vstd::prelude::*;
use vstd::arithmetic::mul::{lemma_mul_inequality, lemma_mul_is_distributive_add};

use crate::errors::PvpError;
use crate::ids::AccountId;
use crate::oracle::is_zero_seed;
use crate::params::{is_allowed_team_size, MAX_TEAM_SIZE_ALLOC, MIN_STAKE_LAMPORTS};

verus! {

/// Where a lobby stands in its lifecycle.
#[derive(Clone, Copy, Debug, PartialEq, Eq, Structural)]
pub enum LobbyStatus {
    /// Collecting players.
    Open,
    /// Randomness requested, waiting for the oracle to fulfill it.
    Pending,
    /// Paid out to the winners; terminal.
    Resolved,
    /// Stakes returned to the participants; terminal.
    Refunded,
}

/// One wager: two rosters, a fixed per-seat stake, and settlement state.
///
/// The host ledger holds the escrowed lamports; `escrow_lamports` mirrors
/// that custodial balance, funded by joins and drained only by settlement
/// or refund.
#[derive(Debug)]
pub struct Lobby {
    /// Distinguishes this lobby among those of the same creator.
    pub lobby_id: u64,
    /// The identity that created the lobby and funded its first seat.
    pub creator: AccountId,
    /// Lifecycle state.
    pub status: LobbyStatus,
    /// Bound on each roster, fixed at creation; one of the allowed sizes.
    pub team_size: u8,
    /// Per-seat stake in lamports, identical for every participant.
    pub stake_lamports: u64,
    /// Creation timestamp, used for the refund-lock computation.
    pub created_at: i64,
    /// Set exactly once, by the first settlement or refund.
    pub finalized: bool,
    /// Seed of the randomness request; absent until the filling join.
    pub vrf_seed: Option<[u8; 32]>,
    /// Handle of the randomness request; absent until the filling join.
    pub vrf_request: Option<AccountId>,
    /// 0 or 1; meaningful only once resolved.
    pub winner_side: u8,
    /// Members of side 0, in join order.
    pub team1: Vec<AccountId>,
    /// Members of side 1, in join order.
    pub team2: Vec<AccountId>,
    /// Lamports escrowed by the lobby.
    pub escrow_lamports: u64,
}

impl Lobby {
    /// Both rosters as one sequence: team1 then team2, each in join order.
    pub open spec fn participants(self) -> Seq<AccountId> {
        self.team1@ + self.team2@
    }

    /// How many seats are taken in all.
    pub open spec fn total_joined(self) -> int {
        (self.team1@.len() + self.team2@.len()) as int
    }

    /// Whether `p` holds a seat on either roster.
    pub open spec fn is_member(self, p: AccountId) -> bool {
        self.team1@.contains(p) || self.team2@.contains(p)
    }

    /// Length of the roster that `side` names.
    pub open spec fn side_len(self, side: u8) -> int {
        if side == 0 {
            self.team1@.len() as int
        } else {
            self.team2@.len() as int
        }
    }

    /// Both rosters hold exactly `team_size` members.
    pub open spec fn is_full(self) -> bool {
        self.team1@.len() == self.team_size && self.team2@.len() == self.team_size
    }

    /// Whether one more join on `side` would fill both rosters.
    pub open spec fn would_fill(self, side: u8) -> bool {
        if side == 0 {
            self.team1@.len() + 1 == self.team_size && self.team2@.len() == self.team_size
        } else {
            self.team1@.len() == self.team_size && self.team2@.len() + 1 == self.team_size
        }
    }

    /// What the escrow owes: stake × seats taken.
    pub open spec fn pot(self) -> int {
        self.stake_lamports * self.total_joined()
    }

    /// No identity appears twice on a roster, nor on both rosters.
    pub open spec fn rosters_distinct(self) -> bool {
        &&& forall|i: int, j: int|
            0 <= i < j < self.team1@.len() ==> self.team1@[i] != self.team1@[j]
        &&& forall|i: int, j: int|
            0 <= i < j < self.team2@.len() ==> self.team2@[i] != self.team2@[j]
        &&& forall|i: int, j: int|
            0 <= i < self.team1@.len() && 0 <= j < self.team2@.len() ==> self.team1@[i]
                != self.team2@[j]
    }

    /// Well-formedness: everything that holds of a lobby in any reachable
    /// state. Constructors establish it and every operation preserves it.
    pub open spec fn wf(self) -> bool {
        &&& is_allowed_team_size(self.team_size)
        &&& self.team_size as usize <= MAX_TEAM_SIZE_ALLOC
        &&& self.stake_lamports >= MIN_STAKE_LAMPORTS
        &&& 2 * self.team_size * self.stake_lamports <= u64::MAX
        &&& self.team1@.len() <= self.team_size
        &&& self.team2@.len() <= self.team_size
        &&& self.rosters_distinct()
        &&& self.winner_side <= 1
        &&& (!self.finalized ==> self.escrow_lamports == self.pot())
        &&& (self.finalized ==> self.escrow_lamports == 0)
        &&& (self.finalized <==> (self.status is Resolved || self.status is Refunded))
        &&& (self.vrf_seed is Some <==> self.vrf_request is Some)
        &&& (self.vrf_seed matches Some(s) ==> !is_zero_seed(s@))
        &&& (self.status is Open ==> self.vrf_request is None && !self.is_full())
        &&& (self.status is Pending ==> self.vrf_request is Some && self.is_full())
        &&& (self.status is Resolved ==> self.vrf_request is Some)
        &&& ((self.status is Open || self.status is Pending) ==> self.winner_side == 0)
    }
}

/// The two lobbies hold the same state, field for field.
pub open spec fn same_state(a: Lobby, b: Lobby) -> bool {
    &&& a.lobby_id == b.lobby_id
    &&& a.creator == b.creator
    &&& a.status == b.status
    &&& a.team_size == b.team_size
    &&& a.stake_lamports == b.stake_lamports
    &&& a.created_at == b.created_at
    &&& a.finalized == b.finalized
    &&& a.vrf_seed == b.vrf_seed
    &&& a.vrf_request == b.vrf_request
    &&& a.winner_side == b.winner_side
    &&& a.team1@ == b.team1@
    &&& a.team2@ == b.team2@
    &&& a.escrow_lamports == b.escrow_lamports
}

/// `post` is `pre` with `player` appended to the roster `side` names and
/// one more stake escrowed; the lobby's fixed parameters are untouched.
pub open spec fn joined(pre: Lobby, post: Lobby, player: AccountId, side: u8) -> bool {
    &&& (side == 0 ==> post.team1@ == pre.team1@.push(player) && post.team2@ == pre.team2@)
    &&& (side == 1 ==> post.team1@ == pre.team1@ && post.team2@ == pre.team2@.push(player))
    &&& post.escrow_lamports == pre.escrow_lamports + pre.stake_lamports
    &&& post.lobby_id == pre.lobby_id
    &&& post.creator == pre.creator
    &&& post.team_size == pre.team_size
    &&& post.stake_lamports == pre.stake_lamports
    &&& post.created_at == pre.created_at
}

/// Announcement of a newly created lobby.
#[derive(Clone, Copy, Debug, PartialEq, Eq, Structural)]
pub struct LobbyCreated {
    pub lobby_id: u64,
    pub creator: AccountId,
    pub stake_lamports: u64,
    pub team_size: u8,
    pub created_at: i64,
}

/// Announcement of an admitted participant, with the roster counts after
/// the join for observability.
#[derive(Clone, Copy, Debug, PartialEq, Eq)]
pub struct PlayerJoined {
    pub player: AccountId,
    pub side: u8,
    pub team1_count: u8,
    pub team2_count: u8,
    pub is_full: bool,
    /// The randomness request handle; set exactly on the filling join.
    pub vrf_request: Option<AccountId>,
}

/// What the caller supplies to create a lobby: the funding identity and
/// the ledger's current time.
pub struct CreateLobby {
    pub creator: AccountId,
    pub now: i64,
}

/// What the caller supplies for a non-final join.
pub struct JoinSideSimple {
    pub player: AccountId,
}

/// What the caller supplies for the final join: the joining identity and
/// the handle of the randomness request account derived from the seed.
pub struct JoinSideFull {
    pub player: AccountId,
    pub vrf_request: AccountId,
}

/// Whether `team` holds `p`.
fn roster_contains(team: &Vec<AccountId>, p: AccountId) -> (b: bool)
    ensures
        b == team@.contains(p),
{
    let mut i: usize = 0;
    while i < team.len()
        invariant
            i <= team@.len(),
            forall|j: int| 0 <= j < i ==> team@[j] != p,
        decreases team@.len() - i,
    {
        if team[i] == p {
            proof {
                assert(team@[i as int] == p);
            }
            return true;
        }
        i += 1;
    }
    false
}

/// The admission checks the two join entry points share: a participant may
/// not join twice, and the chosen side must have a free seat.
fn check_join(l: &Lobby, player: AccountId, side: u8) -> (r: Result<(), PvpError>)
    requires
        l.wf(),
        side <= 1,
    ensures
        l.is_member(player) ==> r == Err::<(), PvpError>(PvpError::AlreadyJoined),
        !l.is_member(player) && l.side_len(side) == l.team_size ==> r == Err::<(), PvpError>(
            PvpError::SideFull,
        ),
        !l.is_member(player) && l.side_len(side) < l.team_size ==> r is Ok,
{
    if roster_contains(&l.team1, player) || roster_contains(&l.team2, player) {
        return Err(PvpError::AlreadyJoined);
    }
    let seats_taken = if side == 0 {
        l.team1.len()
    } else {
        l.team2.len()
    };
    if seats_taken >= l.team_size as usize {
        return Err(PvpError::SideFull);
    }
    Ok(())
}

/// The transfer-and-append step the two join entry points share: escrow one
/// stake and seat the player on the chosen roster.
fn apply_join(l: &mut Lobby, player: AccountId, side: u8)
    requires
        old(l).wf(),
        old(l).status is Open,
        side <= 1,
        !old(l).is_member(player),
        old(l).side_len(side) < old(l).team_size,
    ensures
        joined(*old(l), *final(l), player, side),
        final(l).status == old(l).status,
        final(l).finalized == old(l).finalized,
        final(l).vrf_seed == old(l).vrf_seed,
        final(l).vrf_request == old(l).vrf_request,
        final(l).winner_side == old(l).winner_side,
        final(l).rosters_distinct(),
        final(l).team1@.len() <= old(l).team_size,
        final(l).team2@.len() <= old(l).team_size,
        final(l).escrow_lamports == old(l).stake_lamports * (old(l).total_joined() + 1),
{
    proof {
        let pre = *l;
        // the grown escrow is stake × (seats + 1), which fits in a u64
        // because it is at most stake × 2 × team_size
        lemma_mul_is_distributive_add(
            pre.stake_lamports as int,
            pre.total_joined(),
            1,
        );
        lemma_mul_inequality(
            pre.total_joined() + 1,
            2 * (pre.team_size as int),
            pre.stake_lamports as int,
        );
    }
    l.escrow_lamports = l.escrow_lamports + l.stake_lamports;
    if side == 0 {
        l.team1.push(player);
    } else {
        l.team2.push(player);
    }
}

/// Create a lobby: validate the instruction, then seat the creator on the
/// chosen side with one stake escrowed.
///
/// The stake bound in the requires is a machine limit: the full pot,
/// stake × 2 × team_size, must be storable in the escrow's u64 balance.
pub fn create_lobby(
    ctx: &CreateLobby,
    lobby_id: u64,
    team_size: u8,
    stake_lamports: u64,
    side: u8,
) -> (r: Result<(Lobby, LobbyCreated), PvpError>)
    requires
        stake_lamports <= u64::MAX / 10,
    ensures
        !is_allowed_team_size(team_size) ==> r == Err::<(Lobby, LobbyCreated), PvpError>(
            PvpError::InvalidTeamSize,
        ),
        is_allowed_team_size(team_size) && stake_lamports < MIN_STAKE_LAMPORTS ==> r == Err::<
            (Lobby, LobbyCreated),
            PvpError,
        >(PvpError::StakeTooSmall),
        is_allowed_team_size(team_size) && stake_lamports >= MIN_STAKE_LAMPORTS && side > 1 ==> r
            == Err::<(Lobby, LobbyCreated), PvpError>(PvpError::InvalidSide),
        (is_allowed_team_size(team_size) && stake_lamports >= MIN_STAKE_LAMPORTS && side <= 1)
            <==> r is Ok,
        r matches Ok((lobby, event)) ==> {
            &&& lobby.wf()
            &&& lobby.lobby_id == lobby_id
            &&& lobby.creator == ctx.creator
            &&& lobby.status is Open
            &&& lobby.team_size == team_size
            &&& lobby.stake_lamports == stake_lamports
            &&& lobby.created_at == ctx.now
            &&& !lobby.finalized
            &&& lobby.vrf_seed is None
            &&& lobby.vrf_request is None
            &&& lobby.winner_side == 0
            &&& (side == 0 ==> lobby.team1@ == seq![ctx.creator] && lobby.team2@ == Seq::<
                AccountId,
            >::empty())
            &&& (side == 1 ==> lobby.team1@ == Seq::<AccountId>::empty() && lobby.team2@ == seq![
                ctx.creator,
            ])
            &&& lobby.escrow_lamports == stake_lamports
            &&& event == (LobbyCreated {
                lobby_id,
                creator: ctx.creator,
                stake_lamports,
                team_size,
                created_at: ctx.now,
            })
        },
{
    if !(team_size == 1 || team_size == 2 || team_size == 5) {
        return Err(PvpError::InvalidTeamSize);
    }
    if stake_lamports < MIN_STAKE_LAMPORTS {
        return Err(PvpError::StakeTooSmall);
    }
    if side > 1 {
        return Err(PvpError::InvalidSide);
    }
    let mut lobby = Lobby {
        lobby_id,
        creator: ctx.creator,
        status: LobbyStatus::Open,
        team_size,
        stake_lamports,
        created_at: ctx.now,
        finalized: false,
        vrf_seed: None,
        vrf_request: None,
        winner_side: 0,
        team1: Vec::new(),
        team2: Vec::new(),
        escrow_lamports: 0,
    };
    proof {
        // the fresh lobby is well-formed: empty rosters, empty escrow
        lemma_mul_inequality(
            2 * (team_size as int),
            10,
            stake_lamports as int,
        );
        // the fresh escrow owes nothing: stake × 0 seats
        assert(lobby.pot() == stake_lamports * 0);
        assert(lobby.wf());
    }
    apply_join(&mut lobby, ctx.creator, side);
    let event = LobbyCreated {
        lobby_id,
        creator: ctx.creator,
        stake_lamports,
        team_size,
        created_at: ctx.now,
    };
    Ok((lobby, event))
}

/// A non-final join: admit `ctx.player` to the roster `side` names.
///
/// A join that would fill both rosters is rejected with `MustUseFinalJoin`:
/// it has to go through `join_side_final`, which also requests randomness.
pub fn join_side(l: &mut Lobby, ctx: &JoinSideSimple, side: u8) -> (r: Result<
    PlayerJoined,
    PvpError,
>)
    requires
        old(l).wf(),
    ensures
        final(l).wf(),
        r is Err ==> same_state(*old(l), *final(l)),
        side > 1 ==> r == Err::<PlayerJoined, PvpError>(PvpError::InvalidSide),
        side <= 1 && !(old(l).status is Open) ==> r == Err::<PlayerJoined, PvpError>(
            PvpError::LobbyNotOpenForJoin,
        ),
        side <= 1 && old(l).status is Open && old(l).is_member(ctx.player) ==> r == Err::<
            PlayerJoined,
            PvpError,
        >(PvpError::AlreadyJoined),
        side <= 1 && old(l).status is Open && !old(l).is_member(ctx.player) && old(l).side_len(
            side,
        ) == old(l).team_size ==> r == Err::<PlayerJoined, PvpError>(PvpError::SideFull),
        side <= 1 && old(l).status is Open && !old(l).is_member(ctx.player) && old(l).side_len(
            side,
        ) < old(l).team_size && old(l).would_fill(side) ==> r == Err::<PlayerJoined, PvpError>(
            PvpError::MustUseFinalJoin,
        ),
        side <= 1 && old(l).status is Open && !old(l).is_member(ctx.player) && old(l).side_len(
            side,
        ) < old(l).team_size && !old(l).would_fill(side) ==> {
            &&& joined(*old(l), *final(l), ctx.player, side)
            &&& final(l).status is Open
            &&& final(l).finalized == old(l).finalized
            &&& final(l).vrf_seed == old(l).vrf_seed
            &&& final(l).vrf_request == old(l).vrf_request
            &&& final(l).winner_side == old(l).winner_side
            &&& r == Ok::<PlayerJoined, PvpError>(PlayerJoined {
                player: ctx.player,
                side,
                team1_count: final(l).team1@.len() as u8,
                team2_count: final(l).team2@.len() as u8,
                is_full: false,
                vrf_request: None,
            })
        },
{
    if side > 1 {
        return Err(PvpError::InvalidSide);
    }
    if !(l.status == LobbyStatus::Open) {
        return Err(PvpError::LobbyNotOpenForJoin);
    }
    match check_join(l, ctx.player, side) {
        Err(e) => {
            return Err(e);
        },
        Ok(()) => {},
    }
    let fills = if side == 0 {
        l.team1.len() + 1 == l.team_size as usize && l.team2.len() == l.team_size as usize
    } else {
        l.team1.len() == l.team_size as usize && l.team2.len() + 1 == l.team_size as usize
    };
    if fills {
        return Err(PvpError::MustUseFinalJoin);
    }
    apply_join(l, ctx.player, side);
    let team1_count = l.team1.len() as u8;
    let team2_count = l.team2.len() as u8;
    Ok(
        PlayerJoined {
            player: ctx.player,
            side,
            team1_count,
            team2_count,
            is_full: false,
            vrf_request: None,
        },
    )
}

/// The final join: same admission and transfer as `join_side`, but when the
/// join fills both rosters it stores the seed and the request handle and
/// moves the lobby to Pending — the host issues the oracle request exactly
/// then. A final join that does not fill the lobby completes like an
/// ordinary join.
pub fn join_side_final(l: &mut Lobby, ctx: &JoinSideFull, side: u8, vrf_seed: [u8; 32]) -> (r:
    Result<PlayerJoined, PvpError>)
    requires
        old(l).wf(),
    ensures
        final(l).wf(),
        r is Err ==> same_state(*old(l), *final(l)),
        side > 1 ==> r == Err::<PlayerJoined, PvpError>(PvpError::InvalidSide),
        side <= 1 && is_zero_seed(vrf_seed@) ==> r == Err::<PlayerJoined, PvpError>(
            PvpError::InvalidVrfSeed,
        ),
        side <= 1 && !is_zero_seed(vrf_seed@) && !(old(l).status is Open) ==> r == Err::<
            PlayerJoined,
            PvpError,
        >(PvpError::LobbyNotOpenForJoin),
        side <= 1 && !is_zero_seed(vrf_seed@) && old(l).status is Open && old(l).is_member(
            ctx.player,
        ) ==> r == Err::<PlayerJoined, PvpError>(PvpError::AlreadyJoined),
        side <= 1 && !is_zero_seed(vrf_seed@) && old(l).status is Open && !old(l).is_member(
            ctx.player,
        ) && old(l).side_len(side) == old(l).team_size ==> r == Err::<PlayerJoined, PvpError>(
            PvpError::SideFull,
        ),
        side <= 1 && !is_zero_seed(vrf_seed@) && old(l).status is Open && !old(l).is_member(
            ctx.player,
        ) && old(l).side_len(side) < old(l).team_size ==> {
            &&& joined(*old(l), *final(l), ctx.player, side)
            &&& final(l).finalized == old(l).finalized
            &&& final(l).winner_side == old(l).winner_side
            &&& (old(l).would_fill(side) ==> {
                &&& final(l).status is Pending
                &&& final(l).vrf_seed matches Some(s) && s@ == vrf_seed@
                &&& final(l).vrf_request == Some(ctx.vrf_request)
                &&& r == Ok::<PlayerJoined, PvpError>(PlayerJoined {
                    player: ctx.player,
                    side,
                    team1_count: final(l).team1@.len() as u8,
                    team2_count: final(l).team2@.len() as u8,
                    is_full: true,
                    vrf_request: Some(ctx.vrf_request),
                })
            })
            &&& (!old(l).would_fill(side) ==> {
                &&& final(l).status is Open
                &&& final(l).vrf_seed == old(l).vrf_seed
                &&& final(l).vrf_request == old(l).vrf_request
                &&& r == Ok::<PlayerJoined, PvpError>(PlayerJoined {
                    player: ctx.player,
                    side,
                    team1_count: final(l).team1@.len() as u8,
                    team2_count: final(l).team2@.len() as u8,
                    is_full: false,
                    vrf_request: None,
                })
            })
        },
{
    if side > 1 {
        return Err(PvpError::InvalidSide);
    }
    if crate::oracle::seed_is_zero(&vrf_seed) {
        return Err(PvpError::InvalidVrfSeed);
    }
    if !(l.status == LobbyStatus::Open) {
        return Err(PvpError::LobbyNotOpenForJoin);
    }
    match check_join(l, ctx.player, side) {
        Err(e) => {
            return Err(e);
        },
        Ok(()) => {},
    }
    apply_join(l, ctx.player, side);
    let full_now = l.team1.len() == l.team_size as usize && l.team2.len() == l.team_size as usize;
    if full_now {
        l.vrf_seed = Some(vrf_seed);
        l.vrf_request = Some(ctx.vrf_request);
        l.status = LobbyStatus::Pending;
    }
    let team1_count = l.team1.len() as u8;
    let team2_count = l.team2.len() as u8;
    Ok(
        PlayerJoined {
            player: ctx.player,
            side,
            team1_count,
            team2_count,
            is_full: full_now,
            vrf_request: if full_now {
                l.vrf_request
            } else {
                None
            },
        },
    )
}

/// The fill threshold is where the randomness request lives: while Open no
/// request exists and the rosters hold fewer than 2 × team_size members in
/// all; once Pending, the rosters hold exactly 2 × team_size members and
/// the request handle is set. Together with the join contracts — each
/// successful join seats exactly one member, and moves the lobby to Pending
/// exactly when it fills both rosters — it takes exactly 2 × team_size
/// successful joins (the creator's included) to move a fresh lobby from
/// Open to Pending, and the randomness request is issued exactly once.
pub proof fn lemma_fill_threshold(l: Lobby)
    requires
        l.wf(),
    ensures
        l.status is Open ==> l.vrf_request is None && l.total_joined() < 2 * l.team_size,
        l.status is Pending ==> l.vrf_request is Some && l.total_joined() == 2 * l.team_size,
{
}

/// Before finalization, the escrowed balance is exactly
/// stake × (|team1| + |team2|): every seat is paid for, and nothing else
/// sits in escrow.
pub proof fn lemma_escrow_covers_stakes(l: Lobby)
    requires
        l.wf(),
        !l.finalized,
    ensures
        l.escrow_lamports == l.stake_lamports * (l.team1@.len() + l.team2@.len()),
{
}

} // verus!
