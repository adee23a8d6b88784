use pvp_program::errors::PvpError;
use pvp_program::ids::AccountId;
use pvp_program::lobby::{
    create_lobby, join_side, join_side_final, CreateLobby, JoinSideFull, JoinSideSimple, Lobby,
    LobbyStatus,
};

fn acct(x: u64) -> AccountId {
    AccountId::from_u64(x)
}

const STAKE: u64 = 50_000_000;

fn new_lobby(team_size: u8) -> Lobby {
    let ctx = CreateLobby { creator: acct(1), now: 1_000 };
    let (lobby, _) = create_lobby(&ctx, 7, team_size, STAKE, 0).unwrap();
    lobby
}

/// Fill a lobby of the given team size and report how many joins succeeded
/// (the creator's seat included) and how often it moved to Pending.
fn fill_and_count(team_size: u8) -> (Lobby, u32, u32) {
    let mut lobby = new_lobby(team_size);
    let mut successful_joins: u32 = 1; // the creator joined at creation
    let mut pending_transitions: u32 = 0;
    let mut next_id: u64 = 2;
    for side in [0u8, 1u8] {
        loop {
            let before = lobby.status;
            let player = acct(next_id);
            let fills = {
                let t1 = lobby.team1.len() + if side == 0 { 1 } else { 0 };
                let t2 = lobby.team2.len() + if side == 1 { 1 } else { 0 };
                t1 == team_size as usize && t2 == team_size as usize
            };
            let r = if fills {
                join_side_final(
                    &mut lobby,
                    &JoinSideFull { player, vrf_request: acct(999) },
                    side,
                    [9u8; 32],
                )
            } else {
                join_side(&mut lobby, &JoinSideSimple { player }, side)
            };
            match r {
                Ok(_) => {
                    successful_joins += 1;
                    next_id += 1;
                    if before == LobbyStatus::Open && lobby.status == LobbyStatus::Pending {
                        pending_transitions += 1;
                    }
                }
                Err(PvpError::SideFull) => break,
                Err(e) => panic!("unexpected join error: {:?}", e),
            }
            if lobby.status == LobbyStatus::Pending {
                break;
            }
        }
        if lobby.status == LobbyStatus::Pending {
            break;
        }
    }
    (lobby, successful_joins, pending_transitions)
}

#[test]
fn exactly_two_team_size_joins_fill_size_1() {
    let (lobby, joins, transitions) = fill_and_count(1);
    assert_eq!(joins, 2);
    assert_eq!(transitions, 1);
    assert_eq!(lobby.status, LobbyStatus::Pending);
    assert!(lobby.vrf_request.is_some());
}

#[test]
fn exactly_two_team_size_joins_fill_size_2() {
    let (lobby, joins, transitions) = fill_and_count(2);
    assert_eq!(joins, 4);
    assert_eq!(transitions, 1);
    assert_eq!(lobby.status, LobbyStatus::Pending);
    assert!(lobby.vrf_request.is_some());
}

#[test]
fn exactly_two_team_size_joins_fill_size_5() {
    let (lobby, joins, transitions) = fill_and_count(5);
    assert_eq!(joins, 10);
    assert_eq!(transitions, 1);
    assert_eq!(lobby.status, LobbyStatus::Pending);
    assert!(lobby.vrf_request.is_some());
}

#[test]
fn escrow_tracks_stake_times_joined() {
    let mut lobby = new_lobby(2);
    assert_eq!(lobby.escrow_lamports, STAKE);
    join_side(&mut lobby, &JoinSideSimple { player: acct(2) }, 1).unwrap();
    assert_eq!(lobby.escrow_lamports, 2 * STAKE);
    join_side(&mut lobby, &JoinSideSimple { player: acct(3) }, 0).unwrap();
    assert_eq!(lobby.escrow_lamports, 3 * STAKE);
    join_side_final(
        &mut lobby,
        &JoinSideFull { player: acct(4), vrf_request: acct(999) },
        1,
        [9u8; 32],
    )
    .unwrap();
    assert_eq!(lobby.escrow_lamports, 4 * STAKE);
    assert_eq!(
        lobby.escrow_lamports,
        STAKE * (lobby.team1.len() + lobby.team2.len()) as u64
    );
}

#[test]
fn create_rejects_bad_team_size() {
    let ctx = CreateLobby { creator: acct(1), now: 0 };
    let r = create_lobby(&ctx, 1, 3, STAKE, 0);
    assert_eq!(r.unwrap_err(), PvpError::InvalidTeamSize);
}

#[test]
fn create_rejects_small_stake() {
    let ctx = CreateLobby { creator: acct(1), now: 0 };
    let r = create_lobby(&ctx, 1, 2, STAKE - 1, 0);
    assert_eq!(r.unwrap_err(), PvpError::StakeTooSmall);
}

#[test]
fn create_rejects_bad_side() {
    let ctx = CreateLobby { creator: acct(1), now: 0 };
    let r = create_lobby(&ctx, 1, 2, STAKE, 2);
    assert_eq!(r.unwrap_err(), PvpError::InvalidSide);
}

#[test]
fn create_seats_creator_on_chosen_side() {
    let ctx = CreateLobby { creator: acct(1), now: 42 };
    let (lobby, ev) = create_lobby(&ctx, 7, 2, STAKE, 1).unwrap();
    assert!(lobby.team1.is_empty());
    assert_eq!(lobby.team2, vec![acct(1)]);
    assert_eq!(lobby.created_at, 42);
    assert_eq!(ev.team_size, 2);
    assert_eq!(ev.stake_lamports, STAKE);
}

#[test]
fn join_rejects_bad_side() {
    let mut lobby = new_lobby(2);
    let r = join_side(&mut lobby, &JoinSideSimple { player: acct(2) }, 2);
    assert_eq!(r.unwrap_err(), PvpError::InvalidSide);
}

#[test]
fn join_rejects_duplicate_player() {
    let mut lobby = new_lobby(2);
    let r = join_side(&mut lobby, &JoinSideSimple { player: acct(1) }, 1);
    assert_eq!(r.unwrap_err(), PvpError::AlreadyJoined);
    assert_eq!(lobby.escrow_lamports, STAKE);
}

#[test]
fn join_rejects_full_side() {
    let mut lobby = new_lobby(2);
    join_side(&mut lobby, &JoinSideSimple { player: acct(2) }, 0).unwrap();
    // team1 now holds creator and acct(2): a third seat there is refused
    let r = join_side(&mut lobby, &JoinSideSimple { player: acct(3) }, 0);
    assert_eq!(r.unwrap_err(), PvpError::SideFull);
}

#[test]
fn filling_join_must_use_final_entry_point() {
    let mut lobby = new_lobby(1);
    let r = join_side(&mut lobby, &JoinSideSimple { player: acct(2) }, 1);
    assert_eq!(r.unwrap_err(), PvpError::MustUseFinalJoin);
    // the rejected join left no trace
    assert_eq!(lobby.status, LobbyStatus::Open);
    assert_eq!(lobby.escrow_lamports, STAKE);
    assert!(lobby.team2.is_empty());
}

#[test]
fn final_join_rejects_zero_seed() {
    let mut lobby = new_lobby(1);
    let r = join_side_final(
        &mut lobby,
        &JoinSideFull { player: acct(2), vrf_request: acct(999) },
        1,
        [0u8; 32],
    );
    assert_eq!(r.unwrap_err(), PvpError::InvalidVrfSeed);
}

#[test]
fn final_join_records_seed_and_handle_once() {
    let mut lobby = new_lobby(1);
    assert!(lobby.vrf_request.is_none());
    assert!(lobby.vrf_seed.is_none());
    let ev = join_side_final(
        &mut lobby,
        &JoinSideFull { player: acct(2), vrf_request: acct(999) },
        1,
        [9u8; 32],
    )
    .unwrap();
    assert!(ev.is_full);
    assert_eq!(ev.vrf_request, Some(acct(999)));
    assert_eq!(lobby.vrf_request, Some(acct(999)));
    assert_eq!(lobby.vrf_seed, Some([9u8; 32]));
    assert_eq!(lobby.status, LobbyStatus::Pending);
}

#[test]
fn final_join_without_fill_stays_open() {
    let mut lobby = new_lobby(2);
    let ev = join_side_final(
        &mut lobby,
        &JoinSideFull { player: acct(2), vrf_request: acct(999) },
        1,
        [9u8; 32],
    )
    .unwrap();
    assert!(!ev.is_full);
    assert_eq!(ev.vrf_request, None);
    assert_eq!(lobby.status, LobbyStatus::Open);
    assert!(lobby.vrf_request.is_none());
}

#[test]
fn sixth_join_on_full_lobby_not_joinable() {
    // a team-size-5 lobby whose both sides are full sits in Pending:
    // one more join is refused because the lobby is no longer open
    let (mut lobby, _, _) = fill_and_count(5);
    assert_eq!(lobby.status, LobbyStatus::Pending);
    let r = join_side(&mut lobby, &JoinSideSimple { player: acct(77) }, 0);
    assert_eq!(r.unwrap_err(), PvpError::LobbyNotOpenForJoin);
}

#[test]
fn join_event_reports_counts() {
    let mut lobby = new_lobby(2);
    let ev = join_side(&mut lobby, &JoinSideSimple { player: acct(2) }, 1).unwrap();
    assert_eq!(ev.player, acct(2));
    assert_eq!(ev.side, 1);
    assert_eq!(ev.team1_count, 1);
    assert_eq!(ev.team2_count, 1);
    assert!(!ev.is_full);
}
