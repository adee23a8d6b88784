use vstd::prelude::*;

verus! {

/// Why an operation on a lobby was rejected.
///
/// Every rejection happens before any state mutation, so a caller that sees
/// one of these knows the lobby is exactly as it was.
#[derive(Clone, Copy, Debug, PartialEq, Eq, Structural)]
pub enum PvpError {
    /// A side other than 0 (team1) or 1 (team2) was named.
    InvalidSide,
    /// A refund was asked of a lobby that is no longer open.
    LobbyNotOpen,
    /// A join was asked of a lobby that is already pending, resolved or refunded.
    LobbyNotOpenForJoin,
    /// The chosen side's roster already holds `team_size` members.
    SideFull,
    /// The participant is already on one of the rosters.
    AlreadyJoined,
    /// The winning side has no members to pay.
    NotEnoughPlayers,
    /// The requester is neither the lobby's creator nor the admin.
    Unauthorized,
    /// The per-seat stake is below the minimum threshold.
    StakeTooSmall,
    /// The refund lock period has not elapsed yet.
    TooSoonToRefund,
    /// The lobby was already settled or refunded; nothing may move again.
    AlreadyFinalized,
    /// The caller-supplied recipient list has the wrong length.
    BadRemainingAccounts,
    /// The team size is not one of the allowed sizes.
    InvalidTeamSize,
    /// A caller-supplied recipient does not match the stored roster entry
    /// (or the configured fee receiver) at the same position.
    RemainingAccountsMismatch,
    /// A resolve was asked of a lobby whose randomness was never requested.
    NotPending,
    /// This join would fill the lobby and must go through the final-join
    /// entry point, which also requests randomness.
    MustUseFinalJoin,
    /// The randomness record offered is not the one this lobby requested.
    WrongRandomnessAccount,
    /// The randomness record is too short to carry a fulfilled payload.
    InvalidRandomnessData,
    /// The oracle has not fulfilled the randomness request yet; retryable.
    RandomnessNotFulfilled,
    /// The oracle fee collector offered is not the oracle's treasury.
    WrongVrfTreasury,
    /// A randomness request needs a non-zero seed.
    InvalidVrfSeed,
    /// The creator already has an active lobby registered.
    DuplicateActiveLobby,
}

} // verus!
