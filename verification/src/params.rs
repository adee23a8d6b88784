use vstd::prelude::*;

verus! {

/// Platform fee in basis points (100 = 1%), fixed for every lobby.
pub const PLATFORM_FEE_BPS: u64 = 100;

/// Divisor that turns basis points into a fraction of the pot.
pub const BPS_DENOMINATOR: u64 = 10_000;

/// Minimum per-seat stake, in lamports (0.05 SOL).
pub const MIN_STAKE_LAMPORTS: u64 = 50_000_000;

/// Seconds a lobby must age before a non-forced refund is allowed.
pub const REFUND_LOCK_SECS: i64 = 120;

/// Storage cap on each roster, whatever team size a lobby was created with.
pub const MAX_TEAM_SIZE_ALLOC: usize = 5;

/// The team sizes a lobby may be created with.
pub open spec fn is_allowed_team_size(team_size: u8) -> bool {
    team_size == 1 || team_size == 2 || team_size == 5
}

} // verus!
