//! Escrow-backed team wagering settlement core.
//!
//! Participants stake equal amounts into two opposing teams of a lobby.
//! Once both rosters are full, an external verifiable-randomness oracle is
//! consulted to pick the winning side, and the pot (minus a platform fee) is
//! distributed to the winners. This crate holds the lobby lifecycle and
//! settlement logic as plain, verified state transitions; the host ledger
//! performs the account I/O and hands plain values in and out.

pub mod discriminator;
pub mod errors;
pub mod ids;
pub mod lobby;
pub mod oracle;
pub mod params;
pub mod payout;
pub mod registry;
pub mod settlement;
