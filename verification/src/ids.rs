use vstd::prelude::*;

verus! {

/// A 32-byte ledger identity (a participant, an account, a request handle),
/// held as four 64-bit words so that equality is plain word equality.
#[derive(Clone, Copy, Debug, PartialEq, Eq, Structural)]
pub struct AccountId {
    pub w0: u64,
    pub w1: u64,
    pub w2: u64,
    pub w3: u64,
}

impl AccountId {
    /// The identity whose low word is `x` and whose other words are zero;
    /// convenient for hosts and tests.
    pub fn from_u64(x: u64) -> (r: AccountId)
        ensures
            r == (AccountId { w0: x, w1: 0, w2: 0, w3: 0 }),
    {
        AccountId { w0: x, w1: 0, w2: 0, w3: 0 }
    }
}

/// Deployment configuration: the trust roots settlement relies on, injected
/// once by the host and read-only thereafter.
#[derive(Clone, Copy, Debug, PartialEq, Eq, Structural)]
pub struct Config {
    /// May authorize refunds besides the lobby's creator.
    pub admin: AccountId,
    /// Receives the platform fee on resolution.
    pub treasury: AccountId,
}

} // verus!
