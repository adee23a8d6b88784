use vstd::prelude::*;
use vstd::array::array_index_get;
use vstd::bytes::{spec_u64_from_le_bytes, u64_from_le_bytes};
use vstd::slice::{slice_index_get, slice_subrange};

use crate::errors::PvpError;

verus! {

/// Offset of the one-byte status tag in the oracle's randomness record.
pub const RECORD_STATUS_OFFSET: usize = 8;

/// Tag value whose presence marks a record as fulfilled.
pub const RECORD_FULFILLED_TAG: u8 = 1;

/// Offset of the 64-byte randomness payload in a fulfilled record.
pub const RECORD_RANDOMNESS_OFFSET: usize = 73;

/// Minimum length of a record that can carry a fulfilled payload: an 8-byte
/// header, the status tag, a 32-byte requester identity, a 32-byte seed,
/// and the 64-byte randomness payload.
pub const MIN_RECORD_LEN: usize = 137;

/// A seed every byte of which is zero; randomness requests reject it.
pub open spec fn is_zero_seed(s: Seq<u8>) -> bool {
    forall|i: int| 0 <= i < s.len() ==> s[i] == 0
}

/// True when the record is long enough and its status tag says fulfilled.
pub open spec fn record_fulfilled(data: Seq<u8>) -> bool {
    data.len() >= MIN_RECORD_LEN && data[RECORD_STATUS_OFFSET as int] == RECORD_FULFILLED_TAG
}

/// The value the winner rule reads from a fulfilled record: the first 8
/// bytes of its randomness payload as an unsigned little-endian integer.
pub open spec fn randomness_value_of(data: Seq<u8>) -> u64 {
    spec_u64_from_le_bytes(
        data.subrange(RECORD_RANDOMNESS_OFFSET as int, RECORD_RANDOMNESS_OFFSET + 8),
    )
}

/// The fixed winner-selection rule, identical for every oracle backend:
/// the randomness value modulo two, 0 naming team1 and 1 naming team2.
pub open spec fn spec_winner_side(r: u64) -> u8 {
    (r % 2) as u8
}

/// Decide the winning side from a randomness value.
pub fn winner_side_of(r: u64) -> (w: u8)
    ensures
        w == spec_winner_side(r),
        w <= 1,
{
    (r % 2) as u8
}

/// Report whether every byte of the seed is zero.
pub fn seed_is_zero(seed: &[u8; 32]) -> (b: bool)
    ensures
        b == is_zero_seed(seed@),
{
    let mut i: usize = 0;
    while i < 32
        invariant
            i <= 32,
            forall|j: int| 0 <= j < i ==> seed@[j] == 0,
        decreases 32 - i,
    {
        if *array_index_get(seed, i) != 0 {
            proof {
                assert(seed@[i as int] != 0);
            }
            return false;
        }
        i += 1;
    }
    true
}

/// Non-blocking read of the oracle's randomness record.
///
/// Fails with `InvalidRandomnessData` on a record too short to carry a
/// fulfilled payload, with `RandomnessNotFulfilled` while the status tag
/// still says pending; otherwise returns the randomness value.
pub fn read_randomness(data: &[u8]) -> (r: Result<u64, PvpError>)
    ensures
        data@.len() < MIN_RECORD_LEN ==> r == Err::<u64, PvpError>(PvpError::InvalidRandomnessData),
        data@.len() >= MIN_RECORD_LEN && data@[RECORD_STATUS_OFFSET as int] != RECORD_FULFILLED_TAG
            ==> r == Err::<u64, PvpError>(PvpError::RandomnessNotFulfilled),
        record_fulfilled(data@) ==> r == Ok::<u64, PvpError>(randomness_value_of(data@)),
{
    if data.len() < MIN_RECORD_LEN {
        return Err(PvpError::InvalidRandomnessData);
    }
    if *slice_index_get(data, RECORD_STATUS_OFFSET) != RECORD_FULFILLED_TAG {
        return Err(PvpError::RandomnessNotFulfilled);
    }
    let payload_head = slice_subrange(data, RECORD_RANDOMNESS_OFFSET, RECORD_RANDOMNESS_OFFSET + 8);
    Ok(u64_from_le_bytes(payload_head))
}

} // verus!
