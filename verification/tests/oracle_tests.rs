use pvp_program::errors::PvpError;
use pvp_program::oracle::{read_randomness, seed_is_zero, winner_side_of, MIN_RECORD_LEN};

fn record(tag: u8, randomness: u64) -> Vec<u8> {
    let mut data = vec![0u8; MIN_RECORD_LEN];
    data[8] = tag;
    data[73..81].copy_from_slice(&randomness.to_le_bytes());
    data
}

#[test]
fn read_rejects_short_record() {
    let data = vec![1u8; MIN_RECORD_LEN - 1];
    assert_eq!(
        read_randomness(&data).unwrap_err(),
        PvpError::InvalidRandomnessData
    );
}

#[test]
fn read_rejects_pending_record() {
    let data = record(0, 12345);
    assert_eq!(
        read_randomness(&data).unwrap_err(),
        PvpError::RandomnessNotFulfilled
    );
}

#[test]
fn read_returns_little_endian_value() {
    let data = record(1, 0x0102_0304_0506_0708);
    assert_eq!(read_randomness(&data).unwrap(), 0x0102_0304_0506_0708);
}

#[test]
fn read_takes_first_eight_payload_bytes() {
    let mut data = record(1, 0);
    data[73] = 0x2a;
    // bytes beyond the first eight of the payload do not matter
    data[81] = 0xff;
    data[136] = 0xff;
    assert_eq!(read_randomness(&data).unwrap(), 0x2a);
}

#[test]
fn read_accepts_longer_record() {
    let mut data = record(1, 7);
    data.extend_from_slice(&[0u8; 20]);
    assert_eq!(read_randomness(&data).unwrap(), 7);
}

#[test]
fn winner_rule_is_parity() {
    assert_eq!(winner_side_of(0), 0);
    assert_eq!(winner_side_of(1), 1);
    assert_eq!(winner_side_of(2), 0);
    assert_eq!(winner_side_of(u64::MAX), 1);
    assert_eq!(winner_side_of(0x0102_0304_0506_0707), 1);
}

#[test]
fn zero_seed_detection() {
    assert!(seed_is_zero(&[0u8; 32]));
    let mut seed = [0u8; 32];
    seed[31] = 1;
    assert!(!seed_is_zero(&seed));
    assert!(!seed_is_zero(&[9u8; 32]));
}
