use pvp_program::errors::PvpError;
use pvp_program::ids::AccountId;
use pvp_program::registry::LobbyRegistry;

fn acct(x: u64) -> AccountId {
    AccountId::from_u64(x)
}

#[test]
fn register_and_release_one_creator() {
    let mut reg = LobbyRegistry::new();
    assert!(!reg.contains(acct(1)));
    reg.register(acct(1), acct(100)).unwrap();
    assert!(reg.contains(acct(1)));
    assert!(reg.release(acct(1)));
    assert!(!reg.contains(acct(1)));
}

#[test]
fn second_lobby_per_creator_is_refused() {
    let mut reg = LobbyRegistry::new();
    reg.register(acct(1), acct(100)).unwrap();
    let r = reg.register(acct(1), acct(101));
    assert_eq!(r.unwrap_err(), PvpError::DuplicateActiveLobby);
    // after release the creator may open a new lobby
    assert!(reg.release(acct(1)));
    assert!(reg.register(acct(1), acct(101)).is_ok());
}

#[test]
fn release_leaves_other_creators_registered() {
    let mut reg = LobbyRegistry::new();
    reg.register(acct(1), acct(100)).unwrap();
    reg.register(acct(2), acct(200)).unwrap();
    reg.register(acct(3), acct(300)).unwrap();
    assert!(reg.release(acct(2)));
    assert!(reg.contains(acct(1)));
    assert!(!reg.contains(acct(2)));
    assert!(reg.contains(acct(3)));
}

#[test]
fn release_of_absent_creator_reports_false() {
    let mut reg = LobbyRegistry::new();
    reg.register(acct(1), acct(100)).unwrap();
    assert!(!reg.release(acct(2)));
    assert!(reg.contains(acct(1)));
}
