use anchor_voting_dapp::address::Address;
use anchor_voting_dapp::state::VoterRecord;
use anchor_voting_dapp::store::Store;

fn addr(fill: u8) -> Address {
    Address::new([fill; 32])
}

fn record(voter: u8, at: i64) -> VoterRecord {
    VoterRecord { voter: addr(voter), proposal: addr(0xEE), voted: true, support: voter % 2 == 0, voted_at: at }
}

#[test]
fn new_store_holds_nothing() {
    let store: Store<VoterRecord> = Store::new();
    assert_eq!(store.len(), 0);
    assert!(!store.contains(&addr(1)));
    assert!(store.read(&addr(1)).is_none());
}

#[test]
fn allocate_takes_a_fresh_key_only() {
    let mut store: Store<VoterRecord> = Store::new();
    assert!(store.allocate(addr(1), record(1, 10)));
    assert!(store.allocate(addr(2), record(2, 20)));
    assert_eq!(store.len(), 2);
    assert!(!store.allocate(addr(1), record(3, 30)));
    assert_eq!(store.len(), 2);
    assert_eq!(store.read(&addr(1)), Some(&record(1, 10)));
    assert_eq!(store.read(&addr(2)), Some(&record(2, 20)));
    assert!(store.contains(&addr(2)));
    assert!(!store.contains(&addr(3)));
}

#[test]
fn write_replaces_an_existing_record_only() {
    let mut store: Store<VoterRecord> = Store::new();
    assert!(!store.write(&addr(1), record(1, 10)));
    assert_eq!(store.len(), 0);
    assert!(store.allocate(addr(1), record(1, 10)));
    assert!(store.allocate(addr(2), record(2, 20)));
    assert!(store.write(&addr(1), record(5, 50)));
    assert_eq!(store.len(), 2);
    assert_eq!(store.read(&addr(1)), Some(&record(5, 50)));
    assert_eq!(store.read(&addr(2)), Some(&record(2, 20)));
    assert!(!store.write(&addr(3), record(3, 30)));
    assert!(store.read(&addr(3)).is_none());
}

#[test]
fn keys_that_differ_in_the_last_byte_are_different_keys() {
    let mut near = [1u8; 32];
    near[31] = 2;
    let mut store: Store<VoterRecord> = Store::new();
    assert!(store.allocate(addr(1), record(1, 10)));
    assert!(store.allocate(Address::new(near), record(2, 20)));
    assert_eq!(store.read(&Address::new(near)), Some(&record(2, 20)));
    assert_eq!(store.read(&addr(1)), Some(&record(1, 10)));
}
