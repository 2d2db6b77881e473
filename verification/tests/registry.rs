use flash_loan::registry::{AccountMap, AccountSet};
use flash_loan::types::AccountId;

fn account(byte: u8) -> AccountId {
    AccountId([byte; 32])
}

#[test]
fn accounts_are_equal_byte_for_byte() {
    let mut bytes = [7u8; 32];
    assert!(AccountId(bytes) == account(7));
    bytes[31] = 8;
    assert!(AccountId(bytes) != account(7));
    bytes[31] = 7;
    bytes[0] = 0;
    assert!(AccountId(bytes) != account(7));
}

#[test]
fn empty_map_reads_as_zero() {
    let map = AccountMap::new();
    assert_eq!(map.get(&account(1)), None);
    assert_eq!(map.get_or_default(&account(1)), 0);
}

#[test]
fn map_insert_then_get() {
    let mut map = AccountMap::new();
    map.insert(account(1), 10);
    map.insert(account(2), 20);
    assert_eq!(map.get(&account(1)), Some(10));
    assert_eq!(map.get(&account(2)), Some(20));
    assert_eq!(map.get(&account(3)), None);
    assert_eq!(map.get_or_default(&account(2)), 20);
    assert_eq!(map.get_or_default(&account(3)), 0);
}

#[test]
fn map_insert_replaces_the_value_of_that_key_alone() {
    let mut map = AccountMap::new();
    map.insert(account(1), 10);
    map.insert(account(2), 20);
    map.insert(account(1), 11);
    assert_eq!(map.get(&account(1)), Some(11));
    assert_eq!(map.get(&account(2)), Some(20));
    map.insert(account(1), 0);
    assert_eq!(map.get(&account(1)), Some(0));
}

#[test]
fn map_duplicate_is_separate() {
    let mut map = AccountMap::new();
    map.insert(account(1), 10);
    let mut copy = map.duplicate();
    copy.insert(account(1), 99);
    copy.insert(account(2), 5);
    assert_eq!(map.get(&account(1)), Some(10));
    assert_eq!(map.get(&account(2)), None);
    assert_eq!(copy.get(&account(1)), Some(99));
    assert_eq!(copy.get(&account(2)), Some(5));
}

#[test]
fn set_insert_and_contains() {
    let mut set = AccountSet::new();
    assert!(!set.contains(&account(1)));
    set.insert(account(1));
    set.insert(account(1));
    set.insert(account(3));
    assert!(set.contains(&account(1)));
    assert!(!set.contains(&account(2)));
    assert!(set.contains(&account(3)));
    let mut copy = set.duplicate();
    copy.insert(account(2));
    assert!(copy.contains(&account(1)));
    assert!(copy.contains(&account(2)));
    assert!(!set.contains(&account(2)));
}
