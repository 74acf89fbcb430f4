use libsignal_protocol::stores::{PreKeyStore, SignedPreKeyStore};
use libsignal_protocol::{Address, MemoryKeyStore};

#[test]
fn pre_key_store_round_trip() {
    let mut s = MemoryKeyStore::new();
    assert!(!PreKeyStore::contains(&s, 4));
    assert_eq!(PreKeyStore::load(&s, 4), None);
    assert_eq!(PreKeyStore::store(&mut s, 4, &[1, 2, 3]), Ok(()));
    assert!(PreKeyStore::contains(&s, 4));
    assert_eq!(PreKeyStore::load(&s, 4), Some(vec![1, 2, 3]));
    assert_eq!(PreKeyStore::store(&mut s, 4, &[9]), Ok(()));
    assert_eq!(PreKeyStore::load(&s, 4), Some(vec![9]));
    assert_eq!(PreKeyStore::store(&mut s, 5, &[]), Ok(()));
    assert_eq!(PreKeyStore::load(&s, 5), Some(vec![]));
    assert_eq!(PreKeyStore::remove(&mut s, 4), Ok(()));
    assert!(!PreKeyStore::contains(&s, 4));
    assert!(PreKeyStore::contains(&s, 5));
    assert_eq!(PreKeyStore::remove(&mut s, 4), Ok(()));
}

#[test]
fn signed_pre_key_store_round_trip() {
    let mut s = MemoryKeyStore::new();
    assert_eq!(SignedPreKeyStore::store(&mut s, 1, b"signed"), Ok(()));
    assert_eq!(SignedPreKeyStore::load(&s, 1), Some(b"signed".to_vec()));
    assert!(SignedPreKeyStore::contains(&s, 1));
    assert!(!SignedPreKeyStore::contains(&s, 2));
    assert_eq!(SignedPreKeyStore::remove(&mut s, 1), Ok(()));
    assert_eq!(SignedPreKeyStore::load(&s, 1), None);
}

#[test]
fn address_parts() {
    let name = String::from("+14151231234");
    let a = Address::new(&name, 3);
    assert_eq!(a.bytes(), b"+14151231234");
    assert_eq!(a.as_str(), Ok("+14151231234"));
    assert_eq!(a.device_id(), 3);
    let empty = Address::new("", -1);
    assert_eq!(empty.bytes(), b"");
    assert_eq!(empty.device_id(), -1);
}

#[test]
fn memory_key_store_direct_methods() {
    let mut s = MemoryKeyStore::new();
    s.store_record(9, &[4, 5]);
    assert!(s.contains_record(9));
    assert_eq!(s.load_record(9), Some(vec![4, 5]));
    s.remove_record(9);
    assert!(!s.contains_record(9));
    assert_eq!(s.load_record(9), None);
}
