use libsignal_protocol::stores::SessionStore;
use libsignal_protocol::{Address, MemorySessionStore};

#[test]
fn session_store_and_load() {
    let mut s = MemorySessionStore::new();
    let alice1 = Address::new("alice", 1);
    assert!(!s.contains_session(&alice1));
    assert_eq!(s.load_session(&alice1), None);
    assert_eq!(s.store_session(&alice1, &[1, 2, 3]), Ok(()));
    assert!(s.contains_session(&alice1));
    assert_eq!(s.load_session(&alice1), Some(vec![1, 2, 3]));
    assert_eq!(s.store_session(&alice1, &[4]), Ok(()));
    assert_eq!(s.load_session(&alice1), Some(vec![4]));
    assert_eq!(s.load_session(&Address::new("alice", 2)), None);
    assert_eq!(s.load_session(&Address::new("alicia", 1)), None);
}

#[test]
fn session_delete_one() {
    let mut s = MemorySessionStore::new();
    let a1 = Address::new("alice", 1);
    let a2 = Address::new("alice", 2);
    s.store_session(&a1, b"one").unwrap();
    s.store_session(&a2, b"two").unwrap();
    s.store_session(&a1, b"one again").unwrap();
    assert_eq!(s.delete_session(&a1), Ok(()));
    assert!(!s.contains_session(&a1));
    assert_eq!(s.load_session(&a1), None);
    assert_eq!(s.load_session(&a2), Some(b"two".to_vec()));
    assert_eq!(s.delete_session(&a1), Ok(()));
}

#[test]
fn session_delete_all_for_one_name_only() {
    let mut s = MemorySessionStore::new();
    let a1 = Address::new("alice", 1);
    let a7 = Address::new("alice", 7);
    let b1 = Address::new("bob", 1);
    let al = Address::new("alicex", 7);
    s.store_session(&a1, b"a1").unwrap();
    s.store_session(&b1, b"b1").unwrap();
    s.store_session(&a7, b"a7").unwrap();
    s.store_session(&al, b"ax").unwrap();
    let mut devices = s.sub_device_sessions(b"alice").unwrap();
    devices.sort();
    assert_eq!(devices, vec![1, 7]);
    assert_eq!(s.delete_all_sessions(b"alice"), Ok(()));
    assert!(!s.contains_session(&a1));
    assert!(!s.contains_session(&a7));
    assert_eq!(s.load_session(&b1), Some(b"b1".to_vec()));
    assert_eq!(s.load_session(&al), Some(b"ax".to_vec()));
    assert_eq!(s.sub_device_sessions(b"alice").unwrap(), Vec::<i32>::new());
    assert_eq!(s.sub_device_sessions(b"bob").unwrap(), vec![1]);
}
