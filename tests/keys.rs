use libsignal_protocol::keys::{KEY_LEN, KEY_TYPE_TAG};
use libsignal_protocol::{Error, InternalError, PublicKey};
use std::cmp::Ordering;

fn key_with(first: u8, fill: u8) -> Vec<u8> {
    let mut b = vec![KEY_TYPE_TAG];
    b.push(first);
    for _ in 1..KEY_LEN {
        b.push(fill);
    }
    b
}

#[test]
fn decode_from_binary() {
    let public = &[
        0x05, 0x1b, 0xb7, 0x59, 0x66, 0xf2, 0xe9, 0x3a, 0x36, 0x91, 0xdf,
        0xff, 0x94, 0x2b, 0xb2, 0xa4, 0x66, 0xa1, 0xc0, 0x8b, 0x8d, 0x78,
        0xca, 0x3f, 0x4d, 0x6d, 0xf8, 0xb8, 0xbf, 0xa2, 0xe4, 0xee, 0x28,
    ];

    let _got = PublicKey::decode_point(public).unwrap();
}

#[test]
fn serialize_then_decode_gives_same_key() {
    let bytes = key_with(0x1b, 0x42);
    let k = PublicKey::decode_point(&bytes).unwrap();
    let out = k.serialize();
    assert_eq!(out, bytes);
    let again = PublicKey::decode_point(&out).unwrap();
    assert_eq!(again.compare(&k), Ordering::Equal);
    assert!(again == k);
}

#[test]
fn decode_rejects_wrong_tag() {
    let mut bytes = key_with(1, 2);
    bytes[0] = 0x04;
    assert_eq!(
        PublicKey::decode_point(&bytes).err(),
        Some(Error::Internal(InternalError::InvalidKey))
    );
}

#[test]
fn decode_rejects_wrong_length() {
    let mut bytes = key_with(1, 2);
    bytes.pop();
    assert_eq!(
        PublicKey::decode_point(&bytes).err(),
        Some(Error::Internal(InternalError::InvalidKey))
    );
    assert_eq!(
        PublicKey::decode_point(&[]).err(),
        Some(Error::Internal(InternalError::InvalidKey))
    );
    let mut long = key_with(1, 2);
    long.push(0);
    assert!(PublicKey::decode_point(&long).is_err());
}

#[test]
fn keys_order_by_first_differing_byte() {
    let a = PublicKey::decode_point(&key_with(1, 9)).unwrap();
    let b = PublicKey::decode_point(&key_with(2, 0)).unwrap();
    let c = PublicKey::decode_point(&key_with(2, 1)).unwrap();
    assert_eq!(a.compare(&b), Ordering::Less);
    assert_eq!(b.compare(&a), Ordering::Greater);
    assert_eq!(b.compare(&c), Ordering::Less);
    assert_eq!(a.compare(&c), Ordering::Less);
    assert_eq!(a.partial_cmp(&b), Some(Ordering::Less));
    assert!(a < c);
    assert!(a != b);
}

#[test]
fn equal_keys_compare_alike_from_either_side() {
    let a = PublicKey::decode_point(&key_with(7, 7)).unwrap();
    let a2 = PublicKey::decode_point(&key_with(7, 7)).unwrap();
    let b = PublicKey::decode_point(&key_with(8, 0)).unwrap();
    assert_eq!(a.compare(&a2), Ordering::Equal);
    assert_eq!(a2.compare(&a), Ordering::Equal);
    assert_eq!(a.compare(&b), a2.compare(&b));
    assert_eq!(b.compare(&a), b.compare(&a2));
}

#[test]
fn signature_outcomes() {
    assert_eq!(PublicKey::signature_outcome(1), Ok(()));
    assert_eq!(PublicKey::signature_outcome(0), Err(Error::InvalidSignature));
    assert_eq!(
        PublicKey::signature_outcome(-1011),
        Err(Error::Internal(InternalError::VrfSignatureVerificationFailed))
    );
    assert_eq!(PublicKey::signature_outcome(7), Err(Error::UnknownCode(7)));
}

#[test]
fn sorting_keys_follows_compare() {
    let a = PublicKey::decode_point(&key_with(1, 9)).unwrap();
    let b = PublicKey::decode_point(&key_with(2, 0)).unwrap();
    let c = PublicKey::decode_point(&key_with(2, 1)).unwrap();
    let mut v = vec![c.clone(), a.clone(), b.clone()];
    v.sort();
    assert_eq!(v[0].compare(&a), Ordering::Equal);
    assert_eq!(v[1].compare(&b), Ordering::Equal);
    assert_eq!(v[2].compare(&c), Ordering::Equal);
    assert_eq!(a.cmp(&b), a.compare(&b));
    assert_eq!(c.cmp(&b), c.compare(&b));
}
