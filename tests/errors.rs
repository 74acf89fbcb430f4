use libsignal_protocol::errors::{check_produced, check_status};
use libsignal_protocol::{Error, InternalError};

const ALL: [InternalError; 17] = [
    InternalError::NoMemory,
    InternalError::InvalidArgument,
    InternalError::Unknown,
    InternalError::DuplicateMessage,
    InternalError::InvalidKey,
    InternalError::InvalidKeyId,
    InternalError::InvalidMac,
    InternalError::InvalidMessage,
    InternalError::InvalidVersion,
    InternalError::LegacyMessage,
    InternalError::NoSession,
    InternalError::StaleKeyExchange,
    InternalError::UntrustedIdentity,
    InternalError::VrfSignatureVerificationFailed,
    InternalError::InvalidProtoBuf,
    InternalError::FingerprintVersionMismatch,
    InternalError::FingerprintIdentityMismatch,
];

#[test]
fn known_codes_map_to_kinds() {
    assert_eq!(InternalError::from_error_code(-12), Some(InternalError::NoMemory));
    assert_eq!(InternalError::from_error_code(-22), Some(InternalError::InvalidArgument));
    assert_eq!(InternalError::from_error_code(-1002), Some(InternalError::InvalidKey));
    assert_eq!(
        InternalError::from_error_code(-1201),
        Some(InternalError::FingerprintIdentityMismatch)
    );
    assert_eq!(InternalError::from_error_code(-5), None);
    assert_eq!(InternalError::from_error_code(0), None);
}

#[test]
fn every_kind_round_trips_through_its_code() {
    for k in ALL.iter() {
        assert!(k.code() < 0);
        assert_eq!(InternalError::from_error_code(k.code()), Some(*k));
        assert_eq!(check_status(k.code()), Err(Error::Internal(*k)));
    }
}

#[test]
fn status_codes_become_results() {
    assert_eq!(check_status(0), Ok(()));
    assert_eq!(check_status(-1008), Err(Error::Internal(InternalError::NoSession)));
    assert_eq!(check_status(-9999), Err(Error::UnknownCode(-9999)));
    assert_eq!(check_status(3), Err(Error::UnknownCode(3)));
}

#[test]
fn success_without_a_value_is_a_null_result() {
    assert_eq!(check_produced(0, true), Ok(()));
    assert_eq!(check_produced(0, false), Err(Error::NullResult));
    assert_eq!(
        check_produced(-12, false),
        Err(Error::Internal(InternalError::NoMemory))
    );
}
