use libsignal_protocol::crypto::{callback_status, run_cipher};
use libsignal_protocol::{CipherMode, Crypto, InternalError, SignalCipherType, SignalCipherTypeError};

/// A provider whose "cipher" tags the data with the mode and variant, so a test
/// sees what reached it.
struct TaggingCrypto;

impl Crypto for TaggingCrypto {
    fn fill_random(&self, buffer: &mut [u8]) -> Result<(), InternalError> {
        for b in buffer.iter_mut() {
            *b = 0;
        }
        Ok(())
    }

    fn hmac_sha256(&self, _key: &[u8], _data: &[u8]) -> Result<Vec<u8>, InternalError> {
        Ok(vec![0; 32])
    }

    fn sha512_digest(&self, _data: &[u8]) -> Result<Vec<u8>, InternalError> {
        Ok(vec![0; 64])
    }

    fn encrypt(
        &self,
        cipher: SignalCipherType,
        _key: &[u8],
        _iv: &[u8],
        data: &[u8],
    ) -> Result<Vec<u8>, InternalError> {
        let mut out = vec![b'E', cipher_tag(cipher)];
        out.extend_from_slice(data);
        Ok(out)
    }

    fn decrypt(
        &self,
        cipher: SignalCipherType,
        _key: &[u8],
        _iv: &[u8],
        data: &[u8],
    ) -> Result<Vec<u8>, InternalError> {
        if data.is_empty() {
            return Err(InternalError::InvalidMessage);
        }
        let mut out = vec![b'D', cipher_tag(cipher)];
        out.extend_from_slice(data);
        Ok(out)
    }
}

fn cipher_tag(c: SignalCipherType) -> u8 {
    match c {
        SignalCipherType::AesCtrNoPadding => b'T',
        SignalCipherType::AesCbcPkcs5 => b'B',
    }
}

#[test]
fn cipher_codes() {
    assert_eq!(SignalCipherType::from_code(1), Ok(SignalCipherType::AesCtrNoPadding));
    assert_eq!(SignalCipherType::from_code(2), Ok(SignalCipherType::AesCbcPkcs5));
    assert_eq!(SignalCipherType::from_code(3), Err(SignalCipherTypeError(3)));
    assert_eq!(SignalCipherType::from_code(0), Err(SignalCipherTypeError(0)));
}

#[test]
fn valid_requests_reach_the_provider() {
    let c = TaggingCrypto;
    let iv = [0u8; 16];
    assert_eq!(
        run_cipher(&c, CipherMode::Encrypt, 2, &[0; 32], &iv, &[7]),
        Ok(vec![b'E', b'B', 7])
    );
    assert_eq!(
        run_cipher(&c, CipherMode::Decrypt, 1, &[0; 16], &iv, &[7]),
        Ok(vec![b'D', b'T', 7])
    );
    assert_eq!(
        run_cipher(&c, CipherMode::Encrypt, 1, &[0; 24], &iv, &[]),
        Ok(vec![b'E', b'T'])
    );
    assert_eq!(
        run_cipher(&c, CipherMode::Decrypt, 2, &[0; 16], &iv, &[]),
        Err(InternalError::InvalidMessage)
    );
}

#[test]
fn invalid_requests_are_invalid_arguments() {
    let c = TaggingCrypto;
    let iv = [0u8; 16];
    assert_eq!(
        run_cipher(&c, CipherMode::Encrypt, 3, &[0; 32], &iv, &[7]),
        Err(InternalError::InvalidArgument)
    );
    assert_eq!(
        run_cipher(&c, CipherMode::Encrypt, 1, &[0; 31], &iv, &[7]),
        Err(InternalError::InvalidArgument)
    );
    assert_eq!(
        run_cipher(&c, CipherMode::Decrypt, 2, &[0; 32], &[0; 8], &[7]),
        Err(InternalError::InvalidArgument)
    );
}

#[test]
fn callback_statuses() {
    assert_eq!(callback_status(&Ok::<u8, InternalError>(3)), 0);
    assert_eq!(callback_status(&Err::<u8, InternalError>(InternalError::NoMemory)), -12);
    assert_eq!(
        callback_status(&Err::<(), InternalError>(InternalError::UntrustedIdentity)),
        -1010
    );
}
