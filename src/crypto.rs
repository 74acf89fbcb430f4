//! The crypto capability that the embedding application supplies, and the
//! checks the library makes before forwarding the engine's requests to it.
use vstd::prelude::*;

use crate::errors::{code_of, InternalError, SUCCESS};

verus! {

/// Engine code for AES in counter mode without padding.
pub const AES_CTR_NOPADDING: i32 = 1;

/// Engine code for AES in CBC mode with PKCS#5 padding.
pub const AES_CBC_PKCS5: i32 = 2;

/// Bytes in an AES initialization vector.
pub const AES_IV_LEN: usize = 16;

/// Bytes in an HMAC-SHA256 result.
pub const HMAC_SHA256_LEN: usize = 32;

/// Bytes in a SHA-512 digest.
pub const SHA512_LEN: usize = 64;

/// The symmetric cipher variants the engine asks for.
#[derive(Clone, Copy, Debug, PartialEq, Eq, Structural)]
pub enum SignalCipherType {
    AesCtrNoPadding,
    AesCbcPkcs5,
}

/// A cipher code that names no supported variant.
#[derive(Clone, Copy, Debug, PartialEq, Eq, Structural)]
pub struct SignalCipherTypeError(pub i32);

/// Whether a request encrypts or decrypts.
#[derive(Clone, Copy, Debug, PartialEq, Eq, Structural)]
pub enum CipherMode {
    Encrypt,
    Decrypt,
}

/// The cipher variant a code names, if any.
pub open spec fn cipher_of_code(code: i32) -> Option<SignalCipherType> {
    if code == AES_CTR_NOPADDING {
        Some(SignalCipherType::AesCtrNoPadding)
    } else if code == AES_CBC_PKCS5 {
        Some(SignalCipherType::AesCbcPkcs5)
    } else {
        None
    }
}

/// AES takes 128-, 192- and 256-bit keys.
pub open spec fn is_aes_key_len(n: int) -> bool {
    n == 16 || n == 24 || n == 32
}

impl SignalCipherType {
    /// The variant named by an engine cipher code.
    pub fn from_code(code: i32) -> (r: Result<SignalCipherType, SignalCipherTypeError>)
        ensures
            match cipher_of_code(code) {
                Some(c) => r == Ok::<SignalCipherType, SignalCipherTypeError>(c),
                None => r == Err::<SignalCipherType, SignalCipherTypeError>(
                    SignalCipherTypeError(code),
                ),
            },
    {
        if code == AES_CTR_NOPADDING {
            Ok(SignalCipherType::AesCtrNoPadding)
        } else if code == AES_CBC_PKCS5 {
            Ok(SignalCipherType::AesCbcPkcs5)
        } else {
            Err(SignalCipherTypeError(code))
        }
    }
}

/// Randomness, hashing, HMAC and AES, as the embedding application provides
/// them. The engine calls these synchronously, possibly from inside another
/// callback on the same thread.
pub trait Crypto {
    /// Fills `buffer` with cryptographically secure random bytes.
    fn fill_random(&self, buffer: &mut [u8]) -> (r: Result<(), InternalError>)
        ensures
            final(buffer)@.len() == old(buffer)@.len(),
    ;

    /// HMAC-SHA256 of `data` under `key`.
    fn hmac_sha256(&self, key: &[u8], data: &[u8]) -> (r: Result<Vec<u8>, InternalError>)
        ensures
            r matches Ok(mac) ==> mac@.len() == HMAC_SHA256_LEN,
    ;

    /// SHA-512 digest of `data`.
    fn sha512_digest(&self, data: &[u8]) -> (r: Result<Vec<u8>, InternalError>)
        ensures
            r matches Ok(d) ==> d@.len() == SHA512_LEN,
    ;

    /// Encrypts `data`; called only with a valid AES key and a 16-byte IV.
    fn encrypt(&self, cipher: SignalCipherType, key: &[u8], iv: &[u8], data: &[u8]) -> (r: Result<
        Vec<u8>,
        InternalError,
    >);

    /// Decrypts `data`; called only with a valid AES key and a 16-byte IV.
    fn decrypt(&self, cipher: SignalCipherType, key: &[u8], iv: &[u8], data: &[u8]) -> (r: Result<
        Vec<u8>,
        InternalError,
    >);
}

/// Whether a cipher request names a known cipher, an AES key and a full IV.
pub open spec fn is_valid_cipher_request(cipher_code: i32, key: Seq<u8>, iv: Seq<u8>) -> bool {
    cipher_of_code(cipher_code) is Some && is_aes_key_len(key.len() as int) && iv.len()
        == AES_IV_LEN
}

/// Serves an engine cipher request: an unknown cipher code, a key that is no
/// AES key or an IV of the wrong size is an invalid argument and never reaches
/// the provider; anything else is handed to the provider, encrypting or
/// decrypting as `mode` says, with the named cipher and the same key, IV and
/// data, and the provider's answer comes back unchanged.
pub fn run_cipher<C: Crypto + ?Sized>(
    crypto: &C,
    mode: CipherMode,
    cipher_code: i32,
    key: &[u8],
    iv: &[u8],
    data: &[u8],
) -> (r: Result<Vec<u8>, InternalError>)
    ensures
        !is_valid_cipher_request(cipher_code, key@, iv@) ==> r == Err::<Vec<u8>, InternalError>(
            InternalError::InvalidArgument,
        ),
        is_valid_cipher_request(cipher_code, key@, iv@) && mode == CipherMode::Encrypt
            ==> call_ensures(C::encrypt, (crypto, cipher_of_code(cipher_code)->Some_0, key, iv, data), r),
        is_valid_cipher_request(cipher_code, key@, iv@) && mode == CipherMode::Decrypt
            ==> call_ensures(C::decrypt, (crypto, cipher_of_code(cipher_code)->Some_0, key, iv, data), r),
{
    let cipher = match SignalCipherType::from_code(cipher_code) {
        Ok(c) => c,
        Err(_) => return Err(InternalError::InvalidArgument),
    };
    let n = key.len();
    if !(n == 16 || n == 24 || n == 32) || iv.len() != AES_IV_LEN {
        return Err(InternalError::InvalidArgument);
    }
    match mode {
        CipherMode::Encrypt => crypto.encrypt(cipher, key, iv, data),
        CipherMode::Decrypt => crypto.decrypt(cipher, key, iv, data),
    }
}

/// The status code a callback hands back to the engine: success, or the code
/// of the failure the application reported, so no failure escapes as anything
/// the engine cannot read.
pub fn callback_status<T>(r: &Result<T, InternalError>) -> (code: i32)
    ensures
        r is Ok ==> code == SUCCESS,
        r matches Err(e) ==> code == code_of(*e),
        r is Err ==> code < 0,
{
    match r {
        Ok(_) => SUCCESS,
        Err(e) => e.code(),
    }
}

} // verus!
