//! The engine's integer status codes and the library's error taxonomy.
use vstd::prelude::*;

verus! {

/// Status code the engine returns on success.
pub const SUCCESS: i32 = 0;

/// A failure kind that the engine reports through a known negative code.
#[derive(Clone, Copy, Debug, PartialEq, Eq, Structural)]
pub enum InternalError {
    NoMemory,
    InvalidArgument,
    Unknown,
    DuplicateMessage,
    InvalidKey,
    InvalidKeyId,
    InvalidMac,
    InvalidMessage,
    InvalidVersion,
    LegacyMessage,
    NoSession,
    StaleKeyExchange,
    UntrustedIdentity,
    VrfSignatureVerificationFailed,
    InvalidProtoBuf,
    FingerprintVersionMismatch,
    FingerprintIdentityMismatch,
}

/// The engine's code for each failure kind.
pub open spec fn code_of(e: InternalError) -> int {
    match e {
        InternalError::NoMemory => -12,
        InternalError::InvalidArgument => -22,
        InternalError::Unknown => -1000,
        InternalError::DuplicateMessage => -1001,
        InternalError::InvalidKey => -1002,
        InternalError::InvalidKeyId => -1003,
        InternalError::InvalidMac => -1004,
        InternalError::InvalidMessage => -1005,
        InternalError::InvalidVersion => -1006,
        InternalError::LegacyMessage => -1007,
        InternalError::NoSession => -1008,
        InternalError::StaleKeyExchange => -1009,
        InternalError::UntrustedIdentity => -1010,
        InternalError::VrfSignatureVerificationFailed => -1011,
        InternalError::InvalidProtoBuf => -1100,
        InternalError::FingerprintVersionMismatch => -1200,
        InternalError::FingerprintIdentityMismatch => -1201,
    }
}

/// The failure kind that a code stands for, if the code is a known one.
pub open spec fn kind_of_code(code: i32) -> Option<InternalError> {
    if code == -12 {
        Some(InternalError::NoMemory)
    } else if code == -22 {
        Some(InternalError::InvalidArgument)
    } else if code == -1000 {
        Some(InternalError::Unknown)
    } else if code == -1001 {
        Some(InternalError::DuplicateMessage)
    } else if code == -1002 {
        Some(InternalError::InvalidKey)
    } else if code == -1003 {
        Some(InternalError::InvalidKeyId)
    } else if code == -1004 {
        Some(InternalError::InvalidMac)
    } else if code == -1005 {
        Some(InternalError::InvalidMessage)
    } else if code == -1006 {
        Some(InternalError::InvalidVersion)
    } else if code == -1007 {
        Some(InternalError::LegacyMessage)
    } else if code == -1008 {
        Some(InternalError::NoSession)
    } else if code == -1009 {
        Some(InternalError::StaleKeyExchange)
    } else if code == -1010 {
        Some(InternalError::UntrustedIdentity)
    } else if code == -1011 {
        Some(InternalError::VrfSignatureVerificationFailed)
    } else if code == -1100 {
        Some(InternalError::InvalidProtoBuf)
    } else if code == -1200 {
        Some(InternalError::FingerprintVersionMismatch)
    } else if code == -1201 {
        Some(InternalError::FingerprintIdentityMismatch)
    } else {
        None
    }
}

/// Everything an operation of this library can fail with.
#[derive(Clone, Copy, Debug, PartialEq, Eq, Structural)]
pub enum Error {
    /// The engine reported a known failure code.
    Internal(InternalError),
    /// The engine reported a non-zero code that names no known failure.
    UnknownCode(i32),
    /// A signature check ran and found the signature invalid.
    InvalidSignature,
    /// The engine reported success but handed back no result.
    NullResult,
    /// The engine reported success but numbered the pre-keys it generated
    /// otherwise than its numbering rule says.
    UnexpectedPreKeyId,
    /// A timestamp lies before the epoch and has no whole-second count.
    TimestampBeforeEpoch,
}

/// The error that a non-zero status code becomes.
pub open spec fn error_of_code(code: i32) -> Error {
    match kind_of_code(code) {
        Some(k) => Error::Internal(k),
        None => Error::UnknownCode(code),
    }
}

/// What a status code means: success on zero, else the matching error.
pub open spec fn status_result(code: i32) -> Result<(), Error> {
    if code == SUCCESS {
        Ok(())
    } else {
        Err(error_of_code(code))
    }
}

impl InternalError {
    /// The failure kind named by `code`, or `None` for a code that names none.
    pub fn from_error_code(code: i32) -> (r: Option<InternalError>)
        ensures
            r == kind_of_code(code),
    {
        if code == -12 {
            Some(InternalError::NoMemory)
        } else if code == -22 {
            Some(InternalError::InvalidArgument)
        } else if code == -1000 {
            Some(InternalError::Unknown)
        } else if code == -1001 {
            Some(InternalError::DuplicateMessage)
        } else if code == -1002 {
            Some(InternalError::InvalidKey)
        } else if code == -1003 {
            Some(InternalError::InvalidKeyId)
        } else if code == -1004 {
            Some(InternalError::InvalidMac)
        } else if code == -1005 {
            Some(InternalError::InvalidMessage)
        } else if code == -1006 {
            Some(InternalError::InvalidVersion)
        } else if code == -1007 {
            Some(InternalError::LegacyMessage)
        } else if code == -1008 {
            Some(InternalError::NoSession)
        } else if code == -1009 {
            Some(InternalError::StaleKeyExchange)
        } else if code == -1010 {
            Some(InternalError::UntrustedIdentity)
        } else if code == -1011 {
            Some(InternalError::VrfSignatureVerificationFailed)
        } else if code == -1100 {
            Some(InternalError::InvalidProtoBuf)
        } else if code == -1200 {
            Some(InternalError::FingerprintVersionMismatch)
        } else if code == -1201 {
            Some(InternalError::FingerprintIdentityMismatch)
        } else {
            None
        }
    }

    /// The engine's code for this failure kind.
    pub fn code(&self) -> (r: i32)
        ensures
            r == code_of(*self),
    {
        match self {
            InternalError::NoMemory => -12,
            InternalError::InvalidArgument => -22,
            InternalError::Unknown => -1000,
            InternalError::DuplicateMessage => -1001,
            InternalError::InvalidKey => -1002,
            InternalError::InvalidKeyId => -1003,
            InternalError::InvalidMac => -1004,
            InternalError::InvalidMessage => -1005,
            InternalError::InvalidVersion => -1006,
            InternalError::LegacyMessage => -1007,
            InternalError::NoSession => -1008,
            InternalError::StaleKeyExchange => -1009,
            InternalError::UntrustedIdentity => -1010,
            InternalError::VrfSignatureVerificationFailed => -1011,
            InternalError::InvalidProtoBuf => -1100,
            InternalError::FingerprintVersionMismatch => -1200,
            InternalError::FingerprintIdentityMismatch => -1201,
        }
    }
}

/// Every failure kind's code is non-zero and is read back as that same kind.
pub proof fn lemma_code_round_trip(e: InternalError)
    ensures
        code_of(e) != SUCCESS,
        kind_of_code(code_of(e) as i32) == Some(e),
        status_result(code_of(e) as i32) == Err::<(), Error>(Error::Internal(e)),
{
}

/// Turns a status code into a result: `Ok` on success, else the error the code
/// names, or `UnknownCode` carrying the raw value.
pub fn check_status(code: i32) -> (r: Result<(), Error>)
    ensures
        r == status_result(code),
{
    if code == SUCCESS {
        Ok(())
    } else {
        match InternalError::from_error_code(code) {
            Some(k) => Err(Error::Internal(k)),
            None => Err(Error::UnknownCode(code)),
        }
    }
}

/// Turns a status code and the pointer-nullness of the value it came with into a
/// result: a failure code wins; success with no value is `NullResult`.
pub fn check_produced(code: i32, produced: bool) -> (r: Result<(), Error>)
    ensures
        code != SUCCESS ==> r == Err::<(), Error>(error_of_code(code)),
        code == SUCCESS && produced ==> r == Ok::<(), Error>(()),
        code == SUCCESS && !produced ==> r == Err::<(), Error>(Error::NullResult),
{
    match check_status(code) {
        Err(e) => Err(e),
        Ok(()) => if produced {
            Ok(())
        } else {
            Err(Error::NullResult)
        },
    }
}

} // verus!
