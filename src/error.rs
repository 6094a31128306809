//! Failure kinds of message processing.

use vstd::prelude::*;

verus! {

/// Why a message was not accepted.
#[derive(Clone, Copy, Debug, PartialEq, Eq, Structural)]
pub enum Error {
    /// The authentication parameters have the wrong length for the hash.
    AuthenticationError,
    /// The HMAC does not match, or credentials that the flags require are missing.
    AuthenticationFailure,
    /// Engine boots or engine time is outside the time window.
    NotInTimeWindowError,
    /// DES ciphertext is not a whole number of blocks.
    CipherDESUnpadError,
    /// The outer message is malformed BER.
    ASNDecodeError,
    /// A message could not be encoded.
    ASNEncodeError,
    /// The USM security parameters are malformed BER.
    USMParamDecodeError,
    /// The USM security parameters could not be encoded.
    USMParamEncodeError,
    /// The version field is not 0, 1 or 3.
    UnknownSNMPVersion,
    /// The msgFlags octet is missing.
    InvalidV3Flags,
    /// The security level is below the user's minimum, or privacy is asked without authentication.
    InvalidSecurityLevel,
    /// Decryption failed or the plaintext is not a scoped PDU.
    DecryptionFailure,
}

impl Error {
    /// A short human-readable description.
    pub fn description(&self) -> (r: &'static str)
        ensures
            r@ == match self {
                Error::AuthenticationError => "incorrect authentication parameter length"@,
                Error::AuthenticationFailure => "auth doesn't match"@,
                Error::NotInTimeWindowError => "engine time/boot is not monotonically incremented"@,
                Error::CipherDESUnpadError => "des cipher text is not zero padded"@,
                Error::ASNDecodeError => "failed decoding packet"@,
                Error::ASNEncodeError => "failed encoding packet"@,
                Error::UnknownSNMPVersion => "unknown snmp version"@,
                Error::InvalidV3Flags => "snmp v3 flag header doesn't exists"@,
                Error::InvalidSecurityLevel => "incoming packet doesn't match minimum security level"@,
                Error::USMParamDecodeError => "failed decoding usm parameters"@,
                Error::USMParamEncodeError => "failed encoding usm parameters"@,
                Error::DecryptionFailure => "failed decrypting payload"@,
            },
    {
        match self {
            Error::AuthenticationError => "incorrect authentication parameter length",
            Error::AuthenticationFailure => "auth doesn't match",
            Error::NotInTimeWindowError => "engine time/boot is not monotonically incremented",
            Error::CipherDESUnpadError => "des cipher text is not zero padded",
            Error::ASNDecodeError => "failed decoding packet",
            Error::ASNEncodeError => "failed encoding packet",
            Error::UnknownSNMPVersion => "unknown snmp version",
            Error::InvalidV3Flags => "snmp v3 flag header doesn't exists",
            Error::InvalidSecurityLevel => "incoming packet doesn't match minimum security level",
            Error::USMParamDecodeError => "failed decoding usm parameters",
            Error::USMParamEncodeError => "failed encoding usm parameters",
            Error::DecryptionFailure => "failed decrypting payload",
        }
    }
}

} // verus!
