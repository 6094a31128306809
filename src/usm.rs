//! The User-based Security Model state machine for a received SNMPv3
//! message: security-level gate, HMAC authentication, timeliness and
//! decryption of the scoped PDU.

use vstd::prelude::*;
use crate::auth::{derived_key, localized_key, mac_check, mac_len, mac_of, AuthType, ENGINE_BOOTS_MAX};
use crate::ber::{clone_bytes, read_u32, u32_value};
use crate::cache::{EngineCache, KeyCache};
use crate::cipher::{cipher_key_len, extension_of, plaintext, CipherType};
use crate::error::Error;
use crate::message::{
    encode_usm, encode_v3, parse_scoped_pdu, read_scoped_pdu, usm_bytes, usm_fits,
    v3_bytes, v3_fits, ScopedDataView, ScopedPduData, ScopedPduView, SecurityParameters,
    UsmSecurityParameters, UsmView, V3Message, V3View,
};

verus! {

/// The authFlag bit of msgFlags.
pub const AUTH_FLAG: u8 = 0x01;

/// The privFlag bit of msgFlags.
pub const PRIV_FLAG: u8 = 0x02;

/// The security level carried by msgFlags, checked against the user's
/// minimum; privacy without authentication is refused.
pub open spec fn level_gate(flags: Seq<u8>, minimum_security_level: u8) -> Result<u8, Error> {
    if flags.len() == 0 {
        Err(Error::InvalidV3Flags)
    } else {
        let level = (flags[0] % 4) as u8;
        if level < minimum_security_level || level == PRIV_FLAG {
            Err(Error::InvalidSecurityLevel)
        } else {
            Ok(level)
        }
    }
}

/// The parameters with msgAuthenticationParameters replaced by as many zero octets.
pub open spec fn zeroed(u: UsmView) -> UsmView {
    UsmView { auth_params: Seq::new(u.auth_params.len(), |i: int| 0u8), ..u }
}

/// The octets the HMAC is computed over: the whole message, re-encoded with
/// the authentication parameters zero-filled.
pub open spec fn auth_payload(m: V3View) -> Result<Seq<u8>, Error> {
    let z = zeroed(m.usm);
    if !usm_fits(z) {
        Err(Error::USMParamEncodeError)
    } else if !v3_fits(m.global_data, usm_bytes(z), m.scoped_data) {
        Err(Error::ASNEncodeError)
    } else {
        Ok(v3_bytes(m.global_data, usm_bytes(z), m.scoped_data))
    }
}

/// What authenticating `m` with localized key `key` gives.
pub open spec fn authentication(m: V3View, a: AuthType, key: Seq<u8>) -> Result<(), Error> {
    match auth_payload(m) {
        Err(e) => Err(e),
        Ok(p) => mac_check(a, key, p, m.usm.auth_params),
    }
}

/// The cleartext scoped PDU of `m`, decrypted with key material `key`.
pub open spec fn decryption(m: V3View, c: CipherType, key: Seq<u8>) -> Result<ScopedPduView, Error> {
    match m.scoped_data {
        ScopedDataView::Cleartext(_) => Err(Error::DecryptionFailure),
        ScopedDataView::Encrypted(ct) => match (
            u32_value(m.usm.engine_boots),
            u32_value(m.usm.engine_time),
        ) {
            (Some(boots), Some(time)) => match plaintext(c, key, boots, time, m.usm.priv_params, ct) {
                Err(e) => Err(e),
                Ok(p) => match parse_scoped_pdu(p) {
                    Some(s) => Ok(s),
                    None => Err(Error::DecryptionFailure),
                },
            },
            _ => Err(Error::DecryptionFailure),
        },
    }
}

/// Whether a protocol and a non-empty passphrase are both configured.
pub open spec fn has_credentials<T>(protocol: Option<T>, passphrase: Option<&[u8]>) -> bool {
    protocol is Some && match passphrase {
        Some(p) => p@.len() > 0,
        None => false,
    }
}

/// The authentication step for security level `level`: the HMAC check
/// under the passphrase localized to the message's engine.
pub open spec fn auth_stage(
    m: V3View,
    level: u8,
    auth_type: Option<AuthType>,
    auth_passphrase: Option<&[u8]>,
) -> Result<(), Error> {
    if level & AUTH_FLAG == 0 {
        Ok(())
    } else if !has_credentials(auth_type, auth_passphrase) {
        Err(Error::AuthenticationFailure)
    } else {
        let a = auth_type.unwrap();
        authentication(m, a, localized_key(a, auth_passphrase.unwrap()@, m.usm.engine_id))
    }
}

/// The privacy step for security level `level`: the message with its
/// scoped PDU decrypted under the key derived from the privacy passphrase.
pub open spec fn privacy_stage(
    m: V3View,
    level: u8,
    auth_type: Option<AuthType>,
    privacy_protocol: Option<CipherType>,
    privacy_passphrase: Option<&[u8]>,
) -> Result<V3View, Error> {
    if level & PRIV_FLAG == 0 {
        Ok(m)
    } else if !(auth_type is Some && has_credentials(privacy_protocol, privacy_passphrase)) {
        Err(Error::DecryptionFailure)
    } else {
        let c = privacy_protocol.unwrap();
        let key = derived_key(
            auth_type.unwrap(),
            extension_of(c),
            privacy_passphrase.unwrap()@,
            m.usm.engine_id,
            cipher_key_len(c),
        );
        match decryption(m, c, key) {
            Ok(s) => Ok(with_cleartext(m, s)),
            Err(e) => Err(e),
        }
    }
}

/// Whether result `r` and message `after` are what `expected` says, the
/// message being left as `before` on failure.
pub open spec fn outcome(
    r: Result<(), Error>,
    before: V3View,
    after: V3View,
    expected: Result<V3View, Error>,
) -> bool {
    match expected {
        Ok(v) => r is Ok && after == v,
        Err(e) => r == Err::<(), Error>(e) && after == before,
    }
}

pub open spec fn with_cleartext(m: V3View, s: ScopedPduView) -> V3View {
    V3View { scoped_data: ScopedDataView::Cleartext(s), ..m }
}

/// Flags that ask for privacy without authentication are refused with
/// InvalidSecurityLevel, whatever the user's minimum level and whatever the
/// rest of the message holds.
pub proof fn lemma_priv_without_auth_refused(flags: Seq<u8>, minimum_security_level: u8)
    requires
        flags.len() > 0,
        flags[0] % 4 == PRIV_FLAG,
    ensures
        level_gate(flags, minimum_security_level) == Err::<u8, Error>(Error::InvalidSecurityLevel),
{
}

/// Authentication succeeds exactly when the authentication parameters equal
/// the HMAC, under the localized key and truncated to the protocol's length,
/// of the message re-encoded with those parameters zero-filled.
pub proof fn lemma_authentication_iff(m: V3View, a: AuthType, key: Seq<u8>)
    requires
        auth_payload(m) is Ok,
        m.usm.auth_params.len() == mac_len(a),
    ensures
        authentication(m, a, key) is Ok <==> m.usm.auth_params == mac_of(
            a,
            key,
            auth_payload(m)->Ok_0,
        ).subrange(0, mac_len(a) as int),
{
}

/// Replacing the authentication parameters of a message that authenticates
/// by any other octets of the same length makes authentication fail.
pub proof fn lemma_forged_auth_params_fail(m: V3View, a: AuthType, key: Seq<u8>, forged: Seq<u8>)
    requires
        authentication(m, a, key) is Ok,
        forged.len() == m.usm.auth_params.len(),
        forged != m.usm.auth_params,
    ensures
        authentication(
            V3View { usm: UsmView { auth_params: forged, ..m.usm }, ..m },
            a,
            key,
        ) == Err::<(), Error>(Error::AuthenticationFailure),
{
    let m2 = V3View { usm: UsmView { auth_params: forged, ..m.usm }, ..m };
    assert(zeroed(m2.usm).auth_params =~= zeroed(m.usm).auth_params);
    assert(zeroed(m2.usm) == zeroed(m.usm));
}

impl V3Message {
    pub fn usm(&self) -> (r: &UsmSecurityParameters)
        ensures
            r@ == self@.usm,
    {
        match &self.security_parameters {
            SecurityParameters::USM(u) => u,
        }
    }

    /// The security level of the message, if the user's minimum admits it.
    pub fn security_level(&self, minimum_security_level: u8) -> (r: Result<u8, Error>)
        ensures
            r == level_gate(self@.global_data.flags, minimum_security_level),
    {
        if self.global_data.flags.len() == 0 {
            return Err(Error::InvalidV3Flags);
        }
        let level = self.global_data.flags[0] % 4;
        if level < minimum_security_level || level == PRIV_FLAG {
            Err(Error::InvalidSecurityLevel)
        } else {
            Ok(level)
        }
    }

    /// Encodes the message with its authentication parameters zero-filled.
    pub fn authentication_payload(&self) -> (r: Result<Vec<u8>, Error>)
        ensures
            match auth_payload(self@) {
                Ok(p) => r matches Ok(b) && b@ == p,
                Err(e) => r == Err::<Vec<u8>, Error>(e),
            },
    {
        let u = self.usm();
        let n = u.authentication_parameters.len();
        let mut zeros: Vec<u8> = Vec::new();
        let mut i: usize = 0;
        while i < n
            invariant
                i <= n,
                zeros@ == Seq::new(i as nat, |j: int| 0u8),
            decreases n - i,
        {
            zeros.push(0u8);
            i = i + 1;
            assert(zeros@ =~= Seq::new(i as nat, |j: int| 0u8));
        }
        let z = UsmSecurityParameters {
            authoritative_engine_id: clone_bytes(u.authoritative_engine_id.as_slice()),
            authoritative_engine_boots: clone_bytes(u.authoritative_engine_boots.as_slice()),
            authoritative_engine_time: clone_bytes(u.authoritative_engine_time.as_slice()),
            user_name: clone_bytes(u.user_name.as_slice()),
            authentication_parameters: zeros,
            privacy_parameters: clone_bytes(u.privacy_parameters.as_slice()),
        };
        assert(z@ =~= zeroed(u@));
        let sp = match encode_usm(&z) {
            Some(b) => b,
            None => return Err(Error::USMParamEncodeError),
        };
        match encode_v3(&self.global_data, sp.as_slice(), &self.scoped_data) {
            Some(b) => Ok(b),
            None => Err(Error::ASNEncodeError),
        }
    }

    /// Verifies the message's HMAC under the localized key `key`.
    pub fn authenticate(&self, auth_type: AuthType, key: &[u8]) -> (r: Result<(), Error>)
        ensures
            r == authentication(self@, auth_type, key@),
    {
        let payload = match self.authentication_payload() {
            Ok(p) => p,
            Err(e) => return Err(e),
        };
        auth_type.verify_mac(
            payload.as_slice(),
            key,
            self.usm().authentication_parameters.as_slice(),
        )
    }

    /// Decrypts the encrypted scoped PDU with key material `key` and puts
    /// the cleartext PDU in its place; on failure nothing changes.
    pub fn decrypt_scoped_data(&mut self, cipher: CipherType, key: &[u8]) -> (r: Result<(), Error>)
        ensures
            match decryption(old(self)@, cipher, key@) {
                Ok(s) => r is Ok && final(self)@ == with_cleartext(old(self)@, s),
                Err(e) => r == Err::<(), Error>(e) && final(self)@ == old(self)@,
            },
    {
        let mut payload = match &self.scoped_data {
            ScopedPduData::CleartextPdu(_) => return Err(Error::DecryptionFailure),
            ScopedPduData::EncryptedPdu(c) => clone_bytes(c.as_slice()),
        };
        let u = self.usm();
        assert(u@.engine_boots.subrange(0, u@.engine_boots.len() as int) =~= u@.engine_boots);
        assert(u@.engine_time.subrange(0, u@.engine_time.len() as int) =~= u@.engine_time);
        let boots = match read_u32(
            u.authoritative_engine_boots.as_slice(),
            0,
            u.authoritative_engine_boots.len(),
        ) {
            Some(b) => b,
            None => return Err(Error::DecryptionFailure),
        };
        let time = match read_u32(
            u.authoritative_engine_time.as_slice(),
            0,
            u.authoritative_engine_time.len(),
        ) {
            Some(t) => t,
            None => return Err(Error::DecryptionFailure),
        };
        match cipher.decrypt_with_key(
            &mut payload,
            key,
            boots,
            time,
            u.privacy_parameters.as_slice(),
        ) {
            Ok(()) => {},
            Err(e) => return Err(e),
        }
        match read_scoped_pdu(payload.as_slice()) {
            Some(s) => {
                self.scoped_data = ScopedPduData::CleartextPdu(s);
                Ok(())
            },
            None => Err(Error::DecryptionFailure),
        }
    }

    /// Runs the USM checks on a received message for a user with the given
    /// minimum level and credentials: level gate, then (authFlag) HMAC and
    /// timeliness, then (privFlag) decryption of the scoped PDU in place.
    /// Localized keys come from `keys`; engine state from `engines`, at
    /// clock `now` in seconds. On failure the message is unchanged.
    pub fn process(
        &mut self,
        minimum_security_level: u8,
        auth_type: Option<AuthType>,
        auth_passphrase: Option<&[u8]>,
        privacy_protocol: Option<CipherType>,
        privacy_passphrase: Option<&[u8]>,
        skip_timeliness_checks: bool,
        keys: &KeyCache,
        engines: &EngineCache,
        now: u64,
    ) -> (r: Result<(), Error>)
        ensures
            match level_gate(old(self)@.global_data.flags, minimum_security_level) {
                Err(e) => r == Err::<(), Error>(e),
                Ok(level) => match auth_stage(old(self)@, level, auth_type, auth_passphrase) {
                    Err(e) => r == Err::<(), Error>(e),
                    Ok(()) => {
                        let expected = privacy_stage(
                            old(self)@,
                            level,
                            auth_type,
                            privacy_protocol,
                            privacy_passphrase,
                        );
                        if level & AUTH_FLAG != 0 && !skip_timeliness_checks {
                            (r == Err::<(), Error>(Error::NotInTimeWindowError)) || (outcome(
                                r,
                                old(self)@,
                                final(self)@,
                                expected,
                            ) && (u32_value(old(self)@.usm.engine_boots) matches Some(b) && b
                                < ENGINE_BOOTS_MAX))
                        } else {
                            outcome(r, old(self)@, final(self)@, expected)
                        }
                    },
                },
            },
            level_gate(old(self)@.global_data.flags, minimum_security_level) == Ok::<u8, Error>(0u8)
                ==> r is Ok && final(self)@ == old(self)@,
            r is Err ==> final(self)@ == old(self)@,
    {
        let level = match self.security_level(minimum_security_level) {
            Ok(l) => l,
            Err(e) => return Err(e),
        };
        assert(level & AUTH_FLAG != 0 <==> level % 2 == 1) by (bit_vector);
        assert(level & PRIV_FLAG != 0 <==> level >= 2) by (bit_vector)
            requires
                level < 4,
        ;
        let engine_id = clone_bytes(self.usm().authoritative_engine_id.as_slice());
        if level % 2 == 1 {
            let (a, pw) = match (auth_type, auth_passphrase) {
                (Some(a), Some(pw)) => (a, pw),
                _ => return Err(Error::AuthenticationFailure),
            };
            if pw.len() == 0 {
                return Err(Error::AuthenticationFailure);
            }
            let key = keys.localized_key(a, pw, engine_id.as_slice());
            match self.authenticate(a, key.as_slice()) {
                Ok(()) => {},
                Err(e) => return Err(e),
            }
            if !skip_timeliness_checks {
                let u = self.usm();
                assert(u@.engine_boots.subrange(0, u@.engine_boots.len() as int) =~= u@.engine_boots);
                let boots = match read_u32(
                    u.authoritative_engine_boots.as_slice(),
                    0,
                    u.authoritative_engine_boots.len(),
                ) {
                    Some(b) => b,
                    None => return Err(Error::NotInTimeWindowError),
                };
                let time = match read_u32(
                    u.authoritative_engine_time.as_slice(),
                    0,
                    u.authoritative_engine_time.len(),
                ) {
                    Some(t) => t,
                    None => return Err(Error::NotInTimeWindowError),
                };
                match a.timeliness_check(boots, time, engine_id.as_slice(), engines, now) {
                    Ok(()) => {},
                    Err(e) => return Err(e),
                }
            }
        }
        if level >= 2 {
            let (a, c, pw) = match (auth_type, privacy_protocol, privacy_passphrase) {
                (Some(a), Some(c), Some(pw)) => (a, c, pw),
                _ => return Err(Error::DecryptionFailure),
            };
            if pw.len() == 0 {
                return Err(Error::DecryptionFailure);
            }
            let first = keys.localized_key(a, pw, engine_id.as_slice());
            let key = a.extend_key(first, engine_id.as_slice(), c.key_extension(), c.key_len());
            match self.decrypt_scoped_data(c, key.as_slice()) {
                Ok(()) => {},
                Err(e) => return Err(e),
            }
        }
        Ok(())
    }
}

} // verus!
