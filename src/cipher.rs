//! USM privacy protocols: key lengths, key extension, IV construction and
//! decryption.

use vstd::prelude::*;
use crate::auth::{derived_key, AuthType};
use crate::crypto::{
    aes128_cfb_decrypt, aes128_cfb_plain, aes192_cfb_decrypt, aes192_cfb_plain, aes256_cfb_decrypt,
    aes256_cfb_plain, des_cbc_decrypt, des_cbc_plain,
};
use crate::error::Error;

verus! {

/// How a localized key is lengthened to a cipher's key length.
#[derive(Clone, Copy, Debug, PartialEq, Eq, Structural)]
pub enum KeyExtension {
    /// Each further block is the previous block localized as a password.
    Reeder,
    /// Each further block is the hash of the previous block.
    Blumenthal,
}

/// The privacy protocol.
#[derive(Clone, Copy, Debug, PartialEq, Eq, Hash, Structural)]
pub enum CipherType {
    DES,
    TDES,
    AES128,
    AES192,
    AES256,
    AES192C,
    AES256C,
}

/// Octets of key material the protocol takes (for DES: key and pre-IV).
pub open spec fn cipher_key_len(c: CipherType) -> nat {
    match c {
        CipherType::DES => 16,
        CipherType::TDES => 24,
        CipherType::AES128 => 16,
        CipherType::AES192 => 24,
        CipherType::AES192C => 24,
        CipherType::AES256 => 32,
        CipherType::AES256C => 32,
    }
}

pub open spec fn extension_of(c: CipherType) -> KeyExtension {
    match c {
        CipherType::AES192 | CipherType::AES256 => KeyExtension::Blumenthal,
        _ => KeyExtension::Reeder,
    }
}

/// Big-endian octets of `x`.
pub open spec fn be32(x: u32) -> Seq<u8> {
    seq![
        (x / 0x1000000) as u8,
        (x / 0x10000 % 256) as u8,
        (x / 0x100 % 256) as u8,
        (x % 256) as u8,
    ]
}

/// The AES IV of RFC 3826 §3.1.2.1.
pub open spec fn aes_iv_of(boots: u32, time: u32, salt: Seq<u8>) -> Seq<u8> {
    be32(boots) + be32(time) + salt
}

/// The DES IV of RFC 3414 §8.1.1.1: pre-IV XOR salt.
pub open spec fn des_iv_of(pre_iv: Seq<u8>, salt: Seq<u8>) -> Seq<u8> {
    Seq::new(8, |i: int| pre_iv[i] ^ salt[i])
}

/// What decrypting `ct` with key material `key`, engine boots and time and
/// privacy parameters `salt` gives.
pub open spec fn plaintext(
    c: CipherType,
    key: Seq<u8>,
    boots: u32,
    time: u32,
    salt: Seq<u8>,
    ct: Seq<u8>,
) -> Result<Seq<u8>, Error> {
    match c {
        CipherType::DES => if ct.len() % 8 != 0 {
            Err(Error::CipherDESUnpadError)
        } else if key.len() != 16 || salt.len() != 8 {
            Err(Error::DecryptionFailure)
        } else {
            Ok(des_cbc_plain(key.subrange(0, 8), des_iv_of(key.subrange(8, 16), salt), ct))
        },
        CipherType::TDES => Err(Error::DecryptionFailure),
        _ => if key.len() != cipher_key_len(c) || salt.len() != 8 {
            Err(Error::DecryptionFailure)
        } else {
            let iv = aes_iv_of(boots, time, salt);
            Ok(
                match c {
                    CipherType::AES128 => aes128_cfb_plain(key, iv, ct),
                    CipherType::AES192 | CipherType::AES192C => aes192_cfb_plain(key, iv, ct),
                    _ => aes256_cfb_plain(key, iv, ct),
                },
            )
        },
    }
}

fn push_be32(out: &mut Vec<u8>, x: u32)
    ensures
        final(out)@ == old(out)@ + be32(x),
{
    let ghost start = out@;
    out.push((x / 0x1000000) as u8);
    out.push((x / 0x10000 % 256) as u8);
    out.push((x / 0x100 % 256) as u8);
    out.push((x % 256) as u8);
    assert(out@ =~= start + be32(x));
}

impl CipherType {
    /// The protocol's name in configuration files.
    pub fn name(&self) -> (r: &'static str)
        ensures
            r@ == match self {
                CipherType::DES => "DES"@,
                CipherType::TDES => "3DES"@,
                CipherType::AES128 => "AES-128"@,
                CipherType::AES192 => "AES-192"@,
                CipherType::AES256 => "AES-256"@,
                CipherType::AES192C => "AES-192C"@,
                CipherType::AES256C => "AES-256C"@,
            },
    {
        match self {
            CipherType::DES => "DES",
            CipherType::TDES => "3DES",
            CipherType::AES128 => "AES-128",
            CipherType::AES192 => "AES-192",
            CipherType::AES256 => "AES-256",
            CipherType::AES192C => "AES-192C",
            CipherType::AES256C => "AES-256C",
        }
    }

    /// Bits of key material.
    pub fn key_bits(&self) -> (r: usize)
        ensures
            r == 8 * cipher_key_len(*self),
    {
        match self {
            CipherType::DES => 128,
            CipherType::TDES => 192,
            CipherType::AES128 => 128,
            CipherType::AES192 => 192,
            CipherType::AES192C => 192,
            CipherType::AES256 => 256,
            CipherType::AES256C => 256,
        }
    }

    /// Octets of key material.
    pub fn key_len(&self) -> (r: usize)
        ensures
            r == cipher_key_len(*self),
    {
        self.key_bits() / 8
    }

    /// The key-extension method of the protocol.
    pub fn key_extension(&self) -> (r: KeyExtension)
        ensures
            r == extension_of(*self),
    {
        match self {
            CipherType::DES | CipherType::TDES | CipherType::AES128 | CipherType::AES192C
            | CipherType::AES256C => KeyExtension::Reeder,
            CipherType::AES192 | CipherType::AES256 => KeyExtension::Blumenthal,
        }
    }

    /// The AES IV: engine boots, engine time, then the privacy parameters.
    pub fn aes_iv(&self, engine_boots: u32, engine_time: u32, priv_params: &[u8]) -> (r: Vec<u8>)
        ensures
            r@ == aes_iv_of(engine_boots, engine_time, priv_params@),
    {
        let mut iv: Vec<u8> = Vec::new();
        push_be32(&mut iv, engine_boots);
        push_be32(&mut iv, engine_time);
        crate::ber::push_all(&mut iv, priv_params);
        iv
    }

    /// Decrypts `payload` in place with key material `key`, already extended
    /// to the protocol's key length.
    pub fn decrypt_with_key(
        &self,
        payload: &mut Vec<u8>,
        key: &[u8],
        engine_boots: u32,
        engine_time: u32,
        priv_params: &[u8],
    ) -> (r: Result<(), Error>)
        ensures
            match plaintext(*self, key@, engine_boots, engine_time, priv_params@, old(payload)@) {
                Ok(p) => r is Ok && final(payload)@ == p,
                Err(e) => r == Err::<(), Error>(e) && final(payload)@ == old(payload)@,
            },
            final(payload)@.len() == old(payload)@.len(),
    {
        match self {
            CipherType::DES => {
                if payload.len() % 8 != 0 {
                    return Err(Error::CipherDESUnpadError);
                }
                if key.len() != 16 || priv_params.len() != 8 {
                    return Err(Error::DecryptionFailure);
                }
                let des_key = crate::ber::copy_range(key, 0, 8);
                let mut iv: Vec<u8> = Vec::new();
                let mut i: usize = 0;
                while i < 8
                    invariant
                        i <= 8,
                        key@.len() == 16,
                        priv_params@.len() == 8,
                        iv@ == Seq::new(i as nat, |j: int| key@[8 + j] ^ priv_params@[j]),
                    decreases 8 - i,
                {
                    iv.push(key[8 + i] ^ priv_params[i]);
                    i = i + 1;
                    assert(iv@ =~= Seq::new(i as nat, |j: int| key@[8 + j] ^ priv_params@[j]));
                }
                assert(iv@ =~= des_iv_of(key@.subrange(8, 16), priv_params@));
                if des_cbc_decrypt(des_key.as_slice(), iv.as_slice(), payload) {
                    Ok(())
                } else {
                    Err(Error::DecryptionFailure)
                }
            },
            CipherType::TDES => Err(Error::DecryptionFailure),
            _ => {
                if key.len() != self.key_len() || priv_params.len() != 8 {
                    return Err(Error::DecryptionFailure);
                }
                let iv = self.aes_iv(engine_boots, engine_time, priv_params);
                let ok = match self {
                    CipherType::AES128 => aes128_cfb_decrypt(key, iv.as_slice(), payload),
                    CipherType::AES192 | CipherType::AES192C => aes192_cfb_decrypt(
                        key,
                        iv.as_slice(),
                        payload,
                    ),
                    _ => aes256_cfb_decrypt(key, iv.as_slice(), payload),
                };
                if ok {
                    Ok(())
                } else {
                    Err(Error::DecryptionFailure)
                }
            },
        }
    }

    /// Decrypts `payload` in place with the key derived from `password` for
    /// `engine_id` under `auth`.
    pub fn decrypt(
        &self,
        auth: AuthType,
        payload: &mut Vec<u8>,
        password: &[u8],
        engine_boots: u32,
        engine_time: u32,
        engine_id: &[u8],
        priv_params: &[u8],
    ) -> (r: Result<(), Error>)
        requires
            password@.len() > 0,
        ensures
            match plaintext(
                *self,
                derived_key(
                    auth,
                    extension_of(*self),
                    password@,
                    engine_id@,
                    cipher_key_len(*self),
                ),
                engine_boots,
                engine_time,
                priv_params@,
                old(payload)@,
            ) {
                Ok(p) => r is Ok && final(payload)@ == p,
                Err(e) => r == Err::<(), Error>(e) && final(payload)@ == old(payload)@,
            },
            final(payload)@.len() == old(payload)@.len(),
    {
        let key = auth.gen_key(password, engine_id, self.key_extension(), self.key_len());
        self.decrypt_with_key(payload, key.as_slice(), engine_boots, engine_time, priv_params)
    }
}

} // verus!
