//! The hash, HMAC and block-cipher primitives that USM relies on, each a
//! call into its RustCrypto crate. Their results are named, not restated.

use vstd::prelude::*;

verus! {

/// The MD5 digest of `data`.
pub uninterp spec fn md5_of(data: Seq<u8>) -> Seq<u8>;

/// The SHA-1 digest of `data`.
pub uninterp spec fn sha1_of(data: Seq<u8>) -> Seq<u8>;

/// The SHA-224 digest of `data`.
pub uninterp spec fn sha224_of(data: Seq<u8>) -> Seq<u8>;

/// The SHA-256 digest of `data`.
pub uninterp spec fn sha256_of(data: Seq<u8>) -> Seq<u8>;

/// The SHA-384 digest of `data`.
pub uninterp spec fn sha384_of(data: Seq<u8>) -> Seq<u8>;

/// The SHA-512 digest of `data`.
pub uninterp spec fn sha512_of(data: Seq<u8>) -> Seq<u8>;

/// The HMAC-MD5 of `data` under `key`, untruncated.
pub uninterp spec fn hmac_md5_of(key: Seq<u8>, data: Seq<u8>) -> Seq<u8>;

/// The HMAC-SHA-1 of `data` under `key`, untruncated.
pub uninterp spec fn hmac_sha1_of(key: Seq<u8>, data: Seq<u8>) -> Seq<u8>;

/// The HMAC-SHA-224 of `data` under `key`, untruncated.
pub uninterp spec fn hmac_sha224_of(key: Seq<u8>, data: Seq<u8>) -> Seq<u8>;

/// The HMAC-SHA-256 of `data` under `key`, untruncated.
pub uninterp spec fn hmac_sha256_of(key: Seq<u8>, data: Seq<u8>) -> Seq<u8>;

/// The HMAC-SHA-384 of `data` under `key`, untruncated.
pub uninterp spec fn hmac_sha384_of(key: Seq<u8>, data: Seq<u8>) -> Seq<u8>;

/// The HMAC-SHA-512 of `data` under `key`, untruncated.
pub uninterp spec fn hmac_sha512_of(key: Seq<u8>, data: Seq<u8>) -> Seq<u8>;

/// Relies on `Digest::digest` of `md5::Md5`: the MD5 digest, 16 octets.
#[verifier::external_body]
pub(crate) fn md5(data: &[u8]) -> (r: Vec<u8>)
    ensures
        r@ == md5_of(data@),
        r@.len() == 16,
{
    <md5::Md5 as md5::Digest>::digest(data).to_vec()
}

/// Relies on `Digest::digest` of `sha1::Sha1`: the SHA-1 digest, 20 octets.
#[verifier::external_body]
pub(crate) fn sha1(data: &[u8]) -> (r: Vec<u8>)
    ensures
        r@ == sha1_of(data@),
        r@.len() == 20,
{
    <sha1::Sha1 as sha1::Digest>::digest(data).to_vec()
}

/// Relies on `Digest::digest` of `sha2::Sha224`: the SHA-224 digest, 28 octets.
#[verifier::external_body]
pub(crate) fn sha224(data: &[u8]) -> (r: Vec<u8>)
    ensures
        r@ == sha224_of(data@),
        r@.len() == 28,
{
    <sha2::Sha224 as sha2::Digest>::digest(data).to_vec()
}

/// Relies on `Digest::digest` of `sha2::Sha256`: the SHA-256 digest, 32 octets.
#[verifier::external_body]
pub(crate) fn sha256(data: &[u8]) -> (r: Vec<u8>)
    ensures
        r@ == sha256_of(data@),
        r@.len() == 32,
{
    <sha2::Sha256 as sha2::Digest>::digest(data).to_vec()
}

/// Relies on `Digest::digest` of `sha2::Sha384`: the SHA-384 digest, 48 octets.
#[verifier::external_body]
pub(crate) fn sha384(data: &[u8]) -> (r: Vec<u8>)
    ensures
        r@ == sha384_of(data@),
        r@.len() == 48,
{
    <sha2::Sha384 as sha2::Digest>::digest(data).to_vec()
}

/// Relies on `Digest::digest` of `sha2::Sha512`: the SHA-512 digest, 64 octets.
#[verifier::external_body]
pub(crate) fn sha512(data: &[u8]) -> (r: Vec<u8>)
    ensures
        r@ == sha512_of(data@),
        r@.len() == 64,
{
    <sha2::Sha512 as sha2::Digest>::digest(data).to_vec()
}

/// Relies on `Mac` of `hmac::Hmac<md5::Md5>`: keys of any length are accepted
/// (`new_from_slice` never fails for HMAC); the tag has the digest's 16 octets.
#[verifier::external_body]
pub(crate) fn hmac_md5(key: &[u8], data: &[u8]) -> (r: Vec<u8>)
    ensures
        r@ == hmac_md5_of(key@, data@),
        r@.len() == 16,
{
    let mut mac = <hmac::Hmac<md5::Md5> as hmac::Mac>::new_from_slice(key).expect("HMAC takes keys of any length");
    hmac::Mac::update(&mut mac, data);
    hmac::Mac::finalize(mac).into_bytes().to_vec()
}

/// Relies on `Mac` of `hmac::Hmac<sha1::Sha1>`: keys of any length are accepted
/// (`new_from_slice` never fails for HMAC); the tag has the digest's 20 octets.
#[verifier::external_body]
pub(crate) fn hmac_sha1(key: &[u8], data: &[u8]) -> (r: Vec<u8>)
    ensures
        r@ == hmac_sha1_of(key@, data@),
        r@.len() == 20,
{
    let mut mac = <hmac::Hmac<sha1::Sha1> as hmac::Mac>::new_from_slice(key).expect("HMAC takes keys of any length");
    hmac::Mac::update(&mut mac, data);
    hmac::Mac::finalize(mac).into_bytes().to_vec()
}

/// Relies on `Mac` of `hmac::Hmac<sha2::Sha224>`: keys of any length are accepted
/// (`new_from_slice` never fails for HMAC); the tag has the digest's 28 octets.
#[verifier::external_body]
pub(crate) fn hmac_sha224(key: &[u8], data: &[u8]) -> (r: Vec<u8>)
    ensures
        r@ == hmac_sha224_of(key@, data@),
        r@.len() == 28,
{
    let mut mac = <hmac::Hmac<sha2::Sha224> as hmac::Mac>::new_from_slice(key).expect("HMAC takes keys of any length");
    hmac::Mac::update(&mut mac, data);
    hmac::Mac::finalize(mac).into_bytes().to_vec()
}

/// Relies on `Mac` of `hmac::Hmac<sha2::Sha256>`: keys of any length are accepted
/// (`new_from_slice` never fails for HMAC); the tag has the digest's 32 octets.
#[verifier::external_body]
pub(crate) fn hmac_sha256(key: &[u8], data: &[u8]) -> (r: Vec<u8>)
    ensures
        r@ == hmac_sha256_of(key@, data@),
        r@.len() == 32,
{
    let mut mac = <hmac::Hmac<sha2::Sha256> as hmac::Mac>::new_from_slice(key).expect("HMAC takes keys of any length");
    hmac::Mac::update(&mut mac, data);
    hmac::Mac::finalize(mac).into_bytes().to_vec()
}

/// Relies on `Mac` of `hmac::Hmac<sha2::Sha384>`: keys of any length are accepted
/// (`new_from_slice` never fails for HMAC); the tag has the digest's 48 octets.
#[verifier::external_body]
pub(crate) fn hmac_sha384(key: &[u8], data: &[u8]) -> (r: Vec<u8>)
    ensures
        r@ == hmac_sha384_of(key@, data@),
        r@.len() == 48,
{
    let mut mac = <hmac::Hmac<sha2::Sha384> as hmac::Mac>::new_from_slice(key).expect("HMAC takes keys of any length");
    hmac::Mac::update(&mut mac, data);
    hmac::Mac::finalize(mac).into_bytes().to_vec()
}

/// Relies on `Mac` of `hmac::Hmac<sha2::Sha512>`: keys of any length are accepted
/// (`new_from_slice` never fails for HMAC); the tag has the digest's 64 octets.
#[verifier::external_body]
pub(crate) fn hmac_sha512(key: &[u8], data: &[u8]) -> (r: Vec<u8>)
    ensures
        r@ == hmac_sha512_of(key@, data@),
        r@.len() == 64,
{
    let mut mac = <hmac::Hmac<sha2::Sha512> as hmac::Mac>::new_from_slice(key).expect("HMAC takes keys of any length");
    hmac::Mac::update(&mut mac, data);
    hmac::Mac::finalize(mac).into_bytes().to_vec()
}

/// AES-128 in CFB-128 mode, deciphering `ct` with `key` and `iv`.
pub uninterp spec fn aes128_cfb_plain(key: Seq<u8>, iv: Seq<u8>, ct: Seq<u8>) -> Seq<u8>;

/// AES-192 in CFB-128 mode, deciphering `ct` with `key` and `iv`.
pub uninterp spec fn aes192_cfb_plain(key: Seq<u8>, iv: Seq<u8>, ct: Seq<u8>) -> Seq<u8>;

/// AES-256 in CFB-128 mode, deciphering `ct` with `key` and `iv`.
pub uninterp spec fn aes256_cfb_plain(key: Seq<u8>, iv: Seq<u8>, ct: Seq<u8>) -> Seq<u8>;

/// DES in CBC mode, deciphering the whole blocks of `ct` with `key` and `iv`.
pub uninterp spec fn des_cbc_plain(key: Seq<u8>, iv: Seq<u8>, ct: Seq<u8>) -> Seq<u8>;

/// Relies on `cfb_mode::Decryptor<aes::Aes128>`: `new_from_slices` fails
/// exactly when the key is not 16 octets or the IV not 16; `decrypt`
/// deciphers the buffer in place, of any length.
#[verifier::external_body]
pub(crate) fn aes128_cfb_decrypt(key: &[u8], iv: &[u8], buf: &mut Vec<u8>) -> (r: bool)
    ensures
        r == (key@.len() == 16 && iv@.len() == 16),
        r ==> final(buf)@ == aes128_cfb_plain(key@, iv@, old(buf)@),
        !r ==> final(buf)@ == old(buf)@,
        final(buf)@.len() == old(buf)@.len(),
{
    match <cfb_mode::Decryptor<aes::Aes128> as aes::cipher::KeyIvInit>::new_from_slices(key, iv) {
        Ok(d) => {
            aes::cipher::AsyncStreamCipher::decrypt(d, buf.as_mut_slice());
            true
        },
        Err(_) => false,
    }
}

/// Relies on `cfb_mode::Decryptor<aes::Aes192>`: `new_from_slices` fails
/// exactly when the key is not 24 octets or the IV not 16; `decrypt`
/// deciphers the buffer in place, of any length.
#[verifier::external_body]
pub(crate) fn aes192_cfb_decrypt(key: &[u8], iv: &[u8], buf: &mut Vec<u8>) -> (r: bool)
    ensures
        r == (key@.len() == 24 && iv@.len() == 16),
        r ==> final(buf)@ == aes192_cfb_plain(key@, iv@, old(buf)@),
        !r ==> final(buf)@ == old(buf)@,
        final(buf)@.len() == old(buf)@.len(),
{
    match <cfb_mode::Decryptor<aes::Aes192> as aes::cipher::KeyIvInit>::new_from_slices(key, iv) {
        Ok(d) => {
            aes::cipher::AsyncStreamCipher::decrypt(d, buf.as_mut_slice());
            true
        },
        Err(_) => false,
    }
}

/// Relies on `cfb_mode::Decryptor<aes::Aes256>`: `new_from_slices` fails
/// exactly when the key is not 32 octets or the IV not 16; `decrypt`
/// deciphers the buffer in place, of any length.
#[verifier::external_body]
pub(crate) fn aes256_cfb_decrypt(key: &[u8], iv: &[u8], buf: &mut Vec<u8>) -> (r: bool)
    ensures
        r == (key@.len() == 32 && iv@.len() == 16),
        r ==> final(buf)@ == aes256_cfb_plain(key@, iv@, old(buf)@),
        !r ==> final(buf)@ == old(buf)@,
        final(buf)@.len() == old(buf)@.len(),
{
    match <cfb_mode::Decryptor<aes::Aes256> as aes::cipher::KeyIvInit>::new_from_slices(key, iv) {
        Ok(d) => {
            aes::cipher::AsyncStreamCipher::decrypt(d, buf.as_mut_slice());
            true
        },
        Err(_) => false,
    }
}

/// Relies on `cbc::Decryptor<des::Des>`: `new_from_slices` fails exactly when
/// the key or the IV is not 8 octets; `decrypt_padded_mut` with
/// `ZeroPadding` fails exactly when the buffer is not a whole number of
/// 8-octet blocks, and otherwise deciphers all of it in place (unpadding
/// only shortens the slice it returns, which is not used).
#[verifier::external_body]
pub(crate) fn des_cbc_decrypt(key: &[u8], iv: &[u8], buf: &mut Vec<u8>) -> (r: bool)
    ensures
        r == (key@.len() == 8 && iv@.len() == 8 && old(buf)@.len() % 8 == 0),
        r ==> final(buf)@ == des_cbc_plain(key@, iv@, old(buf)@),
        !r ==> final(buf)@ == old(buf)@,
        final(buf)@.len() == old(buf)@.len(),
{
    match <cbc::Decryptor<des::Des> as des::cipher::KeyIvInit>::new_from_slices(key, iv) {
        Ok(d) => match des::cipher::BlockDecryptMut::decrypt_padded_mut::<des::cipher::block_padding::ZeroPadding>(d, buf.as_mut_slice()) {
            Ok(_) => true,
            Err(_) => false,
        },
        Err(_) => false,
    }
}

} // verus!
