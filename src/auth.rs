//! USM authentication: hash selection, password localization (RFC 3414
//! §2.6), key extension, HMAC integrity and the timeliness window.

use vstd::prelude::*;
use crate::ber::{copy_range, push_all};
use crate::cache::{EngineCache, LocalEngine};
use crate::cipher::KeyExtension;
use crate::crypto::{
    hmac_md5, hmac_md5_of, hmac_sha1, hmac_sha1_of, hmac_sha224, hmac_sha224_of, hmac_sha256,
    hmac_sha256_of, hmac_sha384, hmac_sha384_of, hmac_sha512, hmac_sha512_of, md5, md5_of, sha1,
    sha1_of, sha224, sha224_of, sha256, sha256_of, sha384, sha384_of, sha512, sha512_of,
};
use crate::error::Error;

verus! {

/// Length of the tiled password that is hashed into the intermediate key.
pub const ONE_MEGABYTE: usize = 1_048_576;

/// engineBoots at or above this value means the engine is out of sync.
pub const ENGINE_BOOTS_MAX: u32 = 2_147_483_647;

/// Largest accepted gap, in seconds, between the expected and received engine time.
pub const TIME_WINDOW: u64 = 150;

/// The authentication protocol: the hash under HMAC and localization.
#[derive(Clone, Copy, Debug, PartialEq, Eq, Hash, Structural)]
pub enum AuthType {
    MD5,
    SHA128,
    SHA224,
    SHA256,
    SHA384,
    SHA512,
}

/// Octets of the hash output, which is also the localized key's length.
pub open spec fn digest_len(a: AuthType) -> nat {
    match a {
        AuthType::MD5 => 16,
        AuthType::SHA128 => 20,
        AuthType::SHA224 => 28,
        AuthType::SHA256 => 32,
        AuthType::SHA384 => 48,
        AuthType::SHA512 => 64,
    }
}

/// Octets of the truncated HMAC carried in msgAuthenticationParameters.
pub open spec fn mac_len(a: AuthType) -> nat {
    match a {
        AuthType::MD5 => 12,
        AuthType::SHA128 => 12,
        AuthType::SHA224 => 16,
        AuthType::SHA256 => 24,
        AuthType::SHA384 => 32,
        AuthType::SHA512 => 48,
    }
}

/// The hash of `data` under `a`.
pub open spec fn digest(a: AuthType, data: Seq<u8>) -> Seq<u8> {
    match a {
        AuthType::MD5 => md5_of(data),
        AuthType::SHA128 => sha1_of(data),
        AuthType::SHA224 => sha224_of(data),
        AuthType::SHA256 => sha256_of(data),
        AuthType::SHA384 => sha384_of(data),
        AuthType::SHA512 => sha512_of(data),
    }
}

/// The untruncated HMAC of `data` under `key` with the hash of `a`.
pub open spec fn mac_of(a: AuthType, key: Seq<u8>, data: Seq<u8>) -> Seq<u8> {
    match a {
        AuthType::MD5 => hmac_md5_of(key, data),
        AuthType::SHA128 => hmac_sha1_of(key, data),
        AuthType::SHA224 => hmac_sha224_of(key, data),
        AuthType::SHA256 => hmac_sha256_of(key, data),
        AuthType::SHA384 => hmac_sha384_of(key, data),
        AuthType::SHA512 => hmac_sha512_of(key, data),
    }
}

/// The password repeated octet by octet to exactly one megabyte.
pub open spec fn expand_password(p: Seq<u8>) -> Seq<u8> {
    Seq::new(ONE_MEGABYTE as nat, |i: int| p[i % (p.len() as int)])
}

/// The localized key: `Ku = H(expanded password)`, then `H(Ku || engineID || Ku)`.
pub open spec fn localized_key(a: AuthType, p: Seq<u8>, e: Seq<u8>) -> Seq<u8> {
    let ku = digest(a, expand_password(p));
    digest(a, ku + e + ku)
}

/// The block that follows `prev` when a key is extended.
pub open spec fn next_block(a: AuthType, ext: KeyExtension, prev: Seq<u8>, e: Seq<u8>) -> Seq<u8> {
    match ext {
        KeyExtension::Reeder => localized_key(a, prev, e),
        KeyExtension::Blumenthal => digest(a, prev),
    }
}

/// Appends blocks to `acc` until it holds at least `len` octets (at most `fuel` blocks).
pub open spec fn extend(
    a: AuthType,
    ext: KeyExtension,
    e: Seq<u8>,
    prev: Seq<u8>,
    acc: Seq<u8>,
    len: nat,
    fuel: nat,
) -> Seq<u8>
    decreases fuel,
{
    if acc.len() >= len || fuel == 0 {
        acc
    } else {
        let b = next_block(a, ext, prev, e);
        extend(a, ext, e, b, acc + b, len, (fuel - 1) as nat)
    }
}

/// The first `len` octets of the key stream that starts with `first`.
pub open spec fn extended_key(
    a: AuthType,
    ext: KeyExtension,
    e: Seq<u8>,
    first: Seq<u8>,
    len: nat,
) -> Seq<u8> {
    extend(a, ext, e, first, first, len, len).subrange(0, len as int)
}

/// A key of `len` octets derived from password `p` for engine `e`.
pub open spec fn derived_key(
    a: AuthType,
    ext: KeyExtension,
    p: Seq<u8>,
    e: Seq<u8>,
    len: nat,
) -> Seq<u8> {
    extended_key(a, ext, e, localized_key(a, p, e), len)
}

/// What an integrity check with localized key `key` gives.
pub open spec fn mac_check(
    a: AuthType,
    key: Seq<u8>,
    payload: Seq<u8>,
    auth_params: Seq<u8>,
) -> Result<(), Error> {
    if auth_params.len() != mac_len(a) {
        Err(Error::AuthenticationError)
    } else if auth_params == mac_of(a, key, payload).subrange(0, mac_len(a) as int) {
        Ok(())
    } else {
        Err(Error::AuthenticationFailure)
    }
}

/// The timeliness decision for a message with `boots` and `time`, given the
/// entry stored for its engine and the clock `now` in seconds: the entry to
/// store on acceptance.
pub open spec fn timeliness(stored: Option<LocalEngine>, boots: u32, time: u32, now: u64) -> Result<
    LocalEngine,
    Error,
> {
    let fresh = LocalEngine { engine_boots: boots, engine_time: time, last_access: now };
    if boots >= ENGINE_BOOTS_MAX {
        Err(Error::NotInTimeWindowError)
    } else {
        match stored {
            None => Ok(fresh),
            Some(l) => if boots < l.engine_boots {
                Err(Error::NotInTimeWindowError)
            } else if boots > l.engine_boots {
                Ok(fresh)
            } else {
                let expected = l.engine_time + (now - l.last_access);
                if time - expected > TIME_WINDOW || expected - time > TIME_WINDOW {
                    Err(Error::NotInTimeWindowError)
                } else {
                    Ok(fresh)
                }
            },
        }
    }
}

/// Localization depends on the hash, the password and the engine ID alone:
/// equal inputs give equal keys, and so do the derived keys built on them.
pub proof fn lemma_localization_deterministic(
    a: AuthType,
    ext: KeyExtension,
    p1: Seq<u8>,
    e1: Seq<u8>,
    p2: Seq<u8>,
    e2: Seq<u8>,
    len: nat,
)
    requires
        p1 == p2,
        e1 == e2,
    ensures
        localized_key(a, p1, e1) == localized_key(a, p2, e2),
        derived_key(a, ext, p1, e1, len) == derived_key(a, ext, p2, e2, len),
{
}

/// With an entry of boots `b`, time `t` and clock `w` stored, a message
/// with the same boots and time `t + d2`, received at clock `w + d`, is
/// accepted exactly when `d2` and `d` differ by at most the time window
/// (for boots below the out-of-sync value).
pub proof fn lemma_time_window(b: u32, t: u32, w: u64, d: int, d2: int)
    requires
        b < ENGINE_BOOTS_MAX,
        0 <= w + d <= u64::MAX,
        0 <= t + d2 <= u32::MAX,
    ensures
        timeliness(
            Some(LocalEngine { engine_boots: b, engine_time: t, last_access: w }),
            b,
            (t + d2) as u32,
            (w + d) as u64,
        ) is Ok <==> -150 <= d2 - d <= 150,
{
}

/// Compares two equally long byte strings in time independent of where they differ.
fn equal_in_constant_time(a: &[u8], b: &[u8]) -> (r: bool)
    requires
        a@.len() == b@.len(),
    ensures
        r == (a@ == b@),
{
    let mut diff: u8 = 0;
    let mut i: usize = 0;
    assert(a@.subrange(0, 0) =~= b@.subrange(0, 0));
    while i < a.len()
        invariant
            i <= a@.len() == b@.len(),
            (diff == 0) == (a@.subrange(0, i as int) == b@.subrange(0, i as int)),
        decreases a@.len() - i,
    {
        let x = a[i];
        let y = b[i];
        let d = diff | (x ^ y);
        assert((d == 0) == (diff == 0 && x == y)) by (bit_vector)
            requires
                d == diff | (x ^ y),
        ;
        proof {
            let sa = a@.subrange(0, i as int);
            let sb = b@.subrange(0, i as int);
            assert(a@.subrange(0, i + 1) =~= sa.push(x));
            assert(b@.subrange(0, i + 1) =~= sb.push(y));
            if sa.push(x) == sb.push(y) {
                assert(sa =~= sa.push(x).drop_last());
                assert(sb =~= sb.push(y).drop_last());
                assert(sa.push(x)[i as int] == x);
                assert(sb.push(y)[i as int] == y);
            }
            if sa == sb && x == y {
                assert(sa.push(x) =~= sb.push(y));
            }
        }
        diff = d;
        i = i + 1;
    }
    assert(a@.subrange(0, i as int) =~= a@);
    assert(b@.subrange(0, i as int) =~= b@);
    diff == 0
}

impl AuthType {
    /// The protocol's name in configuration files.
    pub fn name(&self) -> (r: &'static str)
        ensures
            r@ == match self {
                AuthType::MD5 => "MD5"@,
                AuthType::SHA128 => "SHA-128"@,
                AuthType::SHA224 => "SHA-224"@,
                AuthType::SHA256 => "SHA-256"@,
                AuthType::SHA384 => "SHA-384"@,
                AuthType::SHA512 => "SHA-512"@,
            },
    {
        match self {
            AuthType::MD5 => "MD5",
            AuthType::SHA128 => "SHA-128",
            AuthType::SHA224 => "SHA-224",
            AuthType::SHA256 => "SHA-256",
            AuthType::SHA384 => "SHA-384",
            AuthType::SHA512 => "SHA-512",
        }
    }

    /// Bits of the hash output.
    pub fn key_bits(&self) -> (r: usize)
        ensures
            r == 8 * digest_len(*self),
    {
        match self {
            AuthType::MD5 => 128,
            AuthType::SHA128 => 160,
            AuthType::SHA224 => 224,
            AuthType::SHA256 => 256,
            AuthType::SHA384 => 384,
            AuthType::SHA512 => 512,
        }
    }

    /// Bits of the truncated HMAC.
    pub fn hmac_key_bits(&self) -> (r: usize)
        ensures
            r == 8 * mac_len(*self),
    {
        match self {
            AuthType::MD5 => 96,
            AuthType::SHA128 => 96,
            AuthType::SHA224 => 128,
            AuthType::SHA256 => 192,
            AuthType::SHA384 => 256,
            AuthType::SHA512 => 384,
        }
    }

    /// Octets of the hash output.
    pub fn key_len(&self) -> (r: usize)
        ensures
            r == digest_len(*self),
    {
        self.key_bits() / 8
    }

    /// Octets of the truncated HMAC.
    pub fn hmac_key_len(&self) -> (r: usize)
        ensures
            r == mac_len(*self),
    {
        self.hmac_key_bits() / 8
    }

    /// The hash of `data`.
    pub fn hash(&self, data: &[u8]) -> (r: Vec<u8>)
        ensures
            r@ == digest(*self, data@),
            r@.len() == digest_len(*self),
    {
        match self {
            AuthType::MD5 => md5(data),
            AuthType::SHA128 => sha1(data),
            AuthType::SHA224 => sha224(data),
            AuthType::SHA256 => sha256(data),
            AuthType::SHA384 => sha384(data),
            AuthType::SHA512 => sha512(data),
        }
    }

    /// The untruncated HMAC of `data` under `key`.
    pub fn hmac(&self, key: &[u8], data: &[u8]) -> (r: Vec<u8>)
        ensures
            r@ == mac_of(*self, key@, data@),
            r@.len() == digest_len(*self),
    {
        match self {
            AuthType::MD5 => hmac_md5(key, data),
            AuthType::SHA128 => hmac_sha1(key, data),
            AuthType::SHA224 => hmac_sha224(key, data),
            AuthType::SHA256 => hmac_sha256(key, data),
            AuthType::SHA384 => hmac_sha384(key, data),
            AuthType::SHA512 => hmac_sha512(key, data),
        }
    }

    /// Localizes `password` to the engine `engine_id`. The expanded
    /// password is built whole and hashed in one call.
    pub fn gen_key_iter(&self, password: &[u8], engine_id: &[u8]) -> (r: Vec<u8>)
        requires
            password@.len() > 0,
        ensures
            r@ == localized_key(*self, password@, engine_id@),
            r@.len() == digest_len(*self),
    {
        let n = password.len();
        let mut expanded: Vec<u8> = Vec::with_capacity(ONE_MEGABYTE);
        let mut i: usize = 0;
        while i < ONE_MEGABYTE
            invariant
                n == password@.len() > 0,
                i <= ONE_MEGABYTE,
                expanded@ == Seq::new(i as nat, |j: int| password@[j % n as int]),
            decreases ONE_MEGABYTE - i,
        {
            expanded.push(password[i % n]);
            i = i + 1;
            assert(expanded@ =~= Seq::new(i as nat, |j: int| password@[j % n as int]));
        }
        assert(expanded@ =~= expand_password(password@));
        let ku = self.hash(expanded.as_slice());
        let mut block: Vec<u8> = Vec::new();
        push_all(&mut block, ku.as_slice());
        push_all(&mut block, engine_id);
        push_all(&mut block, ku.as_slice());
        self.hash(block.as_slice())
    }

    /// Extends the localized key `first` to `key_len` octets.
    pub fn extend_key(
        &self,
        first: Vec<u8>,
        engine_id: &[u8],
        key_extension: KeyExtension,
        key_len: usize,
    ) -> (r: Vec<u8>)
        requires
            first@.len() == digest_len(*self),
        ensures
            r@ == extended_key(*self, key_extension, engine_id@, first@, key_len as nat),
            r@.len() == key_len,
    {
        let ghost total = extend(
            *self,
            key_extension,
            engine_id@,
            first@,
            first@,
            key_len as nat,
            key_len as nat,
        );
        let mut key: Vec<u8> = Vec::new();
        push_all(&mut key, first.as_slice());
        let mut prev = first;
        let ghost mut fuel: nat = key_len as nat;
        while key.len() < key_len
            invariant
                prev@.len() == digest_len(*self),
                fuel + key@.len() >= key_len,
                total == extend(*self, key_extension, engine_id@, prev@, key@, key_len as nat, fuel),
            decreases fuel,
        {
            prev =
            match key_extension {
                KeyExtension::Reeder => self.gen_key_iter(prev.as_slice(), engine_id),
                KeyExtension::Blumenthal => self.hash(prev.as_slice()),
            };
            push_all(&mut key, prev.as_slice());
            assert(digest_len(*self) > 0);
            proof {
                fuel = (fuel - 1) as nat;
            }
        }
        copy_range(key.as_slice(), 0, key_len)
    }

    /// Derives a key of `key_len` octets from `password` for `engine_id`.
    pub fn gen_key(
        &self,
        password: &[u8],
        engine_id: &[u8],
        key_extension: KeyExtension,
        key_len: usize,
    ) -> (r: Vec<u8>)
        requires
            password@.len() > 0,
        ensures
            r@ == derived_key(*self, key_extension, password@, engine_id@, key_len as nat),
            r@.len() == key_len,
    {
        let first = self.gen_key_iter(password, engine_id);
        self.extend_key(first, engine_id, key_extension, key_len)
    }

    /// Checks `auth_params` against the truncated HMAC of `payload` under the
    /// localized key `key`.
    pub fn verify_mac(&self, payload: &[u8], key: &[u8], auth_params: &[u8]) -> (r: Result<
        (),
        Error,
    >)
        ensures
            r == mac_check(*self, key@, payload@, auth_params@),
    {
        let n = self.hmac_key_len();
        if auth_params.len() != n {
            return Err(Error::AuthenticationError);
        }
        let full = self.hmac(key, payload);
        let truncated = copy_range(full.as_slice(), 0, n);
        if equal_in_constant_time(truncated.as_slice(), auth_params) {
            Ok(())
        } else {
            Err(Error::AuthenticationFailure)
        }
    }

    /// Checks `auth_params` against the truncated HMAC of `payload` under the
    /// key localized from `password` for `engine_id`.
    pub fn integrity_check(
        &self,
        payload: &[u8],
        password: &[u8],
        engine_id: &[u8],
        auth_params: &[u8],
    ) -> (r: Result<(), Error>)
        requires
            password@.len() > 0,
        ensures
            r == mac_check(
                *self,
                localized_key(*self, password@, engine_id@),
                payload@,
                auth_params@,
            ),
    {
        if auth_params.len() != self.hmac_key_len() {
            return Err(Error::AuthenticationError);
        }
        let key = self.gen_key_iter(password, engine_id);
        self.verify_mac(payload, key.as_slice(), auth_params)
    }

    /// Checks engine boots and time against the entry cached for
    /// `engine_id` at clock `now` (seconds) and records them on acceptance.
    /// The decision itself is `check_timeliness`; what the cache holds is
    /// not known here.
    pub fn timeliness_check(
        &self,
        engine_boots: u32,
        engine_time: u32,
        engine_id: &[u8],
        engines: &EngineCache,
        now: u64,
    ) -> (r: Result<(), Error>)
        ensures
            engine_boots >= ENGINE_BOOTS_MAX ==> r == Err::<(), Error>(Error::NotInTimeWindowError),
            r is Err ==> r == Err::<(), Error>(Error::NotInTimeWindowError),
    {
        let stored = engines.get(engine_id);
        match check_timeliness(stored, engine_boots, engine_time, now) {
            Ok(fresh) => {
                engines.record(engine_id, fresh);
                Ok(())
            },
            Err(e) => Err(e),
        }
    }
}

/// The timeliness decision of RFC 3414 §3.2 step 7 against the stored entry
/// `stored`; on acceptance, the entry to store.
pub fn check_timeliness(stored: Option<LocalEngine>, boots: u32, time: u32, now: u64) -> (r: Result<
    LocalEngine,
    Error,
>)
    ensures
        r == timeliness(stored, boots, time, now),
{
    let fresh = LocalEngine { engine_boots: boots, engine_time: time, last_access: now };
    if boots >= ENGINE_BOOTS_MAX {
        return Err(Error::NotInTimeWindowError);
    }
    match stored {
        None => Ok(fresh),
        Some(l) => {
            if boots < l.engine_boots {
                Err(Error::NotInTimeWindowError)
            } else if boots > l.engine_boots {
                Ok(fresh)
            } else {
                let expected: i128 = l.engine_time as i128 + (now as i128 - l.last_access as i128);
                let gap: i128 = time as i128 - expected;
                if gap > TIME_WINDOW as i128 || -gap > TIME_WINDOW as i128 {
                    Err(Error::NotInTimeWindowError)
                } else {
                    Ok(fresh)
                }
            }
        },
    }
}

} // verus!
