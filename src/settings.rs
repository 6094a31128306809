//! Configuration handed to the core: logging, workers, listeners,
//! communities and USM users, with the rules a configuration must meet.

use vstd::prelude::*;
use crate::auth::AuthType;
use crate::ber::{bytes_equal, copy_range};
use crate::cipher::CipherType;
use crate::message::bytes_view;

verus! {

/// Output format of the log.
#[derive(Clone, Copy, Debug, PartialEq, Eq, Structural)]
pub enum LogFormat {
    Json,
    Console,
}

impl Default for LogFormat {
    fn default() -> (r: Self)
        ensures
            r == LogFormat::Console,
    {
        LogFormat::Console
    }
}

/// Least severity that is logged.
#[derive(Clone, Copy, Debug, PartialEq, Eq, Structural)]
pub enum LogLevel {
    LvlError,
    LvlWarn,
    LvlInfo,
    LvlDebug,
    LvlTrace,
    LvlOff,
}

impl Default for LogLevel {
    fn default() -> (r: Self)
        ensures
            r == LogLevel::LvlInfo,
    {
        LogLevel::LvlInfo
    }
}

impl LogLevel {
    /// The level's name as the logger takes it.
    pub fn name(&self) -> (r: &'static str)
        ensures
            r@ == match self {
                LogLevel::LvlError => "error"@,
                LogLevel::LvlWarn => "warn"@,
                LogLevel::LvlInfo => "info"@,
                LogLevel::LvlDebug => "debug"@,
                LogLevel::LvlTrace => "trace"@,
                LogLevel::LvlOff => "off"@,
            },
    {
        match self {
            LogLevel::LvlError => "error",
            LogLevel::LvlWarn => "warn",
            LogLevel::LvlInfo => "info",
            LogLevel::LvlDebug => "debug",
            LogLevel::LvlTrace => "trace",
            LogLevel::LvlOff => "off",
        }
    }
}

#[derive(Clone, Copy, Debug)]
pub struct Logger {
    pub level: LogLevel,
    pub format: LogFormat,
}

impl Default for Logger {
    fn default() -> (r: Self)
        ensures
            r.level == LogLevel::LvlInfo,
            r.format == LogFormat::Console,
    {
        Logger { level: LogLevel::default(), format: LogFormat::default() }
    }
}

/// A community admitted for v1 and v2c messages.
pub struct Community {
    pub name: Vec<u8>,
}

/// A USM user.
pub struct User {
    pub username: Vec<u8>,
    pub no_auth: bool,
    pub require_privacy: bool,
    pub engine_id: Option<Vec<u8>>,
    pub auth_type: Option<AuthType>,
    pub auth_passphrase: Option<Vec<u8>>,
    pub privacy_protocol: Option<CipherType>,
    pub privacy_passphrase: Option<Vec<u8>>,
    pub skip_timeliness_checks: bool,
}

/// The lowest security level the user accepts: 0 noAuthNoPriv, 1 authNoPriv, 3 authPriv.
pub open spec fn min_level(no_auth: bool, require_privacy: bool) -> u8 {
    ((if no_auth {
        0u8
    } else {
        1u8
    }) + (if require_privacy {
        2u8
    } else {
        0u8
    })) as u8
}

pub open spec fn len_in(s: Seq<u8>, lo: nat, hi: nat) -> bool {
    lo <= s.len() <= hi
}

pub open spec fn opt_len_at_least(o: Option<Seq<u8>>, lo: nat) -> bool {
    match o {
        Some(s) => s.len() >= lo,
        None => true,
    }
}

/// The rules a configured user meets: username of 1 to 32 octets, engine
/// ID of 5 to 32, passphrases of at least 8, protocol and passphrase given
/// together for authentication and for privacy, and no 3DES, for which no
/// decryption is provided.
pub open spec fn user_valid(u: User) -> bool {
    &&& len_in(u.username@, 1, 32)
    &&& match u.engine_id {
        Some(e) => len_in(e@, 5, 32),
        None => true,
    }
    &&& opt_len_at_least(bytes_view(u.auth_passphrase), 8)
    &&& opt_len_at_least(bytes_view(u.privacy_passphrase), 8)
    &&& (u.auth_type is Some == u.auth_passphrase is Some)
    &&& (u.privacy_protocol is Some == u.privacy_passphrase is Some)
    &&& u.privacy_protocol != Some(CipherType::TDES)
}

impl User {
    pub fn minimum_security_level(&self) -> (r: u8)
        ensures
            r == min_level(self.no_auth, self.require_privacy),
    {
        let a: u8 = if self.no_auth {
            0
        } else {
            1
        };
        let p: u8 = if self.require_privacy {
            2
        } else {
            0
        };
        a + p
    }

    pub fn is_valid(&self) -> (r: bool)
        ensures
            r == user_valid(*self),
    {
        let n = self.username.len();
        if n < 1 || n > 32 {
            return false;
        }
        if let Some(e) = &self.engine_id {
            if e.len() < 5 || e.len() > 32 {
                return false;
            }
        }
        if let Some(p) = &self.auth_passphrase {
            if p.len() < 8 {
                return false;
            }
        }
        if let Some(p) = &self.privacy_passphrase {
            if p.len() < 8 {
                return false;
            }
        }
        let no_tdes = match self.privacy_protocol {
            Some(CipherType::TDES) => false,
            _ => true,
        };
        self.auth_type.is_some() == self.auth_passphrase.is_some()
            && self.privacy_protocol.is_some() == self.privacy_passphrase.is_some() && no_tdes
    }
}

/// Admission rules for v1/v2c communities and v3 users.
pub struct Auth {
    pub enable: bool,
    pub community: Vec<Community>,
    pub user: Vec<User>,
}

impl Default for Auth {
    fn default() -> (r: Self)
        ensures
            !r.enable,
            r.community@.len() == 0,
            r.user@.len() == 0,
    {
        Auth { enable: false, community: Vec::new(), user: Vec::new() }
    }
}

pub open spec fn community_listed(a: Auth, c: Seq<u8>) -> bool {
    exists|i: int| 0 <= i < a.community@.len() && (#[trigger] a.community@[i]).name@ == c
}

pub open spec fn user_index(a: Auth, name: Seq<u8>, i: int) -> bool {
    0 <= i < a.user@.len() && (#[trigger] a.user@[i]).username@ == name
}

pub open spec fn auth_valid(a: Auth) -> bool {
    &&& forall|i: int| 0 <= i < a.community@.len() ==> len_in(#[trigger] a.community@[i].name@, 1, 32)
    &&& forall|i: int| 0 <= i < a.user@.len() ==> user_valid(#[trigger] a.user@[i])
}

impl Auth {
    /// Whether `community` is one of the configured communities.
    pub fn is_community_allowed(&self, community: &[u8]) -> (r: bool)
        ensures
            r == community_listed(*self, community@),
    {
        let mut i: usize = 0;
        while i < self.community.len()
            invariant
                i <= self.community@.len(),
                forall|j: int| 0 <= j < i ==> (#[trigger] self.community@[j]).name@ != community@,
            decreases self.community@.len() - i,
        {
            if bytes_equal(self.community[i].name.as_slice(), community) {
                return true;
            }
            i = i + 1;
        }
        false
    }

    /// The first configured user named `username`.
    pub fn get_user(&self, username: &[u8]) -> (r: Option<&User>)
        ensures
            match r {
                Some(u) => exists|i: int|
                    user_index(*self, username@, i) && *u == self.user@[i] && forall|j: int|
                        0 <= j < i ==> !user_index(*self, username@, j),
                None => forall|i: int| !user_index(*self, username@, i),
            },
    {
        let mut i: usize = 0;
        while i < self.user.len()
            invariant
                i <= self.user@.len(),
                forall|j: int| 0 <= j < i ==> !user_index(*self, username@, j),
            decreases self.user@.len() - i,
        {
            if bytes_equal(self.user[i].username.as_slice(), username) {
                assert(user_index(*self, username@, i as int));
                return Some(&self.user[i]);
            }
            i = i + 1;
        }
        None
    }

    pub fn is_valid(&self) -> (r: bool)
        ensures
            r == auth_valid(*self),
    {
        let mut i: usize = 0;
        while i < self.community.len()
            invariant
                i <= self.community@.len(),
                forall|j: int| 0 <= j < i ==> len_in(#[trigger] self.community@[j].name@, 1, 32),
            decreases self.community@.len() - i,
        {
            let n = self.community[i].name.len();
            if n < 1 || n > 32 {
                return false;
            }
            i = i + 1;
        }
        let mut k: usize = 0;
        while k < self.user.len()
            invariant
                k <= self.user@.len(),
                forall|j: int| 0 <= j < self.community@.len() ==> len_in(
                    #[trigger] self.community@[j].name@,
                    1,
                    32,
                ),
                forall|j: int| 0 <= j < k ==> user_valid(#[trigger] self.user@[j]),
            decreases self.user@.len() - k,
        {
            if !self.user[k].is_valid() {
                return false;
            }
            k = k + 1;
        }
        true
    }
}

/// Where to listen and whom to admit.
pub struct TrapdConfig {
    pub listening: Vec<String>,
    pub auth: Auth,
}

/// The listening endpoints used when none are configured.
pub fn default_listening() -> (r: Vec<String>)
    ensures
        r@.len() == 2,
        r@[0]@ == "0.0.0.0:10162"@,
        r@[1]@ == "[::]:10162"@,
{
    let mut r: Vec<String> = Vec::new();
    r.push("0.0.0.0:10162".to_owned());
    r.push("[::]:10162".to_owned());
    r
}

impl Default for TrapdConfig {
    fn default() -> (r: Self)
        ensures
            r.listening@.len() == 2,
            !r.auth.enable,
            r.auth.community@.len() == 0,
            r.auth.user@.len() == 0,
    {
        TrapdConfig { listening: default_listening(), auth: Auth::default() }
    }
}

/// Relies on `num_cpus::get`, documented to return at least 1.
#[verifier::external_body]
fn cpu_count() -> (r: usize)
    ensures
        r >= 1,
{
    num_cpus::get()
}

/// The default number of parse workers: the number of CPUs.
pub fn default_num_cpus() -> (r: u64)
    ensures
        r >= 1,
{
    cpu_count() as u64
}

/// The whole configuration.
pub struct Settings {
    pub logger: Logger,
    pub parse_workers: u64,
    pub snmptrapd: TrapdConfig,
}

impl Default for Settings {
    fn default() -> (r: Self)
        ensures
            r.parse_workers >= 1,
            r.logger.level == LogLevel::LvlInfo,
            r.logger.format == LogFormat::Console,
            r.snmptrapd.listening@.len() == 2,
            !r.snmptrapd.auth.enable,
    {
        Settings {
            logger: Logger::default(),
            parse_workers: default_num_cpus(),
            snmptrapd: TrapdConfig::default(),
        }
    }
}

impl Settings {
    /// Whether the configuration meets its rules: at least one worker, and
    /// valid communities and users.
    pub fn is_valid(&self) -> (r: bool)
        ensures
            r == (self.parse_workers >= 1 && auth_valid(self.snmptrapd.auth)),
    {
        self.parse_workers >= 1 && self.snmptrapd.auth.is_valid()
    }
}

/// Value of a hexadecimal digit.
pub open spec fn hex_val(c: u8) -> Option<u8> {
    if 0x41 <= c <= 0x46 {
        Some((c - 0x41 + 10) as u8)
    } else if 0x61 <= c <= 0x66 {
        Some((c - 0x61 + 10) as u8)
    } else if 0x30 <= c <= 0x39 {
        Some((c - 0x30) as u8)
    } else {
        None
    }
}

/// The octets a string of hexadecimal digit pairs stands for.
pub open spec fn hex_decoded(s: Seq<u8>) -> Option<Seq<u8>> {
    if s.len() % 2 != 0 || exists|i: int| 0 <= i < s.len() && hex_val(#[trigger] s[i]) is None {
        None
    } else {
        Some(
            Seq::new(
                s.len() / 2,
                |i: int| (hex_val(s[2 * i]).unwrap() * 16 + hex_val(s[2 * i + 1]).unwrap()) as u8,
            ),
        )
    }
}

/// Relies on `hex::decode`: odd length or a non-hex character (either case
/// accepted) is an error; otherwise each digit pair gives one octet.
#[verifier::external_body]
fn hex_decode(s: &[u8]) -> (r: Option<Vec<u8>>)
    ensures
        bytes_view(r) == hex_decoded(s@),
{
    hex::decode(s).ok()
}

/// What a configured engine ID stands for.
pub open spec fn engine_id_of(s: Seq<u8>) -> Option<Seq<u8>> {
    if s.len() >= 2 && s[0] == 0x30 && s[1] == 0x78 {
        hex_decoded(s.subrange(2, s.len() as int))
    } else {
        Some(s)
    }
}

/// Reads a configured engine ID: `0x` followed by hexadecimal digits, or
/// the octets of the string itself.
pub fn parse_engine_id(s: &[u8]) -> (r: Option<Vec<u8>>)
    ensures
        bytes_view(r) == engine_id_of(s@),
{
    if s.len() >= 2 && s[0] == 0x30 && s[1] == 0x78 {
        let digits = copy_range(s, 2, s.len());
        hex_decode(digits.as_slice())
    } else {
        Some(crate::ber::clone_bytes(s))
    }
}

} // verus!
