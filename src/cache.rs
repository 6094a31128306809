//! The process-wide caches: localized keys and remote engine state, both
//! bounded concurrent maps with idle-time eviction.

use vstd::prelude::*;
use crate::auth::{digest_len, localized_key, AuthType};
use crate::ber::{bytes_equal, clone_bytes, copy_range};

verus! {

#[verifier::external_type_specification]
#[verifier::external_body]
#[verifier::reject_recursive_types(K)]
#[verifier::reject_recursive_types(V)]
#[verifier::reject_recursive_types(S)]
pub struct ExCache<K, V, S>(moka::sync::Cache<K, V, S>);

/// Most entries each cache holds.
pub const CACHE_CAPACITY: u64 = 10_000;

/// Seconds a localized key stays cached without being read.
pub const KEY_IDLE_SECS: u64 = 3600;

/// Seconds an engine entry stays cached without being read.
pub const ENGINE_IDLE_SECS: u64 = 86400;

/// Key of the localized-key cache. The hash is part of it: one password
/// localizes to different keys under different hashes.
#[derive(Clone, Debug, PartialEq, Eq, Hash)]
pub struct AuthKey {
    pub auth_type: AuthType,
    pub password: Vec<u8>,
    pub engine_id: Vec<u8>,
}

/// What was last observed of a remote engine.
#[derive(Clone, Copy, Debug, PartialEq, Eq, Hash, Structural)]
pub struct LocalEngine {
    pub engine_boots: u32,
    pub engine_time: u32,
    /// Wall clock, in seconds, when the entry was stored.
    pub last_access: u64,
}

/// Relies on moka's `Cache::builder().max_capacity(..).time_to_idle(..).build()`:
/// an empty cache bounded in size and idle time. `build` panics on an idle
/// time above 1000 years, which the precondition leaves out.
#[verifier::external_body]
fn new_cache<K, V>(capacity: u64, idle_secs: u64) -> moka::sync::Cache<K, V> where
    K: std::hash::Hash + Eq + Send + Sync + 'static,
    V: Clone + Send + Sync + 'static,
    requires
        idle_secs <= 31_536_000_000,
 {
    moka::sync::Cache::builder().max_capacity(capacity).time_to_idle(
        std::time::Duration::from_secs(idle_secs),
    ).build()
}

/// Relies on moka's `Cache::get`: a copy of what is held under the key, if
/// it has not been evicted. What comes back depends on eviction, so nothing
/// is promised of it.
#[verifier::external_body]
fn cache_get<K, V>(c: &moka::sync::Cache<K, V>, k: &K) -> Option<V> where
    K: std::hash::Hash + Eq + Send + Sync + 'static,
    V: Clone + Send + Sync + 'static,
 {
    c.get(k)
}

/// Relies on moka's `Cache::insert`.
#[verifier::external_body]
fn cache_insert<K, V>(c: &moka::sync::Cache<K, V>, k: K, v: V) where
    K: std::hash::Hash + Eq + Send + Sync + 'static,
    V: Clone + Send + Sync + 'static,
 {
    c.insert(k, v)
}

/// Relies on moka's `entry(..).and_upsert_with`: under a per-key lock it
/// hands the held entry to `keep_newer` and stores what that returns.
#[verifier::external_body]
fn engine_upsert(c: &moka::sync::Cache<Vec<u8>, LocalEngine>, k: Vec<u8>, fresh: LocalEngine) {
    c.entry(k).and_upsert_with(|held| keep_newer(held.map(|e| e.into_value()), fresh));
}

/// The engine entry to hold once `fresh` was accepted: an entry is never
/// replaced by one with fewer boots.
pub fn keep_newer(held: Option<LocalEngine>, fresh: LocalEngine) -> (r: LocalEngine)
    ensures
        r == match held {
            Some(h) => if h.engine_boots > fresh.engine_boots {
                h
            } else {
                fresh
            },
            None => fresh,
        },
{
    match held {
        Some(h) => if h.engine_boots > fresh.engine_boots {
            h
        } else {
            fresh
        },
        None => fresh,
    }
}

/// A localized key held in the key cache together with the inputs it was
/// derived from.
struct CachedKey {
    auth_type: AuthType,
    password: Vec<u8>,
    engine_id: Vec<u8>,
    key: Vec<u8>,
}

impl CachedKey {
    #[verifier::type_invariant]
    spec fn derived_from_inputs(self) -> bool {
        &&& self.key@ == localized_key(self.auth_type, self.password@, self.engine_id@)
        &&& self.key@.len() == digest_len(self.auth_type)
    }
}

impl Clone for CachedKey {
    fn clone(&self) -> Self {
        proof {
            use_type_invariant(self);
        }
        CachedKey {
            auth_type: self.auth_type,
            password: clone_bytes(self.password.as_slice()),
            engine_id: clone_bytes(self.engine_id.as_slice()),
            key: clone_bytes(self.key.as_slice()),
        }
    }
}

/// Localized keys by (hash, password, engine ID).
pub struct KeyCache {
    inner: moka::sync::Cache<AuthKey, CachedKey>,
}

impl KeyCache {
    pub fn new() -> Self {
        KeyCache { inner: new_cache(CACHE_CAPACITY, KEY_IDLE_SECS) }
    }

    /// The localized key of `password` for `engine_id`: the cached one when
    /// held, else computed and cached. Either way it is the key that
    /// `AuthType::gen_key_iter` derives: a held entry is used only when the
    /// inputs stored with it are the ones asked for.
    pub fn localized_key(&self, auth: AuthType, password: &[u8], engine_id: &[u8]) -> (r: Vec<u8>)
        requires
            password@.len() > 0,
        ensures
            r@ == localized_key(auth, password@, engine_id@),
            r@.len() == digest_len(auth),
    {
        let k = AuthKey {
            auth_type: auth,
            password: clone_bytes(password),
            engine_id: clone_bytes(engine_id),
        };
        if let Some(held) = cache_get(&self.inner, &k) {
            proof {
                use_type_invariant(&held);
            }
            if held.auth_type == auth && bytes_equal(held.password.as_slice(), password)
                && bytes_equal(held.engine_id.as_slice(), engine_id) {
                return clone_bytes(held.key.as_slice());
            }
        }
        let key = auth.gen_key_iter(password, engine_id);
        let entry = CachedKey {
            auth_type: auth,
            password: clone_bytes(password),
            engine_id: clone_bytes(engine_id),
            key: clone_bytes(key.as_slice()),
        };
        cache_insert(&self.inner, k, entry);
        key
    }
}

/// Last observed state of remote engines, by engine ID.
pub struct EngineCache {
    inner: moka::sync::Cache<Vec<u8>, LocalEngine>,
}

impl EngineCache {
    pub fn new() -> Self {
        EngineCache { inner: new_cache(CACHE_CAPACITY, ENGINE_IDLE_SECS) }
    }

    /// The entry held for `engine_id`, if any.
    pub fn get(&self, engine_id: &[u8]) -> Option<LocalEngine> {
        let k = copy_range(engine_id, 0, engine_id.len());
        cache_get(&self.inner, &k)
    }

    /// Stores `fresh` for `engine_id` unless an entry with more boots is held.
    pub fn record(&self, engine_id: &[u8], fresh: LocalEngine) {
        engine_upsert(&self.inner, copy_range(engine_id, 0, engine_id.len()), fresh)
    }
}

} // verus!
