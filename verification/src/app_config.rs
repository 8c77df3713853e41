//! Plain configuration records, as the embedding program loads them.
//! Durations are whole seconds.

use vstd::prelude::*;

verus! {

/// Mathematical image of [`CacheConfig`].
pub ghost struct CacheConfigView {
    pub cache_capacity: u64,
    pub cache_lifetime_secs: u64,
    pub cache_idletime_secs: u64,
    pub conversation_capacity: Option<u64>,
    pub max_conversation_history: Option<usize>,
    pub conversation_timeout_minutes: Option<u64>,
}

/// Sizing and expiry of the configuration caches and the session store.
#[derive(Clone, Debug)]
pub struct CacheConfig {
    pub cache_capacity: u64,
    pub cache_lifetime_secs: u64,
    pub cache_idletime_secs: u64,
    pub conversation_capacity: Option<u64>,
    pub max_conversation_history: Option<usize>,
    pub conversation_timeout_minutes: Option<u64>,
}

impl View for CacheConfig {
    type V = CacheConfigView;

    open spec fn view(&self) -> CacheConfigView {
        CacheConfigView {
            cache_capacity: self.cache_capacity,
            cache_lifetime_secs: self.cache_lifetime_secs,
            cache_idletime_secs: self.cache_idletime_secs,
            conversation_capacity: self.conversation_capacity,
            max_conversation_history: self.max_conversation_history,
            conversation_timeout_minutes: self.conversation_timeout_minutes,
        }
    }
}

impl CacheConfig {
    /// The session-store cap, ten hundred when unset.
    pub fn conversation_capacity_or_default(&self) -> (r: u64)
        ensures
            r == (match self@.conversation_capacity {
                Some(c) => c,
                None => 1000u64,
            }),
    {
        match self.conversation_capacity {
            Some(c) => c,
            None => 1000,
        }
    }

    /// The per-session turn cap, twenty when unset.
    pub fn max_history_or_default(&self) -> (r: usize)
        ensures
            r == (match self@.max_conversation_history {
                Some(m) => m,
                None => 20usize,
            }),
    {
        match self.max_conversation_history {
            Some(m) => m,
            None => 20,
        }
    }

    /// The idle timeout in minutes, ten when unset.
    pub fn timeout_minutes_or_default(&self) -> (r: u64)
        ensures
            r == (match self@.conversation_timeout_minutes {
                Some(t) => t,
                None => 10u64,
            }),
    {
        match self.conversation_timeout_minutes {
            Some(t) => t,
            None => 10,
        }
    }
}

/// Mathematical image of [`DatabaseConfig`].
pub ghost struct DatabaseConfigView {
    pub url: Seq<char>,
    pub connect_timeout_secs: u64,
    pub acquire_timeout_secs: u64,
    pub idle_timeout_secs: u64,
    pub max_lifetime_secs: u64,
    pub max_connections: u32,
    pub sqlx_logging: bool,
}

/// How the embedding program reaches its persistent store.
#[derive(Clone, Debug)]
pub struct DatabaseConfig {
    pub url: String,
    pub connect_timeout_secs: u64,
    pub acquire_timeout_secs: u64,
    pub idle_timeout_secs: u64,
    pub max_lifetime_secs: u64,
    pub max_connections: u32,
    pub sqlx_logging: bool,
}

impl View for DatabaseConfig {
    type V = DatabaseConfigView;

    open spec fn view(&self) -> DatabaseConfigView {
        DatabaseConfigView {
            url: self.url@,
            connect_timeout_secs: self.connect_timeout_secs,
            acquire_timeout_secs: self.acquire_timeout_secs,
            idle_timeout_secs: self.idle_timeout_secs,
            max_lifetime_secs: self.max_lifetime_secs,
            max_connections: self.max_connections,
            sqlx_logging: self.sqlx_logging,
        }
    }
}

/// Whether unaddressed group chatter is captured when the configuration
/// does not say.
pub fn default_auto_capture_group() -> (r: bool)
    ensures
        r == false,
{
    false
}

} // verus!
