//! The cache in front of slow lookups.

use vstd::prelude::*;

verus! {

/// What to do about a value that is wanted, given what the cache holds.
#[derive(Debug, Clone)]
pub enum CacheStep {
    /// The cache holds the value in this form: decode it and hand it out.
    Hit(String),
    /// The cache does not hold the value: compute it, store it under the
    /// default time to live, and hand it out.
    Miss,
}

/// A cache whose entries live for a default time unless told otherwise.
#[derive(Debug, Clone, Copy)]
pub struct RedisCache {
    default_ttl_secs: u64,
}

impl RedisCache {
    /// The default time to live, in seconds.
    pub closed spec fn default_ttl(self) -> u64 {
        self.default_ttl_secs
    }

    /// A cache whose entries live for `default_ttl_secs` seconds by default.
    pub fn new(default_ttl_secs: u64) -> (cache: RedisCache)
        ensures
            cache.default_ttl() == default_ttl_secs,
    {
        RedisCache { default_ttl_secs }
    }

    /// For how many seconds a value lives that is stored without a time to
    /// live of its own.
    pub fn set(&self) -> (ttl_secs: u64)
        ensures
            ttl_secs == self.default_ttl(),
    {
        self.default_ttl_secs
    }

    /// Whether a deletion that removed `deleted` keys removed the value.
    pub fn delete(deleted: i32) -> (removed: bool)
        ensures
            removed == (deleted > 0),
    {
        deleted > 0
    }

    /// What to do about a wanted value, given what the cache holds under its
    /// key.
    pub fn get_or_set(cached: Option<String>) -> (step: CacheStep)
        ensures
            match cached {
                Some(text) => step == CacheStep::Hit(text),
                None => step is Miss,
            },
    {
        match cached {
            Some(text) => CacheStep::Hit(text),
            None => CacheStep::Miss,
        }
    }
}

} // verus!
