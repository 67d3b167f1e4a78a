//! Stores beside the vector index: time series and a cache.

pub mod questdb;
pub mod redis_cache;
