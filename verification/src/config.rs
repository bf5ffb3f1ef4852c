//! Configuration values and the defaults the loaders fall back to.
//! Reading a file or the environment happens outside the library;
//! what is assembled from the values read is decided here.

use vstd::prelude::*;

verus! {

/// The proxy's configuration.
pub struct Config {
    pub token: String,
    pub amqp: String,
    pub intents: u64,
    pub cache_enabled: bool,
    pub shards: ConfigShards,
}

/// How the shard space is split.
pub struct ConfigShards {
    pub per_cluster: usize,
    pub extra: u64,
}

/// Assembles a configuration from environment values, falling back to
/// the loader's defaults where a value is absent: 8 shards per
/// cluster, 8 extra shards, caching enabled.
pub fn config_from_env_parts(
    token: String,
    amqp: String,
    intents: u64,
    per_cluster: Option<usize>,
    extra: Option<u64>,
    cache_enabled: Option<bool>,
) -> (c: Config)
    ensures
        c.token == token,
        c.amqp == amqp,
        c.intents == intents,
        c.shards.per_cluster == match per_cluster {
            Some(n) => n,
            None => 8usize,
        },
        c.shards.extra == match extra {
            Some(n) => n,
            None => 8u64,
        },
        c.cache_enabled == match cache_enabled {
            Some(b) => b,
            None => true,
        },
{
    Config {
        token,
        amqp,
        intents,
        cache_enabled: match cache_enabled {
            Some(b) => b,
            None => true,
        },
        shards: ConfigShards {
            per_cluster: match per_cluster {
                Some(n) => n,
                None => 8,
            },
            extra: match extra {
                Some(n) => n,
                None => 8,
            },
        },
    }
}

/// The global shard count: the gateway's recommendation plus the
/// configured extra shards.
pub fn total_shard_count(recommended: u64, extra: u64) -> (n: u64)
    requires
        recommended + extra <= u64::MAX,
    ensures
        n == recommended + extra,
{
    recommended + extra
}

} // verus!
