use vstd::prelude::*;
use vstd::pervasive::unreached;
use crate::errors::{Error, ErrorKind};
use crate::redis_stream::{redis_url_accepted, RedisStream};
use crate::settings::{GlobalConfig, RedisConfig};

verus! {

/// What the HTTP handlers share: a stream handle and the settings.
pub struct AppState {
    pub stream: RedisStream,
    pub config: GlobalConfig,
}

fn redis_config_of(config: &GlobalConfig) -> (c: RedisConfig)
    ensures
        c@ == config.redis@,
{
    RedisConfig { redis_connection_string: config.redis.redis_connection_string.clone() }
}

impl AppState {
    /// The shared state for these settings, with a client for their Redis
    /// URL, which must be one that opens.
    pub fn new(config: GlobalConfig) -> (s: AppState)
        requires
            redis_url_accepted(config.redis@),
        ensures
            s.config == config,
            s.stream.url() == config.redis@,
    {
        let stream = match RedisStream::new(redis_config_of(&config)) {
            Ok(stream) => stream,
            Err(_) => unreached(),
        };
        AppState { stream, config }
    }

    /// The shared state for these settings where their Redis URL opens;
    /// `RedisConnection` otherwise.
    pub fn try_new(config: GlobalConfig) -> (r: Result<AppState, Error>)
        ensures
            r is Ok == redis_url_accepted(config.redis@),
            r matches Ok(s) ==> s.config == config && s.stream.url() == config.redis@,
            r matches Err(e) ==> e@.0 == ErrorKind::RedisConnection,
    {
        match RedisStream::new(redis_config_of(&config)) {
            Ok(_) => Ok(AppState::new(config)),
            Err(e) => Err(e),
        }
    }
}

} // verus!
