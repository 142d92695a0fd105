//! What the service is configured with when it starts.

use vstd::prelude::*;

verus! {

/// A secret the service cannot start without.
#[derive(Clone, Copy, Debug, PartialEq, Eq, Structural)]
pub enum ConfigError {
    /// No address of the user store is configured.
    MongoUriUnavailable,
    /// No address of the session registry is configured.
    RedisUriUnavailable,
    /// No signing secret is configured.
    SigningSecretUnavailable,
}

/// The configuration of a running service. It is read once, before the first
/// request, and never changed.
#[derive(Debug)]
pub struct Settings {
    pub mongo_uri: String,
    pub redis_uri: String,
    pub jwt_secret: String,
}

impl Settings {
    /// The configuration made of the three secrets as they were found. The
    /// first that is missing, in the order of the parameters, is the error;
    /// a service without a signing secret does not start.
    pub fn load(
        mongo_uri: Option<String>,
        redis_uri: Option<String>,
        jwt_secret: Option<String>,
    ) -> (settings: Result<Settings, ConfigError>)
        ensures
            match (mongo_uri, redis_uri, jwt_secret) {
                (None, _, _) => settings == Err::<Settings, ConfigError>(
                    ConfigError::MongoUriUnavailable,
                ),
                (Some(_), None, _) => settings == Err::<Settings, ConfigError>(
                    ConfigError::RedisUriUnavailable,
                ),
                (Some(_), Some(_), None) => settings == Err::<Settings, ConfigError>(
                    ConfigError::SigningSecretUnavailable,
                ),
                (Some(mongo), Some(redis), Some(secret)) => settings matches Ok(loaded)
                    && loaded.mongo_uri == mongo && loaded.redis_uri == redis && loaded.jwt_secret
                    == secret,
            },
    {
        let mongo_uri = match mongo_uri {
            Some(uri) => uri,
            None => { return Err(ConfigError::MongoUriUnavailable); },
        };
        let redis_uri = match redis_uri {
            Some(uri) => uri,
            None => { return Err(ConfigError::RedisUriUnavailable); },
        };
        let jwt_secret = match jwt_secret {
            Some(secret) => secret,
            None => { return Err(ConfigError::SigningSecretUnavailable); },
        };
        Ok(Settings { mongo_uri, redis_uri, jwt_secret })
    }
}

} // verus!
