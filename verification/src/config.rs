//! Server configuration: defaults, required settings, the clamps applied
//! to numeric knobs, and the refusal of missing or malformed variables.

use vstd::prelude::*;

verus! {

/// Activity items returned by a single query when no limit is given.
pub const DEFAULT_ACTIVITY_DEFAULT_LIMIT: i64 = 200;

/// Most activity items a single query may request.
pub const DEFAULT_ACTIVITY_MAX_LIMIT: i64 = 500;

/// Broadcast shards unless configured otherwise.
pub const DEFAULT_ACTIVITY_BROADCAST_SHARDS: usize = 16;

/// Per-shard event capacity unless configured otherwise.
pub const DEFAULT_ACTIVITY_BROADCAST_CAPACITY: usize = 512;

/// Catch-up page size unless configured otherwise.
pub const DEFAULT_ACTIVITY_CATCHUP_BATCH_SIZE: i64 = 100;

/// A configuration setting was missing or malformed.
#[derive(Debug)]
pub enum ConfigError {
    /// The named environment variable is not set.
    MissingVar(&'static str),
    /// The named environment variable holds an invalid value.
    InvalidVar(&'static str),
}

/// The state of one environment-supplied setting: absent, present but
/// unparsable, or parsed to its value.
pub enum Setting<T> {
    Unset,
    Invalid,
    Parsed(T),
}

/// Identity-provider settings.
pub struct ClerkConfig {
    pub secret_key: String,
    pub issuer: String,
    pub api_url: String,
}

impl ClerkConfig {
    /// Builds the provider settings from the raw variable states: the
    /// secret key and a well-formed issuer URL are required; the API URL
    /// defaults but must be well-formed when set.
    pub fn from_values(
        secret_key: Option<String>,
        issuer: Setting<String>,
        api_url: Setting<String>,
    ) -> (r: Result<ClerkConfig, ConfigError>)
        ensures
            ({
                let secret_ok = secret_key is Some;
                let issuer_ok = issuer is Parsed;
                let api_url_ok = !(api_url is Invalid);
                &&& (!secret_ok ==> (r matches Err(ConfigError::MissingVar(v)) && v@
                    == "CLERK_SECRET_KEY"@))
                &&& (secret_ok && issuer is Unset ==> (r matches Err(ConfigError::MissingVar(v))
                    && v@ == "CLERK_ISSUER"@))
                &&& (secret_ok && issuer is Invalid ==> (r matches Err(ConfigError::InvalidVar(v))
                    && v@ == "CLERK_ISSUER"@))
                &&& (secret_ok && issuer_ok && !api_url_ok ==> (r matches Err(
                    ConfigError::InvalidVar(v),
                ) && v@ == "CLERK_API_URL"@))
                &&& (r is Ok <==> secret_ok && issuer_ok && api_url_ok)
                &&& (r matches Ok(c) ==> {
                    &&& Some(c.secret_key) == secret_key
                    &&& (issuer matches Setting::Parsed(u) && c.issuer == u)
                    &&& c.api_url@ == (match api_url {
                        Setting::Parsed(u) => u@,
                        _ => "https://api.clerk.com/v1/"@,
                    })
                })
            }),
    {
        let secret_key = match secret_key {
            Some(s) => s,
            None => {
                return Err(ConfigError::MissingVar("CLERK_SECRET_KEY"));
            },
        };
        let issuer = match issuer {
            Setting::Parsed(u) => u,
            Setting::Unset => {
                return Err(ConfigError::MissingVar("CLERK_ISSUER"));
            },
            Setting::Invalid => {
                return Err(ConfigError::InvalidVar("CLERK_ISSUER"));
            },
        };
        let api_url = match api_url {
            Setting::Parsed(u) => u,
            Setting::Unset => String::from_str("https://api.clerk.com/v1/"),
            Setting::Invalid => {
                return Err(ConfigError::InvalidVar("CLERK_API_URL"));
            },
        };
        Ok(ClerkConfig { secret_key, issuer, api_url })
    }

    /// The provider API key.
    pub fn get_secret_key(&self) -> (r: &String)
        ensures
            r == &self.secret_key,
    {
        &self.secret_key
    }

    /// The token issuer.
    pub fn get_issuer(&self) -> (r: &String)
        ensures
            r == &self.issuer,
    {
        &self.issuer
    }

    /// The provider API base URL.
    pub fn get_api_url(&self) -> (r: &String)
        ensures
            r == &self.api_url,
    {
        &self.api_url
    }
}

/// The server's settings after defaulting and clamping.
pub struct RemoteServerConfig {
    pub database_url: String,
    pub listen_addr: String,
    pub activity_channel: String,
    pub activity_default_limit: i64,
    pub activity_max_limit: i64,
    pub activity_broadcast_shards: usize,
    pub activity_broadcast_capacity: usize,
    pub activity_catchup_batch_size: i64,
    pub clerk: ClerkConfig,
}

/// The numeric knob a setting resolves to: the parsed value clamped to
/// at least 1, or the default when unset.
pub open spec fn resolved_usize(setting: Setting<usize>, default: usize) -> int {
    match setting {
        Setting::Parsed(n) => if n < 1 {
            1int
        } else {
            n as int
        },
        _ => default as int,
    }
}

/// As `resolved_usize`, for a signed knob.
pub open spec fn resolved_i64(setting: Setting<i64>, default: i64) -> int {
    match setting {
        Setting::Parsed(n) => if n < 1 {
            1int
        } else {
            n as int
        },
        _ => default as int,
    }
}

impl RemoteServerConfig {
    /// Builds the configuration from the raw variable states: the
    /// database URL is required (either variable), an unparsable numeric
    /// knob is refused, parsed knobs are clamped to at least 1, the
    /// listen address and channel default, and the provider settings are
    /// validated last, in the order the variables are read.
    pub fn from_values(
        server_database_url: Option<String>,
        database_url: Option<String>,
        listen_addr: Option<String>,
        activity_channel: Option<String>,
        activity_broadcast_shards: Setting<usize>,
        activity_broadcast_capacity: Setting<usize>,
        activity_catchup_batch_size: Setting<i64>,
        secret_key: Option<String>,
        issuer: Setting<String>,
        api_url: Setting<String>,
    ) -> (r: Result<RemoteServerConfig, ConfigError>)
        ensures
            ({
                let db_ok = server_database_url is Some || database_url is Some;
                let shards_ok = !(activity_broadcast_shards is Invalid);
                let capacity_ok = !(activity_broadcast_capacity is Invalid);
                let batch_ok = !(activity_catchup_batch_size is Invalid);
                let secret_ok = secret_key is Some;
                let issuer_ok = issuer is Parsed;
                let api_url_ok = !(api_url is Invalid);
                &&& (!db_ok ==> (r matches Err(ConfigError::MissingVar(v)) && v@
                    == "SERVER_DATABASE_URL"@))
                &&& (db_ok && !shards_ok ==> (r matches Err(ConfigError::InvalidVar(v)) && v@
                    == "SERVER_ACTIVITY_BROADCAST_SHARDS"@))
                &&& (db_ok && shards_ok && !capacity_ok ==> (r matches Err(
                    ConfigError::InvalidVar(v),
                ) && v@ == "SERVER_ACTIVITY_BROADCAST_CAPACITY"@))
                &&& (db_ok && shards_ok && capacity_ok && !batch_ok ==> (r matches Err(
                    ConfigError::InvalidVar(v),
                ) && v@ == "SERVER_ACTIVITY_CATCHUP_BATCH_SIZE"@))
                &&& (db_ok && shards_ok && capacity_ok && batch_ok && !secret_ok ==> (r matches Err(
                    ConfigError::MissingVar(v),
                ) && v@ == "CLERK_SECRET_KEY"@))
                &&& (db_ok && shards_ok && capacity_ok && batch_ok && secret_ok && issuer is Unset
                    ==> (r matches Err(ConfigError::MissingVar(v)) && v@ == "CLERK_ISSUER"@))
                &&& (db_ok && shards_ok && capacity_ok && batch_ok && secret_ok
                    && issuer is Invalid ==> (r matches Err(ConfigError::InvalidVar(v)) && v@
                    == "CLERK_ISSUER"@))
                &&& (db_ok && shards_ok && capacity_ok && batch_ok && secret_ok && issuer_ok
                    && !api_url_ok ==> (r matches Err(ConfigError::InvalidVar(v)) && v@
                    == "CLERK_API_URL"@))
                &&& (r is Ok <==> db_ok && shards_ok && capacity_ok && batch_ok && secret_ok
                    && issuer_ok && api_url_ok)
                &&& (r matches Ok(c) ==> {
                    &&& c.database_url == (match server_database_url {
                        Some(u) => u,
                        None => match database_url {
                            Some(u) => u,
                            None => c.database_url,
                        },
                    })
                    &&& c.listen_addr@ == (match listen_addr {
                        Some(a) => a@,
                        None => "0.0.0.0:8081"@,
                    })
                    &&& c.activity_channel@ == (match activity_channel {
                        Some(a) => a@,
                        None => "activity"@,
                    })
                    &&& c.activity_default_limit == DEFAULT_ACTIVITY_DEFAULT_LIMIT
                    &&& c.activity_max_limit == DEFAULT_ACTIVITY_MAX_LIMIT
                    &&& c.activity_broadcast_shards == resolved_usize(
                        activity_broadcast_shards,
                        DEFAULT_ACTIVITY_BROADCAST_SHARDS,
                    )
                    &&& c.activity_broadcast_capacity == resolved_usize(
                        activity_broadcast_capacity,
                        DEFAULT_ACTIVITY_BROADCAST_CAPACITY,
                    )
                    &&& c.activity_catchup_batch_size == resolved_i64(
                        activity_catchup_batch_size,
                        DEFAULT_ACTIVITY_CATCHUP_BATCH_SIZE,
                    )
                    &&& Some(c.clerk.secret_key) == secret_key
                    &&& (issuer matches Setting::Parsed(u) && c.clerk.issuer == u)
                    &&& c.clerk.api_url@ == (match api_url {
                        Setting::Parsed(u) => u@,
                        _ => "https://api.clerk.com/v1/"@,
                    })
                    &&& c.activity_broadcast_shards >= 1
                    &&& c.activity_broadcast_capacity >= 1
                    &&& c.activity_catchup_batch_size >= 1
                })
            }),
    {
        let database_url = match server_database_url {
            Some(u) => u,
            None => match database_url {
                Some(u) => u,
                None => {
                    return Err(ConfigError::MissingVar("SERVER_DATABASE_URL"));
                },
            },
        };
        let activity_broadcast_shards = match activity_broadcast_shards {
            Setting::Parsed(n) => if n < 1 {
                1
            } else {
                n
            },
            Setting::Unset => DEFAULT_ACTIVITY_BROADCAST_SHARDS,
            Setting::Invalid => {
                return Err(ConfigError::InvalidVar("SERVER_ACTIVITY_BROADCAST_SHARDS"));
            },
        };
        let activity_broadcast_capacity = match activity_broadcast_capacity {
            Setting::Parsed(n) => if n < 1 {
                1
            } else {
                n
            },
            Setting::Unset => DEFAULT_ACTIVITY_BROADCAST_CAPACITY,
            Setting::Invalid => {
                return Err(ConfigError::InvalidVar("SERVER_ACTIVITY_BROADCAST_CAPACITY"));
            },
        };
        let activity_catchup_batch_size = match activity_catchup_batch_size {
            Setting::Parsed(n) => if n < 1 {
                1
            } else {
                n
            },
            Setting::Unset => DEFAULT_ACTIVITY_CATCHUP_BATCH_SIZE,
            Setting::Invalid => {
                return Err(ConfigError::InvalidVar("SERVER_ACTIVITY_CATCHUP_BATCH_SIZE"));
            },
        };
        let clerk = match ClerkConfig::from_values(secret_key, issuer, api_url) {
            Ok(c) => c,
            Err(e) => {
                return Err(e);
            },
        };
        let listen_addr = match listen_addr {
            Some(a) => a,
            None => String::from_str("0.0.0.0:8081"),
        };
        let activity_channel = match activity_channel {
            Some(a) => a,
            None => String::from_str("activity"),
        };
        Ok(
            RemoteServerConfig {
                database_url,
                listen_addr,
                activity_channel,
                activity_default_limit: DEFAULT_ACTIVITY_DEFAULT_LIMIT,
                activity_max_limit: DEFAULT_ACTIVITY_MAX_LIMIT,
                activity_broadcast_shards,
                activity_broadcast_capacity,
                activity_catchup_batch_size,
                clerk,
            },
        )
    }
}

/// A public-configuration setting was missing or malformed.
#[derive(Debug)]
pub enum ClerkPublicConfigError {
    /// The named environment variable is not set.
    MissingEnv(&'static str),
    /// The named environment variable holds an invalid value.
    InvalidEnv(&'static str),
}

/// Client-side identity-provider settings: the issuer alone.
pub struct ClerkPublicConfig {
    pub issuer: String,
}

impl ClerkPublicConfig {
    /// Builds the public configuration; a well-formed issuer URL is
    /// required.
    pub fn from_values(issuer: Setting<String>) -> (r: Result<
        ClerkPublicConfig,
        ClerkPublicConfigError,
    >)
        ensures
            r is Ok <==> issuer is Parsed,
            r matches Ok(c) ==> (issuer matches Setting::Parsed(u) && c.issuer == u),
            issuer is Unset ==> (r matches Err(ClerkPublicConfigError::MissingEnv(v)) && v@
                == "CLERK_ISSUER"@),
            issuer is Invalid ==> (r matches Err(ClerkPublicConfigError::InvalidEnv(v)) && v@
                == "CLERK_ISSUER"@),
    {
        match issuer {
            Setting::Parsed(issuer) => Ok(ClerkPublicConfig { issuer }),
            Setting::Unset => Err(ClerkPublicConfigError::MissingEnv("CLERK_ISSUER")),
            Setting::Invalid => Err(ClerkPublicConfigError::InvalidEnv("CLERK_ISSUER")),
        }
    }

    /// The configured issuer.
    pub fn issuer(&self) -> (r: &String)
        ensures
            r == &self.issuer,
    {
        &self.issuer
    }
}

} // verus!
