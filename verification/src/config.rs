//! Application configuration.
//!
//! Raw environment-style values come from the caller; turning them into a
//! configuration — required values, numeric parsing, defaults, list
//! splitting — happens here.

use vstd::prelude::*;
use vstd::string::StringExecFns;

use crate::text::all_digits;
use crate::text::dec_val;
use crate::text::parse_u16;
use crate::text::parse_u64;
use crate::text::parse_u32;
use crate::text::split_trimmed;
use crate::text::split_list;

verus! {

/// Application configuration.
#[derive(Clone, Debug)]
pub struct Config {
    /// The port the gateway listens on.
    pub port: u16,
    /// Where the database lives.
    pub database_url: String,
    /// The secret tokens are signed with.
    pub jwt_secret: String,
    /// The authentication service.
    pub auth_middleware_url: String,
    /// The data connector service.
    pub data_connector_url: String,
    /// The relation graph service.
    pub relation_graph_url: String,
    /// The tool execution service.
    pub mcp_server_url: String,
    /// The feature toggle service.
    pub feature_toggle_url: String,
    /// The unified processing service.
    pub unified_processor_url: String,
    /// The enhanced graph service.
    pub enhanced_graph_url: String,
    /// The origins allowed to call from a browser.
    pub cors_origins: Vec<String>,
    /// Rate limit for the default bucket.
    pub rate_limit_default: u32,
    /// Rate limit for the search bucket.
    pub rate_limit_search: u32,
    /// Rate limit for the sources bucket.
    pub rate_limit_sources: u32,
    /// Rate limit for the sync bucket.
    pub rate_limit_sync: u32,
}

/// Configuration errors.
#[derive(Clone, Debug, PartialEq, Eq)]
pub enum ConfigError {
    /// A required environment value is absent; the name is carried.
    MissingEnv(String),
    /// A value is present but unusable; the name is carried.
    InvalidValue(String),
}

/// The number a raw value denotes, or the default when the value is
/// absent, not a number, or too large for sixteen bits.
pub open spec fn spec_num_or16(o: Option<String>, d: u16) -> u16 {
    match o {
        Some(s) => if s@.len() >= 1 && all_digits(s@) && dec_val(s@) <= u16::MAX {
            dec_val(s@) as u16
        } else {
            d
        },
        None => d,
    }
}

/// The number a raw value denotes, or the default when the value is
/// absent, not a number, or too large for thirty-two bits.
pub open spec fn spec_num_or32(o: Option<String>, d: u32) -> u32 {
    match o {
        Some(s) => if s@.len() >= 1 && all_digits(s@) && dec_val(s@) <= u32::MAX {
            dec_val(s@) as u32
        } else {
            d
        },
        None => d,
    }
}

/// The number a raw value denotes, or the default when the value is
/// absent, not a number, or too large for sixty-four bits.
pub open spec fn spec_num_or64(o: Option<String>, d: u64) -> u64 {
    match o {
        Some(s) => if s@.len() >= 1 && all_digits(s@) && dec_val(s@) <= u64::MAX {
            dec_val(s@) as u64
        } else {
            d
        },
        None => d,
    }
}

pub(crate) fn num_or64(o: &Option<String>, d: u64) -> (r: u64)
    ensures
        r == spec_num_or64(*o, d),
{
    match o {
        Some(s) => match parse_u64(s.as_str()) {
            Some(v) => v,
            None => d,
        },
        None => d,
    }
}

pub(crate) fn num_or32_of(o: &Option<String>, d: u32) -> (r: u32)
    ensures
        r == spec_num_or32(*o, d),
{
    num_or32(o, d)
}

fn num_or16(o: &Option<String>, d: u16) -> (r: u16)
    ensures
        r == spec_num_or16(*o, d),
{
    match o {
        Some(s) => match parse_u16(s.as_str()) {
            Some(v) => v,
            None => d,
        },
        None => d,
    }
}

fn num_or32(o: &Option<String>, d: u32) -> (r: u32)
    ensures
        r == spec_num_or32(*o, d),
{
    match o {
        Some(s) => match parse_u32(s.as_str()) {
            Some(v) => v,
            None => d,
        },
        None => d,
    }
}

impl Config {
    /// Build the configuration from raw environment values.
    ///
    /// The service addresses and secrets are required: the first one
    /// absent is reported by name. The port, the rate limits and the
    /// allowed origins have defaults; a number that does not parse falls
    /// back to its default rather than failing.
    pub fn from_values(
        port: Option<String>,
        database_url: Option<String>,
        jwt_secret: Option<String>,
        auth_middleware_url: Option<String>,
        data_connector_url: Option<String>,
        relation_graph_url: Option<String>,
        mcp_server_url: Option<String>,
        feature_toggle_url: Option<String>,
        unified_processor_url: Option<String>,
        enhanced_graph_url: Option<String>,
        cors_origins: Option<String>,
        rate_limit_default: Option<String>,
        rate_limit_search: Option<String>,
        rate_limit_sources: Option<String>,
        rate_limit_sync: Option<String>,
    ) -> (r: Result<Config, ConfigError>)
        requires
            (cors_origins matches Some(s) ==> s@.len() < usize::MAX),
        ensures
            r is Ok <==> (database_url is Some && jwt_secret is Some
                && auth_middleware_url is Some && data_connector_url is Some
                && relation_graph_url is Some && mcp_server_url is Some
                && feature_toggle_url is Some && unified_processor_url is Some
                && enhanced_graph_url is Some),
            r matches Err(e) ==> (e matches ConfigError::MissingEnv(m) && m@ == (
                if database_url is None { "DATABASE_URL"@ }
                else if jwt_secret is None { "JWT_SECRET"@ }
                else if auth_middleware_url is None { "AUTH_SERVICE_URL"@ }
                else if data_connector_url is None { "DATA_SERVICE_URL"@ }
                else if relation_graph_url is None { "RELATION_GRAPH_SERVICE_URL"@ }
                else if mcp_server_url is None { "MCP_SERVICE_URL"@ }
                else if feature_toggle_url is None { "FEATURE_TOGGLE_SERVICE_URL"@ }
                else if unified_processor_url is None { "UNIFIED_PROCESSOR_SERVICE_URL"@ }
                else { "ENHANCED_GRAPH_URL"@ }
            )),
            r matches Ok(c) ==> ({
                &&& c.port == spec_num_or16(port, 8000)
                &&& (database_url matches Some(v) && c.database_url@ == v@)
                &&& (jwt_secret matches Some(v) && c.jwt_secret@ == v@)
                &&& (auth_middleware_url matches Some(v) && c.auth_middleware_url@ == v@)
                &&& (data_connector_url matches Some(v) && c.data_connector_url@ == v@)
                &&& (relation_graph_url matches Some(v) && c.relation_graph_url@ == v@)
                &&& (mcp_server_url matches Some(v) && c.mcp_server_url@ == v@)
                &&& (feature_toggle_url matches Some(v) && c.feature_toggle_url@ == v@)
                &&& (unified_processor_url matches Some(v) && c.unified_processor_url@ == v@)
                &&& (enhanced_graph_url matches Some(v) && c.enhanced_graph_url@ == v@)
                &&& c.cors_origins.deep_view() == split_trimmed(
                    match cors_origins {
                        Some(s) => s@,
                        None => "http://localhost:3000"@,
                    },
                    0,
                )
                &&& c.rate_limit_default == spec_num_or32(rate_limit_default, 120)
                &&& c.rate_limit_search == spec_num_or32(rate_limit_search, 60)
                &&& c.rate_limit_sources == spec_num_or32(rate_limit_sources, 30)
                &&& c.rate_limit_sync == spec_num_or32(rate_limit_sync, 10)
            }),
    {
        let port_v = num_or16(&port, 8000);
        let database_url = match database_url {
            Some(v) => v,
            None => {
                return Err(ConfigError::MissingEnv(String::from_str("DATABASE_URL")));
            },
        };
        let jwt_secret = match jwt_secret {
            Some(v) => v,
            None => {
                return Err(ConfigError::MissingEnv(String::from_str("JWT_SECRET")));
            },
        };
        let auth_middleware_url = match auth_middleware_url {
            Some(v) => v,
            None => {
                return Err(ConfigError::MissingEnv(String::from_str("AUTH_SERVICE_URL")));
            },
        };
        let data_connector_url = match data_connector_url {
            Some(v) => v,
            None => {
                return Err(ConfigError::MissingEnv(String::from_str("DATA_SERVICE_URL")));
            },
        };
        let relation_graph_url = match relation_graph_url {
            Some(v) => v,
            None => {
                return Err(ConfigError::MissingEnv(String::from_str("RELATION_GRAPH_SERVICE_URL")));
            },
        };
        let mcp_server_url = match mcp_server_url {
            Some(v) => v,
            None => {
                return Err(ConfigError::MissingEnv(String::from_str("MCP_SERVICE_URL")));
            },
        };
        let feature_toggle_url = match feature_toggle_url {
            Some(v) => v,
            None => {
                return Err(ConfigError::MissingEnv(String::from_str("FEATURE_TOGGLE_SERVICE_URL")));
            },
        };
        let unified_processor_url = match unified_processor_url {
            Some(v) => v,
            None => {
                return Err(ConfigError::MissingEnv(String::from_str("UNIFIED_PROCESSOR_SERVICE_URL")));
            },
        };
        let enhanced_graph_url = match enhanced_graph_url {
            Some(v) => v,
            None => {
                return Err(ConfigError::MissingEnv(String::from_str("ENHANCED_GRAPH_URL")));
            },
        };
        let cors = match cors_origins {
            Some(s) => split_list(s.as_str()),
            None => {
                proof {
                    reveal_strlit("http://localhost:3000");
                }
                split_list("http://localhost:3000")
            },
        };
        Ok(Config {
            port: port_v,
            database_url,
            jwt_secret,
            auth_middleware_url,
            data_connector_url,
            relation_graph_url,
            mcp_server_url,
            feature_toggle_url,
            unified_processor_url,
            enhanced_graph_url,
            cors_origins: cors,
            rate_limit_default: num_or32(&rate_limit_default, 120),
            rate_limit_search: num_or32(&rate_limit_search, 60),
            rate_limit_sources: num_or32(&rate_limit_sources, 30),
            rate_limit_sync: num_or32(&rate_limit_sync, 10),
        })
    }
}

} // verus!
