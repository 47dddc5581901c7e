//! Server configuration: defaults, the listening address, and the errors of
//! loading a configuration file.

use vstd::prelude::*;
use crate::text::{decimal_seq, push_decimal};

verus! {

/// The default host address.
pub open spec fn default_host_spec() -> Seq<char> {
    "0.0.0.0"@
}

/// The default port.
pub open spec fn default_port_spec() -> u16 {
    3000
}

/// The default log level filter.
pub open spec fn default_log_level_spec() -> Seq<char> {
    "api=info,tower_http=info"@
}

/// Server configuration.
#[derive(Debug, Clone)]
pub struct Config {
    /// Server settings
    pub server: ServerConfig,
    /// Logging settings
    pub logging: LoggingConfig,
}

/// Server-specific configuration.
#[derive(Debug, Clone)]
pub struct ServerConfig {
    /// Host address to bind to (default: 0.0.0.0)
    pub host: String,
    /// Port to listen on (default: 3000)
    pub port: u16,
}

/// Logging configuration.
#[derive(Debug, Clone)]
pub struct LoggingConfig {
    /// Log level filter (default: "api=info,tower_http=info")
    pub level: String,
}

/// The host used when the configuration names none.
pub fn default_host() -> (r: String)
    ensures
        r@ == default_host_spec(),
{
    String::from_str("0.0.0.0")
}

/// The port used when the configuration names none.
pub fn default_port() -> (r: u16)
    ensures
        r == default_port_spec(),
{
    3000
}

/// The log level used when the configuration names none.
pub fn default_log_level() -> (r: String)
    ensures
        r@ == default_log_level_spec(),
{
    String::from_str("api=info,tower_http=info")
}

impl Default for ServerConfig {
    /// The default host and port.
    fn default() -> (r: Self)
        ensures
            r.host@ == default_host_spec(),
            r.port == default_port_spec(),
    {
        ServerConfig { host: default_host(), port: default_port() }
    }
}

impl Default for LoggingConfig {
    /// The default log level.
    fn default() -> (r: Self)
        ensures
            r.level@ == default_log_level_spec(),
    {
        LoggingConfig { level: default_log_level() }
    }
}

impl Default for Config {
    /// Default server and logging settings.
    fn default() -> (r: Self)
        ensures
            r.server.host@ == default_host_spec(),
            r.server.port == default_port_spec(),
            r.logging.level@ == default_log_level_spec(),
    {
        Config { server: ServerConfig::default(), logging: LoggingConfig::default() }
    }
}

/// "host:port".
pub open spec fn socket_addr_spec(host: Seq<char>, port: u16) -> Seq<char> {
    host + ":"@ + decimal_seq(port as nat)
}

impl Config {
    /// The socket address string, `host:port`.
    pub fn socket_addr(&self) -> (r: String)
        ensures
            r@ == socket_addr_spec(self.server.host@, self.server.port),
    {
        let mut s = self.server.host.clone().concat(":");
        push_decimal(&mut s, self.server.port as u64);
        s
    }
}

/// Configuration errors: the path of the file, then the underlying message.
#[derive(Debug, Clone, PartialEq, Eq)]
pub enum ConfigError {
    ReadError(String, String),
    ParseError(String, String),
}

/// The message of a configuration error.
pub open spec fn config_error_message(e: ConfigError) -> Seq<char> {
    match e {
        ConfigError::ReadError(path, err) => "Failed to read config file '"@ + path@ + "': "@
            + err@,
        ConfigError::ParseError(path, err) => "Failed to parse config file '"@ + path@ + "': "@
            + err@,
    }
}

impl ConfigError {
    /// The error message.
    pub fn to_string(&self) -> (r: String)
        ensures
            r@ == config_error_message(*self),
    {
        match self {
            ConfigError::ReadError(path, err) => String::from_str(
                "Failed to read config file '",
            ).concat(path.as_str()).concat("': ").concat(err.as_str()),
            ConfigError::ParseError(path, err) => String::from_str(
                "Failed to parse config file '",
            ).concat(path.as_str()).concat("': ").concat(err.as_str()),
        }
    }
}

} // verus!
