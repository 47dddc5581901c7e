use wininfra::api::config::{Config, ConfigError, LoggingConfig, ServerConfig};

#[test]
fn test_default_config() {
    let config = Config::default();
    assert_eq!(config.server.host, "0.0.0.0");
    assert_eq!(config.server.port, 3000);
    assert_eq!(config.logging.level, "api=info,tower_http=info");
}

#[test]
fn test_socket_addr() {
    let config = Config::default();
    assert_eq!(config.socket_addr(), "0.0.0.0:3000");
}

#[test]
fn socket_addr_of_custom_server() {
    let config = Config {
        server: ServerConfig { host: "127.0.0.1".to_string(), port: 8080 },
        logging: LoggingConfig::default(),
    };
    assert_eq!(config.socket_addr(), "127.0.0.1:8080");
    let config = Config {
        server: ServerConfig { host: "::1".to_string(), port: 0 },
        logging: LoggingConfig::default(),
    };
    assert_eq!(config.socket_addr(), "::1:0");
    let config = Config {
        server: ServerConfig { host: "h".to_string(), port: 65535 },
        logging: LoggingConfig::default(),
    };
    assert_eq!(config.socket_addr(), "h:65535");
}

#[test]
fn config_error_messages() {
    let e = ConfigError::ReadError("a.toml".to_string(), "denied".to_string());
    assert_eq!(e.to_string(), "Failed to read config file 'a.toml': denied");
    let e = ConfigError::ParseError("b.toml".to_string(), "bad key".to_string());
    assert_eq!(e.to_string(), "Failed to parse config file 'b.toml': bad key");
}
