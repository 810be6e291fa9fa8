use rust_web::app_context::AppContext;
use rust_web::config::ServerConfig;
use rust_web::server::Server;

#[test]
fn test_server_config_default() {
    let config = ServerConfig::default();
    assert_eq!(config.host, "0.0.0.0");
    assert_eq!(config.port, 3000);
    assert_eq!(config.max_payload_size, 536_870_912);
    assert_eq!(config.request_timeout_secs, 1800);
    assert!(config.log_dir.is_none());
    assert!(config.log_level.is_none());
}

#[test]
fn test_server_config_builder() {
    let config = ServerConfig::new()
        .host("127.0.0.1".to_string())
        .port(8080)
        .log_dir("/var/log".to_string())
        .log_level("debug".to_string())
        .max_payload_size(1024 * 1024)
        .request_timeout_secs(60);

    assert_eq!(config.host, "127.0.0.1");
    assert_eq!(config.port, 8080);
    assert_eq!(config.log_dir, Some("/var/log".to_string()));
    assert_eq!(config.log_level, Some("debug".to_string()));
    assert_eq!(config.max_payload_size, 1024 * 1024);
    assert_eq!(config.request_timeout_secs, 60);
}

#[test]
fn test_addr() {
    let config = ServerConfig::new().host("localhost".to_string()).port(9000);
    assert_eq!(config.addr(), "localhost:9000");
}

#[test]
fn test_validate() {
    let config = ServerConfig::default();
    assert!(config.validate().is_ok());

    let invalid_config = ServerConfig::new().port(0);
    assert!(invalid_config.validate().is_err());

    let invalid_config = ServerConfig::new().host("".to_string());
    assert!(invalid_config.validate().is_err());
}

#[test]
fn validate_names_the_rule_broken() {
    let zero_port = ServerConfig::new().port(0);
    assert_eq!(zero_port.validate().unwrap_err(), "Port must be greater than 0");

    let empty_host = ServerConfig::new().host(String::new());
    assert_eq!(empty_host.validate().unwrap_err(), "Host cannot be empty");

    let zero_ceiling = ServerConfig::new().max_payload_size(0);
    assert_eq!(
        zero_ceiling.validate().unwrap_err(),
        "Max payload size must be greater than 0"
    );
}

#[test]
fn addr_renders_extreme_ports() {
    let config = ServerConfig::new().host("h".to_string()).port(65535);
    assert_eq!(config.addr(), "h:65535");
    let config = ServerConfig::new().host("h".to_string()).port(7);
    assert_eq!(config.addr(), "h:7");
}

#[test]
fn app_context_builder_requires_config() {
    let err = AppContext::builder().build().unwrap_err();
    assert_eq!(err.0, "server_config");
    assert_eq!(err.message(), "Missing required field: server_config");
}

#[test]
fn app_context_builder_carries_config_over() {
    let config = ServerConfig::new().port(8081);
    let context = AppContext::builder().server_config(config).build().unwrap();
    assert_eq!(context.server_config.port, 8081);
}

#[test]
fn server_copies_config_from_context() {
    let config = ServerConfig::new().host("10.0.0.1".to_string()).port(4000);
    let context = AppContext::from_config(config);
    let server = Server::new(context);
    assert_eq!(server.config.host, "10.0.0.1");
    assert_eq!(server.config.port, 4000);
    assert_eq!(server.context.server_config.host, "10.0.0.1");
}
