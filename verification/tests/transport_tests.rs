use cluster_node::errors::{AttachError, NodeNotFoundError};
use cluster_node::text::u64_to_decimal;
use cluster_node::transport::{client_base_url, health_check_result, health_check_url, ClientError, Config};

#[test]
fn config_endpoints() {
    let cfg = Config::new("Test Server", "http", "127.0.0.1", 8080);
    assert_eq!(cfg.name, "Test Server");
    assert_eq!(cfg.scheme, "http");
    assert_eq!(cfg.client_endpoint, "http://127.0.0.1:8080");
    assert_eq!(cfg.server_endpoint, "127.0.0.1:8080");
}

#[test]
fn health_check_address() {
    let cfg = Config::new("s", "http", "127.0.0.1", 8080);
    let base = client_base_url(&cfg).expect("base url");
    assert_eq!(base.as_str(), "http://127.0.0.1:8080/");
    let url = health_check_url(&base).expect("health url");
    assert_eq!(url.as_str(), "http://127.0.0.1:8080/healthcheck");
}

#[test]
fn bad_endpoint_is_refused() {
    let cfg = Config::new("s", "", "", 1);
    assert!(matches!(client_base_url(&cfg), Err(ClientError::UrlPraseError(_))));
}

#[test]
fn health_check_answers() {
    assert_eq!(health_check_result(200, "Test Server".to_string()).ok(), Some("Test Server".to_string()));
    match health_check_result(503, "down".to_string()) {
        Err(ClientError::HealthCheckError { status_code, message }) => {
            assert_eq!(status_code, 503);
            assert_eq!(message, "down");
        }
        _ => panic!("expected an error"),
    }
}

#[test]
fn error_messages() {
    assert_eq!(NodeNotFoundError::new(12).to_string(), "Node '12' not found");
    assert_eq!(AttachError::leader_not_found_message(4), "Leader Node 4 is not found");
    assert_eq!(u64_to_decimal(0), "0");
    assert_eq!(u64_to_decimal(18446744073709551615), "18446744073709551615");
}
