use user_backend::config::{AppConfig, CargoEnv};
use user_backend::router::{AppRouter, HttpMethod, RouteTarget, RouterConfig};

#[test]
fn route_table_matches_the_two_endpoints() {
    assert_eq!(AppRouter::route(HttpMethod::Get, "/api/v1/"), RouteTarget::ListUsers);
    assert_eq!(AppRouter::route(HttpMethod::Post, "/api/v1/signup"), RouteTarget::Signup);
    assert_eq!(AppRouter::route(HttpMethod::Post, "/api/v1/"), RouteTarget::NotFound);
    assert_eq!(AppRouter::route(HttpMethod::Get, "/api/v1/signup"), RouteTarget::NotFound);
    assert_eq!(AppRouter::route(HttpMethod::Delete, "/api/v1/"), RouteTarget::NotFound);
    assert_eq!(AppRouter::route(HttpMethod::Get, "/api/v2/"), RouteTarget::NotFound);
}

#[test]
fn fallback_has_the_exact_404_body() {
    let (status, body) = AppRouter::handle_404();
    assert_eq!(status, 404);
    assert_eq!(
        body,
        "{\"errors\":{\"message\":[\"The requested resource does not exist on this server!\"]}}"
    );
}

#[test]
fn timeout_error_carries_the_configured_duration() {
    let config = RouterConfig::default();
    let (status, body) = AppRouter::handle_timeout_error(true, config.timeout_seconds, "");
    assert_eq!(status, 408);
    assert_eq!(
        body,
        "{\"error\":\"request took longer than the configured 30 second timeout\"}"
    );
}

#[test]
fn other_escaped_errors_become_500() {
    let (status, body) = AppRouter::handle_timeout_error(false, 30, "buffer worker gone");
    assert_eq!(status, 500);
    assert_eq!(body, "{\"error\":\"unhandled internal error: buffer worker gone\"}");
}

#[test]
fn middleware_limits_default_as_documented() {
    let config = RouterConfig::default();
    assert_eq!(config.timeout_seconds, 30);
    assert_eq!(config.buffer_depth, 1024);
    assert_eq!(config.rate_per_second, 5);
}

#[test]
fn app_config_defaults_as_documented() {
    let config = AppConfig::default();
    assert_eq!(config.cargo_env, CargoEnv::Development);
    assert_eq!(config.app_host, "127.0.0.1");
    assert_eq!(config.app_port, 5000);
    assert_eq!(config.mongo_uri, "mongodb://localhost:27017");
    assert_eq!(config.mongo_db, "");
}
