use shopsavvy_sdk::{Client, ClientError, Config};
use std::time::Duration;

fn header<'a>(client: &'a Client, name: &str) -> Option<&'a str> {
    client
        .headers()
        .iter()
        .find(|(n, _)| n == name)
        .map(|(_, v)| v.as_str())
}

#[test]
fn live_key_is_accepted_with_bearer_header() {
    let client = Client::new("ss_live_abc123").expect("valid key");
    assert_eq!(header(&client, "Authorization"), Some("Bearer ss_live_abc123"));
    assert_eq!(header(&client, "Content-Type"), Some("application/json"));
    assert_eq!(header(&client, "User-Agent"), Some("ShopSavvy-Rust-SDK/1.0.1"));
    assert_eq!(client.headers().len(), 3);
}

#[test]
fn malformed_key_is_invalid() {
    let err = Client::new("invalid_key").unwrap_err();
    assert!(matches!(err, ClientError::InvalidApiKey));
}

#[test]
fn empty_key_is_missing() {
    let err = Client::new("").unwrap_err();
    assert!(matches!(err, ClientError::MissingApiKey));
}

#[test]
fn test_key_is_accepted() {
    let client = Client::new("ss_test_XYZ09az").expect("valid key");
    assert_eq!(client.config().api_key, "ss_test_XYZ09az");
    assert_eq!(client.config().base_url, "https://api.shopsavvy.com/v1");
}

#[test]
fn keys_of_the_wrong_shape_are_invalid() {
    for key in [
        "ss_prod_abc123",
        "ss_live_",
        "ss_live_ab-c",
        "ss_live_abc 123",
        "ss_live_abc\n",
        " ss_live_abc",
        "SS_LIVE_abc",
        "ss_live_ab\u{e9}",
        "xss_live_abc",
    ] {
        let err = Client::new(key).unwrap_err();
        assert!(matches!(err, ClientError::InvalidApiKey), "key {:?}", key);
    }
}

#[test]
fn config_defaults_and_builders() {
    let config = Config::new("ss_live_k1");
    assert_eq!(config.api_key, "ss_live_k1");
    assert_eq!(config.base_url, "https://api.shopsavvy.com/v1");
    assert_eq!(config.timeout, Duration::from_secs(30));
    let config = config
        .with_base_url("http://localhost:8080")
        .with_timeout(Duration::from_millis(1500));
    assert_eq!(config.api_key, "ss_live_k1");
    assert_eq!(config.base_url, "http://localhost:8080");
    assert_eq!(config.timeout, Duration::from_millis(1500));
}

#[test]
fn with_config_keeps_the_configuration() {
    let config = Config::new("ss_live_k1")
        .with_base_url("http://localhost:8080")
        .with_timeout(Duration::from_secs(5));
    let client = Client::with_config(config).expect("valid key");
    assert_eq!(client.config().base_url, "http://localhost:8080");
    assert_eq!(client.config().timeout, Duration::from_secs(5));
    let req = client.get_usage();
    assert_eq!(req.url, "http://localhost:8080/usage");
}

#[test]
fn with_config_rejects_bad_keys() {
    assert!(matches!(
        Client::with_config(Config::new("")).unwrap_err(),
        ClientError::MissingApiKey
    ));
    assert!(matches!(
        Client::with_config(Config::new("ss_live_a_b")).unwrap_err(),
        ClientError::InvalidApiKey
    ));
}
