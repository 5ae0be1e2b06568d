//! Builder, configuration and error-message tests.

use huawei_obs_client::{ObsClient, ObsError};

#[test]
fn test_builder_missing_access_key() {
    let result = ObsClient::builder()
        .secret_key("sk")
        .endpoint("https://example.com")
        .build();
    assert!(result.is_err());
    match result {
        Err(ObsError::InvalidConfig(msg)) => assert!(msg.contains("access_key")),
        other => panic!("Expected InvalidConfig, got {:?}", other.err()),
    }
}

#[test]
fn test_builder_missing_secret_key() {
    let result = ObsClient::builder()
        .access_key("ak")
        .endpoint("https://example.com")
        .build();
    match result {
        Err(ObsError::InvalidConfig(msg)) => assert!(msg.contains("secret_key")),
        other => panic!("Expected InvalidConfig, got {:?}", other.err()),
    }
}

#[test]
fn test_builder_missing_endpoint() {
    let result = ObsClient::builder()
        .access_key("ak")
        .secret_key("sk")
        .build();
    match result {
        Err(ObsError::InvalidConfig(msg)) => assert!(msg.contains("endpoint")),
        other => panic!("Expected InvalidConfig, got {:?}", other.err()),
    }
}

#[test]
fn test_builder_valid() {
    let result = ObsClient::builder()
        .access_key("ak")
        .secret_key("sk")
        .endpoint("https://example.com")
        .region("us-east-1")
        .build();
    assert!(result.is_ok());
}

#[test]
fn test_new_direct() {
    let result = ObsClient::new(
        "ak".into(),
        "sk".into(),
        "https://example.com".into(),
        "us-east-1".into(),
    );
    assert!(result.is_ok());
}

#[test]
fn test_error_user_message_not_found() {
    let err = ObsError::NotFound("file.txt".into());
    assert!(err.user_message().contains("file.txt"));
}

#[test]
fn test_error_user_message_empty_not_found() {
    let err = ObsError::NotFound(String::new());
    assert!(err.user_message().contains("does not exist"));
}

#[test]
fn test_error_user_message_bucket_not_found() {
    let err = ObsError::BucketNotFound("my-bucket".into());
    assert!(err.user_message().contains("my-bucket"));
}

#[test]
fn test_error_user_message_bucket_not_empty() {
    let err = ObsError::BucketNotEmpty("my-bucket".into());
    assert!(err.user_message().contains("not empty"));
}

#[test]
fn test_error_user_message_permission_denied() {
    let err = ObsError::PermissionDenied(String::new());
    assert!(err.user_message().contains("Access denied"));
}

#[test]
fn test_error_user_message_invalid_credentials() {
    let err = ObsError::InvalidCredentials;
    assert!(err.user_message().contains("credentials"));
}

#[test]
fn test_error_user_message_timeout() {
    let err = ObsError::Timeout(String::new());
    assert!(err.user_message().contains("timed out"));
}

#[test]
fn test_error_user_message_connection_failed() {
    let err = ObsError::ConnectionFailed(String::new());
    assert!(err.user_message().contains("connect"));
}

#[test]
fn test_error_user_message_network_timeout() {
    let err = ObsError::Network("connection timed out".into());
    assert!(err.user_message().contains("timed out"));
}

#[test]
fn test_error_user_message_network_refused() {
    let err = ObsError::Network("connection refused".into());
    assert!(err.user_message().contains("refused"));
}

#[test]
fn test_error_user_message_network_dns() {
    let err = ObsError::Network("DNS resolution failed".into());
    assert!(err.user_message().contains("endpoint"));
}

#[test]
fn test_error_display() {
    let err = ObsError::NotFound("key.txt".into());
    let display = err.display_message();
    assert!(display.contains("key.txt"));
}
