use appsync_messenger::authenticator::appsync_api_authenticator::AppSyncAPIAuthenticator;
use appsync_messenger::authenticator::Authenticator;

#[test]
fn api_key_is_always_accepted() {
    let authenticator = AppSyncAPIAuthenticator::new("example.com", "secret");
    assert!(authenticator.authenticate());
}

#[test]
fn publish_headers_carry_the_api_key() {
    let authenticator = AppSyncAPIAuthenticator::new("example.com", "secret");
    let headers = authenticator.publish_auth_headers();
    assert_eq!(headers.len(), 1);
    assert_eq!(headers.get("x-api-key"), Some("secret".to_string()));
    assert_eq!(headers.get("host"), None);
}

#[test]
fn subscribe_headers_carry_the_api_key_and_the_host() {
    let authenticator = AppSyncAPIAuthenticator::new("example.com", "secret");
    let headers = authenticator.subscribe_auth_headers();
    assert_eq!(headers.len(), 2);
    assert_eq!(headers.entry(0), ("x-api-key".to_string(), "secret".to_string()));
    assert_eq!(headers.entry(1), ("host".to_string(), "example.com".to_string()));
}
