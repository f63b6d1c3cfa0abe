use torrentino_core::auth::{
    constant_time_eq, create_authenticator, ApiKeyAuthenticator, AuthError, AuthRequest, Identity,
    NoneAuthenticator,
};
use torrentino_core::config::{AuthConfig, AuthMethod};

fn make_request(headers: Vec<(&str, &str)>) -> AuthRequest {
    let mut request = AuthRequest::new("127.0.0.1".to_string());
    for (k, v) in headers {
        request.insert_header(k.to_lowercase(), v.to_string());
    }
    request
}

#[test]
fn test_method_name() {
    let auth = ApiKeyAuthenticator::new("test".to_string());
    assert_eq!(auth.method_name(), "api_key");
}

#[test]
fn test_constant_time_eq() {
    assert!(constant_time_eq(b"hello", b"hello"));
    assert!(!constant_time_eq(b"hello", b"world"));
    assert!(!constant_time_eq(b"hello", b"hell"));
    assert!(!constant_time_eq(b"", b"x"));
    assert!(constant_time_eq(b"", b""));
}

#[test]
fn test_none_authenticator_method_name() {
    let auth = NoneAuthenticator::new();
    assert_eq!(auth.method_name(), "none");
}

#[test]
fn test_none_authenticator_default() {
    let auth = NoneAuthenticator::default();
    assert_eq!(auth.method_name(), "none");
}

#[test]
fn test_none_authenticator_returns_anonymous() {
    let auth = NoneAuthenticator::new();
    let identity = auth.authenticate(&make_request(vec![])).unwrap();
    assert_eq!(identity.user_id, "anonymous");
    assert_eq!(identity.method, "none");
}

#[test]
fn test_bearer_token_valid() {
    let auth = ApiKeyAuthenticator::new("secret-key-123".to_string());
    let request = make_request(vec![("Authorization", "Bearer secret-key-123")]);
    let identity = auth.authenticate(&request).unwrap();
    assert_eq!(identity.user_id, "api_key_user");
    assert_eq!(identity.method, "api_key");
}

#[test]
fn test_x_api_key_header_valid() {
    let auth = ApiKeyAuthenticator::new("secret-key-123".to_string());
    let request = make_request(vec![("X-API-Key", "secret-key-123")]);
    let identity = auth.authenticate(&request).unwrap();
    assert_eq!(identity.user_id, "api_key_user");
    assert_eq!(identity.method, "api_key");
}

#[test]
fn test_invalid_key() {
    let auth = ApiKeyAuthenticator::new("secret-key-123".to_string());
    let request = make_request(vec![("Authorization", "Bearer wrong-key")]);
    let result = auth.authenticate(&request);
    assert!(matches!(result, Err(AuthError::InvalidCredentials(_))));
}

#[test]
fn test_missing_header() {
    let auth = ApiKeyAuthenticator::new("secret-key-123".to_string());
    let result = auth.authenticate(&make_request(vec![]));
    assert!(matches!(result, Err(AuthError::NotAuthenticated)));
}

#[test]
fn test_bearer_lowercase() {
    let auth = ApiKeyAuthenticator::new("secret-key-123".to_string());
    let request = make_request(vec![("Authorization", "bearer secret-key-123")]);
    let identity = auth.authenticate(&request).unwrap();
    assert_eq!(identity.user_id, "api_key_user");
}

#[test]
fn non_bearer_authorization_falls_back_to_x_api_key() {
    let auth = ApiKeyAuthenticator::new("k".to_string());
    let request = make_request(vec![("Authorization", "Basic abc"), ("X-API-Key", "k")]);
    assert!(auth.authenticate(&request).is_ok());
    let request = make_request(vec![("Authorization", "Basic abc")]);
    assert!(matches!(auth.authenticate(&request), Err(AuthError::NotAuthenticated)));
}

#[test]
fn test_create_authenticator_none() {
    let config = AuthConfig { method: AuthMethod::NoAuth, api_key: None };
    let auth = create_authenticator(&config).unwrap();
    assert_eq!(auth.method_name(), "none");
}

#[test]
fn test_create_authenticator_api_key() {
    let config = AuthConfig { method: AuthMethod::ApiKey, api_key: Some("secret-key".to_string()) };
    let auth = create_authenticator(&config).unwrap();
    assert_eq!(auth.method_name(), "api_key");
    let ok = make_request(vec![("X-API-Key", "secret-key")]);
    assert!(auth.authenticate(&ok).is_ok());
}

#[test]
fn test_create_authenticator_api_key_missing_key() {
    let config = AuthConfig { method: AuthMethod::ApiKey, api_key: None };
    let result = create_authenticator(&config);
    assert!(matches!(result, Err(AuthError::ConfigurationError(_))));
}

#[test]
fn test_anonymous_identity() {
    let identity = Identity::anonymous();
    assert_eq!(identity.user_id, "anonymous");
    assert_eq!(identity.method, "none");
    assert!(identity.claims.is_empty());
}

#[test]
fn auth_error_messages() {
    assert_eq!(AuthError::NotAuthenticated.message(), "Authentication required");
    assert_eq!(
        AuthError::InvalidCredentials("Invalid API key".to_string()).message(),
        "Invalid credentials: Invalid API key"
    );
    assert_eq!(
        AuthError::ConfigurationError("x".to_string()).message(),
        "Configuration error: x"
    );
}

#[test]
fn request_header_lookup() {
    let request = make_request(vec![("A", "1"), ("b", "2")]);
    assert_eq!(request.header("a"), Some("1".to_string()));
    assert_eq!(request.header("b"), Some("2".to_string()));
    assert_eq!(request.header("c"), None);
}

#[test]
fn inserted_headers_read_back_and_replace() {
    let mut request = AuthRequest::new("10.0.0.1".to_string());
    request.insert_header("x-api-key".to_string(), "one".to_string());
    request.insert_header("authorization".to_string(), "Bearer t".to_string());
    request.insert_header("x-api-key".to_string(), "two".to_string());
    assert_eq!(request.header("x-api-key"), Some("two".to_string()));
    assert_eq!(request.header("authorization"), Some("Bearer t".to_string()));
    assert_eq!(request.header("cookie"), None);
    assert_eq!(request.headers.len(), 2);
    assert_eq!(request.source_ip, "10.0.0.1");
}
