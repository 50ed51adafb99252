use assistant_shim::api::bearer_header;
use assistant_shim::api::is_success_status;
use assistant_shim::api::login_outcome;
use assistant_shim::api::login_request_body;
use assistant_shim::api::login_url;
use assistant_shim::api::require_token;
use assistant_shim::api::verify_outcome;
use assistant_shim::api::verify_url;
use assistant_shim::api::watchers_outcome;
use assistant_shim::api::watchers_url;
use assistant_shim::errors::ApiError;

const LOGIN_BODY: &str = "{\"accessToken\":\"tok-abc\",\"refreshToken\":\"ref-def\",\"expiresIn\":3600,\"user\":{\"id\":\"u1\",\"email\":\"user@example.com\",\"name\":\"Sam\",\"role\":\"member\",\"plan\":\"pro\"}}";

#[test]
fn success_statuses_are_the_2xx_range() {
    assert!(is_success_status(200));
    assert!(is_success_status(204));
    assert!(is_success_status(299));
    assert!(!is_success_status(199));
    assert!(!is_success_status(300));
    assert!(!is_success_status(401));
    assert!(!is_success_status(500));
}

#[test]
fn login_success_returns_the_logged_in_user() {
    let response = login_outcome(200, LOGIN_BODY).expect("well-formed 200 body must succeed");
    assert_eq!(response.user.email, "user@example.com");
    assert_eq!(response.access_token, "tok-abc");
    assert_eq!(response.expires_in, 3600);
}

#[test]
fn login_failure_surfaces_the_response_body() {
    let err = login_outcome(401, "invalid credentials").expect_err("401 must fail");
    let text = err.message();
    assert!(text.contains("invalid credentials"));
    assert_eq!(text, "Login failed: invalid credentials");
}

#[test]
fn login_undecodable_success_body_is_a_decode_error() {
    let err = login_outcome(200, "not json at all").expect_err("shape mismatch must fail");
    assert!(matches!(err, ApiError::Decode(_)));
}

#[test]
fn verify_failure_is_generic_and_never_leaks_the_body() {
    let err = verify_outcome(403, "secret diagnostic payload").expect_err("403 must fail");
    let text = err.message();
    assert_eq!(text, "Token verification failed");
    assert!(!text.contains("secret"));
}

#[test]
fn verify_success_decodes_the_server_verdict() {
    let body = "{\"valid\":true,\"user\":{\"id\":\"u1\",\"email\":\"user@example.com\",\"name\":null,\"role\":\"member\",\"plan\":\"pro\"},\"subscription\":{\"plan\":\"pro\",\"status\":\"active\",\"expiresAt\":null}}";
    let response = verify_outcome(200, body).expect("well-formed 200 body must succeed");
    assert!(response.valid);
    assert_eq!(response.subscription.plan, "pro");
    assert_eq!(response.user.name, None);
}

#[test]
fn missing_token_fails_as_not_authenticated() {
    let err = require_token(None).expect_err("no token must fail");
    assert!(matches!(err, ApiError::NotAuthenticated));
    assert_eq!(err.message(), "No token found");
}

#[test]
fn present_token_passes_through() {
    let token = require_token(Some("tok-xyz".to_string())).expect("stored token must pass");
    assert_eq!(token, "tok-xyz");
}

#[test]
fn watchers_failure_has_the_fixed_fetch_message() {
    let err = watchers_outcome(500, "backend exploded").expect_err("500 must fail");
    assert!(matches!(err, ApiError::Fetch(_)));
    assert_eq!(err.message(), "Failed to fetch watchers");
}

#[test]
fn watchers_success_returns_the_inner_list() {
    let body = "{\"items\":[{\"id\":\"w1\",\"name\":\"first\",\"url\":\"https://example.com/1\",\"status\":\"active\",\"lastCheckAt\":\"2024-05-01T10:00:00Z\"},{\"id\":\"w2\",\"name\":\"second\",\"url\":\"https://example.com/2\",\"status\":\"paused\",\"lastCheckAt\":null}]}";
    let items = watchers_outcome(200, body).expect("well-formed 200 body must succeed");
    assert_eq!(items.len(), 2);
    assert_eq!(items[0].id, "w1");
    assert_eq!(items[1].status, "paused");
    assert_eq!(items[1].last_check_at, None);
}

#[test]
fn watchers_undecodable_success_body_is_a_decode_error() {
    let err = watchers_outcome(200, "[]").expect_err("wrapper object is required");
    assert!(matches!(err, ApiError::Decode(_)));
}

#[test]
fn fixed_urls_and_headers_are_exact() {
    assert_eq!(login_url(), "http://localhost:3001/api/auth/login");
    assert_eq!(verify_url(), "http://localhost:3001/api/auth/verify");
    assert_eq!(watchers_url(), "http://localhost:3001/api/watchers");
    assert_eq!(bearer_header("tok-abc"), "Bearer tok-abc");
    assert_eq!(
        login_request_body("user@example.com", "goodpass"),
        "{\"email\":\"user@example.com\",\"password\":\"goodpass\"}"
    );
}
