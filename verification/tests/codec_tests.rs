use assistant_shim::codec::decode_login_response;
use assistant_shim::codec::decode_verify_response;
use assistant_shim::codec::decode_watchers_response;
use assistant_shim::codec::render_login_request;
use assistant_shim::codec::render_login_response;
use assistant_shim::codec::render_verify_response;
use assistant_shim::codec::render_watcher;
use assistant_shim::codec::render_watchers_response;
use assistant_shim::dto::LoginResponse;
use assistant_shim::dto::Subscription;
use assistant_shim::dto::User;
use assistant_shim::dto::VerifyResponse;
use assistant_shim::dto::Watcher;
use assistant_shim::dto::WatchersResponse;

fn watcher(id: &str, name: &str, url: &str, status: &str, last: Option<&str>) -> Watcher {
    Watcher {
        id: id.to_string(),
        name: name.to_string(),
        url: url.to_string(),
        status: status.to_string(),
        last_check_at: last.map(|s| s.to_string()),
    }
}

fn assert_watcher_eq(a: &Watcher, b: &Watcher) {
    assert_eq!(a.id, b.id);
    assert_eq!(a.name, b.name);
    assert_eq!(a.url, b.url);
    assert_eq!(a.status, b.status);
    assert_eq!(a.last_check_at, b.last_check_at);
}

fn assert_round_trip(items: Vec<Watcher>) {
    let original = WatchersResponse { items };
    let encoded = render_watchers_response(&original);
    let decoded = decode_watchers_response(&encoded).expect("rendered payload must decode");
    assert_eq!(decoded.items.len(), original.items.len());
    for (a, b) in decoded.items.iter().zip(original.items.iter()) {
        assert_watcher_eq(a, b);
    }
}

#[test]
fn watchers_round_trip_empty() {
    assert_round_trip(vec![]);
}

#[test]
fn watchers_round_trip_single_absent_timestamp() {
    assert_round_trip(vec![watcher("w1", "gpu tracker", "https://example.com/gpu", "active", None)]);
}

#[test]
fn watchers_round_trip_many_preserves_order_and_fields() {
    assert_round_trip(vec![
        watcher("w1", "first", "https://example.com/1", "active", Some("2024-05-01T10:00:00Z")),
        watcher("w2", "second", "https://example.com/2", "paused", None),
        watcher("w3", "third", "https://example.com/3", "error", Some("2024-05-02T11:30:00Z")),
        watcher("w4", "fourth", "https://example.com/4", "active", None),
    ]);
}

#[test]
fn watchers_round_trip_escaped_characters() {
    assert_round_trip(vec![watcher(
        "w\"quote\"",
        "tab\there\nand\\slash",
        "https://example.com/?q=\"x\"",
        "odd\rstatus",
        Some("with \"quotes\""),
    )]);
}

#[test]
fn rendered_watcher_is_canonical_json_text() {
    let w = watcher("a", "b", "c", "d", None);
    assert_eq!(render_watcher(&w), "{\"id\":\"a\",\"name\":\"b\",\"url\":\"c\",\"status\":\"d\",\"lastCheckAt\":null}");
}

#[test]
fn rendered_watchers_agree_with_reference_json_parser() {
    let original = WatchersResponse {
        items: vec![
            watcher("w1", "na\"me", "https://example.com", "active", Some("2024-05-01T10:00:00Z")),
            watcher("w2", "other", "https://example.org", "paused", None),
        ],
    };
    let encoded = render_watchers_response(&original);
    let parsed: serde_json::Value = serde_json::from_str(&encoded).expect("valid JSON");
    let items = parsed["items"].as_array().expect("items is a list");
    assert_eq!(items.len(), 2);
    assert_eq!(items[0]["id"].as_str(), Some("w1"));
    assert_eq!(items[0]["name"].as_str(), Some("na\"me"));
    assert_eq!(items[0]["lastCheckAt"].as_str(), Some("2024-05-01T10:00:00Z"));
    assert_eq!(items[1]["status"].as_str(), Some("paused"));
    assert!(items[1]["lastCheckAt"].is_null());
}

#[test]
fn login_request_body_is_exact() {
    assert_eq!(
        render_login_request("user@example.com", "goodpass"),
        "{\"email\":\"user@example.com\",\"password\":\"goodpass\"}"
    );
}

#[test]
fn login_request_body_escapes_credentials() {
    assert_eq!(
        render_login_request("a\"b@example.com", "p\\w\nx"),
        "{\"email\":\"a\\\"b@example.com\",\"password\":\"p\\\\w\\nx\"}"
    );
}

#[test]
fn login_response_round_trip() {
    let original = LoginResponse {
        access_token: "tok-123".to_string(),
        refresh_token: "ref-456".to_string(),
        expires_in: 3600,
        user: User {
            id: "u1".to_string(),
            email: "user@example.com".to_string(),
            name: Some("Sam".to_string()),
            role: "member".to_string(),
            plan: "pro".to_string(),
        },
    };
    let encoded = render_login_response(&original);
    let decoded = decode_login_response(&encoded).expect("rendered payload must decode");
    assert_eq!(decoded.access_token, original.access_token);
    assert_eq!(decoded.refresh_token, original.refresh_token);
    assert_eq!(decoded.expires_in, original.expires_in);
    assert_eq!(decoded.user.email, original.user.email);
    assert_eq!(decoded.user.name, original.user.name);
}

#[test]
fn login_response_negative_expiry_round_trip() {
    let original = LoginResponse {
        access_token: "t".to_string(),
        refresh_token: "r".to_string(),
        expires_in: -45,
        user: User {
            id: "u".to_string(),
            email: "e@example.com".to_string(),
            name: None,
            role: "member".to_string(),
            plan: "free".to_string(),
        },
    };
    let encoded = render_login_response(&original);
    let decoded = decode_login_response(&encoded).expect("rendered payload must decode");
    assert_eq!(decoded.expires_in, -45);
    assert_eq!(decoded.user.name, None);
}

#[test]
fn login_response_extreme_expiry_round_trip() {
    for expires_in in [i64::MIN, i64::MAX, 0] {
        let original = LoginResponse {
            access_token: "t".to_string(),
            refresh_token: "r".to_string(),
            expires_in,
            user: User {
                id: "u".to_string(),
                email: "e@example.com".to_string(),
                name: None,
                role: "member".to_string(),
                plan: "free".to_string(),
            },
        };
        let encoded = render_login_response(&original);
        let decoded = decode_login_response(&encoded).expect("rendered payload must decode");
        assert_eq!(decoded.expires_in, expires_in);
    }
}

#[test]
fn verify_response_round_trip() {
    let original = VerifyResponse {
        valid: true,
        user: User {
            id: "u1".to_string(),
            email: "user@example.com".to_string(),
            name: None,
            role: "admin".to_string(),
            plan: "pro".to_string(),
        },
        subscription: Subscription {
            plan: "pro".to_string(),
            status: "active".to_string(),
            expires_at: Some("2025-01-01T00:00:00Z".to_string()),
        },
    };
    let encoded = render_verify_response(&original);
    let decoded = decode_verify_response(&encoded).expect("rendered payload must decode");
    assert!(decoded.valid);
    assert_eq!(decoded.user.role, "admin");
    assert_eq!(decoded.subscription.status, "active");
    assert_eq!(decoded.subscription.expires_at, original.subscription.expires_at);
}

#[test]
fn decode_rejects_malformed_bodies() {
    assert!(decode_watchers_response("").is_none());
    assert!(decode_watchers_response("{\"items\":[}").is_none());
    assert!(decode_watchers_response("{\"items\":[]} trailing").is_none());
    assert!(decode_login_response("{\"accessToken\":42}").is_none());
    assert!(decode_verify_response("{\"valid\":maybe}").is_none());
}

#[test]
fn decode_rejects_unterminated_string() {
    assert!(decode_watchers_response("{\"items\":[{\"id\":\"abc").is_none());
}
