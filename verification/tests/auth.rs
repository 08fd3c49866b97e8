use session_gateway::common::ServerSession;
use session_gateway::routes::unauthorized_response;
use session_gateway::services::{default_no_token_routes, Auth, AuthRequest};

fn test_auth() -> Auth {
    Auth::new("s3cret".to_string(), default_no_token_routes())
}

fn request(
    path: &str,
    authorization: Option<&str>,
    server: Option<&str>,
    token: Option<&str>,
) -> AuthRequest {
    AuthRequest {
        path: path.to_string(),
        authorization: authorization.map(|s| s.to_string()),
        server: server.map(|s| s.to_string()),
        token: token.map(|s| s.to_string()),
    }
}

#[test]
fn exempt_route_needs_no_token() {
    let auth = test_auth();
    let session = ServerSession::new();

    let req = request("/register", Some("Bearer s3cret"), Some("srv2"), None);
    assert!(auth.authorize(&req, &session));

    let guarded = request("/heartbeat", Some("Bearer s3cret"), Some("srv2"), None);
    assert!(!auth.authorize(&guarded, &session));
}

#[test]
fn missing_secret_is_rejected_regardless_of_token() {
    let auth = test_auth();
    let mut session = ServerSession::new();
    let token = session.register_server("srv1".to_string(), 100);

    let req = request("/heartbeat", None, Some("srv1"), Some(&token));
    assert!(!auth.authorize(&req, &session));

    let exempt = request("/register", None, Some("srv1"), Some(&token));
    assert!(!auth.authorize(&exempt, &session));
}

#[test]
fn wrong_or_unprefixed_secret_is_rejected() {
    let auth = test_auth();
    let session = ServerSession::new();

    let wrong = request("/register", Some("Bearer wrong"), Some("srv1"), None);
    assert!(!auth.authorize(&wrong, &session));

    let unprefixed = request("/register", Some("s3cret"), Some("srv1"), None);
    assert!(!auth.authorize(&unprefixed, &session));
}

#[test]
fn missing_server_header_is_rejected_even_on_exempt_route() {
    let auth = test_auth();
    let session = ServerSession::new();

    let req = request("/register", Some("Bearer s3cret"), None, None);
    assert!(!auth.authorize(&req, &session));
}

#[test]
fn exempt_route_ignores_a_token_header() {
    let auth = test_auth();
    let session = ServerSession::new();

    let req = request(
        "/register",
        Some("Bearer s3cret"),
        Some("srv1"),
        Some("not-a-live-token"),
    );
    assert!(auth.authorize(&req, &session));
}

#[test]
fn guarded_route_accepts_a_live_token() {
    let auth = test_auth();
    let mut session = ServerSession::new();
    let token = session.register_server("srv1".to_string(), 100);

    let req = request("/heartbeat", Some("Bearer s3cret"), Some("srv1"), Some(&token));
    assert!(auth.authorize(&req, &session));
}

#[test]
fn guarded_route_rejects_missing_or_dead_token() {
    let auth = test_auth();
    let mut session = ServerSession::new();
    let token = session.register_server("srv1".to_string(), 100);

    let missing = request("/heartbeat", Some("Bearer s3cret"), Some("srv1"), None);
    assert!(!auth.authorize(&missing, &session));

    let stale = request("/heartbeat", Some("Bearer s3cret"), Some("srv1"), Some("bogus"));
    assert!(!auth.authorize(&stale, &session));

    session.logout_server("srv1");
    let dead = request("/heartbeat", Some("Bearer s3cret"), Some("srv1"), Some(&token));
    assert!(!auth.authorize(&dead, &session));
}

#[test]
fn token_is_not_bound_to_the_declared_server() {
    // The token check asks only whether some live record holds the exact
    // token; the `server` header is not cross-checked against it.
    let auth = test_auth();
    let mut session = ServerSession::new();
    let token = session.register_server("srv1".to_string(), 100);

    let req = request("/heartbeat", Some("Bearer s3cret"), Some("srv2"), Some(&token));
    assert!(auth.authorize(&req, &session));
}

#[test]
fn middleware_decides_as_the_configuration_does() {
    let auth = test_auth();
    let middleware = test_auth().new_transform("wrapped service");
    let mut session = ServerSession::new();
    let token = session.register_server("srv1".to_string(), 100);

    let allowed = request("/heartbeat", Some("Bearer s3cret"), Some("srv1"), Some(&token));
    let refused = request("/heartbeat", Some("Bearer s3cret"), Some("srv1"), None);

    assert_eq!(middleware.check_request(&allowed, &session), auth.authorize(&allowed, &session));
    assert!(middleware.check_request(&allowed, &session));
    assert!(!middleware.check_request(&refused, &session));
    assert_eq!(middleware.service, "wrapped service");
}

#[test]
fn default_no_token_routes_holds_registration_only() {
    let routes = default_no_token_routes();
    assert_eq!(routes, vec!["/register".to_string()]);
}

#[test]
fn unauthorized_response_shape() {
    let resp = unauthorized_response();
    assert!(!resp.success);
    assert_eq!(resp.message, "Unauthorized.");
    assert!(resp.token.is_none());
}
