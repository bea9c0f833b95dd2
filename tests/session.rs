use student_portal::config::{Config, PostMarkConfig};
use student_portal::errors::ErrorMessage;
use student_portal::session::{authorize_request, extract_token, renewal_token, session_cookie, should_renew};
use student_portal::store::AuthRepo;
use student_portal::token::{create_token_at, verify_token_at};

const SECRET: &[u8] = b"session-secret";
const NOW: i64 = 1_700_000_000;

fn verified_store(id: &str) -> AuthRepo {
    let mut store = AuthRepo::new();
    store.create_user(id, "hash").unwrap();
    let v = store.create_user_verification(id, 1, NOW).unwrap();
    store.validate_user(v, NOW).unwrap();
    store
}

#[test]
fn cookie_wins_over_header() {
    assert_eq!(extract_token(Some("c"), Some("Bearer h")), Some("c".to_string()));
    assert_eq!(extract_token(None, Some("Bearer h")), Some("h".to_string()));
    assert_eq!(extract_token(None, Some("Basic h")), None);
    assert_eq!(extract_token(None, None), None);
}

#[test]
fn missing_token_is_token_not_provided() {
    let store = AuthRepo::new();
    let r = authorize_request(&store, None, None, SECRET, NOW);
    assert_eq!(r.err(), Some(ErrorMessage::TokenNotProvided));
}

#[test]
fn bad_token_is_invalid_token() {
    let store = verified_store("1234567");
    let r = authorize_request(&store, Some("garbage"), None, SECRET, NOW);
    assert_eq!(r.err(), Some(ErrorMessage::InvalidToken));
}

#[test]
fn unverified_or_missing_account_is_permission_denied() {
    let mut store = AuthRepo::new();
    store.create_user("1234567", "hash").unwrap();
    let token = create_token_at("1234567", SECRET, 60, NOW).unwrap();
    let r = authorize_request(&store, None, Some(&format!("Bearer {}", token)), SECRET, NOW);
    assert_eq!(r.err(), Some(ErrorMessage::PermissionDenied));
    let other = create_token_at("7654321", SECRET, 60, NOW).unwrap();
    let r = authorize_request(&store, Some(&other), None, SECRET, NOW);
    assert_eq!(r.err(), Some(ErrorMessage::PermissionDenied));
}

#[test]
fn verified_account_proceeds() {
    let store = verified_store("1234567");
    let token = create_token_at("1234567", SECRET, 60, NOW).unwrap();
    let (id, claims) = authorize_request(&store, Some(&token), None, SECRET, NOW + 5).unwrap();
    assert_eq!(id.0, "1234567");
    assert_eq!(claims.iat, NOW);
}

#[test]
fn renewal_after_sixty_seconds_only() {
    assert!(!should_renew(false, NOW, NOW + 60));
    assert!(should_renew(false, NOW, NOW + 61));
    assert!(!should_renew(true, NOW, NOW + 61));
}

#[test]
fn renewal_issues_a_fresh_token_for_the_subject() {
    let token = create_token_at("1234567", SECRET, 60, NOW).unwrap();
    let claims = verify_token_at(&token, SECRET, NOW + 120).unwrap();
    assert_eq!(renewal_token(&claims, false, SECRET, 60, NOW + 30), Ok(None));
    let renewed = renewal_token(&claims, false, SECRET, 60, NOW + 120).unwrap().unwrap();
    let fresh = verify_token_at(&renewed, SECRET, NOW + 120).unwrap();
    assert_eq!(fresh.sub, "1234567");
    assert_eq!(fresh.iat, NOW + 120);
}

#[test]
fn session_cookie_attributes() {
    let config = Config {
        database_url: String::new(),
        jwt_secret: "s".to_string(),
        jwt_max_age_mins: 30,
        port: 8080,
        post_mark_config: PostMarkConfig { mail_from_email: String::new(), server_token: String::new() },
        auth_cookie_name: "auth".to_string(),
        base_url: String::new(),
        is_prod: true,
    };
    let c = session_cookie(&config, "tok".to_string());
    assert_eq!(c.name, "auth");
    assert_eq!(c.value, "tok");
    assert_eq!(c.path, "/");
    assert!(c.http_only && c.secure && c.same_site_lax);
    assert_eq!(c.max_age_minutes, 30);
}
