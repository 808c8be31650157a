use api_auth::errors::ErrorKind;
use api_auth::issuer::{IssuedSession, TokenIssuer, REFRESH_LIFETIME};
use api_auth::rotation::{
    check_access, login, login_at, logout, parse_refresh, peek_refresh, rotate, rotate_at,
    rotate_consumed, session_cookies,
};
use api_auth::store::TokenStore;

const SECRET: &str = "lifecycle-test-secret";
const NOW: i64 = 1_700_000_000;

fn refresh_header(session: &IssuedSession) -> String {
    format!("__Secure-refresh_token={}", session.refresh_token)
}

fn access_header(session: &IssuedSession) -> String {
    format!("__Secure-access_token={}", session.access_token)
}

#[test]
fn issued_access_credential_verifies_and_recovers_subject() {
    let issuer = TokenIssuer::new(SECRET.to_string());
    let session = issuer.issue_at("7", NOW, "jti-a").unwrap();
    let header = access_header(&session);
    let claims = check_access(Some(header.as_str()), SECRET, NOW + 10).unwrap();
    assert_eq!(claims.sub, "7");
    assert_eq!(claims.exp, NOW + 900);
}

#[test]
fn issued_refresh_credential_rotates_successfully() {
    let issuer = TokenIssuer::new(SECRET.to_string());
    let mut store = TokenStore::new();
    let session = login_at("7", &issuer, &mut store, NOW, "j1").unwrap();
    assert_eq!(session.jti, "j1");
    assert!(store.contains("j1"));
    let header = refresh_header(&session);
    let renewed = rotate_at(Some(header.as_str()), &issuer, &mut store, NOW + 60, "j2").unwrap();
    assert_eq!(renewed.jti, "j2");
    assert_eq!(renewed.issued_at, NOW + 60);
}

#[test]
fn rotation_end_to_end_consumes_then_replaces() {
    let issuer = TokenIssuer::new(SECRET.to_string());
    let mut store = TokenStore::new();
    let first = login_at("7", &issuer, &mut store, NOW, "j1").unwrap();
    let header_one = refresh_header(&first);

    let second = rotate_at(Some(header_one.as_str()), &issuer, &mut store, NOW + 60, "j2").unwrap();
    assert!(!store.contains("j1"));
    assert!(store.contains("j2"));
    let claims = check_access(
        Some(access_header(&second).as_str()),
        SECRET,
        NOW + 61,
    )
    .unwrap();
    assert_eq!(claims.sub, "7");

    let replay = rotate_at(Some(header_one.as_str()), &issuer, &mut store, NOW + 120, "j3");
    assert!(matches!(replay, Err(ErrorKind::ReplayedToken)));
    assert!(store.contains("j2"));
    assert!(!store.contains("j3"));
}

#[test]
fn expired_refresh_rejected_despite_live_record() {
    let issuer = TokenIssuer::new(SECRET.to_string());
    let mut store = TokenStore::new();
    let session = login_at("7", &issuer, &mut store, NOW, "j1").unwrap();
    let header = refresh_header(&session);
    let late = NOW + 604_800 + 1;
    let outcome = rotate_at(Some(header.as_str()), &issuer, &mut store, late, "j2");
    assert!(matches!(outcome, Err(ErrorKind::ExpiredToken)));
    assert!(store.contains("j1"));
}

#[test]
fn expiry_boundary_is_exclusive() {
    let issuer = TokenIssuer::new(SECRET.to_string());
    let mut store = TokenStore::new();
    let session = login_at("7", &issuer, &mut store, NOW, "j1").unwrap();
    let header = refresh_header(&session);
    let at_expiry = NOW + 604_800;
    let outcome = rotate_at(Some(header.as_str()), &issuer, &mut store, at_expiry, "j2");
    assert!(matches!(outcome, Err(ErrorKind::ExpiredToken)));
}

#[test]
fn missing_refresh_credential_rejected() {
    let issuer = TokenIssuer::new(SECRET.to_string());
    let mut store = TokenStore::new();
    let none = rotate_at(None, &issuer, &mut store, NOW, "j1");
    assert!(matches!(none, Err(ErrorKind::MissingCredential)));
    let other = rotate_at(Some("other=value"), &issuer, &mut store, NOW, "j1");
    assert!(matches!(other, Err(ErrorKind::MissingCredential)));
}

#[test]
fn malformed_refresh_credential_rejected() {
    let issuer = TokenIssuer::new(SECRET.to_string());
    let mut store = TokenStore::new();
    let garbage = rotate_at(
        Some("__Secure-refresh_token=not.a.token"),
        &issuer,
        &mut store,
        NOW,
        "j1",
    );
    assert!(matches!(garbage, Err(ErrorKind::MalformedToken)));

    let other_issuer = TokenIssuer::new("a-different-secret".to_string());
    let foreign = other_issuer.issue_at("7", NOW, "j1").unwrap();
    let header = refresh_header(&foreign);
    let outcome = rotate_at(Some(header.as_str()), &issuer, &mut store, NOW, "j2");
    assert!(matches!(outcome, Err(ErrorKind::MalformedToken)));
}

#[test]
fn never_issued_credential_rejected_as_replayed() {
    let issuer = TokenIssuer::new(SECRET.to_string());
    let mut store = TokenStore::new();
    let session = issuer.issue_at("7", NOW, "never-persisted").unwrap();
    let header = refresh_header(&session);
    let outcome = rotate_at(Some(header.as_str()), &issuer, &mut store, NOW + 1, "j2");
    assert!(matches!(outcome, Err(ErrorKind::ReplayedToken)));
}

#[test]
fn logout_consumes_record_and_blocks_later_rotation() {
    let issuer = TokenIssuer::new(SECRET.to_string());
    let mut store = TokenStore::new();
    let first = login_at("7", &issuer, &mut store, NOW, "j1").unwrap();
    let second = rotate_at(
        Some(refresh_header(&first).as_str()),
        &issuer,
        &mut store,
        NOW + 60,
        "j2",
    )
    .unwrap();

    let header_two = refresh_header(&second);
    let cleared = logout(Some(header_two.as_str()), SECRET, &mut store, &None);
    assert!(!store.contains("j2"));

    let outcome = rotate_at(Some(header_two.as_str()), &issuer, &mut store, NOW + 120, "j3");
    assert!(matches!(outcome, Err(ErrorKind::ReplayedToken)));

    assert_eq!(cleared.access.value, "");
    assert_eq!(cleared.refresh.value, "");
    assert_eq!(cleared.access.expires_at, Some(0));
    assert_eq!(cleared.refresh.expires_at, Some(0));
}

#[test]
fn logout_without_credential_still_clears() {
    let mut store = TokenStore::new();
    let cleared = logout(None, SECRET, &mut store, &None);
    assert_eq!(cleared.access.value, "");
    assert_eq!(cleared.refresh.expires_at, Some(0));
}

#[test]
fn logout_ignores_expired_signature_valid_credential() {
    let issuer = TokenIssuer::new(SECRET.to_string());
    let mut store = TokenStore::new();
    let session = login_at("7", &issuer, &mut store, NOW, "j1").unwrap();
    // Logout never examines expiry: a signature-valid credential always has
    // its record consumed.
    let header = refresh_header(&session);
    let _ = logout(Some(header.as_str()), SECRET, &mut store, &None);
    assert!(!store.contains("j1"));
}

#[test]
fn access_check_error_cases() {
    let issuer = TokenIssuer::new(SECRET.to_string());
    let session = issuer.issue_at("7", NOW, "j1").unwrap();
    let header = access_header(&session);

    let missing = check_access(None, SECRET, NOW);
    assert!(matches!(missing, Err(ErrorKind::MissingCredential)));
    let absent = check_access(Some("other=x"), SECRET, NOW);
    assert!(matches!(absent, Err(ErrorKind::MissingCredential)));
    let malformed = check_access(Some("__Secure-access_token=junk"), SECRET, NOW);
    assert!(matches!(malformed, Err(ErrorKind::MalformedToken)));
    let expired = check_access(Some(header.as_str()), SECRET, NOW + 900);
    assert!(matches!(expired, Err(ErrorKind::ExpiredToken)));
    let fresh = check_access(Some(header.as_str()), SECRET, NOW + 899);
    assert!(fresh.is_ok());
}

#[test]
fn drawn_clock_issue_and_rotate() {
    let issuer = TokenIssuer::new(SECRET.to_string());
    let mut store = TokenStore::new();
    let session = login("7", &issuer, &mut store).unwrap();
    assert_eq!(session.jti.len(), 36);
    assert!(store.contains(session.jti.as_str()));

    let header = refresh_header(&session);
    let renewed = match rotate(Some(header.as_str()), &issuer, &mut store) {
        Ok(s) => s,
        Err(_) => panic!("rotation of a fresh credential failed"),
    };
    assert!(!store.contains(session.jti.as_str()));
    assert!(store.contains(renewed.jti.as_str()));
}

#[test]
fn persist_is_idempotent_upsert() {
    let mut store = TokenStore::new();
    store.persist("j1", "7", NOW);
    store.persist("j1", "8", NOW + 5);
    assert!(store.contains("j1"));
    assert!(store.consume("j1"));
    assert!(!store.consume("j1"));
    assert!(!store.contains("j1"));
}

#[test]
fn parse_refresh_stages_match_rotation() {
    let issuer = TokenIssuer::new(SECRET.to_string());
    let session = issuer.issue_at("7", NOW, "j1").unwrap();
    let header = refresh_header(&session);

    let claims = parse_refresh(Some(header.as_str()), SECRET, NOW + 1).unwrap();
    assert_eq!(claims.sub, "7");
    assert_eq!(claims.jti, "j1");
    assert_eq!(claims.exp, NOW + REFRESH_LIFETIME);

    let missing = parse_refresh(None, SECRET, NOW);
    assert!(matches!(missing, Err(ErrorKind::MissingCredential)));
    let malformed = parse_refresh(Some("__Secure-refresh_token=junk"), SECRET, NOW);
    assert!(matches!(malformed, Err(ErrorKind::MalformedToken)));
    let expired = parse_refresh(Some(header.as_str()), SECRET, NOW + REFRESH_LIFETIME);
    assert!(matches!(expired, Err(ErrorKind::ExpiredToken)));
}

#[test]
fn rotate_consumed_replays_or_mints() {
    let issuer = TokenIssuer::new(SECRET.to_string());
    let session = issuer.issue_at("7", NOW, "j1").unwrap();
    let header = refresh_header(&session);
    let claims = parse_refresh(Some(header.as_str()), SECRET, NOW + 1).unwrap();

    let replayed = rotate_consumed(false, &claims, &issuer, NOW + 1, "j2");
    assert!(matches!(replayed, Err(ErrorKind::ReplayedToken)));

    let renewed = rotate_consumed(true, &claims, &issuer, NOW + 1, "j2").unwrap();
    assert_eq!(renewed.jti, "j2");
    assert_eq!(renewed.issued_at, NOW + 1);
    let access = format!("__Secure-access_token={}", renewed.access_token);
    let recovered = check_access(Some(access.as_str()), SECRET, NOW + 2).unwrap();
    assert_eq!(recovered.sub, "7");
}

#[test]
fn peek_refresh_ignores_expiry_but_not_signature() {
    let issuer = TokenIssuer::new(SECRET.to_string());
    let session = issuer.issue_at("7", NOW, "j1").unwrap();
    let header = refresh_header(&session);

    // Signature-valid claims are recovered however far past expiry.
    let claims = peek_refresh(Some(header.as_str()), SECRET).unwrap();
    assert_eq!(claims.jti, "j1");

    assert!(peek_refresh(None, SECRET).is_none());
    assert!(peek_refresh(Some("__Secure-refresh_token=junk"), SECRET).is_none());
    assert!(peek_refresh(Some(header.as_str()), "another-secret").is_none());
}

#[test]
fn session_cookies_pin_refresh_expiry_to_credential() {
    let issuer = TokenIssuer::new(SECRET.to_string());
    let session = issuer.issue_at("7", NOW, "j1").unwrap();
    let pair = session_cookies(&session, &None);
    assert_eq!(pair.refresh.value, session.refresh_token);
    assert_eq!(pair.refresh.expires_at, Some(NOW + REFRESH_LIFETIME));
    assert_eq!(pair.access.value, session.access_token);
    assert_eq!(pair.access.expires_at, None);
}

#[test]
fn validation_failures_classified() {
    assert!(ErrorKind::MissingCredential.is_validation_failure());
    assert!(ErrorKind::MalformedToken.is_validation_failure());
    assert!(ErrorKind::ExpiredToken.is_validation_failure());
    assert!(ErrorKind::ReplayedToken.is_validation_failure());
    assert!(!ErrorKind::StoreUnavailable.is_validation_failure());
    assert!(!ErrorKind::SigningFailure.is_validation_failure());
    assert!(!ErrorKind::UpstreamError.is_validation_failure());
}
