use bent::auth::{role_claims_from_payload, JwtService, MAX_TTL_HOURS};
use bent::error::AppError;
use bent::jwt_codec::{ClaimList, ClaimValue};
use bent::models::Role;

fn service() -> JwtService {
    JwtService::new(b"role-secret")
}

#[test]
fn inspector_token_reads_back_its_claims() {
    let now: i64 = 1_700_000_000;
    let token = service().issue_at("00042", Role::Inspector, 12, now).unwrap();
    let claims = service().verify_at(&token, now as u64).unwrap();
    assert_eq!(claims.sub, "00042");
    assert_eq!(claims.role, Role::Inspector);
    assert_eq!(claims.exp, now + 12 * 3600);
    assert_eq!(claims.iat, now);
}

#[test]
fn admin_token_reads_back_its_claims() {
    let now: i64 = 1_700_000_000;
    let token = service().issue_at("admin@example.com", Role::Admin, 24, now).unwrap();
    let claims = service().verify_at(&token, now as u64 + 100).unwrap();
    assert_eq!(claims.sub, "admin@example.com");
    assert_eq!(claims.role, Role::Admin);
    assert_eq!(claims.exp, now + 24 * 3600);
}

#[test]
fn role_is_written_in_lowercase() {
    let token = service().issue_at("x", Role::Inspector, 1, 1_700_000_000).unwrap();
    let mut validation = jsonwebtoken::Validation::default();
    validation.validate_exp = false;
    let data = jsonwebtoken::decode::<serde_json::Value>(
        &token,
        &jsonwebtoken::DecodingKey::from_secret(b"role-secret"),
        &validation,
    )
    .unwrap();
    assert_eq!(data.claims["role"], serde_json::Value::from("inspector"));
    assert_eq!(data.claims["iat"], serde_json::Value::from(1_700_000_000i64));
}

#[test]
fn role_token_expires_after_the_leeway() {
    let now: i64 = 1_700_000_000;
    let token = service().issue_at("00042", Role::Inspector, 1, now).unwrap();
    let exp = (now + 3600) as u64;
    assert!(service().verify_at(&token, exp + 60).is_ok());
    assert_eq!(service().verify_at(&token, exp + 61).unwrap_err(), AppError::Jwt);
}

#[test]
fn role_token_under_another_secret_is_refused() {
    let token = service().issue_at("00042", Role::Inspector, 1, 1_700_000_000).unwrap();
    let other = JwtService::new(b"another-secret");
    assert_eq!(other.verify_at(&token, 1_700_000_000).unwrap_err(), AppError::Jwt);
}

#[test]
fn role_token_issued_now_verifies_now() {
    let token = service().issue("00042", Role::Admin, 2).unwrap();
    let claims = service().verify(&token).unwrap();
    assert_eq!(claims.sub, "00042");
    assert_eq!(claims.role, Role::Admin);
    assert_eq!(claims.exp - claims.iat, 7200);
}

#[test]
fn token_that_expired_at_issue_is_refused_now() {
    let token = service().issue("00042", Role::Admin, -1).unwrap();
    assert_eq!(service().verify(&token).unwrap_err(), AppError::Jwt);
    assert!(MAX_TTL_HOURS > 0);
}

#[test]
fn unknown_role_is_refused() {
    let payload: ClaimList = vec![
        ("sub".to_string(), ClaimValue::Text("x".to_string())),
        ("role".to_string(), ClaimValue::Text("root".to_string())),
        ("exp".to_string(), ClaimValue::Int(100)),
        ("iat".to_string(), ClaimValue::Int(0)),
    ];
    assert_eq!(role_claims_from_payload(Some(payload), 0).unwrap_err(), AppError::Jwt);
}

#[test]
fn role_claims_need_an_issue_time() {
    let payload: ClaimList = vec![
        ("sub".to_string(), ClaimValue::Text("x".to_string())),
        ("role".to_string(), ClaimValue::Text("admin".to_string())),
        ("exp".to_string(), ClaimValue::Int(100)),
    ];
    assert_eq!(role_claims_from_payload(Some(payload), 0).unwrap_err(), AppError::Jwt);
}

#[test]
fn garbage_role_token_is_refused() {
    assert_eq!(service().verify("garbage").unwrap_err(), AppError::Jwt);
    assert_eq!(service().verify_at("a.b.c", 0).unwrap_err(), AppError::Jwt);
}

#[test]
fn expiry_beyond_the_calendar_is_refused() {
    assert_eq!(service().issue("00042", Role::Admin, MAX_TTL_HOURS).unwrap_err(), AppError::Jwt);
    assert_eq!(service().issue("00042", Role::Admin, -MAX_TTL_HOURS).unwrap_err(), AppError::Jwt);
}

#[test]
fn lifetime_limit_is_chronos() {
    assert!(chrono::TimeDelta::try_hours(MAX_TTL_HOURS).is_some());
    assert!(chrono::TimeDelta::try_hours(-MAX_TTL_HOURS).is_some());
    assert!(chrono::TimeDelta::try_hours(MAX_TTL_HOURS + 1).is_none());
    assert!(chrono::TimeDelta::try_hours(-MAX_TTL_HOURS - 1).is_none());
}

#[test]
fn token_without_lifetime_is_always_issued() {
    let token = service().issue("00042", Role::Inspector, 0).unwrap();
    let claims = service().verify(&token).unwrap();
    assert_eq!(claims.exp, claims.iat);
}

#[test]
fn role_token_needs_instants_in_the_calendar() {
    let max = bent::clock::UTC_MAX_TIMESTAMP;
    assert!(service().issue_at("x", Role::Admin, 1, max - 3600).is_ok());
    assert_eq!(service().issue_at("x", Role::Admin, 1, max - 3599).unwrap_err(), AppError::Jwt);
    assert_eq!(service().issue_at("x", Role::Admin, -1, max + 1).unwrap_err(), AppError::Jwt);
    assert!(service().issue_at("x", Role::Admin, 0, max).is_ok());
}
