use argon2::password_hash::SaltString;
use argon2::{Argon2, PasswordHasher};
use bent::auth::jwt::{verify_access_token, Claims};
use bent::clock::{now_seconds, UTC_MAX_TIMESTAMP};
use bent::crypto::hash_refresh_token;
use bent::error::AppError;
use bent::handlers::{
    inspector_auth_response, inspector_sign_in, login_sign_in, logout_all_write, logout_write,
    me_response, session_tokens_response, CredentialRow, InspectorRow, ProfileRow,
};
use bent::ids::id_to_string;
use bent::sessions::{SessionWrite, INSPECTOR_SESSION_TTL_MICROS, LOGIN_SESSION_TTL_MICROS};

const SECRET: &[u8] = b"handler-secret";
const USER: u128 = 0x0a0b_0c0d_0e0f_1011_1213_1415_1617_1819;
const NOW: i64 = 1_700_000_000_000_000;

fn phc_of(password: &str) -> String {
    let salt = SaltString::from_b64("YW5vdGhlcnNhbHQ").unwrap();
    Argon2::default().hash_password(password.as_bytes(), &salt).unwrap().to_string()
}

#[test]
fn unknown_personnel_number_is_refused() {
    assert_eq!(inspector_sign_in(None, NOW).unwrap_err(), AppError::InvalidTabelNumber);
}

#[test]
fn inspector_gets_a_shift_long_session() {
    let s = inspector_sign_in(Some(InspectorRow { id: USER, name_ru: None }), NOW).unwrap();
    assert_eq!(s.record.user_id, USER);
    assert!(!s.record.revoked);
    assert_eq!(s.record.expires_at, NOW + INSPECTOR_SESSION_TTL_MICROS);
    assert_eq!(s.record.refresh_token_hash, hash_refresh_token(&s.refresh_token));
}

#[test]
fn inspector_answer_carries_a_token_for_the_session() {
    let user = InspectorRow { id: USER, name_ru: Some("Иванов".to_string()) };
    let session = inspector_sign_in(Some(user.clone()), NOW).unwrap();
    let answer = inspector_auth_response(user, session.clone(), SECRET, now_seconds()).unwrap();
    assert_eq!(answer.user_id, USER);
    assert_eq!(answer.name_ru, "Иванов");
    assert_eq!(answer.refresh_token, session.refresh_token);
    let claims = verify_access_token(&answer.token, SECRET).unwrap();
    assert_eq!(claims.sub, id_to_string(USER));
    assert_eq!(claims.sid, id_to_string(session.record.id));
}

#[test]
fn inspector_without_a_name_gets_an_empty_one() {
    let user = InspectorRow { id: USER, name_ru: None };
    let session = inspector_sign_in(Some(user.clone()), NOW).unwrap();
    assert_eq!(inspector_auth_response(user, session, SECRET, now_seconds()).unwrap().name_ru, "");
}

#[test]
fn login_refuses_unknown_users_and_users_without_a_password() {
    assert_eq!(login_sign_in(None, "pw", NOW).unwrap_err(), AppError::InvalidCredentials);
    let no_hash = CredentialRow { id: USER, password_hash: None };
    assert_eq!(login_sign_in(Some(no_hash), "pw", NOW).unwrap_err(), AppError::InvalidCredentials);
}

#[test]
fn login_refuses_a_wrong_password() {
    let row = CredentialRow { id: USER, password_hash: Some(phc_of("s3cret")) };
    assert_eq!(login_sign_in(Some(row), "guess", NOW).unwrap_err(), AppError::InvalidCredentials);
}

#[test]
fn login_with_a_broken_stored_hash_is_an_internal_error() {
    let row = CredentialRow { id: USER, password_hash: Some("s3cret".to_string()) };
    let e = login_sign_in(Some(row), "s3cret", NOW).unwrap_err();
    assert_eq!(e, AppError::PasswordHash);
    assert_eq!(e.status_code(), 500);
}

#[test]
fn login_with_the_right_password_opens_a_month_long_session() {
    let row = CredentialRow { id: USER, password_hash: Some(phc_of("s3cret")) };
    let s = login_sign_in(Some(row), "s3cret", NOW).unwrap();
    assert_eq!(s.record.user_id, USER);
    assert_eq!(s.record.expires_at, NOW + LOGIN_SESSION_TTL_MICROS);
    assert!(!s.record.revoked);
}

#[test]
fn login_answer_carries_tokens_for_the_session() {
    let answer = session_tokens_response(USER, 77, "refresh-me".to_string(), SECRET, now_seconds()).unwrap();
    assert_eq!(answer.user_id, USER);
    assert_eq!(answer.refresh_token, "refresh-me");
    let claims = verify_access_token(&answer.access_token, SECRET).unwrap();
    assert_eq!(claims.sub, id_to_string(USER));
    assert_eq!(claims.sid, id_to_string(77));
}

#[test]
fn logout_revokes_the_session_of_the_claims() {
    let claims = Claims { sub: id_to_string(USER), sid: id_to_string(77), exp: 0 };
    assert!(matches!(logout_write(&claims), Ok(SessionWrite::Revoke { session_id: 77 })));
    let bad = Claims { sub: id_to_string(USER), sid: "session".to_string(), exp: 0 };
    assert!(matches!(logout_write(&bad), Err(AppError::Unauthorized)));
}

#[test]
fn logout_everywhere_revokes_all_sessions_of_the_user() {
    let claims = Claims { sub: id_to_string(USER), sid: id_to_string(77), exp: 0 };
    assert!(matches!(logout_all_write(&claims), Ok(SessionWrite::RevokeAllOf { user_id: USER })));
    let bad = Claims { sub: "user".to_string(), sid: id_to_string(77), exp: 0 };
    assert!(matches!(logout_all_write(&bad), Err(AppError::Unauthorized)));
}

#[test]
fn profile_of_a_known_user() {
    let row = ProfileRow { id: USER, email: Some("a@b.c".to_string()), username: None };
    let me = me_response(Some(row), vec!["admin".to_string(), "viewer".to_string()]).unwrap();
    assert_eq!(me.id, USER);
    assert_eq!(me.email, "a@b.c");
    assert_eq!(me.username, "");
    assert_eq!(me.roles, vec!["admin".to_string(), "viewer".to_string()]);
}

#[test]
fn profile_of_a_vanished_user_is_unauthorized() {
    assert_eq!(me_response(None, vec![]).unwrap_err(), AppError::Unauthorized);
}

#[test]
fn no_access_token_past_the_calendar() {
    let late = UTC_MAX_TIMESTAMP - 899;
    assert_eq!(
        session_tokens_response(USER, 77, "r".to_string(), SECRET, late).unwrap_err(),
        AppError::Unauthorized
    );
    let user = InspectorRow { id: USER, name_ru: None };
    let session = inspector_sign_in(Some(user.clone()), NOW).unwrap();
    assert_eq!(inspector_auth_response(user, session, SECRET, late).unwrap_err(), AppError::Unauthorized);
    assert!(session_tokens_response(USER, 77, "r".to_string(), SECRET, late - 1).is_ok());
}
