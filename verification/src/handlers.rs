//! The decisions of the sign-in, refresh, logout and profile handlers, from
//! the rows the store returned to the writes to make and the answers to give.
use vstd::prelude::*;
use crate::auth::jwt::{access_issuable, access_token_for, create_access_token_at, Claims};
use crate::crypto::{
    argon2_accepts, check_password, password_check, phc_parses, refresh_token_digest, PasswordCheck,
    TOKEN_LENGTH,
};
use crate::encoding::{all_ascii_alphanumeric, uuid_text};
use crate::error::AppError;
use crate::ids::{parse_id, uuid_parsed};
use crate::models::{InspectorAuthResponse, LoginResponse, MeResponse};
use crate::sessions::{
    open_session, NewSession, SessionWrite, INSPECTOR_SESSION_TTL_MICROS,
    LOGIN_SESSION_TTL_MICROS,
};
use crate::submissions::claims_user_id;

verus! {

/// An active user found by personnel number.
#[derive(Debug, Clone)]
pub struct InspectorRow {
    pub id: u128,
    pub name_ru: Option<String>,
}

/// An active user found by email, with the stored password hash if any.
#[derive(Debug, Clone)]
pub struct CredentialRow {
    pub id: u128,
    pub password_hash: Option<String>,
}

/// A user's profile as stored.
#[derive(Debug, Clone)]
pub struct ProfileRow {
    pub id: u128,
    pub email: Option<String>,
    pub username: Option<String>,
}

/// The refresh token handed out is 64 random ASCII letters and digits, and
/// the session stores only its digest.
pub open spec fn fresh_session(s: NewSession) -> bool {
    &&& s.record.refresh_token_hash@ == refresh_token_digest(s.refresh_token@)
    &&& s.refresh_token@.len() == TOKEN_LENGTH
    &&& all_ascii_alphanumeric(s.refresh_token@)
}

/// An access token for a user's session issued at `now` (seconds), or
/// `Unauthorized` where none can be issued at that reading.
fn session_access_token(user_id: u128, session_id: u128, secret: &[u8], now: i64) -> (token:
    Result<String, AppError>)
    ensures
        access_issuable(now) ==> (token matches Ok(t) && t@ == access_token_for(
            user_id,
            session_id,
            secret@,
            now,
        )),
        !access_issuable(now) ==> token == Err::<String, AppError>(AppError::Unauthorized),
{
    match create_access_token_at(user_id, session_id, secret, now) {
        Ok(t) => Ok(t),
        Err(_) => Err(AppError::Unauthorized),
    }
}

/// Sign-in by personnel number at `now` (microseconds): an unknown or
/// inactive number is refused; otherwise a 12-hour session is opened for
/// the user.
pub fn inspector_sign_in(user: Option<InspectorRow>, now: i64) -> (session: Result<
    NewSession,
    AppError,
>)
    requires
        now <= i64::MAX - INSPECTOR_SESSION_TTL_MICROS,
    ensures
        user is None ==> session == Err::<NewSession, AppError>(AppError::InvalidTabelNumber),
        user matches Some(u) ==> (session matches Ok(s) && s.record.user_id == u.id
            && !s.record.revoked && s.record.expires_at == now + INSPECTOR_SESSION_TTL_MICROS
            && fresh_session(s)),
{
    match user {
        None => Err(AppError::InvalidTabelNumber),
        Some(u) => Ok(open_session(u.id, now, INSPECTOR_SESSION_TTL_MICROS)),
    }
}

/// The answer to a signed-in inspector once the session is stored: an
/// access token for that session issued at `now` (seconds), its refresh
/// token, the user and the name (empty when unknown); `Unauthorized` where no
/// access token can be issued at that reading.
pub fn inspector_auth_response(
    user: InspectorRow,
    session: NewSession,
    secret: &[u8],
    now: i64,
) -> (answer: Result<InspectorAuthResponse, AppError>)
    ensures
        access_issuable(now) ==> (answer matches Ok(r) && {
            &&& r.token@ == access_token_for(user.id, session.record.id, secret@, now)
            &&& r.refresh_token == session.refresh_token
            &&& r.user_id == user.id
            &&& r.name_ru@ == (match user.name_ru {
                Some(n) => n@,
                None => Seq::<char>::empty(),
            })
        }),
        !access_issuable(now) ==> answer == Err::<InspectorAuthResponse, AppError>(
            AppError::Unauthorized,
        ),
{
    let token = match session_access_token(user.id, session.record.id, secret, now) {
        Ok(t) => t,
        Err(e) => return Err(e),
    };
    let name_ru = match user.name_ru {
        Some(n) => n,
        None => String::new(),
    };
    Ok(InspectorAuthResponse { token, refresh_token: session.refresh_token, user_id: user.id, name_ru })
}

/// Password login at `now` (microseconds): an unknown user, a user without a
/// password, or a wrong password is refused as invalid credentials; a stored
/// hash that is not a PHC string is an internal error; otherwise a 30-day
/// session is opened.
pub fn login_sign_in(user: Option<CredentialRow>, password: &str, now: i64) -> (session: Result<
    NewSession,
    AppError,
>)
    requires
        now <= i64::MAX - LOGIN_SESSION_TTL_MICROS,
    ensures
        user is None ==> session == Err::<NewSession, AppError>(AppError::InvalidCredentials),
        user matches Some(u) ==> match u.password_hash {
            None => session == Err::<NewSession, AppError>(AppError::InvalidCredentials),
            Some(h) => match password_check(password@, h@) {
                PasswordCheck::Malformed => session == Err::<NewSession, AppError>(
                    AppError::PasswordHash,
                ),
                PasswordCheck::Mismatch => session == Err::<NewSession, AppError>(
                    AppError::InvalidCredentials,
                ),
                PasswordCheck::Match => session matches Ok(s) && s.record.user_id == u.id
                    && !s.record.revoked && s.record.expires_at == now + LOGIN_SESSION_TTL_MICROS
                    && fresh_session(s),
            },
        },
        user matches Some(u) ==> (u.password_hash matches Some(h) ==> (phc_parses(h@) ==> (
        session is Ok <==> argon2_accepts(vstd::utf8::encode_utf8(password@), h@)))),
        session matches Err(e) ==> (e == AppError::InvalidCredentials || e
            == AppError::PasswordHash),
{
    let u = match user {
        None => return Err(AppError::InvalidCredentials),
        Some(u) => u,
    };
    let hash = match u.password_hash {
        None => return Err(AppError::InvalidCredentials),
        Some(h) => h,
    };
    match check_password(password, hash.as_str()) {
        PasswordCheck::Malformed => Err(AppError::PasswordHash),
        PasswordCheck::Mismatch => Err(AppError::InvalidCredentials),
        PasswordCheck::Match => Ok(open_session(u.id, now, LOGIN_SESSION_TTL_MICROS)),
    }
}

/// The answer to a login or refresh: an access token for the session issued
/// at `now` (seconds), the refresh token to keep, and the user; `Unauthorized`
/// where no access token can be issued at that reading.
pub fn session_tokens_response(
    user_id: u128,
    session_id: u128,
    refresh_token: String,
    secret: &[u8],
    now: i64,
) -> (answer: Result<LoginResponse, AppError>)
    ensures
        access_issuable(now) ==> (answer matches Ok(r) && {
            &&& r.access_token@ == access_token_for(user_id, session_id, secret@, now)
            &&& r.refresh_token == refresh_token
            &&& r.user_id == user_id
        }),
        !access_issuable(now) ==> answer == Err::<LoginResponse, AppError>(AppError::Unauthorized),
{
    let access_token = match session_access_token(user_id, session_id, secret, now) {
        Ok(t) => t,
        Err(e) => return Err(e),
    };
    Ok(LoginResponse { access_token, refresh_token, user_id })
}

/// Logout revokes the session named by the claims' `sid`; claims without a
/// readable session are refused.
pub fn logout_write(claims: &Claims) -> (write: Result<SessionWrite, AppError>)
    ensures
        match uuid_parsed(claims.sid@) {
            Some(s) => write matches Ok(SessionWrite::Revoke { session_id }) && session_id == s,
            None => write matches Err(AppError::Unauthorized),
        },
        forall|s: u128| #[trigger] uuid_text(s) == claims.sid@ ==> (write matches Ok(
            SessionWrite::Revoke { session_id },
        ) && session_id == s),
{
    match parse_id(claims.sid.as_str()) {
        Some(s) => Ok(SessionWrite::Revoke { session_id: s }),
        None => Err(AppError::Unauthorized),
    }
}

/// Logout everywhere revokes every session of the claims' user; claims
/// without a readable user are refused.
pub fn logout_all_write(claims: &Claims) -> (write: Result<SessionWrite, AppError>)
    ensures
        match uuid_parsed(claims.sub@) {
            Some(u) => write matches Ok(SessionWrite::RevokeAllOf { user_id }) && user_id == u,
            None => write matches Err(AppError::Unauthorized),
        },
        forall|u: u128| #[trigger] uuid_text(u) == claims.sub@ ==> (write matches Ok(
            SessionWrite::RevokeAllOf { user_id },
        ) && user_id == u),
{
    match claims_user_id(claims) {
        Ok(u) => Ok(SessionWrite::RevokeAllOf { user_id: u }),
        Err(e) => Err(e),
    }
}

/// The profile answer for the user the lookup found: refused when there is
/// none; email and username empty when unknown; the roles as given.
pub fn me_response(user: Option<ProfileRow>, roles: Vec<String>) -> (answer: Result<
    MeResponse,
    AppError,
>)
    ensures
        user is None ==> answer == Err::<MeResponse, AppError>(AppError::Unauthorized),
        user matches Some(u) ==> (answer matches Ok(r) && {
            &&& r.id == u.id
            &&& r.email@ == (match u.email {
                Some(e) => e@,
                None => Seq::<char>::empty(),
            })
            &&& r.username@ == (match u.username {
                Some(n) => n@,
                None => Seq::<char>::empty(),
            })
            &&& r.roles == roles
        }),
{
    let u = match user {
        None => return Err(AppError::Unauthorized),
        Some(u) => u,
    };
    let email = match u.email {
        Some(e) => e,
        None => String::new(),
    };
    let username = match u.username {
        Some(n) => n,
        None => String::new(),
    };
    Ok(MeResponse { id: u.id, email, username, roles })
}

} // verus!
