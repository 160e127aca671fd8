//! One-time submission tokens: the bot asks for one, the employee's form link
//! carries it, and a submission spends it. A token is usable while it is
//! unused and not past its expiry.
use vstd::prelude::*;
use crate::crypto::{generate_refresh_token, TOKEN_LENGTH};
use crate::encoding::all_ascii_alphanumeric;
use crate::error::{AppError, STATUS_BAD_REQUEST, STATUS_INTERNAL_SERVER_ERROR, STATUS_NOT_FOUND};
use crate::models::{GenerateTokenResponse, ValidateTokenResponse};

verus! {

/// A row of the one-time token table; `expires_at` in microseconds.
#[derive(Debug, Clone)]
pub struct OneTimeToken {
    pub token: String,
    pub telegram_user_id: i64,
    pub used: bool,
    pub expires_at: i64,
}

/// Why a one-time token was refused, or the store failed.
#[derive(Debug, Clone, PartialEq, Eq)]
pub enum TokenError {
    NotFound,
    Expired,
    AlreadyUsed,
    /// A database failure, with the driver's description of it.
    Sqlx(String),
}

/// How long a one-time token stays usable: 24 hours, in microseconds.
pub const ONE_TIME_TOKEN_TTL_MICROS: i64 = 86_400_000_000;

/// Where a looked-up token stands at a given instant.
#[derive(Debug, Clone, Copy, PartialEq, Eq, Structural)]
pub enum TokenStatus {
    Usable,
    Missing,
    Used,
    Expired,
}

/// The standing of a token row (absent when the lookup found nothing) at
/// `now`: a used token is refused as used whatever its expiry; an unused one
/// is expired once its expiry lies before `now`.
pub open spec fn token_status(row: Option<OneTimeToken>, now: i64) -> TokenStatus {
    match row {
        None => TokenStatus::Missing,
        Some(t) => if t.used {
            TokenStatus::Used
        } else if t.expires_at < now {
            TokenStatus::Expired
        } else {
            TokenStatus::Usable
        },
    }
}

/// The row after the token is spent.
pub open spec fn spent(t: OneTimeToken) -> OneTimeToken {
    OneTimeToken { used: true, ..t }
}

/// The standing of a token row at `now`.
pub fn token_standing(row: &Option<OneTimeToken>, now: i64) -> (status: TokenStatus)
    ensures
        status == token_status(*row, now),
{
    match row {
        None => TokenStatus::Missing,
        Some(t) => if t.used {
            TokenStatus::Used
        } else if t.expires_at < now {
            TokenStatus::Expired
        } else {
            TokenStatus::Usable
        },
    }
}

impl OneTimeToken {
    /// A new unused token for a Telegram user at `now` (microseconds): 64
    /// random ASCII letters and digits, expiring 24 hours later.
    pub fn issue(telegram_user_id: i64, now: i64) -> (t: OneTimeToken)
        requires
            now <= i64::MAX - ONE_TIME_TOKEN_TTL_MICROS,
        ensures
            t.telegram_user_id == telegram_user_id,
            !t.used,
            t.expires_at == now + ONE_TIME_TOKEN_TTL_MICROS,
            t.token@.len() == TOKEN_LENGTH,
            all_ascii_alphanumeric(t.token@),
    {
        OneTimeToken {
            token: generate_refresh_token(),
            telegram_user_id,
            used: false,
            expires_at: now + ONE_TIME_TOKEN_TTL_MICROS,
        }
    }

    /// Spend the token: the row is marked used and nothing else changes.
    pub fn consume(&mut self)
        ensures
            *final(self) == spent(*old(self)),
    {
        self.used = true;
    }
}

/// The token-service check of a looked-up row at `now`: the row itself when
/// it is usable, else why not.
pub fn check_token(row: Option<OneTimeToken>, now: i64) -> (checked: Result<OneTimeToken, TokenError>)
    ensures
        match token_status(row, now) {
            TokenStatus::Usable => checked == Ok::<OneTimeToken, TokenError>(row.unwrap()),
            TokenStatus::Missing => checked == Err::<OneTimeToken, TokenError>(TokenError::NotFound),
            TokenStatus::Used => checked == Err::<OneTimeToken, TokenError>(TokenError::AlreadyUsed),
            TokenStatus::Expired => checked == Err::<OneTimeToken, TokenError>(TokenError::Expired),
        },
{
    match token_standing(&row, now) {
        TokenStatus::Usable => Ok(row.unwrap()),
        TokenStatus::Missing => Err(TokenError::NotFound),
        TokenStatus::Used => Err(TokenError::AlreadyUsed),
        TokenStatus::Expired => Err(TokenError::Expired),
    }
}

/// The service error for a token that is not usable.
pub open spec fn token_refusal(status: TokenStatus) -> AppError {
    match status {
        TokenStatus::Missing => AppError::TokenNotFound,
        TokenStatus::Used => AppError::TokenAlreadyUsed,
        _ => AppError::TokenExpired,
    }
}

/// The handler check of a looked-up row at `now`: the row when it is usable,
/// else `TokenNotFound`, `TokenAlreadyUsed` or `TokenExpired`.
pub fn check_token_row(row: Option<OneTimeToken>, now: i64) -> (checked: Result<OneTimeToken, AppError>)
    ensures
        token_status(row, now) == TokenStatus::Usable ==> checked == Ok::<OneTimeToken, AppError>(
            row.unwrap(),
        ),
        token_status(row, now) != TokenStatus::Usable ==> checked == Err::<OneTimeToken, AppError>(
            token_refusal(token_status(row, now)),
        ),
{
    match token_standing(&row, now) {
        TokenStatus::Usable => Ok(row.unwrap()),
        TokenStatus::Missing => Err(AppError::TokenNotFound),
        TokenStatus::Used => Err(AppError::TokenAlreadyUsed),
        TokenStatus::Expired => Err(AppError::TokenExpired),
    }
}

/// Answer of the validation endpoint for a looked-up row at `now`.
pub fn validate_token_response(row: Option<OneTimeToken>, now: i64) -> (answer: Result<
    ValidateTokenResponse,
    AppError,
>)
    ensures
        token_status(row, now) == TokenStatus::Usable ==> (answer matches Ok(r) && r.valid),
        token_status(row, now) != TokenStatus::Usable ==> answer == Err::<
            ValidateTokenResponse,
            AppError,
        >(token_refusal(token_status(row, now))),
{
    match check_token_row(row, now) {
        Ok(_) => Ok(ValidateTokenResponse { valid: true }),
        Err(e) => Err(e),
    }
}

/// The link of the submission form for a token: `{base}/form?token={token}`.
pub open spec fn form_link(base: Seq<char>, token: Seq<char>) -> Seq<char> {
    base + "/form?token="@ + token
}

/// The bot's answer for a new token: the token and its form link under
/// `public_base_url`.
pub fn generate_token_response(public_base_url: &str, token: String) -> (answer:
    GenerateTokenResponse)
    ensures
        answer.token == token,
        answer.url@ == form_link(public_base_url@, token@),
{
    let url = public_base_url.to_owned().concat("/form?token=").concat(token.as_str());
    GenerateTokenResponse { url, token }
}

/// The HTTP status of a token-service error.
pub open spec fn token_error_status(e: TokenError) -> u16 {
    match e {
        TokenError::NotFound => STATUS_NOT_FOUND,
        TokenError::Expired => STATUS_BAD_REQUEST,
        TokenError::AlreadyUsed => STATUS_BAD_REQUEST,
        TokenError::Sqlx(_) => STATUS_INTERNAL_SERVER_ERROR,
    }
}

/// The body text of a token-service error: its description, the database's
/// own included.
pub open spec fn token_error_text(e: TokenError) -> Seq<char> {
    match e {
        TokenError::NotFound => "token not found"@,
        TokenError::Expired => "token expired"@,
        TokenError::AlreadyUsed => "token already used"@,
        TokenError::Sqlx(description) => description@,
    }
}

impl TokenError {
    /// The HTTP status of this error.
    pub fn status_code(&self) -> (status: u16)
        ensures
            status == token_error_status(*self),
    {
        match self {
            TokenError::NotFound => STATUS_NOT_FOUND,
            TokenError::Expired => STATUS_BAD_REQUEST,
            TokenError::AlreadyUsed => STATUS_BAD_REQUEST,
            TokenError::Sqlx(_) => STATUS_INTERNAL_SERVER_ERROR,
        }
    }

    /// The description of this error, as the response body carries it.
    pub fn describe(&self) -> (text: String)
        ensures
            text@ == token_error_text(*self),
    {
        match self {
            TokenError::NotFound => "token not found".to_owned(),
            TokenError::Expired => "token expired".to_owned(),
            TokenError::AlreadyUsed => "token already used".to_owned(),
            TokenError::Sqlx(description) => description.clone(),
        }
    }
}

/// A fresh token is usable at every instant up to its expiry.
pub proof fn lemma_fresh_token_usable(t: OneTimeToken, issued_at: i64, now: i64)
    requires
        !t.used,
        t.expires_at == issued_at + ONE_TIME_TOKEN_TTL_MICROS,
        now <= issued_at + ONE_TIME_TOKEN_TTL_MICROS,
    ensures
        token_status(Some(t), now) == TokenStatus::Usable,
{
}

/// A token is spent once: after it is consumed it is refused as used at
/// every instant.
pub proof fn lemma_spent_token_refused(t: OneTimeToken, now: i64)
    ensures
        token_status(Some(spent(t)), now) == TokenStatus::Used,
{
}

/// The life of a token in the token service: a token just issued for a user
/// is validated, until its expiry, as that user's unused token; once it is
/// consumed, validation refuses it as already used.
pub proof fn lemma_token_lifecycle(t: OneTimeToken, issued_at: i64, now: i64)
    requires
        !t.used,
        t.expires_at == issued_at + ONE_TIME_TOKEN_TTL_MICROS,
        now <= issued_at + ONE_TIME_TOKEN_TTL_MICROS,
    ensures
        token_status(Some(t), now) == TokenStatus::Usable,
        token_status(Some(spent(t)), now) == TokenStatus::Used,
        spent(t).token == t.token && spent(t).telegram_user_id == t.telegram_user_id
            && spent(t).expires_at == t.expires_at,
{
}

/// A token that is past its expiry is refused, and is never accepted again
/// later.
pub proof fn lemma_expiry_is_final(row: Option<OneTimeToken>, now: i64, later: i64)
    requires
        token_status(row, now) == TokenStatus::Expired,
        now <= later,
    ensures
        token_status(row, later) == TokenStatus::Expired,
{
}

/// Only an unused token before its expiry is accepted.
pub proof fn lemma_usable_means_unused_and_current(row: Option<OneTimeToken>, now: i64)
    requires
        token_status(row, now) == TokenStatus::Usable,
    ensures
        row matches Some(t) && !t.used && now <= t.expires_at,
{
}

} // verus!
