//! The service's error, the HTTP status each one answers with, and the text
//! a client sees.
use vstd::prelude::*;
use crate::auth::jwt::JwtError;

verus! {

/// Everything a handler can fail with.
#[derive(Debug, Clone, PartialEq, Eq)]
pub enum AppError {
    TokenNotFound,
    TokenExpired,
    TokenAlreadyUsed,
    SubmissionNotFound,
    InvalidTabelNumber,
    InvalidCredentials,
    Unauthorized,
    Forbidden,
    BadRequest(String),
    InspectorNotFound,
    UserNotFound,
    /// A database failure, with the driver's description of it.
    Sqlx(String),
    /// A role token that could not be made or read.
    Jwt,
    /// A guarded handler found no claims on its request: the route lacks the
    /// authentication layer, a fault of the server rather than of the client.
    MissingClaims,
    JwtCustom,
    PasswordHash,
}

/// HTTP 400.
pub const STATUS_BAD_REQUEST: u16 = 400;

/// HTTP 401.
pub const STATUS_UNAUTHORIZED: u16 = 401;

/// HTTP 403.
pub const STATUS_FORBIDDEN: u16 = 403;

/// HTTP 404.
pub const STATUS_NOT_FOUND: u16 = 404;

/// HTTP 500.
pub const STATUS_INTERNAL_SERVER_ERROR: u16 = 500;

/// The status an error answers with.
pub open spec fn error_status(e: AppError) -> u16 {
    match e {
        AppError::TokenNotFound | AppError::SubmissionNotFound | AppError::InspectorNotFound
        | AppError::UserNotFound => STATUS_NOT_FOUND,
        AppError::TokenExpired | AppError::TokenAlreadyUsed | AppError::InvalidTabelNumber
        | AppError::InvalidCredentials | AppError::BadRequest(_) => STATUS_BAD_REQUEST,
        AppError::Unauthorized => STATUS_UNAUTHORIZED,
        AppError::Forbidden => STATUS_FORBIDDEN,
        AppError::Sqlx(_) | AppError::Jwt | AppError::MissingClaims | AppError::JwtCustom
        | AppError::PasswordHash => STATUS_INTERNAL_SERVER_ERROR,
    }
}

/// The description of an error (what it displays as).
pub open spec fn error_text(e: AppError) -> Seq<char> {
    match e {
        AppError::TokenNotFound => "token not found"@,
        AppError::TokenExpired => "token expired"@,
        AppError::TokenAlreadyUsed => "token already used"@,
        AppError::SubmissionNotFound => "submission not found"@,
        AppError::InvalidTabelNumber => "invalid tabel number"@,
        AppError::InvalidCredentials => "invalid credentials"@,
        AppError::Unauthorized => "missing or invalid authorization header"@,
        AppError::Forbidden => "insufficient permissions"@,
        AppError::BadRequest(reason) => "invalid request: "@ + reason@,
        AppError::InspectorNotFound => "inspector not found or inactive"@,
        AppError::UserNotFound => "user not found"@,
        AppError::Sqlx(description) => description@,
        AppError::Jwt => "jwt error"@,
        AppError::MissingClaims => "no claims on the request: authentication layer missing"@,
        AppError::JwtCustom => "jwt encode/decode error"@,
        AppError::PasswordHash => "password hashing error"@,
    }
}

/// What the client is told: the description, except that internal errors
/// are reported only as such.
pub open spec fn client_message(e: AppError) -> Seq<char> {
    if error_status(e) == STATUS_INTERNAL_SERVER_ERROR {
        "internal server error"@
    } else {
        error_text(e)
    }
}

impl AppError {
    /// The HTTP status of this error.
    pub fn status_code(&self) -> (status: u16)
        ensures
            status == error_status(*self),
    {
        match self {
            AppError::TokenNotFound | AppError::SubmissionNotFound | AppError::InspectorNotFound
            | AppError::UserNotFound => STATUS_NOT_FOUND,
            AppError::TokenExpired | AppError::TokenAlreadyUsed | AppError::InvalidTabelNumber
            | AppError::InvalidCredentials | AppError::BadRequest(_) => STATUS_BAD_REQUEST,
            AppError::Unauthorized => STATUS_UNAUTHORIZED,
            AppError::Forbidden => STATUS_FORBIDDEN,
            AppError::Sqlx(_) | AppError::Jwt | AppError::MissingClaims | AppError::JwtCustom
            | AppError::PasswordHash => STATUS_INTERNAL_SERVER_ERROR,
        }
    }

    /// The description of this error, as it is displayed and logged.
    pub fn describe(&self) -> (text: String)
        ensures
            text@ == error_text(*self),
    {
        match self {
            AppError::TokenNotFound => "token not found".to_owned(),
            AppError::TokenExpired => "token expired".to_owned(),
            AppError::TokenAlreadyUsed => "token already used".to_owned(),
            AppError::SubmissionNotFound => "submission not found".to_owned(),
            AppError::InvalidTabelNumber => "invalid tabel number".to_owned(),
            AppError::InvalidCredentials => "invalid credentials".to_owned(),
            AppError::Unauthorized => "missing or invalid authorization header".to_owned(),
            AppError::Forbidden => "insufficient permissions".to_owned(),
            AppError::BadRequest(reason) => "invalid request: ".to_owned().concat(reason.as_str()),
            AppError::InspectorNotFound => "inspector not found or inactive".to_owned(),
            AppError::UserNotFound => "user not found".to_owned(),
            AppError::Sqlx(description) => description.clone(),
            AppError::Jwt => "jwt error".to_owned(),
            AppError::MissingClaims => "no claims on the request: authentication layer missing".to_owned(),
            AppError::JwtCustom => "jwt encode/decode error".to_owned(),
            AppError::PasswordHash => "password hashing error".to_owned(),
        }
    }

    /// The body text of the error response.
    pub fn client_message(&self) -> (text: String)
        ensures
            text@ == client_message(*self),
    {
        if self.status_code() == STATUS_INTERNAL_SERVER_ERROR {
            "internal server error".to_owned()
        } else {
            self.describe()
        }
    }
}

impl From<JwtError> for AppError {
    fn from(err: JwtError) -> (e: AppError) {
        AppError::JwtCustom
    }
}

impl vstd::std_specs::convert::FromSpecImpl<JwtError> for AppError {
    open spec fn obeys_from_spec() -> bool {
        true
    }

    open spec fn from_spec(v: JwtError) -> AppError {
        AppError::JwtCustom
    }
}

/// Internal failures never reach the client in detail: an error answers
/// with 500 exactly when its body is the generic text.
pub proof fn lemma_internal_errors_stay_internal(e: AppError)
    ensures
        error_status(e) == STATUS_INTERNAL_SERVER_ERROR <==> client_message(e)
            == "internal server error"@,
{
    reveal_strlit("internal server error");
    reveal_strlit("token not found");
    reveal_strlit("token expired");
    reveal_strlit("token already used");
    reveal_strlit("submission not found");
    reveal_strlit("invalid tabel number");
    reveal_strlit("invalid credentials");
    reveal_strlit("missing or invalid authorization header");
    reveal_strlit("insufficient permissions");
    reveal_strlit("invalid request: ");
    reveal_strlit("inspector not found or inactive");
    reveal_strlit("user not found");
    if error_status(e) != STATUS_INTERNAL_SERVER_ERROR {
        match e {
            AppError::BadRequest(reason) => {
                assert(client_message(e)[8] != "internal server error"@[8]);
            },
            _ => {
                assert(client_message(e).len() != "internal server error"@.len()
                    || client_message(e)[0] != "internal server error"@[0]
                    || client_message(e)[1] != "internal server error"@[1]);
            },
        }
    }
}

} // verus!
