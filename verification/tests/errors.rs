use bent::error::AppError;

fn all_errors() -> Vec<(AppError, u16, &'static str)> {
    vec![
        (AppError::TokenNotFound, 404, "token not found"),
        (AppError::TokenExpired, 400, "token expired"),
        (AppError::TokenAlreadyUsed, 400, "token already used"),
        (AppError::SubmissionNotFound, 404, "submission not found"),
        (AppError::InvalidTabelNumber, 400, "invalid tabel number"),
        (AppError::InvalidCredentials, 400, "invalid credentials"),
        (AppError::Unauthorized, 401, "missing or invalid authorization header"),
        (AppError::Forbidden, 403, "insufficient permissions"),
        (AppError::BadRequest("no text".to_string()), 400, "invalid request: no text"),
        (AppError::InspectorNotFound, 404, "inspector not found or inactive"),
        (AppError::UserNotFound, 404, "user not found"),
        (AppError::Sqlx("connection refused".to_string()), 500, "connection refused"),
        (AppError::Jwt, 500, "jwt error"),
        (AppError::MissingClaims, 500, "no claims on the request: authentication layer missing"),
        (AppError::JwtCustom, 500, "jwt encode/decode error"),
        (AppError::PasswordHash, 500, "password hashing error"),
    ]
}

#[test]
fn each_error_has_its_status_and_description() {
    for (e, status, text) in all_errors() {
        assert_eq!(e.status_code(), status, "{:?}", e);
        assert_eq!(e.describe(), text, "{:?}", e);
    }
}

#[test]
fn internal_errors_reach_the_client_only_as_such() {
    for (e, status, text) in all_errors() {
        let message = e.client_message();
        if status == 500 {
            assert_eq!(message, "internal server error", "{:?}", e);
        } else {
            assert_eq!(message, text, "{:?}", e);
            assert_ne!(message, "internal server error");
        }
    }
}

#[test]
fn bad_request_carries_its_reason() {
    let e = AppError::BadRequest("internal server error".to_string());
    assert_eq!(e.status_code(), 400);
    assert_eq!(e.client_message(), "invalid request: internal server error");
}
