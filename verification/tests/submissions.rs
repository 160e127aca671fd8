use bent::auth::jwt::Claims;
use bent::error::AppError;
use bent::ids::id_to_string;
use bent::models::{CreateSubmissionRequest, ListSubmissionsQuery, SubmissionStatus, SubmissionType, UpdateStatusRequest};
use bent::submissions::{
    authorized_submission, check_status_update, claims_user_id, employee_submission, page_window,
    status_change, submission_origin, SubmissionOrigin, DEFAULT_PAGE_SIZE, MAX_PAGE_SIZE,
};
use bent::tokens::{validate_token_response, OneTimeToken};

const USER: u128 = 0xdead_beef_0000_0000_0000_0000_0000_0001;

fn request(token: Option<&str>) -> CreateSubmissionRequest {
    CreateSubmissionRequest {
        department_id: 3,
        category_id: 4,
        text: "broken lamp".to_string(),
        file_url: Some("https://files/1.png".to_string()),
        channel: Some("telegram".to_string()),
        token: token.map(|t| t.to_string()),
    }
}

fn access_claims(sub: &str) -> Claims {
    Claims { sub: sub.to_string(), sid: id_to_string(2), exp: 100 }
}

fn query(page: Option<i64>, per_page: Option<i64>) -> ListSubmissionsQuery {
    ListSubmissionsQuery { status: None, department_id: None, category_id: None, page, per_page }
}

#[test]
fn session_decides_over_the_token() {
    match submission_origin(Some("tok".to_string()), Some(access_claims("x"))) {
        Ok(SubmissionOrigin::Authorized(c)) => assert_eq!(c.sub, "x"),
        _ => panic!("a signed-in user's token is ignored"),
    }
    match submission_origin(None, Some(access_claims("x"))) {
        Ok(SubmissionOrigin::Authorized(c)) => assert_eq!(c.sub, "x"),
        _ => panic!("without a token the session files it"),
    }
    match submission_origin(Some("tok".to_string()), None) {
        Ok(SubmissionOrigin::Employee(t)) => assert_eq!(t, "tok"),
        _ => panic!("a token without a session makes it an employee submission"),
    }
    match submission_origin(None, None) {
        Err(AppError::BadRequest(reason)) => {
            assert_eq!(reason, "either token or a valid session is required")
        }
        _ => panic!("neither token nor session is refused"),
    }
}

#[test]
fn employee_submission_through_a_usable_token() {
    let row = OneTimeToken { token: "tok".to_string(), telegram_user_id: 77, used: false, expires_at: 100 };
    let (s, written) = employee_submission(request(Some("tok")), Some(row), 50).unwrap();
    assert!(written.used);
    assert_eq!(written.token, "tok");
    assert_eq!(written.telegram_user_id, 77);
    assert_eq!(written.expires_at, 100);
    assert_eq!(s.kind, SubmissionType::Employee);
    assert_eq!(s.department_id, 3);
    assert_eq!(s.category_id, 4);
    assert_eq!(s.text, "broken lamp");
    assert_eq!(s.file_url.as_deref(), Some("https://files/1.png"));
    assert_eq!(s.channel.as_deref(), Some("telegram"));
    assert_eq!(s.telegram_user_id, Some(77));
    assert_eq!(s.created_by_user, None);
}

#[test]
fn employee_submission_refused_as_the_token_is() {
    let used = OneTimeToken { token: "tok".to_string(), telegram_user_id: 77, used: true, expires_at: 100 };
    let old = OneTimeToken { token: "tok".to_string(), telegram_user_id: 77, used: false, expires_at: 10 };
    assert_eq!(employee_submission(request(Some("tok")), None, 50).unwrap_err(), AppError::TokenNotFound);
    assert_eq!(employee_submission(request(Some("tok")), Some(used), 50).unwrap_err(), AppError::TokenAlreadyUsed);
    assert_eq!(employee_submission(request(Some("tok")), Some(old), 50).unwrap_err(), AppError::TokenExpired);
}

#[test]
fn inspector_submission_is_created_by_the_session_user() {
    let s = authorized_submission(request(None), &access_claims(&id_to_string(USER))).unwrap();
    assert_eq!(s.kind, SubmissionType::Inspector);
    assert_eq!(s.created_by_user, Some(USER));
    assert_eq!(s.telegram_user_id, None);
    assert_eq!(s.text, "broken lamp");
}

#[test]
fn claims_without_a_user_identifier_are_unauthorized() {
    assert_eq!(authorized_submission(request(None), &access_claims("12345")).unwrap_err(), AppError::Unauthorized);
    assert_eq!(claims_user_id(&access_claims("nobody")).unwrap_err(), AppError::Unauthorized);
    assert_eq!(claims_user_id(&access_claims(&id_to_string(USER))).unwrap(), USER);
}

#[test]
fn default_page_is_the_first_twenty() {
    let p = page_window(&query(None, None));
    assert_eq!(p.limit, DEFAULT_PAGE_SIZE);
    assert_eq!(p.limit, 20);
    assert_eq!(p.offset, 0);
}

#[test]
fn page_size_is_clamped_and_page_starts_at_one() {
    assert_eq!(page_window(&query(Some(3), Some(10))).offset, 20);
    assert_eq!(page_window(&query(Some(3), Some(10))).limit, 10);
    let big = page_window(&query(Some(2), Some(1000)));
    assert_eq!(big.limit, MAX_PAGE_SIZE);
    assert_eq!(big.offset, 100);
    let zero = page_window(&query(Some(1), Some(0)));
    assert_eq!(zero.limit, 1);
    let negative = page_window(&query(Some(-5), Some(-5)));
    assert_eq!(negative.limit, 1);
    assert_eq!(negative.offset, 0);
}

#[test]
fn page_window_keeps_the_filters() {
    let q = ListSubmissionsQuery {
        status: Some(SubmissionStatus::InReview),
        department_id: Some(9),
        category_id: None,
        page: None,
        per_page: None,
    };
    let p = page_window(&q);
    assert_eq!(p.status, Some(SubmissionStatus::InReview));
    assert_eq!(p.department_id, Some(9));
    assert_eq!(p.category_id, None);
}

#[test]
fn consecutive_pages_tile() {
    for per_page in [None, Some(0), Some(7), Some(100), Some(250)] {
        for page in 1..6 {
            let this = page_window(&query(Some(page), per_page));
            let next = page_window(&query(Some(page + 1), per_page));
            assert_eq!(next.offset, this.offset + this.limit);
        }
    }
}

#[test]
fn rejection_needs_a_reason() {
    let claims = access_claims(&id_to_string(USER));
    let bare = UpdateStatusRequest { status: SubmissionStatus::Rejected, reject_reason: None, comment: None };
    match check_status_update(&bare, &claims) {
        Err(AppError::BadRequest(reason)) => {
            assert_eq!(reason, "reject_reason is required when rejecting a submission")
        }
        other => panic!("unexpected {:?}", other),
    }
    let with_reason = UpdateStatusRequest {
        status: SubmissionStatus::Rejected,
        reject_reason: Some("duplicate".to_string()),
        comment: None,
    };
    assert_eq!(check_status_update(&with_reason, &claims).unwrap(), USER);
}

#[test]
fn status_update_needs_a_readable_user() {
    let approve = UpdateStatusRequest { status: SubmissionStatus::Approved, reject_reason: None, comment: None };
    assert_eq!(check_status_update(&approve, &access_claims("x")).unwrap_err(), AppError::Unauthorized);
    assert_eq!(check_status_update(&approve, &access_claims(&id_to_string(USER))).unwrap(), USER);
}

#[test]
fn status_change_records_old_and_new_status() {
    let req = UpdateStatusRequest {
        status: SubmissionStatus::Rejected,
        reject_reason: Some("spam".to_string()),
        comment: Some("checked".to_string()),
    };
    let c = status_change(11, Some(SubmissionStatus::InReview), req.clone(), USER).unwrap();
    assert_eq!(c.submission_id, 11);
    assert_eq!(c.old_status, SubmissionStatus::InReview);
    assert_eq!(c.new_status, SubmissionStatus::Rejected);
    assert_eq!(c.reject_reason.as_deref(), Some("spam"));
    assert_eq!(c.comment.as_deref(), Some("checked"));
    assert_eq!(c.changed_by, USER);
    assert_eq!(status_change(11, None, req, USER).unwrap_err(), AppError::SubmissionNotFound);
}

#[test]
fn a_token_yields_one_submission() {
    let row = OneTimeToken { token: "tok".to_string(), telegram_user_id: 77, used: false, expires_at: 100 };
    let (_, written) = employee_submission(request(Some("tok")), Some(row), 50).unwrap();
    assert_eq!(
        employee_submission(request(Some("tok")), Some(written.clone()), 51).unwrap_err(),
        AppError::TokenAlreadyUsed
    );
    assert_eq!(validate_token_response(Some(written), 51).unwrap_err(), AppError::TokenAlreadyUsed);
}
