//! Submissions: who may file one and as whom, the page of the administrators'
//! list, and the status changes that their decisions record.
use vstd::prelude::*;
use crate::auth::jwt::Claims;
use crate::encoding::uuid_text;
use crate::error::AppError;
use crate::ids::{parse_id, uuid_parsed};
use crate::models::{
    CreateSubmissionRequest, ListSubmissionsQuery, SubmissionStatus, SubmissionType,
    UpdateStatusRequest,
};
use crate::tokens::{check_token_row, spent, token_refusal, token_status, OneTimeToken, TokenStatus};

verus! {

/// A submission to insert (its status starts as pending).
#[derive(Debug, Clone)]
pub struct NewSubmission {
    pub kind: SubmissionType,
    pub department_id: i64,
    pub category_id: i64,
    pub text: String,
    pub file_url: Option<String>,
    pub channel: Option<String>,
    pub telegram_user_id: Option<i64>,
    pub created_by_user: Option<u128>,
}

/// How a submission request is authorised.
#[derive(Debug, Clone)]
pub enum SubmissionOrigin {
    /// An employee with a one-time token.
    Employee(String),
    /// A signed-in user, by the claims of the session's access token.
    Authorized(Claims),
}

/// A signed-in user's session decides: a token that such a request carries
/// is ignored and the user of the session files it. A request without a
/// session is an employee's when it carries a one-time token, else refused.
pub fn submission_origin(token: Option<String>, claims: Option<Claims>) -> (origin: Result<
    SubmissionOrigin,
    AppError,
>)
    ensures
        claims matches Some(c) ==> (origin matches Ok(SubmissionOrigin::Authorized(d)) && d == c),
        claims is None && token is Some ==> (origin matches Ok(SubmissionOrigin::Employee(u))
            && u == token.unwrap()),
        claims is None && token is None ==> (origin matches Err(AppError::BadRequest(reason))
            && reason@ == "either token or a valid session is required"@),
{
    match (token, claims) {
        (_, Some(c)) => Ok(SubmissionOrigin::Authorized(c)),
        (Some(t), None) => Ok(SubmissionOrigin::Employee(t)),
        (None, None) => Err(
            AppError::BadRequest("either token or a valid session is required".to_owned()),
        ),
    }
}

/// The request's own fields are what is stored.
pub open spec fn carries_request(s: NewSubmission, req: CreateSubmissionRequest) -> bool {
    s.department_id == req.department_id && s.category_id == req.category_id && s.text == req.text
        && s.file_url == req.file_url && s.channel == req.channel
}

/// An employee's submission through the token row the lookup found, at
/// `now` (microseconds): refused as the token check refuses; else filed as an
/// employee submission of the token's Telegram user, together with the token
/// row to write back, spent. Both are written in one transaction, so the token
/// yields this submission and no other.
pub fn employee_submission(
    req: CreateSubmissionRequest,
    row: Option<OneTimeToken>,
    now: i64,
) -> (submission: Result<(NewSubmission, OneTimeToken), AppError>)
    ensures
        token_status(row, now) != TokenStatus::Usable ==> submission == Err::<
            (NewSubmission, OneTimeToken),
            AppError,
        >(token_refusal(token_status(row, now))),
        token_status(row, now) == TokenStatus::Usable ==> (submission matches Ok((s, written)) && {
            &&& s.kind == SubmissionType::Employee
            &&& carries_request(s, req)
            &&& s.telegram_user_id == Some(row.unwrap().telegram_user_id)
            &&& s.created_by_user is None
            &&& written == spent(row.unwrap())
        }),
{
    let mut token = match check_token_row(row, now) {
        Ok(t) => t,
        Err(e) => return Err(e),
    };
    let submission = NewSubmission {
        kind: SubmissionType::Employee,
        department_id: req.department_id,
        category_id: req.category_id,
        text: req.text,
        file_url: req.file_url,
        channel: req.channel,
        telegram_user_id: Some(token.telegram_user_id),
        created_by_user: None,
    };
    token.consume();
    Ok((submission, token))
}

/// A one-time token yields at most one submission: the row that a successful
/// employee submission writes back is refused as already used at every later
/// instant, by the submission flow and by validation alike.
pub proof fn lemma_token_yields_one_submission(row: Option<OneTimeToken>, now: i64, later: i64)
    requires
        token_status(row, now) == TokenStatus::Usable,
    ensures
        token_status(Some(spent(row.unwrap())), later) == TokenStatus::Used,
        token_refusal(token_status(Some(spent(row.unwrap())), later)) == AppError::TokenAlreadyUsed,
{
}

/// The user named by the `sub` of access-token claims.
pub fn claims_user_id(claims: &Claims) -> (user_id: Result<u128, AppError>)
    ensures
        match uuid_parsed(claims.sub@) {
            Some(u) => user_id == Ok::<u128, AppError>(u),
            None => user_id == Err::<u128, AppError>(AppError::Unauthorized),
        },
        forall|u: u128| #[trigger] uuid_text(u) == claims.sub@ ==> user_id == Ok::<u128, AppError>(u),
{
    match parse_id(claims.sub.as_str()) {
        Some(u) => Ok(u),
        None => Err(AppError::Unauthorized),
    }
}

/// A signed-in user's submission: filed as an inspector submission created
/// by the user of the claims; claims without a readable user are refused.
pub fn authorized_submission(req: CreateSubmissionRequest, claims: &Claims) -> (submission: Result<
    NewSubmission,
    AppError,
>)
    ensures
        uuid_parsed(claims.sub@) is None ==> submission == Err::<NewSubmission, AppError>(
            AppError::Unauthorized,
        ),
        uuid_parsed(claims.sub@) matches Some(u) ==> (submission matches Ok(s) && {
            &&& s.kind == SubmissionType::Inspector
            &&& carries_request(s, req)
            &&& s.telegram_user_id is None
            &&& s.created_by_user == Some(u)
        }),
{
    let user_id = match claims_user_id(claims) {
        Ok(u) => u,
        Err(e) => return Err(e),
    };
    Ok(NewSubmission {
        kind: SubmissionType::Inspector,
        department_id: req.department_id,
        category_id: req.category_id,
        text: req.text,
        file_url: req.file_url,
        channel: req.channel,
        telegram_user_id: None,
        created_by_user: Some(user_id),
    })
}

/// Page size when the query gives none.
pub const DEFAULT_PAGE_SIZE: i64 = 20;

/// Largest page size.
pub const MAX_PAGE_SIZE: i64 = 100;

/// The page asked for, at least 1.
pub open spec fn page_number(query: ListSubmissionsQuery) -> int {
    let page = match query.page {
        Some(p) => p as int,
        None => 1,
    };
    if page < 1 {
        1
    } else {
        page
    }
}

/// The page size asked for, brought into 1..=100 (20 when absent).
pub open spec fn page_size(query: ListSubmissionsQuery) -> int {
    let size = match query.per_page {
        Some(n) => n as int,
        None => DEFAULT_PAGE_SIZE as int,
    };
    if size < 1 {
        1
    } else if size > MAX_PAGE_SIZE {
        MAX_PAGE_SIZE as int
    } else {
        size
    }
}

/// The slice of the administrators' list to read, newest first.
#[derive(Debug, Clone, Copy)]
pub struct SubmissionPage {
    pub status: Option<SubmissionStatus>,
    pub department_id: Option<i64>,
    pub category_id: Option<i64>,
    pub limit: i64,
    pub offset: i64,
}

/// The page number of a query, at least 1.
fn page_of(query: &ListSubmissionsQuery) -> (page: i64)
    ensures
        page == page_number(*query),
        page >= 1,
{
    let page = match query.page {
        Some(p) => p,
        None => 1,
    };
    if page < 1 {
        1
    } else {
        page
    }
}

/// The page size of a query, within 1..=100.
fn size_of(query: &ListSubmissionsQuery) -> (size: i64)
    ensures
        size == page_size(*query),
        1 <= size <= MAX_PAGE_SIZE,
{
    let size = match query.per_page {
        Some(n) => n,
        None => DEFAULT_PAGE_SIZE,
    };
    if size < 1 {
        1
    } else if size > MAX_PAGE_SIZE {
        MAX_PAGE_SIZE
    } else {
        size
    }
}

/// The window of a query: its filters, `limit` the page size and `offset`
/// the rows of the pages before.
pub open spec fn window_of(query: ListSubmissionsQuery, page: SubmissionPage) -> bool {
    &&& page.status == query.status
    &&& page.department_id == query.department_id
    &&& page.category_id == query.category_id
    &&& page.limit == page_size(query)
    &&& page.offset == (page_number(query) - 1) * page_size(query)
}

/// The filters and window of a list query: page size `limit`, and `offset`
/// the rows of the pages before.
pub fn page_window(query: &ListSubmissionsQuery) -> (page: SubmissionPage)
    requires
        (page_number(*query) - 1) * page_size(*query) <= i64::MAX,
    ensures
        window_of(*query, page),
        1 <= page.limit <= MAX_PAGE_SIZE,
        0 <= page.offset,
{
    let page = page_of(query);
    let per_page = size_of(query);
    assert(0 <= (page - 1) * per_page) by (nonlinear_arith)
        requires
            page >= 1,
            per_page >= 1,
    ;
    let offset = (page - 1) * per_page;
    SubmissionPage {
        status: query.status,
        department_id: query.department_id,
        category_id: query.category_id,
        limit: per_page,
        offset,
    }
}

/// The window of a list query, or `None` where the offset of the page asked
/// for does not fit an `i64`.
pub fn checked_page_window(query: &ListSubmissionsQuery) -> (page: Option<SubmissionPage>)
    ensures
        (page_number(*query) - 1) * page_size(*query) <= i64::MAX ==> (page matches Some(p)
            && window_of(*query, p)),
        (page_number(*query) - 1) * page_size(*query) > i64::MAX ==> page is None,
{
    let page = page_of(query);
    let per_page = size_of(query);
    assert(0 <= (page - 1) * per_page) by (nonlinear_arith)
        requires
            page >= 1,
            per_page >= 1,
    ;
    match (page - 1).checked_mul(per_page) {
        Some(_) => Some(page_window(query)),
        None => None,
    }
}

/// Consecutive pages do not overlap and leave no gap: page `n + 1` starts
/// where page `n` ends.
pub proof fn lemma_pages_tile(query: ListSubmissionsQuery, next: ListSubmissionsQuery)
    requires
        query.per_page == next.per_page,
        next.page == Some((page_number(query) + 1) as i64),
        page_number(query) + 1 <= i64::MAX,
    ensures
        (page_number(next) - 1) * page_size(next) == (page_number(query) - 1) * page_size(query)
            + page_size(query),
{
    assert(page_size(next) == page_size(query));
    assert((page_number(query) + 1 - 1) * page_size(query) == (page_number(query) - 1) * page_size(
        query,
    ) + page_size(query)) by (nonlinear_arith);
}

/// A decision on a submission to record: the new status, and a history entry from
/// the old status to the new one.
#[derive(Debug, Clone)]
pub struct StatusChange {
    pub submission_id: i64,
    pub old_status: SubmissionStatus,
    pub new_status: SubmissionStatus,
    pub reject_reason: Option<String>,
    pub changed_by: u128,
    pub comment: Option<String>,
}

/// The reason a rejection must give.
pub open spec fn missing_reason_refusal() -> Seq<char> {
    "reject_reason is required when rejecting a submission"@
}

/// Check a status update before it touches the store: a rejection without
/// a reason is refused, then the user making the change must be readable.
pub fn check_status_update(req: &UpdateStatusRequest, claims: &Claims) -> (changed_by: Result<
    u128,
    AppError,
>)
    ensures
        req.status == SubmissionStatus::Rejected && req.reject_reason is None ==> (
        changed_by matches Err(AppError::BadRequest(reason)) && reason@ == missing_reason_refusal()),
        !(req.status == SubmissionStatus::Rejected && req.reject_reason is None) ==> match uuid_parsed(
            claims.sub@,
        ) {
            Some(u) => changed_by == Ok::<u128, AppError>(u),
            None => changed_by == Err::<u128, AppError>(AppError::Unauthorized),
        },
{
    if req.status == SubmissionStatus::Rejected && req.reject_reason.is_none() {
        return Err(
            AppError::BadRequest(
                "reject_reason is required when rejecting a submission".to_owned(),
            ),
        );
    }
    claims_user_id(claims)
}

/// The change for submission `id`, whose stored status the lookup found (or
/// not): a missing submission is refused, else the change goes from the
/// stored status to the requested one, by `changed_by`.
pub fn status_change(
    id: i64,
    current: Option<SubmissionStatus>,
    req: UpdateStatusRequest,
    changed_by: u128,
) -> (change: Result<StatusChange, AppError>)
    ensures
        current is None ==> change == Err::<StatusChange, AppError>(AppError::SubmissionNotFound),
        current matches Some(old) ==> (change matches Ok(c) && {
            &&& c.submission_id == id
            &&& c.old_status == old
            &&& c.new_status == req.status
            &&& c.reject_reason == req.reject_reason
            &&& c.comment == req.comment
            &&& c.changed_by == changed_by
        }),
{
    match current {
        None => Err(AppError::SubmissionNotFound),
        Some(old) => Ok(StatusChange {
            submission_id: id,
            old_status: old,
            new_status: req.status,
            reject_reason: req.reject_reason,
            changed_by,
            comment: req.comment,
        }),
    }
}

} // verus!
