//! The service's records, requests and responses. Instants are Unix time in
//! microseconds; user and session identifiers are UUIDs as 128-bit values.
use vstd::prelude::*;

verus! {

// ---------- Submissions ----------

/// Where a submission stands: pending, being examined, approved or rejected.
#[derive(Debug, Clone, Copy, PartialEq, Eq, Structural)]
pub enum SubmissionStatus {
    Pending,
    InReview,
    Approved,
    Rejected,
}

/// Who filed a submission: an employee through a one-time link, or an
/// authorised user (an inspector) through a session.
#[derive(Debug, Clone, Copy, PartialEq, Eq, Structural)]
pub enum SubmissionType {
    Employee,
    Inspector,
}

/// The label of a status in the store's `submission_status` type
/// (lowercased variant names).
pub open spec fn status_label(status: SubmissionStatus) -> Seq<char> {
    match status {
        SubmissionStatus::Pending => "pending"@,
        SubmissionStatus::InReview => "inreview"@,
        SubmissionStatus::Approved => "approved"@,
        SubmissionStatus::Rejected => "rejected"@,
    }
}

/// The label of a submission type in the store (upper case).
pub open spec fn kind_label(kind: SubmissionType) -> Seq<char> {
    match kind {
        SubmissionType::Employee => "EMPLOYEE"@,
        SubmissionType::Inspector => "INSPECTOR"@,
    }
}

impl SubmissionStatus {
    /// The store's label of this status.
    pub fn label(&self) -> (text: String)
        ensures
            text@ == status_label(*self),
    {
        match self {
            SubmissionStatus::Pending => "pending".to_owned(),
            SubmissionStatus::InReview => "inreview".to_owned(),
            SubmissionStatus::Approved => "approved".to_owned(),
            SubmissionStatus::Rejected => "rejected".to_owned(),
        }
    }

    /// The status a store label names, if any.
    pub fn from_label(text: &str) -> (status: Option<SubmissionStatus>)
        ensures
            match status {
                Some(s) => status_label(s) == text@,
                None => forall|s: SubmissionStatus| #[trigger] status_label(s) != text@,
            },
    {
        let t = text.to_owned();
        if t == "pending".to_owned() {
            Some(SubmissionStatus::Pending)
        } else if t == "inreview".to_owned() {
            Some(SubmissionStatus::InReview)
        } else if t == "approved".to_owned() {
            Some(SubmissionStatus::Approved)
        } else if t == "rejected".to_owned() {
            Some(SubmissionStatus::Rejected)
        } else {
            None
        }
    }
}

impl SubmissionType {
    /// The store's label of this type.
    pub fn label(&self) -> (text: String)
        ensures
            text@ == kind_label(*self),
    {
        match self {
            SubmissionType::Employee => "EMPLOYEE".to_owned(),
            SubmissionType::Inspector => "INSPECTOR".to_owned(),
        }
    }

    /// The type a store label names, if any.
    pub fn from_label(text: &str) -> (kind: Option<SubmissionType>)
        ensures
            match kind {
                Some(k) => kind_label(k) == text@,
                None => forall|k: SubmissionType| #[trigger] kind_label(k) != text@,
            },
    {
        let t = text.to_owned();
        if t == "EMPLOYEE".to_owned() {
            Some(SubmissionType::Employee)
        } else if t == "INSPECTOR".to_owned() {
            Some(SubmissionType::Inspector)
        } else {
            None
        }
    }
}

/// Distinct statuses have distinct labels, so a label read back names the
/// status that was written.
pub proof fn lemma_status_labels_distinct(a: SubmissionStatus, b: SubmissionStatus)
    requires
        status_label(a) == status_label(b),
    ensures
        a == b,
{
    reveal_strlit("pending");
    reveal_strlit("inreview");
    reveal_strlit("approved");
    reveal_strlit("rejected");
    assert("pending"@[0] != "inreview"@[0]);
    assert("pending"@[0] != "approved"@[0]);
    assert("pending"@[0] != "rejected"@[0]);
    assert("inreview"@[0] != "approved"@[0]);
    assert("inreview"@[0] != "rejected"@[0]);
    assert("approved"@[0] != "rejected"@[0]);
}

/// Distinct submission types have distinct labels.
pub proof fn lemma_kind_labels_distinct(a: SubmissionType, b: SubmissionType)
    requires
        kind_label(a) == kind_label(b),
    ensures
        a == b,
{
    reveal_strlit("EMPLOYEE");
    reveal_strlit("INSPECTOR");
    assert("EMPLOYEE"@[0] != "INSPECTOR"@[0]);
}

/// Body of `POST /api/submissions`. `token` is the employee's one-time token;
/// an inspector sends none and is known from the session.
#[derive(Debug, Clone)]
pub struct CreateSubmissionRequest {
    pub department_id: i64,
    pub category_id: i64,
    pub text: String,
    pub file_url: Option<String>,
    pub channel: Option<String>,
    pub token: Option<String>,
}

/// A submission as stored and as returned.
#[derive(Debug, Clone)]
pub struct SubmissionResponse {
    pub id: i64,
    pub kind: SubmissionType,
    pub department_id: i64,
    pub category_id: i64,
    pub text: String,
    pub file_url: Option<String>,
    pub status: SubmissionStatus,
    pub reject_reason: Option<String>,
    pub channel: Option<String>,
    pub telegram_user_id: Option<i64>,
    pub created_by_user: Option<u128>,
    pub created_at: i64,
    pub updated_at: i64,
}

/// Query of `GET /api/admin/submissions`: optional filters and paging.
#[derive(Debug, Clone, Copy)]
pub struct ListSubmissionsQuery {
    pub status: Option<SubmissionStatus>,
    pub department_id: Option<i64>,
    pub category_id: Option<i64>,
    pub page: Option<i64>,
    pub per_page: Option<i64>,
}

/// Body of `PATCH /api/admin/submissions/{id}/status`.
#[derive(Debug, Clone)]
pub struct UpdateStatusRequest {
    pub status: SubmissionStatus,
    pub reject_reason: Option<String>,
    pub comment: Option<String>,
}

// ---------- One-time tokens ----------

/// Body of `POST /api/token/generate`, sent by the bot.
#[derive(Debug, Clone, Copy)]
pub struct GenerateTokenRequest {
    pub telegram_user_id: i64,
}

/// The new one-time token and the form link that carries it.
#[derive(Debug, Clone)]
pub struct GenerateTokenResponse {
    pub token: String,
    pub url: String,
}

/// Answer of `GET /api/token/validate/{token}`.
#[derive(Debug, Clone, Copy)]
pub struct ValidateTokenResponse {
    pub valid: bool,
}

// ---------- Inspector auth ----------

/// Body of `POST /api/inspector/auth`: sign-in by personnel number.
#[derive(Debug, Clone)]
pub struct InspectorAuthRequest {
    pub tabel_number: String,
}

/// Tokens and identity handed to a signed-in inspector.
#[derive(Debug, Clone)]
pub struct InspectorAuthResponse {
    pub token: String,
    pub refresh_token: String,
    pub user_id: u128,
    pub name_ru: String,
}

/// A bare token answer.
#[derive(Debug, Clone)]
pub struct AuthResponse {
    pub token: String,
}

// ---------- Credentials auth ----------

/// Email and password sign-in of an administrator.
#[derive(Debug, Clone)]
pub struct AdminLoginRequest {
    pub email: String,
    pub password: String,
}

/// Body of `POST /api/auth/login`.
#[derive(Debug, Clone)]
pub struct LoginRequest {
    pub email: String,
    pub password: String,
}

/// Tokens handed out by login and refresh.
#[derive(Debug, Clone)]
pub struct LoginResponse {
    pub access_token: String,
    pub refresh_token: String,
    pub user_id: u128,
}

/// Body of `POST /api/auth/refresh`.
#[derive(Debug, Clone)]
pub struct RefreshRequest {
    pub refresh_token: String,
}

/// Answer of `GET /api/auth/me`.
#[derive(Debug, Clone)]
pub struct MeResponse {
    pub id: u128,
    pub email: String,
    pub username: String,
    pub roles: Vec<String>,
}

// ---------- Role tokens ----------

/// Claims of a role token issued by `JwtService`: subject (personnel number
/// or email), role, expiry and issue time in seconds.
#[derive(Debug, Clone)]
pub struct Claims {
    pub sub: String,
    pub role: Role,
    pub exp: i64,
    pub iat: i64,
}

/// Role carried by a role token.
#[derive(Debug, Clone, Copy, PartialEq, Eq, Structural)]
pub enum Role {
    Inspector,
    Admin,
}

} // verus!
