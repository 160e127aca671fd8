use bent::models::{ListSubmissionsQuery, SubmissionStatus, SubmissionType};
use bent::submissions::{checked_page_window, page_window};

#[test]
fn status_labels_are_the_store_names() {
    assert_eq!(SubmissionStatus::Pending.label(), "pending");
    assert_eq!(SubmissionStatus::InReview.label(), "inreview");
    assert_eq!(SubmissionStatus::Approved.label(), "approved");
    assert_eq!(SubmissionStatus::Rejected.label(), "rejected");
}

#[test]
fn status_labels_read_back() {
    for s in [
        SubmissionStatus::Pending,
        SubmissionStatus::InReview,
        SubmissionStatus::Approved,
        SubmissionStatus::Rejected,
    ] {
        assert_eq!(SubmissionStatus::from_label(&s.label()), Some(s));
    }
    assert_eq!(SubmissionStatus::from_label("Pending"), None);
    assert_eq!(SubmissionStatus::from_label("in_review"), None);
    assert_eq!(SubmissionStatus::from_label(""), None);
}

#[test]
fn type_labels_read_back() {
    assert_eq!(SubmissionType::Employee.label(), "EMPLOYEE");
    assert_eq!(SubmissionType::Inspector.label(), "INSPECTOR");
    assert_eq!(SubmissionType::from_label("EMPLOYEE"), Some(SubmissionType::Employee));
    assert_eq!(SubmissionType::from_label("INSPECTOR"), Some(SubmissionType::Inspector));
    assert_eq!(SubmissionType::from_label("employee"), None);
}

#[test]
fn checked_window_agrees_where_the_offset_fits() {
    let q = ListSubmissionsQuery { status: None, department_id: Some(1), category_id: None, page: Some(4), per_page: Some(25) };
    let p = checked_page_window(&q).unwrap();
    let direct = page_window(&q);
    assert_eq!(p.limit, direct.limit);
    assert_eq!(p.offset, direct.offset);
    assert_eq!(p.offset, 75);
    assert_eq!(p.department_id, Some(1));
}

#[test]
fn checked_window_refuses_an_offset_past_i64() {
    let q = ListSubmissionsQuery { status: None, department_id: None, category_id: None, page: Some(i64::MAX), per_page: Some(100) };
    assert!(checked_page_window(&q).is_none());
    let last = ListSubmissionsQuery { page: Some(i64::MAX / 100 + 1), ..q };
    assert_eq!(checked_page_window(&last).unwrap().offset, (i64::MAX / 100) * 100);
}
