use bent::clock::{now_seconds, UTC_MAX_TIMESTAMP, UTC_MIN_TIMESTAMP};
use bent::ids::{id_to_string, new_session_id, parse_id};

const SAMPLE: u128 = 0x0123_4567_89ab_cdef_0123_4567_89ab_cdef;

#[test]
fn identifier_text_is_hyphenated_lowercase() {
    assert_eq!(id_to_string(SAMPLE), "01234567-89ab-cdef-0123-456789abcdef");
    assert_eq!(id_to_string(0), "00000000-0000-0000-0000-000000000000");
    assert_eq!(id_to_string(u128::MAX), "ffffffff-ffff-ffff-ffff-ffffffffffff");
}

#[test]
fn identifier_text_reads_back() {
    assert_eq!(parse_id(&id_to_string(SAMPLE)), Some(SAMPLE));
    let fresh = new_session_id();
    assert_eq!(parse_id(&id_to_string(fresh)), Some(fresh));
}

#[test]
fn other_uuid_forms_are_read() {
    assert_eq!(parse_id("0123456789abcdef0123456789abcdef"), Some(SAMPLE));
    assert_eq!(parse_id("01234567-89AB-CDEF-0123-456789ABCDEF"), Some(SAMPLE));
}

#[test]
fn non_identifiers_are_refused() {
    assert_eq!(parse_id(""), None);
    assert_eq!(parse_id("12345"), None);
    assert_eq!(parse_id("admin@example.com"), None);
}

#[test]
fn session_identifiers_are_version_four_and_distinct() {
    let a = new_session_id();
    let b = new_session_id();
    assert_ne!(a, b);
    assert_eq!(id_to_string(a).chars().nth(14), Some('4'));
    for id in [a, b, new_session_id()] {
        let variant = id_to_string(id).chars().nth(19).unwrap();
        assert!("89ab".contains(variant));
    }
}

#[test]
fn clock_reads_the_current_second() {
    let before = std::time::SystemTime::now()
        .duration_since(std::time::UNIX_EPOCH)
        .unwrap()
        .as_secs() as i64;
    let now = now_seconds();
    assert!(UTC_MIN_TIMESTAMP <= now && now <= UTC_MAX_TIMESTAMP);
    assert!(now >= before && now <= before + 5);
}

#[test]
fn calendar_limits_are_chronos() {
    let max = chrono::DateTime::<chrono::Utc>::MAX_UTC.timestamp();
    let min = chrono::DateTime::<chrono::Utc>::MIN_UTC.timestamp();
    assert_eq!(UTC_MAX_TIMESTAMP, max);
    assert_eq!(UTC_MIN_TIMESTAMP, min);
}
