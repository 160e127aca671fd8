use bent::crypto::hash_refresh_token;
use bent::sessions::{
    open_session, plan_refresh, RefreshPlan, SessionRecord, SessionWrite,
    INSPECTOR_SESSION_TTL_MICROS, LOGIN_SESSION_TTL_MICROS,
};

fn record(id: u128, user_id: u128, revoked: bool, expires_at: i64) -> SessionRecord {
    SessionRecord {
        id,
        user_id,
        refresh_token_hash: hash_refresh_token("old-token"),
        revoked,
        expires_at,
    }
}

/// The session table after a write, as the store applies it.
fn apply(table: &mut Vec<SessionRecord>, write: &SessionWrite) {
    match write {
        SessionWrite::Insert(r) => table.push(r.clone()),
        SessionWrite::Revoke { session_id } => {
            for r in table.iter_mut().filter(|r| r.id == *session_id) {
                r.revoked = true;
            }
        }
        SessionWrite::RevokeAllOf { user_id } => {
            for r in table.iter_mut().filter(|r| r.user_id == *user_id) {
                r.revoked = true;
            }
        }
        SessionWrite::Rotate { session_id, refresh_token_hash, expires_at } => {
            for r in table.iter_mut().filter(|r| r.id == *session_id) {
                r.refresh_token_hash = refresh_token_hash.clone();
                r.expires_at = *expires_at;
            }
        }
    }
}

#[test]
fn opened_session_stores_only_the_digest() {
    let now: i64 = 1_000_000;
    let s = open_session(9, now, INSPECTOR_SESSION_TTL_MICROS);
    assert_eq!(s.record.user_id, 9);
    assert!(!s.record.revoked);
    assert_eq!(s.record.expires_at, now + 12 * 3600 * 1_000_000);
    assert_eq!(s.refresh_token.len(), 64);
    assert!(s.refresh_token.chars().all(|c| c.is_ascii_alphanumeric()));
    assert_eq!(s.record.refresh_token_hash, hash_refresh_token(&s.refresh_token));
    assert_ne!(s.record.refresh_token_hash, s.refresh_token);
    let other = open_session(9, now, INSPECTOR_SESSION_TTL_MICROS);
    assert_ne!(s.record.id, other.record.id);
    assert_ne!(s.refresh_token, other.refresh_token);
}

#[test]
fn unknown_refresh_token_is_refused() {
    assert!(matches!(plan_refresh(None, 0), RefreshPlan::Refuse));
}

#[test]
fn expired_session_is_refused() {
    let plan = plan_refresh(Some(record(1, 2, false, 100)), 101);
    assert!(matches!(plan, RefreshPlan::Refuse));
}

#[test]
fn session_valid_at_its_expiry_is_rotated() {
    let plan = plan_refresh(Some(record(1, 2, false, 100)), 100);
    assert!(matches!(plan, RefreshPlan::Rotate { .. }));
}

#[test]
fn reused_refresh_token_revokes_every_session_of_the_user() {
    let mut table = vec![
        record(1, 7, true, 10_000),
        record(2, 7, false, 10_000),
        record(3, 8, false, 10_000),
        record(4, 7, false, 10_000),
    ];
    let plan = plan_refresh(Some(table[0].clone()), 50);
    let write = match plan {
        RefreshPlan::RevokeAllAndRefuse(w) => w,
        _ => panic!("a revoked session must be treated as reuse"),
    };
    assert!(matches!(write, SessionWrite::RevokeAllOf { user_id: 7 }));
    apply(&mut table, &write);
    assert!(table[0].revoked && table[1].revoked && table[3].revoked);
    assert!(!table[2].revoked);
}

#[test]
fn reuse_is_judged_before_expiry() {
    let plan = plan_refresh(Some(record(1, 7, true, 10)), 1_000);
    assert!(matches!(plan, RefreshPlan::RevokeAllAndRefuse(SessionWrite::RevokeAllOf { user_id: 7 })));
}

#[test]
fn rotation_replaces_the_digest_and_extends_the_session() {
    let now: i64 = 5_000;
    let mut table = vec![record(1, 7, false, 10_000), record(2, 7, false, 10_000)];
    let before_other = table[1].clone();
    let plan = plan_refresh(Some(table[0].clone()), now);
    let (write, refresh_token) = match plan {
        RefreshPlan::Rotate { write, session_id, user_id, refresh_token } => {
            assert_eq!(session_id, 1);
            assert_eq!(user_id, 7);
            (write, refresh_token)
        }
        _ => panic!("a live session must be rotated"),
    };
    assert_eq!(refresh_token.len(), 64);
    apply(&mut table, &write);
    assert_eq!(table[0].refresh_token_hash, hash_refresh_token(&refresh_token));
    assert_ne!(table[0].refresh_token_hash, hash_refresh_token("old-token"));
    assert_eq!(table[0].expires_at, now + LOGIN_SESSION_TTL_MICROS);
    assert!(!table[0].revoked);
    assert_eq!(table[1].refresh_token_hash, before_other.refresh_token_hash);
    assert_eq!(table[1].expires_at, before_other.expires_at);
}

#[test]
fn refresh_after_logout_counts_as_reuse() {
    let mut table = vec![record(1, 7, false, 10_000), record(2, 7, false, 10_000)];
    apply(&mut table, &SessionWrite::Revoke { session_id: 1 });
    assert!(table[0].revoked);
    assert!(!table[1].revoked);
    let plan = plan_refresh(Some(table[0].clone()), 0);
    assert!(matches!(plan, RefreshPlan::RevokeAllAndRefuse(SessionWrite::RevokeAllOf { user_id: 7 })));
}

#[test]
fn session_lifetimes() {
    assert_eq!(INSPECTOR_SESSION_TTL_MICROS, 12 * 3600 * 1_000_000);
    assert_eq!(LOGIN_SESSION_TTL_MICROS, 30 * 24 * 3600 * 1_000_000);
}

#[test]
fn refresh_token_is_exchanged_once() {
    let old_digest = hash_refresh_token("old-token");
    let mut table = vec![record(1, 7, false, 10_000), record(2, 8, false, 10_000)];
    table[1].refresh_token_hash = hash_refresh_token("other");
    let write = match plan_refresh(Some(table[0].clone()), 5_000) {
        RefreshPlan::Rotate { write, .. } => write,
        _ => panic!("a live session must be rotated"),
    };
    apply(&mut table, &write);
    let again = table.iter().find(|r| r.refresh_token_hash == old_digest).cloned();
    assert!(again.is_none());
    assert!(matches!(plan_refresh(again, 5_001), RefreshPlan::Refuse));
}

#[test]
fn session_identifiers_are_version_four() {
    let s = open_session(9, 0, LOGIN_SESSION_TTL_MICROS);
    let text = bent::ids::id_to_string(s.record.id);
    assert_eq!(text.chars().nth(14), Some('4'));
    assert!("89ab".contains(text.chars().nth(19).unwrap()));
}
