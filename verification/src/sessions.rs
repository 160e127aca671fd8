//! Refresh-token sessions: what is stored per session, the writes the
//! handlers make to the session table, and the rules of refresh (rotation,
//! expiry, and reuse detection).
use vstd::prelude::*;
use crate::crypto::{generate_refresh_token, hash_refresh_token, refresh_token_digest, TOKEN_LENGTH};
use crate::encoding::{all_ascii_alphanumeric, uuid_nibble};
use crate::ids::new_session_id;

verus! {

/// A row of the session table. Only the digest of the refresh token is
/// stored; `expires_at` is in microseconds.
#[derive(Debug, Clone)]
pub struct SessionRecord {
    pub id: u128,
    pub user_id: u128,
    pub refresh_token_hash: String,
    pub revoked: bool,
    pub expires_at: i64,
}

/// Session lifetime after an inspector signs in: a 12-hour shift.
pub const INSPECTOR_SESSION_TTL_MICROS: i64 = 43_200_000_000;

/// Session lifetime after a password login or a refresh: 30 days.
pub const LOGIN_SESSION_TTL_MICROS: i64 = 2_592_000_000_000;

/// A session to store, and the refresh token that goes to its user.
#[derive(Debug, Clone)]
pub struct NewSession {
    pub record: SessionRecord,
    pub refresh_token: String,
}

/// A write to the session table.
#[derive(Debug, Clone)]
pub enum SessionWrite {
    /// Store a new session.
    Insert(SessionRecord),
    /// Revoke one session (logout).
    Revoke { session_id: u128 },
    /// Revoke every session of a user (logout everywhere, or a reused
    /// refresh token).
    RevokeAllOf { user_id: u128 },
    /// Give a session a new refresh-token digest and expiry (refresh).
    Rotate { session_id: u128, refresh_token_hash: String, expires_at: i64 },
}

/// A record after one write to the table.
pub open spec fn record_after(r: SessionRecord, w: SessionWrite) -> SessionRecord {
    match w {
        SessionWrite::Insert(_) => r,
        SessionWrite::Revoke { session_id } => if r.id == session_id {
            SessionRecord { revoked: true, ..r }
        } else {
            r
        },
        SessionWrite::RevokeAllOf { user_id } => if r.user_id == user_id {
            SessionRecord { revoked: true, ..r }
        } else {
            r
        },
        SessionWrite::Rotate { session_id, refresh_token_hash, expires_at } => if r.id
            == session_id {
            SessionRecord { refresh_token_hash, expires_at, ..r }
        } else {
            r
        },
    }
}

/// The session table after one write.
pub open spec fn table_after(table: Seq<SessionRecord>, w: SessionWrite) -> Seq<SessionRecord> {
    match w {
        SessionWrite::Insert(r) => table.push(r),
        _ => table.map_values(|r: SessionRecord| record_after(r, w)),
    }
}

/// A new session for `user_id`, opened at `now` and lasting `ttl`
/// (microseconds), with a fresh random (version 4) identifier and refresh
/// token; the record holds the token's digest.
pub fn open_session(user_id: u128, now: i64, ttl: i64) -> (session: NewSession)
    requires
        0 <= ttl,
        now <= i64::MAX - ttl,
    ensures
        session.record.user_id == user_id,
        uuid_nibble(session.record.id, 12) == 4,
        8 <= uuid_nibble(session.record.id, 16) <= 11,
        !session.record.revoked,
        session.record.expires_at == now + ttl,
        session.record.refresh_token_hash@ == refresh_token_digest(session.refresh_token@),
        session.refresh_token@.len() == TOKEN_LENGTH,
        all_ascii_alphanumeric(session.refresh_token@),
{
    let id = new_session_id();
    let refresh_token = generate_refresh_token();
    let refresh_token_hash = hash_refresh_token(refresh_token.as_str());
    NewSession {
        record: SessionRecord { id, user_id, refresh_token_hash, revoked: false, expires_at: now + ttl },
        refresh_token,
    }
}

/// What a refresh does with the session its token's digest found.
#[derive(Debug, Clone)]
pub enum RefreshPlan {
    /// Refuse: no such session, or it has expired.
    Refuse,
    /// The token belongs to a revoked session: it was already used, so every
    /// session of its user is revoked and the refresh refused.
    RevokeAllAndRefuse(SessionWrite),
    /// Rotate the session to a new refresh token and issue tokens.
    Rotate { write: SessionWrite, session_id: u128, user_id: u128, refresh_token: String },
}

/// The standing of a looked-up session at `now` for a refresh.
pub enum RefreshStanding {
    Refuse,
    Reused { user_id: u128 },
    Rotate { session_id: u128, user_id: u128 },
}

/// Refresh rules: no session or an expired one is refused; a revoked one
/// counts as reuse of its token; otherwise the session is rotated. Reuse is
/// judged before expiry.
pub open spec fn refresh_standing(found: Option<SessionRecord>, now: i64) -> RefreshStanding {
    match found {
        None => RefreshStanding::Refuse,
        Some(s) => if s.revoked {
            RefreshStanding::Reused { user_id: s.user_id }
        } else if s.expires_at < now {
            RefreshStanding::Refuse
        } else {
            RefreshStanding::Rotate { session_id: s.id, user_id: s.user_id }
        },
    }
}

/// The plan carries out the standing: reuse revokes all the user's
/// sessions, rotation writes a new digest and a 30-day expiry for the
/// session and hands out the new token.
pub open spec fn plan_follows(plan: RefreshPlan, found: Option<SessionRecord>, now: i64) -> bool {
    match refresh_standing(found, now) {
        RefreshStanding::Refuse => plan is Refuse,
        RefreshStanding::Reused { user_id } => plan == RefreshPlan::RevokeAllAndRefuse(
            SessionWrite::RevokeAllOf { user_id },
        ),
        RefreshStanding::Rotate { session_id, user_id } => match plan {
            RefreshPlan::Rotate { write, session_id: sid, user_id: uid, refresh_token } => {
                &&& sid == session_id
                &&& uid == user_id
                &&& write matches SessionWrite::Rotate { session_id: w_sid, refresh_token_hash, expires_at }
                &&& w_sid == session_id
                &&& refresh_token_hash@ == refresh_token_digest(refresh_token@)
                &&& expires_at == now + LOGIN_SESSION_TTL_MICROS
                &&& refresh_token@.len() == TOKEN_LENGTH
                &&& all_ascii_alphanumeric(refresh_token@)
            },
            _ => false,
        },
    }
}

/// Decide a refresh for the session found by the presented token's digest,
/// at `now` (microseconds).
pub fn plan_refresh(found: Option<SessionRecord>, now: i64) -> (plan: RefreshPlan)
    requires
        now <= i64::MAX - LOGIN_SESSION_TTL_MICROS,
    ensures
        plan_follows(plan, found, now),
{
    match found {
        None => RefreshPlan::Refuse,
        Some(s) => {
            if s.revoked {
                RefreshPlan::RevokeAllAndRefuse(SessionWrite::RevokeAllOf { user_id: s.user_id })
            } else if s.expires_at < now {
                RefreshPlan::Refuse
            } else {
                let refresh_token = generate_refresh_token();
                let refresh_token_hash = hash_refresh_token(refresh_token.as_str());
                RefreshPlan::Rotate {
                    write: SessionWrite::Rotate {
                        session_id: s.id,
                        refresh_token_hash,
                        expires_at: now + LOGIN_SESSION_TTL_MICROS,
                    },
                    session_id: s.id,
                    user_id: s.user_id,
                    refresh_token,
                }
            }
        },
    }
}

/// Reuse detection: presenting the refresh token of a revoked session
/// revokes every session of that user, whatever else the table holds.
pub proof fn lemma_reuse_revokes_all_sessions(
    table: Seq<SessionRecord>,
    found: SessionRecord,
    now: i64,
    plan: RefreshPlan,
)
    requires
        found.revoked,
        plan_follows(plan, Some(found), now),
    ensures
        plan matches RefreshPlan::RevokeAllAndRefuse(w) && forall|i: int|
            0 <= i < table.len() && #[trigger] table[i].user_id == found.user_id
                ==> table_after(table, w)[i].revoked,
{
}

/// After logout revokes a session, its refresh token counts as reused.
pub proof fn lemma_refresh_after_logout(table: Seq<SessionRecord>, i: int, now: i64)
    requires
        0 <= i < table.len(),
    ensures
        refresh_standing(
            Some(table_after(table, SessionWrite::Revoke { session_id: table[i].id })[i]),
            now,
        ) == (RefreshStanding::Reused { user_id: table[i].user_id }),
{
}

/// Rotation replaces the session's digest with that of the new token and
/// extends its expiry, and leaves every other session as it was.
pub proof fn lemma_rotation_replaces_token(
    table: Seq<SessionRecord>,
    i: int,
    now: i64,
    plan: RefreshPlan,
)
    requires
        0 <= i < table.len(),
        forall|j: int| 0 <= j < table.len() && j != i ==> table[j].id != table[i].id,
        plan_follows(plan, Some(table[i]), now),
        !table[i].revoked,
        now <= table[i].expires_at,
    ensures
        plan matches RefreshPlan::Rotate { write, refresh_token, .. } && {
            let after = table_after(table, write);
            &&& after[i].refresh_token_hash@ == refresh_token_digest(refresh_token@)
            &&& after[i].expires_at == now + LOGIN_SESSION_TTL_MICROS
            &&& after[i].id == table[i].id && after[i].user_id == table[i].user_id
            &&& !after[i].revoked
            &&& forall|j: int| 0 <= j < table.len() && j != i ==> #[trigger] after[j] == table[j]
        },
{
}

/// A session that has expired is refused and never rotated.
pub proof fn lemma_expired_session_refused(found: SessionRecord, now: i64)
    requires
        !found.revoked,
        found.expires_at < now,
    ensures
        refresh_standing(Some(found), now) is Refuse,
{
}

/// A refresh token is exchanged at most once: when its digest names one
/// session and that session is rotated to a token with another digest, no
/// session carries the old digest any more, so presenting the old token again
/// finds nothing and is refused.
pub proof fn lemma_refresh_token_exchanged_once(
    table: Seq<SessionRecord>,
    i: int,
    now: i64,
    later: i64,
    plan: RefreshPlan,
)
    requires
        0 <= i < table.len(),
        forall|j: int|
            0 <= j < table.len() && #[trigger] table[j].refresh_token_hash@
                == table[i].refresh_token_hash@ ==> table[j].id == table[i].id,
        plan_follows(plan, Some(table[i]), now),
        !table[i].revoked,
        now <= table[i].expires_at,
    ensures
        plan matches RefreshPlan::Rotate { write, refresh_token, .. } && (refresh_token_digest(
            refresh_token@,
        ) != table[i].refresh_token_hash@ ==> {
            &&& forall|j: int|
                0 <= j < table.len() ==> #[trigger] table_after(table, write)[j].refresh_token_hash@
                    != table[i].refresh_token_hash@
            &&& refresh_standing(None, later) is Refuse
        }),
{
    if let RefreshPlan::Rotate { write, refresh_token, .. } = plan {
        if refresh_token_digest(refresh_token@) != table[i].refresh_token_hash@ {
            assert forall|j: int| 0 <= j < table.len() implies #[trigger] table_after(
                table,
                write,
            )[j].refresh_token_hash@ != table[i].refresh_token_hash@ by {
                if table[j].refresh_token_hash@ == table[i].refresh_token_hash@ {
                    assert(table[j].id == table[i].id);
                }
            }
        }
    }
}

} // verus!
