//! Short-lived access tokens: HS256 JWTs carrying the user (`sub`), the
//! session (`sid`) and the expiry (`exp`).
use vstd::prelude::*;
use crate::clock::{now_seconds, UTC_MAX_TIMESTAMP, UTC_MIN_TIMESTAMP};
use crate::encoding::uuid_text;
use crate::ids::id_to_string;
use crate::jwt_codec::{
    claims_map, decode_claims, encodable, encode_claims, expired, find_claim, hs256_payload,
    hs256_token, int_claim, payload_object, survives_decoding, text_claim, token_clock, ClaimList,
    ClaimValue, ClaimView, ClaimsObject, EXPIRY_LEEWAY_SECS,
};

verus! {

/// The claims of an access token.
#[derive(Debug, Clone)]
pub struct Claims {
    pub sub: String,
    pub sid: String,
    pub exp: usize,
}

/// Why an access token could not be made or read.
#[derive(Debug, Clone, Copy, PartialEq, Eq)]
pub enum JwtError {
    Encode,
    Decode,
}

/// Lifetime of an access token: 15 minutes.
pub const ACCESS_TOKEN_TTL_SECS: i64 = 900;

/// The `exp` of an access token issued at `issued_at` (seconds), as the
/// `usize` that the claims hold.
pub open spec fn access_expiry(issued_at: i64) -> usize {
    (issued_at + ACCESS_TOKEN_TTL_SECS) as usize
}

/// The payload of an access token.
pub open spec fn access_payload(sub: Seq<char>, sid: Seq<char>, exp: int) -> ClaimsObject {
    Map::<Seq<char>, ClaimView>::empty().insert("sub"@, ClaimView::Text(sub)).insert(
        "sid"@,
        ClaimView::Text(sid),
    ).insert("exp"@, ClaimView::Int(exp))
}

/// What deserializing `Claims` reads from a payload: `sub` and `sid` strings
/// and an `exp` that fits a `usize`.
pub open spec fn access_claims_in(claims: ClaimsObject) -> Option<(Seq<char>, Seq<char>, int)> {
    match (text_claim(claims, "sub"@), text_claim(claims, "sid"@), int_claim(claims, "exp"@)) {
        (Some(sub), Some(sid), Some(exp)) => if 0 <= exp <= usize::MAX {
            Some((sub, sid, exp))
        } else {
            None
        },
        _ => None,
    }
}

/// A checked payload whose claims read as access-token claims.
pub open spec fn readable_access_payload(payload: Option<ClaimsObject>) -> bool {
    payload matches Some(claims) && access_claims_in(claims) is Some
}

/// The claims that verification accepts from a checked payload at time
/// `now`: readable claims whose `exp` has not passed beyond the leeway.
pub open spec fn accepted_access_claims(payload: Option<ClaimsObject>, now: u64) -> Option<
    (Seq<char>, Seq<char>, int),
> {
    match payload {
        Some(claims) => match access_claims_in(claims) {
            Some(c) => if expired(c.2, now) {
                None
            } else {
                Some(c)
            },
            None => None,
        },
        None => None,
    }
}

/// `claims` holds exactly the given sub, sid and exp.
pub open spec fn claims_are(claims: Claims, fields: (Seq<char>, Seq<char>, int)) -> bool {
    claims.sub@ == fields.0 && claims.sid@ == fields.1 && claims.exp as int == fields.2
}

/// The three claim names are distinct and differ from `aud`.
proof fn lemma_access_names_distinct()
    ensures
        "sub"@ != "sid"@,
        "sub"@ != "exp"@,
        "sid"@ != "exp"@,
        "aud"@ != "sub"@,
        "aud"@ != "sid"@,
        "aud"@ != "exp"@,
{
    reveal_strlit("sub");
    reveal_strlit("sid");
    reveal_strlit("exp");
    reveal_strlit("aud");
    assert("sub"@[1] != "sid"@[1]);
    assert("sub"@[0] != "exp"@[0]);
    assert("sid"@[0] != "exp"@[0]);
    assert("aud"@[0] != "sub"@[0]);
    assert("aud"@[0] != "sid"@[0]);
    assert("aud"@[0] != "exp"@[0]);
}

/// An access payload reads back as its own claims and survives decoding.
pub proof fn lemma_access_payload_reads_back(sub: Seq<char>, sid: Seq<char>, exp: int)
    requires
        0 <= exp <= usize::MAX,
    ensures
        access_claims_in(access_payload(sub, sid, exp)) == Some((sub, sid, exp)),
        survives_decoding(access_payload(sub, sid, exp)),
{
    lemma_access_names_distinct();
    let m = access_payload(sub, sid, exp);
    assert(m.dom() =~= set!["sub"@, "sid"@, "exp"@]);
    assert forall|k: Seq<char>| #[trigger] m.contains_key(k) implies encodable(m[k]) by {
        if k == "exp"@ {
        } else if k == "sid"@ {
        } else {
        }
    }
}

/// The claim list written into an access token.
fn access_claim_list(sub: String, sid: String, exp: usize) -> (claims: ClaimList)
    ensures
        claims_map(claims@) == access_payload(sub@, sid@, exp as int),
        forall|i: int| 0 <= i < claims@.len() ==> encodable(#[trigger] claims@[i].1@),
{
    let ghost sub_text = sub@;
    let ghost sid_text = sid@;
    let mut claims: ClaimList = Vec::new();
    claims.push(("sub".to_owned(), ClaimValue::Text(sub)));
    claims.push(("sid".to_owned(), ClaimValue::Text(sid)));
    claims.push(("exp".to_owned(), ClaimValue::Int(exp as i128)));
    proof {
        let s = claims@;
        let s1 = s.drop_last().drop_last();
        assert(s1.len() == 1 && s1.last() == s[0]);
        assert(s1.drop_last() =~= Seq::<(String, ClaimValue)>::empty());
        assert(claims_map(s1.drop_last()) == Map::<Seq<char>, ClaimView>::empty());
        assert(claims_map(s.drop_last().drop_last()) =~= Map::<Seq<char>, ClaimView>::empty().insert(
            "sub"@,
            ClaimView::Text(sub_text),
        ));
        assert(claims_map(s.drop_last()) =~= claims_map(s.drop_last().drop_last()).insert(
            "sid"@,
            ClaimView::Text(sid_text),
        ));
    }
    claims
}

/// A reading (seconds) at which an access token can be issued: its expiry,
/// 15 minutes on, is an instant that chrono holds (beyond it chrono's
/// addition panics).
pub open spec fn access_issuable(now: i64) -> bool {
    UTC_MIN_TIMESTAMP <= now <= UTC_MAX_TIMESTAMP - ACCESS_TOKEN_TTL_SECS
}

/// The access token for `user_id` in session `session_id` issued at `now`.
pub open spec fn access_token_for(user_id: u128, session_id: u128, secret: Seq<u8>, now: i64) -> Seq<
    char,
> {
    hs256_token(
        access_payload(uuid_text(user_id), uuid_text(session_id), access_expiry(now) as int),
        secret,
    )
}

/// `token` is what issuing an access token at `now` gives: the token where
/// the reading allows one, else `Encode`.
pub open spec fn access_token_issued(
    token: Result<String, JwtError>,
    user_id: u128,
    session_id: u128,
    secret: Seq<u8>,
    now: i64,
) -> bool {
    match token {
        Ok(t) => access_issuable(now) && t@ == access_token_for(user_id, session_id, secret, now),
        Err(e) => !access_issuable(now) && e == JwtError::Encode,
    }
}

/// Access token for `user_id` in session `session_id`, issued at `now`
/// (seconds): `sub` and `sid` are the hyphenated identifiers and `exp` is 15
/// minutes later. Where that expiry is not an instant chrono holds, `Encode`.
/// A token that comes back decodes to its payload.
pub fn create_access_token_at(user_id: u128, session_id: u128, secret: &[u8], now: i64) -> (token:
    Result<String, JwtError>)
    ensures
        access_issuable(now) ==> (token matches Ok(t) && t@ == access_token_for(
            user_id,
            session_id,
            secret@,
            now,
        )),
        !access_issuable(now) ==> token == Err::<String, JwtError>(JwtError::Encode),
        token matches Ok(t) ==> hs256_payload(t@, secret@) == Some(
            access_payload(uuid_text(user_id), uuid_text(session_id), access_expiry(now) as int),
        ),
        access_token_issued(token, user_id, session_id, secret@, now),
{
    if now < UTC_MIN_TIMESTAMP || now > UTC_MAX_TIMESTAMP - ACCESS_TOKEN_TTL_SECS {
        return Err(JwtError::Encode);
    }
    let exp = (now + ACCESS_TOKEN_TTL_SECS) as usize;
    let claims = access_claim_list(id_to_string(user_id), id_to_string(session_id), exp);
    proof {
        lemma_access_payload_reads_back(uuid_text(user_id), uuid_text(session_id), exp as int);
    }
    match encode_claims(&claims, secret) {
        Some(t) => Ok(t),
        None => Err(JwtError::Encode),
    }
}

/// Access token for `user_id` in session `session_id`, issued now: what
/// `create_access_token_at` gives at the clock's reading.
pub fn create_access_token(user_id: u128, session_id: u128, secret: &[u8]) -> (token: Result<
    String,
    JwtError,
>)
    ensures
        exists|now: i64|
            UTC_MIN_TIMESTAMP <= now <= UTC_MAX_TIMESTAMP && #[trigger] access_token_issued(
                token,
                user_id,
                session_id,
                secret@,
                now,
            ),
        token matches Ok(t) ==> exists|now: i64|
            UTC_MIN_TIMESTAMP <= now <= UTC_MAX_TIMESTAMP - ACCESS_TOKEN_TTL_SECS && hs256_payload(
                t@,
                secret@,
            ) == Some(
                access_payload(uuid_text(user_id), uuid_text(session_id), access_expiry(now) as int),
            ),
{
    create_access_token_at(user_id, session_id, secret, now_seconds())
}

/// The claims of a checked payload, judged at `now` (seconds): the exact
/// counterpart of deserializing `Claims` and default expiry validation.
pub fn access_claims_from_payload(payload: Option<ClaimList>, now: u64) -> (claims: Result<
    Claims,
    JwtError,
>)
    ensures
        match accepted_access_claims(payload_object(payload), now) {
            Some(fields) => claims matches Ok(c) && claims_are(c, fields),
            None => claims == Err::<Claims, JwtError>(JwtError::Decode),
        },
{
    let entries = match payload {
        Some(v) => v,
        None => return Err(JwtError::Decode),
    };
    let sub = match find_claim(&entries, &"sub".to_owned()) {
        Some(ClaimValue::Text(t)) => t.clone(),
        _ => return Err(JwtError::Decode),
    };
    let sid = match find_claim(&entries, &"sid".to_owned()) {
        Some(ClaimValue::Text(t)) => t.clone(),
        _ => return Err(JwtError::Decode),
    };
    let exp = match find_claim(&entries, &"exp".to_owned()) {
        Some(ClaimValue::Int(i)) => *i,
        _ => return Err(JwtError::Decode),
    };
    if exp < 0 || exp > usize::MAX as i128 {
        return Err(JwtError::Decode);
    }
    if now >= EXPIRY_LEEWAY_SECS && exp < (now - EXPIRY_LEEWAY_SECS) as i128 {
        return Err(JwtError::Decode);
    }
    Ok(Claims { sub, sid, exp: exp as usize })
}

/// The claims of `token` under `secret`, judged at `now` (seconds).
pub fn verify_access_token_at(token: &str, secret: &[u8], now: u64) -> (claims: Result<
    Claims,
    JwtError,
>)
    ensures
        match accepted_access_claims(hs256_payload(token@, secret@), now) {
            Some(fields) => claims matches Ok(c) && claims_are(c, fields),
            None => claims == Err::<Claims, JwtError>(JwtError::Decode),
        },
{
    let payload = decode_claims(token, secret);
    access_claims_from_payload(payload, now)
}

/// The claims of `token` under `secret`, judged by the system clock. Which
/// reading the clock gives is not known here: the claims that come back are
/// those of the payload and were unexpired at some instant, a token whose
/// payload is refused or unreadable is always refused, and a token is refused
/// only where some reading would refuse it (one accepted at every reading is
/// always accepted).
pub fn verify_access_token(token: &str, secret: &[u8]) -> (claims: Result<Claims, JwtError>)
    ensures
        claims matches Ok(c) ==> exists|now: u64|
            accepted_access_claims(hs256_payload(token@, secret@), now) == Some(
                (c.sub@, c.sid@, c.exp as int),
            ),
        !readable_access_payload(hs256_payload(token@, secret@)) ==> claims == Err::<
            Claims,
            JwtError,
        >(JwtError::Decode),
        claims is Err ==> claims == Err::<Claims, JwtError>(JwtError::Decode),
        claims is Err ==> exists|now: u64|
            #[trigger] accepted_access_claims(hs256_payload(token@, secret@), now) is None,
{
    let now = token_clock();
    verify_access_token_at(token, secret, now)
}

/// An access token is accepted, with the user and session it was issued for,
/// until its expiry plus the leeway: the payload that `create_access_token_at`
/// puts in a token reads back as those claims at any `now` that has not
/// passed `exp + 60`.
pub proof fn lemma_issued_access_token_verifies(
    user_id: u128,
    session_id: u128,
    issued_at: i64,
    now: u64,
)
    requires
        UTC_MIN_TIMESTAMP <= issued_at <= UTC_MAX_TIMESTAMP,
        !expired(access_expiry(issued_at) as int, now),
    ensures
        accepted_access_claims(
            Some(
                access_payload(
                    uuid_text(user_id),
                    uuid_text(session_id),
                    access_expiry(issued_at) as int,
                ),
            ),
            now,
        ) == Some((uuid_text(user_id), uuid_text(session_id), access_expiry(issued_at) as int)),
{
    lemma_access_payload_reads_back(
        uuid_text(user_id),
        uuid_text(session_id),
        access_expiry(issued_at) as int,
    );
}

/// Once `exp + 60` has passed, no payload's claims are accepted.
pub proof fn lemma_expired_access_token_refused(payload: ClaimsObject, now: u64)
    requires
        access_claims_in(payload) matches Some(c) && expired(c.2, now),
    ensures
        accepted_access_claims(Some(payload), now) is None,
{
}

/// The lifetime of an access token: a token issued at `issued_at` (what
/// `create_access_token_at` gives, whose payload decodes as stated there) is
/// accepted by `verify_access_token_at` at `now` exactly while `now` is at most
/// 15 minutes plus the 60 s leeway past `issued_at`, and then with the user,
/// session and expiry it was issued for. (The expiry must fit the `usize` that
/// the claims hold.)
pub proof fn lemma_access_token_lifetime(
    token: Seq<char>,
    user_id: u128,
    session_id: u128,
    secret: Seq<u8>,
    issued_at: i64,
    now: u64,
)
    requires
        access_issuable(issued_at),
        0 <= issued_at + ACCESS_TOKEN_TTL_SECS <= usize::MAX,
        hs256_payload(token, secret) == Some(
            access_payload(uuid_text(user_id), uuid_text(session_id), access_expiry(issued_at) as int),
        ),
    ensures
        accepted_access_claims(hs256_payload(token, secret), now) is Some <==> now <= issued_at
            + ACCESS_TOKEN_TTL_SECS + EXPIRY_LEEWAY_SECS,
        now <= issued_at + ACCESS_TOKEN_TTL_SECS + EXPIRY_LEEWAY_SECS ==> accepted_access_claims(
            hs256_payload(token, secret),
            now,
        ) == Some((uuid_text(user_id), uuid_text(session_id), issued_at + ACCESS_TOKEN_TTL_SECS)),
{
    lemma_access_payload_reads_back(
        uuid_text(user_id),
        uuid_text(session_id),
        access_expiry(issued_at) as int,
    );
    assert(access_expiry(issued_at) as int == issued_at + ACCESS_TOKEN_TTL_SECS);
}

} // verus!
