//! The request guard of protected routes: a `Bearer` access token in the
//! `Authorization` header, checked before the handler runs; and the user
//! that the request log names.
use vstd::prelude::*;
use crate::auth::jwt::{
    accepted_access_claims, claims_are, readable_access_payload, verify_access_token_at, Claims,
};
use crate::error::{STATUS_INTERNAL_SERVER_ERROR, STATUS_UNAUTHORIZED};
use crate::jwt_codec::{hs256_payload, token_clock};

verus! {

/// The credentials of an `Authorization` value: what follows `"Bearer "`.
pub open spec fn bearer_credentials(header: Seq<char>) -> Option<Seq<char>> {
    if header.len() >= 7 && header.subrange(0, 7) == "Bearer "@ {
        Some(header.subrange(7, header.len() as int))
    } else {
        None
    }
}

/// The token of an `Authorization` value, if it is a `Bearer` one.
pub fn bearer_token(header: &str) -> (token: Option<&str>)
    ensures
        match bearer_credentials(header@) {
            Some(t) => token matches Some(x) && x@ == t,
            None => token is None,
        },
{
    let n = header.unicode_len();
    if n < 7 {
        return None;
    }
    let prefix = header.substring_char(0, 7);
    if prefix.to_owned() == "Bearer ".to_owned() {
        Some(header.substring_char(7, n))
    } else {
        None
    }
}

/// The token a request presents, if its `Authorization` value is a
/// `Bearer` one.
pub open spec fn presented_token(authorization: Option<Seq<char>>) -> Option<Seq<char>> {
    match authorization {
        Some(h) => bearer_credentials(h),
        None => None,
    }
}

/// The `Authorization` value as text, if any.
pub open spec fn header_text(authorization: Option<&str>) -> Option<Seq<char>> {
    match authorization {
        Some(h) => Some(h@),
        None => None,
    }
}

/// What the guard answers at `now` (seconds) for a request whose
/// `Authorization` value is `authorization`: the claims of a valid `Bearer`
/// access token, else status 401. Nothing else (no session in the store)
/// enters.
pub open spec fn guard_answers(
    authorization: Option<Seq<char>>,
    secret: Seq<u8>,
    now: u64,
    claims: Result<Claims, u16>,
) -> bool {
    match presented_token(authorization) {
        None => claims == Err::<Claims, u16>(STATUS_UNAUTHORIZED),
        Some(t) => match accepted_access_claims(hs256_payload(t, secret), now) {
            Some(fields) => claims matches Ok(c) && claims_are(c, fields),
            None => claims == Err::<Claims, u16>(STATUS_UNAUTHORIZED),
        },
    }
}

/// The guard at `now` (seconds): the claims of a valid `Bearer` access token,
/// else status 401.
pub fn authenticate_at(authorization: Option<&str>, secret: &[u8], now: u64) -> (claims: Result<
    Claims,
    u16,
>)
    ensures
        guard_answers(header_text(authorization), secret@, now, claims),
{
    let header = match authorization {
        Some(h) => h,
        None => return Err(STATUS_UNAUTHORIZED),
    };
    let token = match bearer_token(header) {
        Some(t) => t,
        None => return Err(STATUS_UNAUTHORIZED),
    };
    match verify_access_token_at(token, secret, now) {
        Ok(c) => Ok(c),
        Err(_) => Err(STATUS_UNAUTHORIZED),
    }
}

/// The guard by the system clock: what `authenticate_at` answers at the
/// clock's reading. A presented token is refused only where some reading
/// would refuse it.
pub fn auth_middleware(authorization: Option<&str>, secret: &[u8]) -> (claims: Result<Claims, u16>)
    ensures
        exists|now: u64| #[trigger] guard_answers(header_text(authorization), secret@, now, claims),
        presented_token(header_text(authorization)) is None ==> claims == Err::<Claims, u16>(
            STATUS_UNAUTHORIZED,
        ),
        presented_token(header_text(authorization)) matches Some(t) ==> (!readable_access_payload(
            hs256_payload(t, secret@),
        ) ==> claims == Err::<Claims, u16>(STATUS_UNAUTHORIZED)),
        claims matches Ok(c) ==> presented_token(header_text(authorization)) matches Some(t)
            && exists|now: u64|
            accepted_access_claims(hs256_payload(t, secret@), now) == Some(
                (c.sub@, c.sid@, c.exp as int),
            ),
        claims is Err ==> claims == Err::<Claims, u16>(STATUS_UNAUTHORIZED),
        claims is Err ==> (presented_token(header_text(authorization)) is None || (presented_token(
            header_text(authorization),
        ) matches Some(t) && exists|now: u64|
            #[trigger] accepted_access_claims(hs256_payload(t, secret@), now) is None)),
{
    let now = token_clock();
    authenticate_at(authorization, secret, now)
}

/// The guard is stateless: two requests with the same `Authorization` value,
/// under the same secret and at the same reading, get the same answer,
/// whatever the store holds (a session revoked by logout included), since
/// the answer depends on nothing else.
pub proof fn lemma_guard_is_stateless(
    authorization: Option<Seq<char>>,
    secret: Seq<u8>,
    now: u64,
    first: Result<Claims, u16>,
    second: Result<Claims, u16>,
)
    requires
        guard_answers(authorization, secret, now, first),
        guard_answers(authorization, secret, now, second),
    ensures
        first is Ok <==> second is Ok,
        first is Err ==> first == second,
        first matches Ok(a) ==> (second matches Ok(b) && a.sub@ == b.sub@ && a.sid@ == b.sid@
            && a.exp == b.exp),
{
}

/// A text that `http::HeaderValue` accepts: each of its UTF-8 bytes is a tab
/// or at least a space, and none is DEL.
pub open spec fn header_value_text(text: Seq<char>) -> bool {
    forall|i: int|
        0 <= i < vstd::utf8::encode_utf8(text).len() ==> {
            let b = #[trigger] vstd::utf8::encode_utf8(text)[i];
            (b >= 32 && b != 127) || b == 9
        }
}

/// `http::HeaderValue::from_str(text)` succeeds: exactly when every byte is
/// valid in a header value (`is_valid` in http's `header/value.rs`).
#[verifier::external_body]
fn header_value_accepts(text: &str) -> (ok: bool)
    ensures
        ok == header_value_text(text@),
{
    http::HeaderValue::from_str(text).is_ok()
}

/// The `x-user-id` header that the guard adds to a request it lets through:
/// the claims' subject, or status 500 where the subject cannot be a header
/// value.
pub fn user_id_header(claims: &Claims) -> (value: Result<String, u16>)
    ensures
        header_value_text(claims.sub@) ==> (value matches Ok(v) && v@ == claims.sub@),
        !header_value_text(claims.sub@) ==> value == Err::<String, u16>(STATUS_INTERNAL_SERVER_ERROR),
{
    if header_value_accepts(claims.sub.as_str()) {
        Ok(claims.sub.clone())
    } else {
        Err(STATUS_INTERNAL_SERVER_ERROR)
    }
}

/// The user a request log names: the claims' subject, or `anonymous`.
pub fn logger_middleware(claims: Option<&Claims>) -> (user_id: String)
    ensures
        match claims {
            Some(c) => user_id@ == c.sub@,
            None => user_id@ == "anonymous"@,
        },
{
    match claims {
        Some(c) => c.sub.clone(),
        None => "anonymous".to_owned(),
    }
}

/// A header that carries a token the way the guard reads it gives back that
/// token.
pub proof fn lemma_bearer_round_trip(token: Seq<char>)
    ensures
        bearer_credentials("Bearer "@ + token) == Some(token),
{
    reveal_strlit("Bearer ");
    assert(("Bearer "@ + token).subrange(0, 7) =~= "Bearer "@);
    assert(("Bearer "@ + token).subrange(7, ("Bearer "@ + token).len() as int) =~= token);
}

} // verus!
