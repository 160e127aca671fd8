//! Authentication: role tokens issued by `JwtService`, the access tokens of
//! sessions (`jwt`) and the request guard (`middleware`).
use vstd::prelude::*;
use crate::clock::{now_seconds, UTC_MAX_TIMESTAMP, UTC_MIN_TIMESTAMP};
use crate::error::AppError;
use crate::jwt_codec::{
    claims_map, decode_claims, encodable, encode_claims, expired, find_claim, hs256_payload,
    hs256_token, int_claim, payload_object, survives_decoding, text_claim, token_clock, ClaimList,
    ClaimValue, ClaimView, ClaimsObject, EXPIRY_LEEWAY_SECS,
};
use crate::models::{Claims, Role};

pub mod jwt;
pub mod middleware;

verus! {

/// Largest lifetime, in hours, that `chrono::Duration::hours` accepts
/// (`i64::MAX` milliseconds, in whole hours).
pub const MAX_TTL_HOURS: i64 = 2_562_047_788_015;

/// Seconds per hour.
pub const SECS_PER_HOUR: i64 = 3600;

/// How a role is written in a token (serde's lowercase names).
pub open spec fn role_name(role: Role) -> Seq<char> {
    match role {
        Role::Inspector => "inspector"@,
        Role::Admin => "admin"@,
    }
}

/// The payload of a role token.
pub open spec fn role_payload(sub: Seq<char>, role: Role, exp: int, iat: int) -> ClaimsObject {
    Map::<Seq<char>, ClaimView>::empty().insert("sub"@, ClaimView::Text(sub)).insert(
        "role"@,
        ClaimView::Text(role_name(role)),
    ).insert("exp"@, ClaimView::Int(exp)).insert("iat"@, ClaimView::Int(iat))
}

/// The payload of a role token issued at `now` for `ttl_hours`.
pub open spec fn issued_role_payload(sub: Seq<char>, role: Role, ttl_hours: i64, now: i64) -> ClaimsObject {
    role_payload(sub, role, now + ttl_hours * SECS_PER_HOUR, now as int)
}

/// The role a name stands for.
pub open spec fn role_named(name: Seq<char>) -> Option<Role> {
    if name == "inspector"@ {
        Some(Role::Inspector)
    } else if name == "admin"@ {
        Some(Role::Admin)
    } else {
        None
    }
}

/// What deserializing role `Claims` reads from a payload: `sub`, a known
/// `role`, and `exp` and `iat` that fit an `i64`.
pub open spec fn role_claims_in(claims: ClaimsObject) -> Option<(Seq<char>, Role, int, int)> {
    match (
        text_claim(claims, "sub"@),
        text_claim(claims, "role"@),
        int_claim(claims, "exp"@),
        int_claim(claims, "iat"@),
    ) {
        (Some(sub), Some(name), Some(exp), Some(iat)) => match role_named(name) {
            Some(role) => if i64::MIN <= exp <= i64::MAX && i64::MIN <= iat <= i64::MAX {
                Some((sub, role, exp, iat))
            } else {
                None
            },
            None => None,
        },
        _ => None,
    }
}

/// A checked payload whose claims read as role claims.
pub open spec fn readable_role_payload(payload: Option<ClaimsObject>) -> bool {
    payload matches Some(claims) && role_claims_in(claims) is Some
}

/// The role claims that verification accepts at `now`.
pub open spec fn accepted_role_claims(payload: Option<ClaimsObject>, now: u64) -> Option<
    (Seq<char>, Role, int, int),
> {
    match payload {
        Some(claims) => match role_claims_in(claims) {
            Some(c) => if expired(c.2, now) {
                None
            } else {
                Some(c)
            },
            None => None,
        },
        None => None,
    }
}

/// `claims` holds exactly the given fields.
pub open spec fn role_claims_are(claims: Claims, fields: (Seq<char>, Role, int, int)) -> bool {
    claims.sub@ == fields.0 && claims.role == fields.1 && claims.exp == fields.2 && claims.iat
        == fields.3
}

/// The expiry of a token issued at `now` for `ttl_hours` is an instant that
/// chrono holds.
pub open spec fn expiry_in_calendar(now: i64, ttl_hours: i64) -> bool {
    UTC_MIN_TIMESTAMP <= now + ttl_hours * SECS_PER_HOUR <= UTC_MAX_TIMESTAMP
}

/// A role token can be issued at `now` (seconds) for `ttl_hours`: `now` and
/// the expiry are both instants that chrono holds.
pub open spec fn role_issuable(now: i64, ttl_hours: i64) -> bool {
    UTC_MIN_TIMESTAMP <= now <= UTC_MAX_TIMESTAMP && expiry_in_calendar(now, ttl_hours)
}

/// The role token for `sub` in `role` issued at `now` for `ttl_hours`.
pub open spec fn role_token_for(sub: Seq<char>, role: Role, ttl_hours: i64, now: i64, secret: Seq<
    u8,
>) -> Seq<char> {
    hs256_token(issued_role_payload(sub, role, ttl_hours, now), secret)
}

/// `token` is what issuing a role token at `now` gives: the token where it
/// can be issued, else `Jwt`.
pub open spec fn role_token_issued(
    token: Result<String, AppError>,
    sub: Seq<char>,
    role: Role,
    ttl_hours: i64,
    secret: Seq<u8>,
    now: i64,
) -> bool {
    match token {
        Ok(t) => role_issuable(now, ttl_hours) && t@ == role_token_for(sub, role, ttl_hours, now, secret),
        Err(e) => !role_issuable(now, ttl_hours) && e == AppError::Jwt,
    }
}

/// Issues and checks role tokens signed with one secret.
#[derive(Clone)]
pub struct JwtService {
    secret: Vec<u8>,
}

impl JwtService {
    /// The signing secret.
    pub closed spec fn secret(&self) -> Seq<u8> {
        self.secret@
    }

    /// A service that signs with `secret`.
    pub fn new(secret: &[u8]) -> (service: Self)
        ensures
            service.secret() == secret@,
    {
        JwtService { secret: vstd::slice::slice_to_vec(secret) }
    }

    /// A token for `sub` in `role`, issued at `now` (seconds) and valid for
    /// `ttl_hours`: the token where `now` and the expiry are instants that
    /// chrono holds, else `Jwt`. A token that comes back decodes to its payload
    /// when its expiry is not before the epoch.
    pub fn issue_at(&self, sub: &str, role: Role, ttl_hours: i64, now: i64) -> (token: Result<
        String,
        AppError,
    >)
        requires
            -MAX_TTL_HOURS <= ttl_hours <= MAX_TTL_HOURS,
        ensures
            role_issuable(now, ttl_hours) ==> (token matches Ok(t) && t@ == role_token_for(
                sub@,
                role,
                ttl_hours,
                now,
                self.secret(),
            )),
            !role_issuable(now, ttl_hours) ==> token == Err::<String, AppError>(AppError::Jwt),
            token matches Ok(t) ==> (now + ttl_hours * SECS_PER_HOUR >= 0 ==> hs256_payload(
                t@,
                self.secret(),
            ) == Some(issued_role_payload(sub@, role, ttl_hours, now))),
            role_token_issued(token, sub@, role, ttl_hours, self.secret(), now),
    {
        if now < UTC_MIN_TIMESTAMP || now > UTC_MAX_TIMESTAMP {
            return Err(AppError::Jwt);
        }
        let exp = now + ttl_hours * SECS_PER_HOUR;
        if exp < UTC_MIN_TIMESTAMP || exp > UTC_MAX_TIMESTAMP {
            return Err(AppError::Jwt);
        }
        let claims = role_claim_list(sub.to_owned(), role, exp, now);
        proof {
            if exp >= 0 {
                lemma_role_payload_reads_back(sub@, role, exp as int, now as int);
            }
        }
        match encode_claims(&claims, self.secret.as_slice()) {
            Some(t) => Ok(t),
            None => Err(AppError::Jwt),
        }
    }

    /// A token for `sub` in `role`, issued now and valid for `ttl_hours`
    /// (shorter for an inspector's shift, longer for an administrator): what
    /// `issue_at` gives at the clock's reading. A lifetime that no reading
    /// pushes out of chrono's range (such as 0) always gives a token.
    pub fn issue(&self, sub: &str, role: Role, ttl_hours: i64) -> (token: Result<String, AppError>)
        requires
            -MAX_TTL_HOURS <= ttl_hours <= MAX_TTL_HOURS,
        ensures
            exists|now: i64|
                UTC_MIN_TIMESTAMP <= now <= UTC_MAX_TIMESTAMP && #[trigger] role_token_issued(
                    token,
                    sub@,
                    role,
                    ttl_hours,
                    self.secret(),
                    now,
                ),
            token is Err ==> token == Err::<String, AppError>(AppError::Jwt),
            ttl_hours == 0 ==> token is Ok,
    {
        self.issue_at(sub, role, ttl_hours, now_seconds())
    }

    /// The claims of `token`, judged at `now` (seconds).
    pub fn verify_at(&self, token: &str, now: u64) -> (claims: Result<Claims, AppError>)
        ensures
            match accepted_role_claims(hs256_payload(token@, self.secret()), now) {
                Some(fields) => claims matches Ok(c) && role_claims_are(c, fields),
                None => claims == Err::<Claims, AppError>(AppError::Jwt),
            },
    {
        let payload = decode_claims(token, self.secret.as_slice());
        role_claims_from_payload(payload, now)
    }

    /// The claims of `token`, judged by the system clock: claims that come
    /// back are those of the payload and were unexpired at some instant; an
    /// unreadable or refused payload is always refused; a token is refused only
    /// where some reading would refuse it.
    pub fn verify(&self, token: &str) -> (claims: Result<Claims, AppError>)
        ensures
            claims matches Ok(c) ==> exists|now: u64|
                accepted_role_claims(hs256_payload(token@, self.secret()), now) == Some(
                    (c.sub@, c.role, c.exp as int, c.iat as int),
                ),
            !readable_role_payload(hs256_payload(token@, self.secret())) ==> claims == Err::<
                Claims,
                AppError,
            >(AppError::Jwt),
            claims is Err ==> claims == Err::<Claims, AppError>(AppError::Jwt),
            claims is Err ==> exists|now: u64|
                #[trigger] accepted_role_claims(hs256_payload(token@, self.secret()), now) is None,
    {
        let now = token_clock();
        self.verify_at(token, now)
    }
}

/// The four claim names and `aud` are distinct, and so are the role names.
proof fn lemma_role_names_distinct()
    ensures
        "sub"@ != "role"@,
        "sub"@ != "exp"@,
        "sub"@ != "iat"@,
        "role"@ != "exp"@,
        "role"@ != "iat"@,
        "exp"@ != "iat"@,
        "aud"@ != "sub"@,
        "aud"@ != "role"@,
        "aud"@ != "exp"@,
        "aud"@ != "iat"@,
        "inspector"@ != "admin"@,
{
    reveal_strlit("sub");
    reveal_strlit("role");
    reveal_strlit("exp");
    reveal_strlit("iat");
    reveal_strlit("aud");
    reveal_strlit("inspector");
    reveal_strlit("admin");
    assert("sub"@[0] != "role"@[0]);
    assert("sub"@[0] != "exp"@[0]);
    assert("sub"@[0] != "iat"@[0]);
    assert("role"@[0] != "exp"@[0]);
    assert("role"@[0] != "iat"@[0]);
    assert("exp"@[0] != "iat"@[0]);
    assert("aud"@[0] != "sub"@[0]);
    assert("aud"@[0] != "role"@[0]);
    assert("aud"@[0] != "exp"@[0]);
    assert("aud"@[1] != "iat"@[1]);
    assert("inspector"@[0] != "admin"@[0]);
}

/// A role payload reads back as its own claims, and survives decoding when
/// its expiry is not before the epoch.
pub proof fn lemma_role_payload_reads_back(sub: Seq<char>, role: Role, exp: int, iat: int)
    requires
        0 <= exp <= i64::MAX,
        i64::MIN <= iat <= i64::MAX,
    ensures
        role_claims_in(role_payload(sub, role, exp, iat)) == Some((sub, role, exp, iat)),
        survives_decoding(role_payload(sub, role, exp, iat)),
{
    lemma_role_names_distinct();
    let m = role_payload(sub, role, exp, iat);
    assert(m.dom() =~= set!["sub"@, "role"@, "exp"@, "iat"@]);
    assert(role_named(role_name(role)) == Some(role));
    assert forall|k: Seq<char>| #[trigger] m.contains_key(k) implies encodable(m[k]) by {
        if k == "iat"@ {
        } else if k == "exp"@ {
        } else if k == "role"@ {
        } else {
        }
    }
}

/// The claim list written into a role token.
fn role_claim_list(sub: String, role: Role, exp: i64, iat: i64) -> (claims: ClaimList)
    ensures
        claims_map(claims@) == role_payload(sub@, role, exp as int, iat as int),
        forall|i: int| 0 <= i < claims@.len() ==> encodable(#[trigger] claims@[i].1@),
{
    let ghost sub_text = sub@;
    let ghost exp_value = exp as int;
    let name = match role {
        Role::Inspector => "inspector".to_owned(),
        Role::Admin => "admin".to_owned(),
    };
    let mut claims: ClaimList = Vec::new();
    claims.push(("sub".to_owned(), ClaimValue::Text(sub)));
    claims.push(("role".to_owned(), ClaimValue::Text(name)));
    claims.push(("exp".to_owned(), ClaimValue::Int(exp as i128)));
    claims.push(("iat".to_owned(), ClaimValue::Int(iat as i128)));
    proof {
        let s = claims@;
        let s1 = s.drop_last().drop_last().drop_last();
        assert(s1.len() == 1 && s1.last() == s[0]);
        assert(s1.drop_last() =~= Seq::<(String, ClaimValue)>::empty());
        assert(claims_map(s1.drop_last()) == Map::<Seq<char>, ClaimView>::empty());
        assert(claims_map(s1) =~= Map::<Seq<char>, ClaimView>::empty().insert(
            "sub"@,
            ClaimView::Text(sub_text),
        ));
        let s2 = s.drop_last().drop_last();
        assert(s2.drop_last() =~= s1 && s2.last() == s[1]);
        assert(claims_map(s2) =~= claims_map(s1).insert("role"@, ClaimView::Text(role_name(role))));
        let s3 = s.drop_last();
        assert(s3.drop_last() =~= s2 && s3.last() == s[2]);
        assert(claims_map(s3) =~= claims_map(s2).insert("exp"@, ClaimView::Int(exp_value)));
    }
    claims
}

/// The role claims of a checked payload, judged at `now` (seconds).
pub fn role_claims_from_payload(payload: Option<ClaimList>, now: u64) -> (claims: Result<
    Claims,
    AppError,
>)
    ensures
        match accepted_role_claims(payload_object(payload), now) {
            Some(fields) => claims matches Ok(c) && role_claims_are(c, fields),
            None => claims == Err::<Claims, AppError>(AppError::Jwt),
        },
{
    let entries = match payload {
        Some(v) => v,
        None => return Err(AppError::Jwt),
    };
    let sub = match find_claim(&entries, &"sub".to_owned()) {
        Some(ClaimValue::Text(t)) => t.clone(),
        _ => return Err(AppError::Jwt),
    };
    let role = match find_claim(&entries, &"role".to_owned()) {
        Some(ClaimValue::Text(t)) => {
            let inspector = "inspector".to_owned();
            let admin = "admin".to_owned();
            if *t == inspector {
                Role::Inspector
            } else if *t == admin {
                Role::Admin
            } else {
                return Err(AppError::Jwt);
            }
        },
        _ => return Err(AppError::Jwt),
    };
    let exp = match find_claim(&entries, &"exp".to_owned()) {
        Some(ClaimValue::Int(i)) => *i,
        _ => return Err(AppError::Jwt),
    };
    let iat = match find_claim(&entries, &"iat".to_owned()) {
        Some(ClaimValue::Int(i)) => *i,
        _ => return Err(AppError::Jwt),
    };
    if exp < i64::MIN as i128 || exp > i64::MAX as i128 || iat < i64::MIN as i128 || iat
        > i64::MAX as i128 {
        return Err(AppError::Jwt);
    }
    if now >= EXPIRY_LEEWAY_SECS && exp < (now - EXPIRY_LEEWAY_SECS) as i128 {
        return Err(AppError::Jwt);
    }
    Ok(Claims { sub, role, exp: exp as i64, iat: iat as i64 })
}

/// A role token is accepted, with its subject and role, until its expiry
/// plus the leeway.
pub proof fn lemma_issued_role_token_verifies(
    sub: Seq<char>,
    role: Role,
    issued_at: i64,
    ttl_hours: i64,
    now: u64,
)
    requires
        UTC_MIN_TIMESTAMP <= issued_at <= UTC_MAX_TIMESTAMP,
        -MAX_TTL_HOURS <= ttl_hours <= MAX_TTL_HOURS,
        issued_at + ttl_hours * SECS_PER_HOUR >= 0,
        !expired(issued_at + ttl_hours * SECS_PER_HOUR, now),
    ensures
        accepted_role_claims(
            Some(role_payload(sub, role, issued_at + ttl_hours * SECS_PER_HOUR, issued_at as int)),
            now,
        ) == Some((sub, role, issued_at + ttl_hours * SECS_PER_HOUR, issued_at as int)),
{
    lemma_role_payload_reads_back(
        sub,
        role,
        issued_at + ttl_hours * SECS_PER_HOUR,
        issued_at as int,
    );
}

/// The lifetime of a role token: a token issued at `issued_at` for
/// `ttl_hours` (what `issue_at` gives, whose payload decodes as stated there)
/// is accepted by `verify_at` at `now` exactly while `now` is at most the
/// expiry plus the 60 s leeway, and then with the subject, role, expiry and
/// issue time it was issued with.
pub proof fn lemma_role_token_lifetime(
    token: Seq<char>,
    sub: Seq<char>,
    role: Role,
    ttl_hours: i64,
    secret: Seq<u8>,
    issued_at: i64,
    now: u64,
)
    requires
        role_issuable(issued_at, ttl_hours),
        issued_at + ttl_hours * SECS_PER_HOUR >= 0,
        hs256_payload(token, secret) == Some(issued_role_payload(sub, role, ttl_hours, issued_at)),
    ensures
        accepted_role_claims(hs256_payload(token, secret), now) is Some <==> now <= issued_at
            + ttl_hours * SECS_PER_HOUR + EXPIRY_LEEWAY_SECS,
        now <= issued_at + ttl_hours * SECS_PER_HOUR + EXPIRY_LEEWAY_SECS ==> accepted_role_claims(
            hs256_payload(token, secret),
            now,
        ) == Some((sub, role, issued_at + ttl_hours * SECS_PER_HOUR, issued_at as int)),
{
    lemma_role_payload_reads_back(
        sub,
        role,
        issued_at + ttl_hours * SECS_PER_HOUR,
        issued_at as int,
    );
}

} // verus!
