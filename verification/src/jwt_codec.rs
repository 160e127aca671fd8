//! HS256 JSON Web Tokens through `jsonwebtoken`: the payload travels as a
//! list of named claims, and the library states what a decode gives back of
//! an encode.
use vstd::prelude::*;

verus! {

/// `jsonwebtoken::errors::Error`, carried from the wrappers to the code that
/// maps it to the library's own errors.
#[verifier::external_type_specification]
#[verifier::external_body]
pub struct ExJwtLibError(jsonwebtoken::errors::Error);

/// One claim of a token payload, as far as the service reads it: a JSON
/// string, a JSON integer, or any other JSON value.
#[derive(Clone, Debug, PartialEq, Eq)]
pub enum ClaimValue {
    Text(String),
    Int(i128),
    Other,
}

/// The claims of a payload in the order they are written or read.
pub type ClaimList = Vec<(String, ClaimValue)>;

/// A token payload: claim names to claim values.
pub type ClaimsObject = Map<Seq<char>, ClaimView>;

/// The mathematical form of a claim value.
pub enum ClaimView {
    Text(Seq<char>),
    Int(int),
    Other,
}

impl View for ClaimValue {
    type V = ClaimView;

    open spec fn view(&self) -> ClaimView {
        match self {
            ClaimValue::Text(text) => ClaimView::Text(text@),
            ClaimValue::Int(number) => ClaimView::Int(*number as int),
            ClaimValue::Other => ClaimView::Other,
        }
    }
}

/// The JSON object that a list of claims makes: a later entry with the same
/// name replaces an earlier one.
pub open spec fn claims_map(entries: Seq<(String, ClaimValue)>) -> Map<Seq<char>, ClaimView>
    decreases entries.len(),
{
    if entries.len() == 0 {
        Map::empty()
    } else {
        claims_map(entries.drop_last()).insert(entries.last().0@, entries.last().1@)
    }
}

/// A name for the compact HS256 token (`Header::default()`, HMAC-SHA256)
/// that `jsonwebtoken::encode` makes of a payload and a secret.
pub uninterp spec fn hs256_token(claims: Map<Seq<char>, ClaimView>, secret: Seq<u8>) -> Seq<char>;

/// A name for the payload that `jsonwebtoken::decode` accepts from a token
/// under a secret (signature checked, `exp` required, expiry not checked),
/// read as an object of claims; `None` where it refuses the token.
pub uninterp spec fn hs256_payload(token: Seq<char>, secret: Seq<u8>) -> Option<
    Map<Seq<char>, ClaimView>,
>;

/// A claim value that the encoder writes as itself: a string, or an integer
/// that a JSON number holds without the arbitrary-precision feature.
pub open spec fn encodable(value: ClaimView) -> bool {
    match value {
        ClaimView::Text(_) => true,
        ClaimView::Int(i) => i64::MIN <= i <= u64::MAX,
        ClaimView::Other => false,
    }
}

/// A payload that `decode` gives back unchanged after `encode`: every value
/// encodable, an `exp` that reads as a `u64`, and no `aud` (default
/// validation refuses an audience that nobody expects).
pub open spec fn survives_decoding(claims: Map<Seq<char>, ClaimView>) -> bool {
    &&& claims.dom().finite()
    &&& forall|k: Seq<char>| #[trigger] claims.contains_key(k) ==> encodable(claims[k])
    &&& claims.contains_key("exp"@)
    &&& (claims["exp"@] matches ClaimView::Int(e) && 0 <= e <= u64::MAX)
    &&& !claims.contains_key("aud"@)
}

/// `jsonwebtoken::encode` with `Header::default()` (HS256) and
/// `EncodingKey::from_secret(secret)`, the claims written as a JSON object.
/// The token is the one named `hs256_token`, and, as the jsonwebtoken source
/// shows, `decode` under the same secret gives its payload back when the
/// payload survives decoding. The source also shows that this call does not
/// fail: the key's family (HMAC) is that of the header's algorithm, a JSON
/// object with string keys always serializes, and HMAC signing accepts any
/// key.
#[verifier::external_body]
fn hs256_encode(claims: &ClaimList, secret: &[u8]) -> (token: Result<String, jsonwebtoken::errors::Error>)
    requires
        forall|i: int| 0 <= i < claims@.len() ==> encodable(#[trigger] claims@[i].1@),
    ensures
        token is Ok,
        token matches Ok(t) ==> t@ == hs256_token(claims_map(claims@), secret@),
        token matches Ok(t) ==> (survives_decoding(claims_map(claims@)) ==> hs256_payload(
            t@,
            secret@,
        ) == Some(claims_map(claims@))),
{
    let mut payload = serde_json::Map::new();
    for (key, value) in claims.iter() {
        let json = match value {
            ClaimValue::Text(text) => serde_json::Value::String(text.clone()),
            ClaimValue::Int(number) => match serde_json::Number::from_i128(*number) {
                Some(n) => serde_json::Value::Number(n),
                None => serde_json::Value::Null,
            },
            ClaimValue::Other => serde_json::Value::Null,
        };
        payload.insert(key.clone(), json);
    }
    let key = jsonwebtoken::EncodingKey::from_secret(secret);
    jsonwebtoken::encode(&jsonwebtoken::Header::default(), &payload, &key)
}

/// `jsonwebtoken::decode` into a JSON object with `DecodingKey::from_secret`
/// and `Validation::default()` except that `validate_exp` is off: the expiry
/// is checked by the library against a clock it is given, which makes the
/// payload a function of token and secret (named `hs256_payload`).
#[verifier::external_body]
fn hs256_decode(token: &str, secret: &[u8]) -> (claims: Result<ClaimList, jsonwebtoken::errors::Error>)
    ensures
        claims is Ok <==> hs256_payload(token@, secret@) is Some,
        claims matches Ok(v) ==> hs256_payload(token@, secret@) == Some(claims_map(v@)),
{
    let mut validation = jsonwebtoken::Validation::default();
    validation.validate_exp = false;
    let key = jsonwebtoken::DecodingKey::from_secret(secret);
    let data = jsonwebtoken::decode::<serde_json::Map<String, serde_json::Value>>(token, &key, &validation)?;
    Ok(data.claims.into_iter().map(|(name, value)| (name, match value {
        serde_json::Value::String(text) => ClaimValue::Text(text),
        serde_json::Value::Number(number) => match number.as_i128() {
            Some(i) => ClaimValue::Int(i),
            None => ClaimValue::Other,
        },
        _ => ClaimValue::Other,
    })).collect())
}

/// `jsonwebtoken::get_current_timestamp`: seconds since the Unix epoch from
/// the system clock. Nothing is stated of the value.
#[verifier::external_body]
fn system_seconds() -> (now: u64) {
    jsonwebtoken::get_current_timestamp()
}

/// The encoded token of a claim list (see `hs256_encode`); encoding always
/// succeeds.
pub fn encode_claims(claims: &ClaimList, secret: &[u8]) -> (token: Option<String>)
    requires
        forall|i: int| 0 <= i < claims@.len() ==> encodable(#[trigger] claims@[i].1@),
    ensures
        token is Some,
        token matches Some(t) ==> t@ == hs256_token(claims_map(claims@), secret@),
        token matches Some(t) ==> (survives_decoding(claims_map(claims@)) ==> hs256_payload(
            t@,
            secret@,
        ) == Some(claims_map(claims@))),
{
    match hs256_encode(claims, secret) {
        Ok(t) => Some(t),
        Err(_) => None,
    }
}

/// The checked payload of a token (see `hs256_decode`).
pub fn decode_claims(token: &str, secret: &[u8]) -> (claims: Option<ClaimList>)
    ensures
        claims is Some <==> hs256_payload(token@, secret@) is Some,
        claims matches Some(v) ==> hs256_payload(token@, secret@) == Some(claims_map(v@)),
{
    match hs256_decode(token, secret) {
        Ok(v) => Some(v),
        Err(_) => None,
    }
}

/// Leeway that `Validation::default()` grants past `exp`, in seconds.
pub const EXPIRY_LEEWAY_SECS: u64 = 60;

/// Expiry as default validation judges it: `exp` lies more than the leeway
/// before `now`.
pub open spec fn expired(exp: int, now: u64) -> bool {
    now >= EXPIRY_LEEWAY_SECS && exp < now - EXPIRY_LEEWAY_SECS
}

/// A string claim of a payload.
pub open spec fn text_claim(claims: ClaimsObject, name: Seq<char>) -> Option<Seq<char>> {
    if claims.contains_key(name) {
        match claims[name] {
            ClaimView::Text(t) => Some(t),
            _ => None,
        }
    } else {
        None
    }
}

/// An integer claim of a payload.
pub open spec fn int_claim(claims: ClaimsObject, name: Seq<char>) -> Option<int> {
    if claims.contains_key(name) {
        match claims[name] {
            ClaimView::Int(i) => Some(i),
            _ => None,
        }
    } else {
        None
    }
}

/// The current time as jsonwebtoken reads it for expiry checks.
pub fn token_clock() -> u64 {
    system_seconds()
}

/// Where a claim list and its JSON object agree: no entry after `j` has the
/// name of entry `j`, so the object holds entry `j`'s value under that name.
pub proof fn lemma_claims_map_last(entries: Seq<(String, ClaimValue)>, j: int)
    requires
        0 <= j < entries.len(),
        forall|i: int| j < i < entries.len() ==> entries[i].0@ != entries[j].0@,
    ensures
        claims_map(entries).contains_key(entries[j].0@),
        claims_map(entries)[entries[j].0@] == entries[j].1@,
    decreases entries.len(),
{
    if j < entries.len() - 1 {
        lemma_claims_map_last(entries.drop_last(), j);
    }
}

/// A name that no entry carries is not in the object.
pub proof fn lemma_claims_map_absent(entries: Seq<(String, ClaimValue)>, key: Seq<char>)
    requires
        forall|i: int| 0 <= i < entries.len() ==> entries[i].0@ != key,
    ensures
        !claims_map(entries).contains_key(key),
    decreases entries.len(),
{
    if entries.len() > 0 {
        lemma_claims_map_absent(entries.drop_last(), key);
    }
}

/// The value of the claim `name` in a payload: the last entry of that name.
pub fn find_claim<'a>(entries: &'a ClaimList, name: &String) -> (found: Option<
    &'a ClaimValue,
>)
    ensures
        match found {
            Some(v) => claims_map(entries@).contains_key(name@) && claims_map(entries@)[name@]
                == v@,
            None => !claims_map(entries@).contains_key(name@),
        },
{
    let mut j = entries.len();
    while j > 0
        invariant
            j <= entries@.len(),
            forall|i: int| j <= i < entries@.len() ==> entries@[i].0@ != name@,
        decreases j,
    {
        j = j - 1;
        if entries[j].0 == *name {
            proof {
                lemma_claims_map_last(entries@, j as int);
            }
            return Some(&entries[j].1);
        }
    }
    proof {
        lemma_claims_map_absent(entries@, name@);
    }
    None
}

/// The JSON object of a payload that may be missing.
pub open spec fn payload_object(payload: Option<ClaimList>) -> Option<ClaimsObject> {
    match payload {
        Some(v) => Some(claims_map(v@)),
        None => None,
    }
}

} // verus!
