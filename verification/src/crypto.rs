//! Randomness, hashing and password checks, each through the crate that the
//! service uses for it (rand, sha2, hex, argon2).
use vstd::prelude::*;
use crate::encoding::{all_ascii_alphanumeric, hex_lower};
use sha2::Digest;
use rand::Rng;
use argon2::PasswordVerifier;

verus! {

/// A name for SHA-256 of a byte string (what `sha2::Sha256` computes).
pub uninterp spec fn sha256_of(data: Seq<u8>) -> Seq<u8>;

/// `sha2::Sha256` fed with `data` and finalized. The digest is named
/// `sha256_of(data)`; the sha2 documentation gives its length, 32 bytes.
#[verifier::external_body]
fn sha256_digest(data: &[u8]) -> (digest: Vec<u8>)
    ensures
        digest@ == sha256_of(data@),
        digest@.len() == 32,
{
    let mut hasher = sha2::Sha256::new();
    hasher.update(data);
    hasher.finalize().to_vec()
}

/// `hex::encode`: two lowercase hexadecimal digits per byte, most significant
/// nibble first (its table is `0123456789abcdef`).
#[verifier::external_body]
fn hex_encode(data: &[u8]) -> (text: String)
    ensures
        text@ == hex_lower(data@),
{
    hex::encode(data)
}

/// `len` characters drawn with `rand::distr::Alphanumeric` from the thread
/// generator `rand::rng()`. Only what holds of every draw is stated: the
/// length, and that each character is an ASCII letter or digit.
#[verifier::external_body]
fn random_alphanumeric(len: usize) -> (text: String)
    ensures
        text@.len() == len,
        all_ascii_alphanumeric(text@),
{
    rand::rng().sample_iter(&rand::distr::Alphanumeric).take(len).map(char::from).collect()
}

/// Length of the random refresh tokens and one-time submission tokens.
pub const TOKEN_LENGTH: usize = 64;

/// The stored form of a refresh token: hex of SHA-256 of its UTF-8 bytes.
pub open spec fn refresh_token_digest(token: Seq<char>) -> Seq<char> {
    hex_lower(sha256_of(vstd::utf8::encode_utf8(token)))
}

/// A fresh random token of 64 ASCII letters and digits.
pub fn generate_refresh_token() -> (token: String)
    ensures
        token@.len() == TOKEN_LENGTH,
        all_ascii_alphanumeric(token@),
{
    random_alphanumeric(TOKEN_LENGTH)
}

/// Hex-encoded SHA-256 of the token's bytes; only this digest is stored.
pub fn hash_refresh_token(token: &str) -> (digest: String)
    ensures
        digest@ == refresh_token_digest(token@),
        digest@.len() == 64,
{
    let bytes = token.as_bytes();
    let sum = sha256_digest(bytes);
    hex_encode(sum.as_slice())
}

/// A name for whether `argon2::PasswordHash::new` parses a PHC string.
pub uninterp spec fn phc_parses(phc: Seq<char>) -> bool;

/// A name for whether `Argon2::default().verify_password` accepts a password
/// (its bytes) against the hash that a PHC string parses to.
pub uninterp spec fn argon2_accepts(password: Seq<u8>, phc: Seq<char>) -> bool;

/// Outcome of checking a password against a stored PHC hash string.
#[derive(Debug, Clone, Copy, PartialEq, Eq, Structural)]
pub enum PasswordCheck {
    /// The stored string is not a PHC hash.
    Malformed,
    /// The password does not match the hash.
    Mismatch,
    /// The password matches the hash.
    Match,
}

/// The outcome for a password's bytes against a PHC hash string.
pub open spec fn checked_against(password: Seq<u8>, phc: Seq<char>) -> PasswordCheck {
    if !phc_parses(phc) {
        PasswordCheck::Malformed
    } else if argon2_accepts(password, phc) {
        PasswordCheck::Match
    } else {
        PasswordCheck::Mismatch
    }
}

/// `argon2::PasswordHash::new(phc)`, then, when it parses,
/// `Argon2::default().verify_password(password, &hash)`. Both results depend
/// on their arguments alone and are named `phc_parses` and `argon2_accepts`.
#[verifier::external_body]
fn argon2_check(password: &[u8], phc: &str) -> (check: PasswordCheck)
    ensures
        check == PasswordCheck::Malformed <==> !phc_parses(phc@),
        phc_parses(phc@) ==> (check == PasswordCheck::Match <==> argon2_accepts(password@, phc@)),
{
    match argon2::PasswordHash::new(phc) {
        Err(_) => PasswordCheck::Malformed,
        Ok(hash) => match argon2::Argon2::default().verify_password(password, &hash) {
            Ok(()) => PasswordCheck::Match,
            Err(_) => PasswordCheck::Mismatch,
        },
    }
}

/// The outcome of checking `password` against a stored hash.
pub open spec fn password_check(password: Seq<char>, phc: Seq<char>) -> PasswordCheck {
    checked_against(vstd::utf8::encode_utf8(password), phc)
}

/// Check `password` (its UTF-8 bytes) against the PHC hash string `phc`.
pub fn check_password(password: &str, phc: &str) -> (check: PasswordCheck)
    ensures
        check == password_check(password@, phc@),
        check == PasswordCheck::Malformed <==> !phc_parses(phc@),
        phc_parses(phc@) ==> (check == PasswordCheck::Match <==> argon2_accepts(
            vstd::utf8::encode_utf8(password@),
            phc@,
        )),
{
    argon2_check(password.as_bytes(), phc)
}

/// A password is checked whole: against a stored string that parses as a
/// PHC hash, the check matches exactly when argon2 accepts all the UTF-8
/// bytes of the password, so two passwords that argon2 tells apart are never
/// both taken for the same hash's match and mismatch; a string that does not
/// parse refuses every password as malformed.
pub proof fn lemma_password_checked_whole(password: Seq<char>, phc: Seq<char>)
    ensures
        !phc_parses(phc) ==> password_check(password, phc) == PasswordCheck::Malformed,
        phc_parses(phc) ==> (password_check(password, phc) == PasswordCheck::Match
            <==> argon2_accepts(vstd::utf8::encode_utf8(password), phc)),
        phc_parses(phc) ==> password_check(password, phc) != PasswordCheck::Malformed,
{
}

} // verus!
