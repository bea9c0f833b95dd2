use vstd::prelude::*;

use crate::errors::{message_of, ErrorMessage, HttpError, STATUS_UNAUTHORIZED};
use crate::sources::unix_now;

verus! {

/// Seconds by which a token may be past its expiry and still be accepted.
pub const LEEWAY_SECS: i64 = 60;

pub const SECS_PER_MINUTE: i64 = 60;

/// The claims that a session token carries: subject, issue time and expiry,
/// both in seconds since the Unix epoch.
#[derive(Debug, Clone)]
pub struct TokenClaims {
    pub sub: String,
    pub iat: i64,
    pub exp: i64,
}

/// Why a token could not be issued.
#[derive(Debug, Clone, Copy, PartialEq, Eq)]
pub enum TokenError {
    /// The subject is empty.
    InvalidSubject,
    /// The expiry does not fit in an `i64`.
    ExpiryOutOfRange,
    /// Signing failed.
    Encoding,
}

/// The HS256 JSON Web Token that signs the claims `{sub, iat, exp}` with `key`.
pub uninterp spec fn jwt_of(sub: Seq<char>, iat: i64, exp: i64, key: Seq<u8>) -> Seq<char>;

/// The claims `(sub, iat, exp)` of `token` if its HS256 signature under `key`
/// checks, it is well formed and its claims have those types; expiry is not
/// looked at.
pub uninterp spec fn jwt_claims(token: Seq<char>, key: Seq<u8>) -> Option<(Seq<char>, i64, i64)>;

/// Relies on `jsonwebtoken::encode` with an HS256 header over the claims
/// `{sub, iat, exp}`: the token is a function of its inputs, and
/// `jsonwebtoken::decode` under the same key gives the claims back (the
/// expiry must be a non-negative number for `decode` to accept it). `encode`
/// fails only on a key of another algorithm family or claims that do not
/// serialise; an HMAC key and a JSON map of a string and two integers are
/// neither, so it succeeds.
#[verifier::external_body]
fn jwt_encode(sub: &str, iat: i64, exp: i64, secret: &[u8]) -> (r: Result<String, ()>)
    ensures
        r is Ok,
        r matches Ok(t) ==> t@ == jwt_of(sub@, iat, exp, secret@) && (exp >= 0 ==> jwt_claims(
            t@,
            secret@,
        ) == Some((sub@, iat, exp))),
{
    let mut claims = serde_json::Map::new();
    claims.insert("sub".to_string(), serde_json::Value::from(sub));
    claims.insert("iat".to_string(), serde_json::Value::from(iat));
    claims.insert("exp".to_string(), serde_json::Value::from(exp));
    let header = jsonwebtoken::Header::new(jsonwebtoken::Algorithm::HS256);
    jsonwebtoken::encode(&header, &claims, &jsonwebtoken::EncodingKey::from_secret(secret)).map_err(|_| ())
}

/// Relies on `jsonwebtoken::decode` with HS256 validation and the expiry check
/// switched off: it checks structure and signature and yields the claims.
#[verifier::external_body]
fn jwt_decode(token: &str, secret: &[u8]) -> (r: Option<TokenClaims>)
    ensures
        r matches Some(c) ==> jwt_claims(token@, secret@) == Some((c.sub@, c.iat, c.exp)),
        r is None ==> jwt_claims(token@, secret@) is None,
{
    let mut validation = jsonwebtoken::Validation::new(jsonwebtoken::Algorithm::HS256);
    validation.validate_exp = false;
    let key = jsonwebtoken::DecodingKey::from_secret(secret);
    let c = jsonwebtoken::decode::<serde_json::Value>(token, &key, &validation).ok()?.claims;
    let sub = c.get("sub")?.as_str()?.to_string();
    Some(TokenClaims { sub, iat: c.get("iat")?.as_i64()?, exp: c.get("exp")?.as_i64()? })
}

/// Whether a token that expires at `exp` is too old at `now`, leeway included.
pub open spec fn is_expired(exp: i64, now: i64) -> bool {
    exp < now - LEEWAY_SECS
}

/// The expiry of a token issued at `now` for `minutes`.
pub open spec fn expiry_of(now: i64, minutes: i64) -> int {
    now + minutes * SECS_PER_MINUTE
}

/// `token` is what issuing for `sub` under `key` at `now` with an expiry `exp` gives.
pub open spec fn issued_by(token: Seq<char>, sub: Seq<char>, key: Seq<u8>, now: i64, exp: i64) -> bool {
    token == jwt_of(sub, now, exp, key) && (exp >= 0 ==> jwt_claims(token, key) == Some((sub, now, exp)))
}

/// The claims that verifying `token` under `key` at `now` accepts, if any.
pub open spec fn token_outcome(token: Seq<char>, key: Seq<u8>, now: i64) -> Option<(Seq<char>, i64, i64)> {
    match jwt_claims(token, key) {
        Some(c) => if is_expired(c.2, now) { None } else { Some(c) },
        None => None,
    }
}

/// Issues a token for `user_id`, signed with `secret`, issued at `now` and
/// expiring `expires_in_minutes` later.
pub fn create_token_at(user_id: &str, secret: &[u8], expires_in_minutes: i64, now: i64) -> (r: Result<String, TokenError>)
    ensures
        user_id@.len() == 0 ==> r == Err::<String, TokenError>(TokenError::InvalidSubject),
        user_id@.len() > 0 && !(i64::MIN <= expiry_of(now, expires_in_minutes) <= i64::MAX) ==> r
            == Err::<String, TokenError>(TokenError::ExpiryOutOfRange),
        user_id@.len() > 0 && i64::MIN <= expiry_of(now, expires_in_minutes) <= i64::MAX ==> (r
            matches Ok(t) && issued_by(t@, user_id@, secret@, now, expiry_of(now, expires_in_minutes) as i64)),
{
    if user_id.is_empty() {
        return Err(TokenError::InvalidSubject);
    }
    let secs = (expires_in_minutes as i128) * (SECS_PER_MINUTE as i128);
    let exp = (now as i128) + secs;
    if exp < i64::MIN as i128 || exp > i64::MAX as i128 {
        return Err(TokenError::ExpiryOutOfRange);
    }
    match jwt_encode(user_id, now, exp as i64, secret) {
        Ok(t) => Ok(t),
        Err(_) => Err(TokenError::Encoding),
    }
}

/// Issues a token for `user_id` at the current time.
pub fn create_token(user_id: &str, secret: &[u8], expires_in_minutes: i64) -> (r: Result<String, TokenError>)
    ensures
        user_id@.len() == 0 ==> r == Err::<String, TokenError>(TokenError::InvalidSubject),
        r matches Ok(t) ==> exists|now: i64| #[trigger] issued_by(t@, user_id@, secret@, now, expiry_of(now, expires_in_minutes) as i64)
            && i64::MIN <= expiry_of(now, expires_in_minutes) <= i64::MAX,
{
    let now = unix_now();
    create_token_at(user_id, secret, expires_in_minutes, now)
}

/// Checks `token` under `secret` at `now`: signature, structure and expiry.
/// Every failure is the same `InvalidToken`.
pub fn verify_token_at(token: &str, secret: &[u8], now: i64) -> (r: Result<TokenClaims, ErrorMessage>)
    ensures
        match r {
            Ok(c) => token_outcome(token@, secret@, now) == Some((c.sub@, c.iat, c.exp)),
            Err(e) => token_outcome(token@, secret@, now) is None && e == ErrorMessage::InvalidToken,
        },
{
    match jwt_decode(token, secret) {
        Some(c) => {
            if (c.exp as i128) < (now as i128) - (LEEWAY_SECS as i128) {
                Err(ErrorMessage::InvalidToken)
            } else {
                Ok(c)
            }
        },
        None => Err(ErrorMessage::InvalidToken),
    }
}

/// Checks `token` under `secret` at the current time and returns its subject;
/// any failure is a 401 with the invalid-token message.
pub fn decode_token(token: &str, secret: &[u8]) -> (r: Result<String, HttpError>)
    ensures
        match r {
            Ok(s) => jwt_claims(token@, secret@) matches Some(c) && c.0 == s@,
            Err(e) => e.status == STATUS_UNAUTHORIZED && e.message@ == message_of(ErrorMessage::InvalidToken),
        },
        jwt_claims(token@, secret@) is None ==> r is Err,
{
    let now = unix_now();
    match verify_token_at(token, secret, now) {
        Ok(c) => Ok(c.sub),
        Err(_) => Err(HttpError::new(ErrorMessage::InvalidToken, STATUS_UNAUTHORIZED)),
    }
}

/// A token verifies, with its own subject, at any time from its issue until its
/// expiry plus the leeway.
pub proof fn lemma_token_round_trip(token: Seq<char>, sub: Seq<char>, key: Seq<u8>, issued: i64, exp: i64, now: i64)
    requires
        issued_by(token, sub, key, issued, exp),
        exp >= 0,
        now <= exp + LEEWAY_SECS,
    ensures
        token_outcome(token, key, now) == Some((sub, issued, exp)),
{
}

/// A token verified after its expiry plus the leeway is refused, as one that
/// does not decode is.
pub proof fn lemma_expired_token_refused(token: Seq<char>, sub: Seq<char>, key: Seq<u8>, issued: i64, exp: i64, now: i64)
    requires
        issued_by(token, sub, key, issued, exp),
        exp >= 0,
        exp + LEEWAY_SECS < now,
    ensures
        token_outcome(token, key, now) is None,
{
}

} // verus!
