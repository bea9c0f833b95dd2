use vstd::prelude::*;

use vstd::string::StrSliceExecFns;

use crate::config::Config;
use crate::errors::ErrorMessage;
use crate::store::{account_verified_in, AuthRepo};
use crate::token::{create_token_at, expiry_of, issued_by, token_outcome, verify_token_at, TokenClaims, TokenError};

verus! {

/// Age in seconds past which a session token is renewed on the response.
pub const RENEWAL_AGE_SECS: i64 = 60;

/// The identity that a request authenticated as.
#[derive(Clone)]
pub struct AuthenticatedUserId(pub String);

/// The rest of `s` after `prefix`, if `s` starts with it.
fn strip_prefix<'a>(s: &'a str, prefix: &str) -> (r: Option<&'a str>)
    ensures
        r matches Some(rest) ==> s@ == prefix@ + rest@,
        r is None ==> !(prefix@.len() <= s@.len() && s@.subrange(0, prefix@.len() as int) == prefix@),
{
    let n = prefix.unicode_len();
    let len = s.unicode_len();
    if n > len {
        return None;
    }
    let mut i: usize = 0;
    while i < n
        invariant
            n == prefix@.len(),
            len == s@.len(),
            n <= len,
            i <= n,
            forall|k: int| 0 <= k < i ==> s@[k] == prefix@[k],
        decreases n - i,
    {
        if s.get_char(i) != prefix.get_char(i) {
            assert(s@.subrange(0, n as int)[i as int] != prefix@[i as int]);
            return None;
        }
        i = i + 1;
    }
    let rest = s.substring_char(n, len);
    assert(s@ =~= prefix@ + rest@);
    Some(rest)
}

/// The token that a request carries: the session cookie if there is one, else
/// what follows `Bearer ` in the authorization header.
pub open spec fn token_source(cookie: Option<Seq<char>>, authorization: Option<Seq<char>>) -> Option<Seq<char>> {
    match cookie {
        Some(c) => Some(c),
        None => match authorization {
            Some(h) => if "Bearer "@.len() <= h.len() && h.subrange(0, "Bearer "@.len() as int) == "Bearer "@ {
                Some(h.subrange("Bearer "@.len() as int, h.len() as int))
            } else {
                None
            },
            None => None,
        },
    }
}

pub open spec fn opt_view(o: Option<&str>) -> Option<Seq<char>> {
    match o {
        Some(s) => Some(s@),
        None => None,
    }
}

/// Picks the request's token by the precedence cookie, then bearer header.
pub fn extract_token(cookie: Option<&str>, authorization: Option<&str>) -> (r: Option<String>)
    ensures
        match r {
            Some(t) => token_source(opt_view(cookie), opt_view(authorization)) == Some(t@),
            None => token_source(opt_view(cookie), opt_view(authorization)) is None,
        },
{
    match cookie {
        Some(c) => Some(c.to_owned()),
        None => match authorization {
            Some(h) => match strip_prefix(h, "Bearer ") {
                Some(rest) => {
                    assert(h@.subrange(0, "Bearer "@.len() as int) == "Bearer "@);
                    assert(h@.subrange("Bearer "@.len() as int, h@.len() as int) == rest@);
                    Some(rest.to_owned())
                },
                None => None,
            },
            None => None,
        },
    }
}

/// The first stage of a protected request: a token must be present and verify.
pub fn authenticate(token: Option<&str>, secret: &[u8], now: i64) -> (r: Result<TokenClaims, ErrorMessage>)
    ensures
        token is None ==> r == Err::<TokenClaims, ErrorMessage>(ErrorMessage::TokenNotProvided),
        token matches Some(t) ==> match r {
            Ok(c) => token_outcome(t@, secret@, now) == Some((c.sub@, c.iat, c.exp)),
            Err(e) => token_outcome(t@, secret@, now) is None && e == ErrorMessage::InvalidToken,
        },
{
    match token {
        None => Err(ErrorMessage::TokenNotProvided),
        Some(t) => verify_token_at(t, secret, now),
    }
}

/// The second stage: the subject must still be a verified account.
pub fn check_account(claims: TokenClaims, account_verified: bool) -> (r: Result<AuthenticatedUserId, ErrorMessage>)
    ensures
        account_verified ==> (r matches Ok(id) && id.0@ == claims.sub@),
        !account_verified ==> r == Err::<AuthenticatedUserId, ErrorMessage>(ErrorMessage::PermissionDenied),
{
    if account_verified {
        Ok(AuthenticatedUserId(claims.sub))
    } else {
        Err(ErrorMessage::PermissionDenied)
    }
}

/// What a protected request against `store` comes to, given its cookie and
/// authorization header.
pub fn authorize_request(
    store: &AuthRepo,
    cookie: Option<&str>,
    authorization: Option<&str>,
    secret: &[u8],
    now: i64,
) -> (r: Result<(AuthenticatedUserId, TokenClaims), ErrorMessage>)
    requires
        store.wf(),
    ensures
        match token_source(opt_view(cookie), opt_view(authorization)) {
            None => r == Err::<(AuthenticatedUserId, TokenClaims), ErrorMessage>(ErrorMessage::TokenNotProvided),
            Some(t) => match token_outcome(t, secret@, now) {
                None => r == Err::<(AuthenticatedUserId, TokenClaims), ErrorMessage>(ErrorMessage::InvalidToken),
                Some(c) => if account_verified_in(store@, c.0) {
                    (r matches Ok((id, claims)) && id.0@ == c.0 && (claims.sub@, claims.iat, claims.exp) == c)
                } else {
                    r == Err::<(AuthenticatedUserId, TokenClaims), ErrorMessage>(ErrorMessage::PermissionDenied)
                },
            },
        },
{
    let token = extract_token(cookie, authorization);
    let claims = match token {
        None => return Err(ErrorMessage::TokenNotProvided),
        Some(t) => match authenticate(Some(t.as_str()), secret, now) {
            Ok(c) => c,
            Err(e) => return Err(e),
        },
    };
    let verified = store.exists_verified(claims.sub.as_str());
    let iat = claims.iat;
    let exp = claims.exp;
    let sub = claims.sub.clone();
    match check_account(claims, verified) {
        Ok(id) => Ok((id, TokenClaims { sub, iat, exp })),
        Err(e) => Err(e),
    }
}

/// Whether the response gets a renewed session token: it sets no session
/// cookie itself and the token is older than the renewal age.
pub open spec fn renewal_due(already_set_cookie: bool, iat: i64, now: i64) -> bool {
    !already_set_cookie && now - iat > RENEWAL_AGE_SECS
}

pub fn should_renew(already_set_cookie: bool, iat: i64, now: i64) -> (r: bool)
    ensures
        r == renewal_due(already_set_cookie, iat, now),
{
    !already_set_cookie && (now as i128) - (iat as i128) > RENEWAL_AGE_SECS as i128
}

/// The token that the response carries after a protected request: `None`
/// when no renewal is due, else a new token for the same subject.
pub fn renewal_token(claims: &TokenClaims, already_set_cookie: bool, secret: &[u8], max_age_mins: i64, now: i64)
    -> (r: Result<Option<String>, TokenError>)
    ensures
        !renewal_due(already_set_cookie, claims.iat, now) ==> r == Ok::<Option<String>, TokenError>(None),
        renewal_due(already_set_cookie, claims.iat, now) && claims.sub@.len() == 0 ==> r == Err::<
            Option<String>,
            TokenError,
        >(TokenError::InvalidSubject),
        renewal_due(already_set_cookie, claims.iat, now) && claims.sub@.len() > 0 && !(i64::MIN <= expiry_of(
            now,
            max_age_mins,
        ) <= i64::MAX) ==> r == Err::<Option<String>, TokenError>(TokenError::ExpiryOutOfRange),
        renewal_due(already_set_cookie, claims.iat, now) && claims.sub@.len() > 0 && i64::MIN <= expiry_of(
            now,
            max_age_mins,
        ) <= i64::MAX ==> (r matches Ok(Some(t)) && issued_by(
            t@,
            claims.sub@,
            secret@,
            now,
            expiry_of(now, max_age_mins) as i64,
        )),
{
    if !should_renew(already_set_cookie, claims.iat, now) {
        return Ok(None);
    }
    match create_token_at(claims.sub.as_str(), secret, max_age_mins, now) {
        Ok(t) => Ok(Some(t)),
        Err(e) => Err(e),
    }
}

/// The attributes of the session cookie.
#[derive(Debug, Clone)]
pub struct SessionCookie {
    pub name: String,
    pub value: String,
    pub path: String,
    pub http_only: bool,
    pub secure: bool,
    pub same_site_lax: bool,
    pub max_age_minutes: i64,
}

/// The session cookie for `token` under `config`: path `/`, HTTP only,
/// same-site lax, secure in production, living as long as a session.
pub fn session_cookie(config: &Config, token: String) -> (r: SessionCookie)
    ensures
        r.name@ == config.auth_cookie_name@,
        r.value@ == token@,
        r.path@ == "/"@,
        r.http_only,
        r.secure == config.is_prod,
        r.same_site_lax,
        r.max_age_minutes == config.jwt_max_age_mins,
{
    SessionCookie {
        name: config.auth_cookie_name.clone(),
        value: token,
        path: "/".to_owned(),
        http_only: true,
        secure: config.is_prod,
        same_site_lax: true,
        max_age_minutes: config.jwt_max_age_mins,
    }
}

} // verus!
