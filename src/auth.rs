//! The authenticated caller, and the arithmetic of token lifetimes.
use vstd::prelude::*;
use vstd::string::StrSliceExecFns;
use crate::text::{chars_of, has_prefix, starts_with_str};

verus! {

/// Scheme prefix of an `Authorization` header that carries a bearer token.
pub const BEARER_PREFIX: &'static str = "Bearer ";
/// Seconds an access token issued at login stays valid.
pub const LOGIN_ACCESS_TTL_SECS: u64 = 120;
/// Seconds an access token issued on refresh stays valid.
pub const REFRESH_ACCESS_TTL_SECS: u64 = 3600;
/// Seconds a refresh token stays valid.
pub const REFRESH_TOKEN_TTL_SECS: u64 = 604800;

/// The caller of a request, as its verified token names it.
#[derive(Debug)]
pub struct Auth {
    pub user_id: String,
}

impl Auth {
    /// The caller named by a verified token's subject.
    pub fn new(user_id: String) -> (r: Auth)
        ensures
            r.user_id@ == user_id@,
    {
        Auth { user_id }
    }
}

/// The token an `Authorization` header carries: what follows `Bearer `, or
/// `None` when the header does not begin with it.
pub fn bearer_token(header: &str) -> (r: Option<String>)
    ensures
        match r {
            Some(t) => has_prefix(header@, BEARER_PREFIX@) && t@ == header@.subrange(
                BEARER_PREFIX@.len() as int,
                header@.len() as int,
            ),
            None => !has_prefix(header@, BEARER_PREFIX@),
        },
{
    if !starts_with_str(header, BEARER_PREFIX) {
        return None;
    }
    let start = chars_of(BEARER_PREFIX).len();
    let end = header.unicode_len();
    let token = header.substring_char(start, end);
    Some(token.to_owned())
}

/// Expiry times, in seconds since the epoch, of the access and the refresh
/// token issued at login at time `now`.
pub fn login_expiries(now: u64) -> (r: (u64, u64))
    requires
        now + REFRESH_TOKEN_TTL_SECS <= u64::MAX,
    ensures
        r.0 == now + LOGIN_ACCESS_TTL_SECS,
        r.1 == now + REFRESH_TOKEN_TTL_SECS,
{
    (now + LOGIN_ACCESS_TTL_SECS, now + REFRESH_TOKEN_TTL_SECS)
}

/// Expiry time of the access token issued on refresh at time `now`.
pub fn refresh_expiry(now: u64) -> (r: u64)
    requires
        now + REFRESH_ACCESS_TTL_SECS <= u64::MAX,
    ensures
        r == now + REFRESH_ACCESS_TTL_SECS,
{
    now + REFRESH_ACCESS_TTL_SECS
}

} // verus!
