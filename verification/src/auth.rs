//! Administrative authentication and the rate limiter's exemption test: both
//! compare a request's bearer header against the configured administrative
//! token.

use vstd::prelude::*;

use crate::error::PSNServerError;
use crate::strutil::{occurs, str_contains, str_eq};

verus! {

/// Admits a caller exactly when its authorization header equals the
/// administrative bearer token; a missing or unreadable header is refused
/// like a wrong one.
pub fn check_admin_auth(header: Option<&str>, admin_token: &str) -> (r: Result<(), PSNServerError>)
    ensures
        r is Ok <==> header is Some && header->Some_0@ == admin_token@,
        r is Err ==> r->Err_0 is Authorization,
{
    match header {
        Some(given) => {
            if str_eq(given, admin_token) {
                Ok(())
            } else {
                Err(PSNServerError::Authorization)
            }
        },
        None => Err(PSNServerError::Authorization),
    }
}

/// What the rate limiter does with one request.
pub enum FilterDecision {
    /// The request is exempt: it is not counted against the rate limit.
    Skip,
    /// The request is counted as usual.
    Continue,
}

/// Exempts a request from rate limiting exactly when its authorization
/// header contains the administrative token; a missing header is counted.
pub fn rate_limit_filter(header: Option<&str>, admin_token: &str) -> (r: FilterDecision)
    ensures
        (r is Skip) <==> (header is Some && occurs(header->Some_0@, admin_token@)),
{
    match header {
        Some(given) => {
            if str_contains(given, admin_token) {
                FilterDecision::Skip
            } else {
                FilterDecision::Continue
            }
        },
        None => FilterDecision::Continue,
    }
}

} // verus!
