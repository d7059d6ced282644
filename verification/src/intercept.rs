//! The two intercepts a login session installs before submitting: the request
//! intercept that rewrites the CAPTCHA grant's `response_token` parameter in
//! place, and the response intercept that harvests the session-token payload
//! into a single-assignment slot.

use vstd::prelude::*;

use crate::model::PSNNpssoResponse;
use crate::strutil::{occurs, occurs_at, str_find, str_starts_with};

verus! {

/// The login page of the account service.
pub const LOGIN_URL: &'static str = "https://account.sonyentertainmentnetwork.com";

/// The account service's authentication endpoint: both intercepts match on
/// this prefix.
pub const AUTH_URL: &'static str = "https://auth.api.sonyentertainmentnetwork.com";

/// The body prefix that marks a CAPTCHA-grant authentication request.
pub const GRANT_PREFIX: &'static str = "grant_type=captcha";

/// The body parameter the request intercept rewrites.
pub const TOKEN_PARAM: &'static str = "response_token=";

/// The pattern's first occurrence in `s` is at `i`.
pub open spec fn first_occurrence_at(s: Seq<char>, pat: Seq<char>, i: int) -> bool {
    occurs_at(s, pat, i) && forall|j: int| 0 <= j < i ==> !occurs_at(s, pat, j)
}

/// `out` is `body` with everything from the first `response_token=` onward
/// replaced by `response_token=` followed by the solved token; a body without
/// the parameter gets it appended.
pub open spec fn is_rewritten_body(body: Seq<char>, token: Seq<char>, out: Seq<char>) -> bool {
    if occurs(body, TOKEN_PARAM@) {
        exists|i: int|
            #![auto]
            first_occurrence_at(body, TOKEN_PARAM@, i) && out == body.subrange(0, i) + TOKEN_PARAM@
                + token
    } else {
        out == body + TOKEN_PARAM@ + token
    }
}

/// An intercepted request must be rewritten exactly when it goes to the
/// authentication endpoint and carries a CAPTCHA-grant body.
pub open spec fn request_needs_rewrite(url: Seq<char>, post_data: Option<Seq<char>>) -> bool {
    occurs_at(url, AUTH_URL@, 0) && match post_data {
        Some(body) => occurs_at(body, GRANT_PREFIX@, 0),
        None => false,
    }
}

/// The rewrite itself, stateless: the rewritten body for a matching
/// authentication request, nothing for any other request, which proceeds
/// untouched. [`RewriteGate::apply`] adds the once-per-session discipline.
pub fn rewrite_request_body(url: &str, post_data: Option<&str>, token: &str) -> (r: Option<String>)
    ensures
        r is Some <==> request_needs_rewrite(
            url@,
            match post_data {
                Some(b) => Some(b@),
                None => None,
            },
        ),
        r is Some ==> is_rewritten_body(post_data->Some_0@, token@, r->Some_0@),
{
    if !str_starts_with(url, AUTH_URL) {
        return None;
    }
    let body = match post_data {
        Some(b) => b,
        None => { return None },
    };
    if !str_starts_with(body, GRANT_PREFIX) {
        return None;
    }
    let cut = match str_find(body, TOKEN_PARAM) {
        Some(i) => i,
        None => body.unicode_len(),
    };
    let mut out = String::new();
    out.append(body.substring_char(0, cut));
    out.append(TOKEN_PARAM);
    out.append(token);
    proof {
        if occurs(body@, TOKEN_PARAM@) {
            assert(first_occurrence_at(body@, TOKEN_PARAM@, cut as int));
        } else {
            assert(body@.subrange(0, cut as int) =~= body@);
        }
    }
    Some(out)
}

/// The request intercept's per-session state: matching authentication
/// requests are rewritten until the solved token has been injected once, and
/// the injection of a non-empty token — into the first matching request after
/// the token became available — is one-shot, so exactly one request carries
/// the solved token and every later one proceeds untouched.
pub struct RewriteGate {
    spent: bool,
}

impl RewriteGate {
    /// The solved token has been injected into a request.
    pub closed spec fn spec_spent(self) -> bool {
        self.spent
    }

    /// A fresh gate for one login session: nothing injected yet.
    pub fn new() -> (r: RewriteGate)
        ensures
            !r.spec_spent(),
    {
        RewriteGate { spent: false }
    }

    /// The request intercept's decision for one outgoing request: until the
    /// solved token has been injected, a matching CAPTCHA-grant request is
    /// rewritten — with the empty placeholder while the token is unavailable —
    /// and the first rewrite that injects a non-empty token is also the last.
    pub fn apply(&mut self, url: &str, post_data: Option<&str>, token: &str) -> (r: Option<String>)
        ensures
            r is Some <==> !old(self).spec_spent() && request_needs_rewrite(
                url@,
                match post_data {
                    Some(b) => Some(b@),
                    None => None,
                },
            ),
            r is Some ==> is_rewritten_body(post_data->Some_0@, token@, r->Some_0@),
            final(self).spec_spent() == (old(self).spec_spent() || (r is Some && token@.len()
                > 0)),
    {
        if self.spent {
            return None;
        }
        let rewritten = rewrite_request_body(url, post_data, token);
        if rewritten.is_some() && !token.is_empty() {
            self.spent = true;
        }
        rewritten
    }
}

/// The single-assignment slot one acquisition shares between the response
/// intercept (its one writer) and the harvesting poll (its one reader): the
/// first stored payload stays until the reader takes it.
pub struct TokenSlot {
    value: Option<PSNNpssoResponse>,
}

impl TokenSlot {
    /// What the slot currently holds.
    pub closed spec fn spec_value(self) -> Option<PSNNpssoResponse> {
        self.value
    }

    /// A fresh, empty slot for one acquisition.
    pub fn new() -> (r: TokenSlot)
        ensures
            r.spec_value() is None,
    {
        TokenSlot { value: None }
    }

    /// Whether a payload has been stored and not yet taken.
    pub fn is_filled(&self) -> (r: bool)
        ensures
            r == (self.spec_value() is Some),
    {
        self.value.is_some()
    }

    /// Takes the stored payload, leaving the slot empty, so a second reader
    /// receives nothing.
    pub fn take(&mut self) -> (r: Option<PSNNpssoResponse>)
        ensures
            r == old(self).spec_value(),
            final(self).spec_value() is None,
    {
        self.value.take()
    }

    /// The response intercept's decision for one intercepted response: a
    /// session-token payload parsed out of an authentication-endpoint
    /// response fills the slot, once; everything else leaves it untouched.
    pub fn record_response(&mut self, url: &str, parsed: Option<PSNNpssoResponse>)
        ensures
            final(self).spec_value() == if occurs_at(url@, AUTH_URL@, 0) && parsed is Some && old(
                self,
            ).spec_value() is None {
                parsed
            } else {
                old(self).spec_value()
            },
    {
        if str_starts_with(url, AUTH_URL) {
            if let Some(payload) = parsed {
                if self.value.is_none() {
                    self.value = Some(payload);
                }
            }
        }
    }
}

} // verus!
