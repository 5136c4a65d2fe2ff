//! Sessions of the web interface, carried over to the operator's key.

use crate::api::admin::bearer_token;
use crate::api::auth::{extract_session_cookie, session_in};
use crate::text::{cat2, opt_str};
use vstd::prelude::*;

verus! {

/// What happens to a request on its way in.
#[derive(Clone, Debug)]
pub enum SessionStep {
    /// The request goes on as it is.
    PassOn,
    /// Find out whether the session is valid.
    CheckSession { token: String },
    /// The request goes on with this authorization header.
    Authorize { header: String },
}

/// The session's token in a cookie header.
pub open spec fn cookie_session(cookie: Option<Seq<char>>) -> Option<Seq<char>> {
    match cookie {
        Some(raw) => session_in(raw),
        None => None,
    }
}

/// Is `r` what happens to a request on its way in?
pub open spec fn is_session_step(
    has_authorization: bool,
    cookie: Option<Seq<char>>,
    session_valid: Option<bool>,
    admin_api_key: Seq<char>,
    r: SessionStep,
) -> bool {
    if has_authorization {
        r is PassOn
    } else {
        match (cookie_session(cookie), session_valid) {
            (None, _) => r is PassOn,
            (Some(token), None) => r matches SessionStep::CheckSession { token: t } && t@ == token,
            (Some(_), Some(true)) => r matches SessionStep::Authorize { header } && header@
                == "Bearer "@ + admin_api_key,
            (Some(_), Some(false)) => r is PassOn,
        }
    }
}

/// What happens to a request on its way in. One that brings an authorization
/// header keeps it; one with a valid session acts with the operator's key.
pub fn session_to_bearer(
    has_authorization: bool,
    cookie: Option<&str>,
    session_valid: Option<bool>,
    admin_api_key: &str,
) -> (r: SessionStep)
    ensures
        is_session_step(has_authorization, opt_str(cookie), session_valid, admin_api_key@, r),
{
    if has_authorization {
        return SessionStep::PassOn;
    }
    match extract_session_cookie(cookie) {
        None => SessionStep::PassOn,
        Some(token) => match session_valid {
            None => SessionStep::CheckSession { token },
            Some(valid) => if valid {
                SessionStep::Authorize { header: cat2("Bearer ", admin_api_key) }
            } else {
                SessionStep::PassOn
            },
        },
    }
}

/// The header that a valid session is given carries the operator's key.
pub proof fn sessions_act_with_the_operators_key(admin_api_key: Seq<char>)
    ensures
        bearer_token(Some("Bearer "@ + admin_api_key)) == Some(admin_api_key),
{
    let h = "Bearer "@ + admin_api_key;
    let n = "Bearer "@.len() as int;
    assert(h.subrange(0, n) =~= "Bearer "@);
    assert(h.subrange(n, h.len() as int) =~= admin_api_key);
}

} // verus!
