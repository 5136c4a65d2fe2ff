//! The connection to BTCPay, and connections that are being made.

use crate::clock::{to_rfc3339, rfc3339_text, Moment};
use crate::text::copy_opt;
use vstd::prelude::*;

verus! {

/// How to reach BTCPay.
#[derive(Clone, Debug, PartialEq, Eq)]
pub struct BtcpayConfig {
    pub base_url: String,
    pub api_key: String,
    pub store_id: String,
    pub webhook_id: Option<String>,
    pub webhook_secret: String,
}

/// A connection that is being made, as it was when it was begun.
#[derive(Clone, Debug, PartialEq, Eq)]
pub struct AuthorizeState {
    /// The profile that the connection will belong to; none means the default.
    pub merchant_profile_id: Option<String>,
    /// Whether a key with limited rights began it.
    pub scoped_initiator: bool,
    /// The hash of the credential that began it.
    pub initiator_actor_hash: Option<String>,
}

impl Default for AuthorizeState {
    /// Begun with the operator's key, for the default profile.
    fn default() -> (r: AuthorizeState)
        ensures
            r.merchant_profile_id is None,
            !r.scoped_initiator,
            r.initiator_actor_hash is None,
    {
        AuthorizeState {
            merchant_profile_id: None,
            scoped_initiator: false,
            initiator_actor_hash: None,
        }
    }
}

/// How long a connection may take to be made, in seconds.
pub const AUTHORIZE_TTL_SECS: i64 = 1800;

/// The time before which connections that are being made are forgotten.
pub open spec fn cutoff_text(now: Moment) -> Seq<char> {
    let cutoff = now.later(-AUTHORIZE_TTL_SECS as int);
    rfc3339_text(cutoff.secs, cutoff.nanos)
}

/// The time before which connections that are being made are forgotten: half an
/// hour ago.
pub fn authorize_cutoff(now: &Moment) -> (r: String)
    requires
        now.can_add(-AUTHORIZE_TTL_SECS as int),
    ensures
        r@ == cutoff_text(*now),
{
    let cutoff: Moment = now.plus(-AUTHORIZE_TTL_SECS);
    to_rfc3339(&cutoff)
}

/// A stored connection that is being made. `scoped` is the stored number; a row
/// without one was begun with the operator's key.
#[derive(Clone, Debug)]
pub struct StoredState {
    pub merchant_profile_id: Option<String>,
    pub scoped: Option<i64>,
    pub initiator_actor_hash: Option<String>,
}

/// Is `r` the state that was stored under a token?
pub open spec fn is_consumed(found: Option<StoredState>, r: Result<AuthorizeState, &'static str>) -> bool {
    match found {
        None => r matches Err(words) && words@ == "unknown or expired authorize state token"@,
        Some(row) => r matches Ok(state) && state == (AuthorizeState {
            merchant_profile_id: row.merchant_profile_id,
            scoped_initiator: row.scoped matches Some(n) && n != 0,
            initiator_actor_hash: row.initiator_actor_hash,
        }),
    }
}

/// The state that was stored under a token, if the token is known and not too
/// old. The store forgets a token that was used.
pub fn consume_authorize_state(found: &Option<StoredState>) -> (r: Result<
    AuthorizeState,
    &'static str,
>)
    ensures
        is_consumed(*found, r),
{
    match found {
        None => Err("unknown or expired authorize state token"),
        Some(row) => Ok(
            AuthorizeState {
                merchant_profile_id: copy_opt(&row.merchant_profile_id),
                scoped_initiator: match row.scoped {
                    Some(n) => n != 0,
                    None => false,
                },
                initiator_actor_hash: copy_opt(&row.initiator_actor_hash),
            },
        ),
    }
}

} // verus!
