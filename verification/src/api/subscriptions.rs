//! Subscriptions, and how they are cancelled.
//!
//! The operator cancels a subscription by its id; a buyer shows the license key
//! instead. Either way the license stays valid to the end of what was paid for.

use crate::codec::uuid_text;
use crate::crypto::{is_verified, parse_key, read_key, verify_payload, VerifyingKey};
use crate::error::{bad_request_with, not_found_with, AppError};
use crate::models::{License, Subscription};
use crate::text::{is_blank, same, trim};
use vstd::prelude::*;

verus! {

/// Which subscriptions are listed.
#[derive(Clone, Debug)]
pub struct ListQuery {
    /// `active`, `past_due`, `cancelled` or `lapsed`.
    pub status: Option<String>,
    pub limit: i64,
}

/// How many subscriptions are listed where nothing is said.
pub fn default_limit() -> (r: i64)
    ensures
        r == 200,
{
    200
}

/// Is this a state that a subscription can be in?
pub open spec fn is_status(name: Seq<char>) -> bool {
    name == "active"@ || name == "past_due"@ || name == "cancelled"@ || name == "lapsed"@
}

/// Is `r` whether subscriptions can be listed as asked?
pub open spec fn is_list_verdict(q: ListQuery, r: Result<(), AppError>) -> bool {
    match (q.status, r) {
        (None, Ok(_)) => true,
        (Some(name), Ok(_)) => is_status(name@),
        (Some(name), Err(e)) => !is_status(name@) && e.is_bad_request(
            "unknown status filter '"@ + name@
                + "' (allowed: active, past_due, cancelled, lapsed)"@,
        ),
        (None, Err(_)) => false,
    }
}

/// Checks which subscriptions are to be listed.
pub fn admin_list(q: &ListQuery) -> (r: Result<(), AppError>)
    ensures
        is_list_verdict(*q, r),
{
    match &q.status {
        None => Ok(()),
        Some(name) => {
            let n: &str = name.as_str();
            if same(n, "active") || same(n, "past_due") || same(n, "cancelled") || same(
                n,
                "lapsed",
            ) {
                Ok(())
            } else {
                Err(
                    bad_request_with(
                        "unknown status filter '",
                        n,
                        "' (allowed: active, past_due, cancelled, lapsed)",
                    ),
                )
            }
        },
    }
}

/// The operator cancels a subscription.
#[derive(Clone, Debug)]
pub struct CancelReq {
    pub reason: Option<String>,
}

impl Default for CancelReq {
    fn default() -> (r: CancelReq)
        ensures
            r.reason is None,
    {
        CancelReq { reason: None }
    }
}

/// A buyer cancels a subscription.
#[derive(Clone, Debug)]
pub struct BuyerCancelReq {
    pub license_key: String,
    pub reason: Option<String>,
}

/// A reason, where one is given that says something.
pub open spec fn kept_reason(reason: Option<String>) -> Option<String> {
    match reason {
        Some(words) if !is_blank(words@) => Some(words),
        _ => None,
    }
}

/// A reason, where one is given that says something.
pub fn reason_given(reason: &Option<String>) -> (r: Option<String>)
    ensures
        r == kept_reason(*reason),
{
    match reason {
        Some(words) => if trim(words.as_str()).unicode_len() > 0 {
            Some(words.clone())
        } else {
            None
        },
        None => None,
    }
}

/// A subscription that was cancelled, as the audit log and the endpoints are
/// told of it.
#[derive(Clone, Debug, PartialEq, Eq)]
pub struct Cancellation {
    pub subscription_id: String,
    pub license_id: String,
    pub product_id: String,
    pub policy_id: String,
    /// `admin` or `buyer`.
    pub actor: String,
    pub reason: Option<String>,
}

/// Is this the cancellation of a subscription?
pub open spec fn is_cancellation(
    c: Cancellation,
    sub: Subscription,
    actor: Seq<char>,
    reason: Option<String>,
) -> bool {
    &&& c.subscription_id == sub.id
    &&& c.license_id == sub.license_id
    &&& c.product_id == sub.product_id
    &&& c.policy_id == sub.policy_id
    &&& c.actor@ == actor
    &&& c.reason == kept_reason(reason)
}

/// What has been found out and done about a cancellation so far.
#[derive(Clone, Debug)]
pub struct CancelFacts {
    pub license: Option<Option<License>>,
    pub subscription: Option<Option<Subscription>>,
    /// Whether the subscription was cancelled; one that had ended already is
    /// not.
    pub cancelled: Option<bool>,
}

/// What a cancellation needs next.
#[derive(Clone, Debug)]
pub enum CancelStep {
    Refuse { error: AppError },
    FindLicense { license_id: String },
    FindSubscription { id: String },
    FindSubscriptionOfLicense { license_id: String },
    Cancel { id: String },
    /// The subscription had ended already.
    Already { status: String, id: String },
    Cancelled { cancellation: Cancellation },
}

/// Is `step` what the cancellation of a subscription that was found needs next?
/// To cancel it again changes nothing.
pub open spec fn is_step_of_found(
    sub: Subscription,
    cancelled: Option<bool>,
    actor: Seq<char>,
    reason: Option<String>,
    step: CancelStep,
) -> bool {
    match cancelled {
        None => step == (CancelStep::Cancel { id: sub.id }),
        Some(false) => step == (CancelStep::Already { status: sub.status, id: sub.id }),
        Some(true) => step matches CancelStep::Cancelled { cancellation } && is_cancellation(
            cancellation,
            sub,
            actor,
            reason,
        ),
    }
}

fn step_of_found(
    sub: &Subscription,
    cancelled: Option<bool>,
    actor: &str,
    reason: &Option<String>,
) -> (r: CancelStep)
    ensures
        is_step_of_found(*sub, cancelled, actor@, *reason, r),
{
    match cancelled {
        None => CancelStep::Cancel { id: sub.id.clone() },
        Some(done) => if !done {
            CancelStep::Already { status: sub.status.clone(), id: sub.id.clone() }
        } else {
            CancelStep::Cancelled {
                cancellation: Cancellation {
                    subscription_id: sub.id.clone(),
                    license_id: sub.license_id.clone(),
                    product_id: sub.product_id.clone(),
                    policy_id: sub.policy_id.clone(),
                    actor: String::from_str(actor),
                    reason: reason_given(reason),
                },
            }
        },
    }
}

/// Is `step` what the operator's cancellation needs next?
pub open spec fn is_admin_cancel_step(
    id: Seq<char>,
    req: CancelReq,
    facts: CancelFacts,
    step: CancelStep,
) -> bool {
    match facts.subscription {
        None => step matches CancelStep::FindSubscription { id: i } && i@ == id,
        Some(None) => step matches CancelStep::Refuse { error } && error.is_not_found(
            "subscription '"@ + id + "'"@,
        ),
        Some(Some(sub)) => is_step_of_found(sub, facts.cancelled, "admin"@, req.reason, step),
    }
}

/// What the operator's cancellation needs next.
pub fn admin_cancel(id: &str, req: &CancelReq, facts: &CancelFacts) -> (r: CancelStep)
    ensures
        is_admin_cancel_step(id@, *req, *facts, r),
{
    match &facts.subscription {
        None => CancelStep::FindSubscription { id: String::from_str(id) },
        Some(None) => CancelStep::Refuse { error: not_found_with("subscription '", id, "'") },
        Some(Some(sub)) => step_of_found(sub, facts.cancelled, "admin", &req.reason),
    }
}

/// Was a license withdrawn, for good or for a time?
pub open spec fn is_withdrawn(license: License) -> bool {
    license.revoked_at is Some || license.suspended_at is Some
}

/// Whether a license was withdrawn, for good or for a time.
pub fn withdrawn(license: &License) -> (r: bool)
    ensures
        r == is_withdrawn(*license),
{
    license.revoked_at.is_some() || license.suspended_at.is_some()
}

/// The license of a genuine key.
pub fn genuine_license_id(key: &str, verifying_key: &VerifyingKey) -> (r: Option<String>)
    ensures
        match r {
            Some(id) => is_verified(key@, verifying_key.bytes@) && id@ == uuid_text(
                read_key(key@)->Ok_0.payload.license_id,
            ),
            None => !is_verified(key@, verifying_key.bytes@),
        },
{
    match parse_key(key) {
        Err(_) => None,
        Ok((payload, signature, signed)) => {
            if verify_payload(verifying_key, signed.as_slice(), &signature).is_err() {
                None
            } else {
                Some(payload.license_id.to_text())
            }
        },
    }
}

/// Is `step` what a buyer's cancellation needs next? A key that is not genuine,
/// or whose license is unknown or withdrawn, is refused without a reason.
pub open spec fn is_buyer_cancel_step(
    req: BuyerCancelReq,
    public: Seq<u8>,
    facts: CancelFacts,
    step: CancelStep,
) -> bool {
    if !is_verified(req.license_key@, public) {
        step matches CancelStep::Refuse { error } && error is Unauthorized
    } else {
        let license_id = uuid_text(read_key(req.license_key@)->Ok_0.payload.license_id);
        match facts.license {
            None => step matches CancelStep::FindLicense { license_id: l } && l@ == license_id,
            Some(found) => if found is None || is_withdrawn(found->0) {
                step matches CancelStep::Refuse { error } && error is Unauthorized
            } else {
                match facts.subscription {
                    None => step matches CancelStep::FindSubscriptionOfLicense { license_id: l }
                        && l@ == license_id,
                    Some(None) => step matches CancelStep::Refuse { error } && error.is_not_found(
                        "no subscription tied to this license"@,
                    ),
                    Some(Some(sub)) => is_step_of_found(
                        sub,
                        facts.cancelled,
                        "buyer"@,
                        req.reason,
                        step,
                    ),
                }
            },
        }
    }
}

/// What a buyer's cancellation needs next.
pub fn buyer_cancel(req: &BuyerCancelReq, verifying_key: &VerifyingKey, facts: &CancelFacts) -> (r:
    CancelStep)
    ensures
        is_buyer_cancel_step(*req, verifying_key.bytes@, *facts, r),
{
    let license_id: String = match genuine_license_id(req.license_key.as_str(), verifying_key) {
        Some(id) => id,
        None => {
            return CancelStep::Refuse { error: AppError::Unauthorized };
        },
    };
    match &facts.license {
        None => {
            return CancelStep::FindLicense { license_id };
        },
        Some(None) => {
            return CancelStep::Refuse { error: AppError::Unauthorized };
        },
        Some(Some(license)) => {
            if withdrawn(license) {
                return CancelStep::Refuse { error: AppError::Unauthorized };
            }
        },
    }
    match &facts.subscription {
        None => CancelStep::FindSubscriptionOfLicense { license_id },
        Some(None) => CancelStep::Refuse {
            error: AppError::NotFound(String::from_str("no subscription tied to this license")),
        },
        Some(Some(sub)) => step_of_found(sub, facts.cancelled, "buyer", &req.reason),
    }
}

/// A buyer's subscription is only cancelled with a genuine key whose license is
/// not withdrawn.
pub proof fn only_holders_cancel(
    req: BuyerCancelReq,
    public: Seq<u8>,
    facts: CancelFacts,
    step: CancelStep,
)
    requires
        is_buyer_cancel_step(req, public, facts, step),
        step is Cancel || step is Cancelled,
    ensures
        is_verified(req.license_key@, public),
        facts.license matches Some(Some(license)) && !is_withdrawn(license),
{
}

/// To cancel a subscription that has ended is no error, whoever asks: the answer
/// is the state it was in.
pub proof fn cancelling_again_changes_nothing(
    id: Seq<char>,
    req: CancelReq,
    facts: CancelFacts,
    step: CancelStep,
    sub: Subscription,
)
    requires
        is_admin_cancel_step(id, req, facts, step),
        facts.subscription == Some(Some(sub)),
        facts.cancelled == Some(false),
    ensures
        step == (CancelStep::Already { status: sub.status, id: sub.id }),
{
}

} // verus!
