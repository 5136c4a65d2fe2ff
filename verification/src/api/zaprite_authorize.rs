//! Connecting a Zaprite account.
//!
//! The operator makes a key at Zaprite and hands it over; it is tried before
//! anything is kept.

use crate::api::payment_provider::{any_of_kind, find_kind, first_of_kind, has_kind};
use crate::api::tier::{enforce_zaprite_feature, zaprite_words, TierInfo, UPGRADE_URL_PRO};
use crate::error::{bad_request, bad_request_with, AppError};
use crate::models::{MerchantProfile, PaymentProviderRow};
use crate::text::{
    begins_with, cat2, cat3, copy_opt, opt_text, starts_with, trim, trim_end_matches, trimmed,
    without_trailing,
};
use vstd::prelude::*;

verus! {

/// Where Zaprite is reached where nothing is said.
pub const DEFAULT_BASE_URL: &'static str = "https://api.zaprite.com";

/// What the operator is told of notices that carry no signature.
pub const WEBHOOK_EXPLAINER: &'static str = "Zaprite doesn't sign webhook deliveries. Keysat authenticates each delivery via the externalUniqId we attach at order creation, so a webhook configured to ANY URL on your daemon is safe even without a shared secret. Polling /v1/orders works as a fallback if you don't register the webhook, but webhooks fire on payment settle and let Keysat issue the license within a second instead of the next reconcile-loop tick (every 60s).";

/// Hands over a key.
#[derive(Clone, Debug)]
pub struct ConnectReq {
    pub api_key: String,
    pub base_url: Option<String>,
    /// The name that the account is shown under.
    pub label: Option<String>,
    /// The profile that the account will belong to; none means the default.
    pub merchant_profile_id: Option<String>,
}

/// Which provider is disconnected; none means that of the default profile.
#[derive(Clone, Debug)]
pub struct DisconnectReq {
    pub provider_id: Option<String>,
}

impl Default for DisconnectReq {
    fn default() -> (r: DisconnectReq)
        ensures
            r.provider_id is None,
    {
        DisconnectReq { provider_id: None }
    }
}

/// What has been found out about a key that was handed over.
#[derive(Clone, Debug)]
pub struct ConnectFacts {
    /// The profile that was asked for, or else the default one.
    pub profile: Option<Option<MerchantProfile>>,
    /// The profile's providers.
    pub existing: Option<Vec<PaymentProviderRow>>,
    /// Whether Zaprite took the key.
    pub tried: bool,
}

/// An account to keep.
#[derive(Clone, Debug, PartialEq, Eq)]
pub struct NewAccount {
    pub profile_id: String,
    pub profile_name: String,
    pub label: String,
    pub api_key: String,
    pub base_url: String,
    /// Whether it also serves the parts that know of only one provider: it is the
    /// first of the default profile.
    pub serves_all: bool,
}

/// What a key that was handed over needs next.
#[derive(Clone, Debug)]
pub enum ConnectStep {
    Refuse { error: AppError },
    FindProfile { id: String },
    FindDefaultProfile,
    ListProviders { profile_id: String },
    /// Ask Zaprite whether it takes the key.
    Try { base_url: String, api_key: String },
    Keep { account: NewAccount },
}

/// Where Zaprite is reached.
pub open spec fn base_url_of(wanted: Option<String>) -> Seq<char> {
    match wanted {
        Some(url) if without_trailing(trimmed(url@), '/').len() > 0 => without_trailing(
            trimmed(url@),
            '/',
        ),
        _ => DEFAULT_BASE_URL@,
    }
}

fn base_url(wanted: &Option<String>) -> (r: String)
    ensures
        r@ == base_url_of(*wanted),
{
    if let Some(url) = wanted {
        let url: &str = trim_end_matches(trim(url.as_str()), '/');
        if url.unicode_len() > 0 {
            return String::from_str(url);
        }
    }
    String::from_str(DEFAULT_BASE_URL)
}

/// The name that an account is shown under.
pub open spec fn label_of(wanted: Option<String>, profile_name: Seq<char>) -> Seq<char> {
    match wanted {
        Some(label) if trimmed(label@).len() > 0 => trimmed(label@),
        _ => "Zaprite — "@ + profile_name,
    }
}

fn label(wanted: &Option<String>, profile_name: &str) -> (r: String)
    ensures
        r@ == label_of(*wanted, profile_name@),
{
    if let Some(l) = wanted {
        let l: &str = trim(l.as_str());
        if l.unicode_len() > 0 {
            return String::from_str(l);
        }
    }
    cat2("Zaprite — ", profile_name)
}

/// What is said of a profile that has an account already.
pub open spec fn taken_words(name: Seq<char>) -> Seq<char> {
    "merchant profile '"@ + name
        + "' already has a Zaprite provider attached. Disconnect it first if you want to rotate the API key or switch organizations, or pick a different merchant profile."@
}

/// Does a URL begin as one that can be called?
pub open spec fn is_web_url(url: Seq<char>) -> bool {
    begins_with(url, "http://"@) || begins_with(url, "https://"@)
}

/// Is this the account to keep?
pub open spec fn is_account(
    req: ConnectReq,
    profile: MerchantProfile,
    existing: Seq<PaymentProviderRow>,
    a: NewAccount,
) -> bool {
    &&& a.profile_id == profile.id
    &&& a.profile_name == profile.name
    &&& a.label@ == label_of(req.label, profile.name@)
    &&& a.api_key@ == trimmed(req.api_key@)
    &&& a.base_url@ == base_url_of(req.base_url)
    &&& a.serves_all == (profile.is_default && existing.len() == 0)
}

/// Is `step` what a key that was handed over needs next?
pub open spec fn is_connect_step(
    req: ConnectReq,
    tier: TierInfo,
    facts: ConnectFacts,
    step: ConnectStep,
) -> bool {
    if !tier.holds("zaprite_payments"@) {
        step matches ConnectStep::Refuse { error } && error.is_payment_required(
            zaprite_words(tier.display_name@),
            UPGRADE_URL_PRO@,
        )
    } else if trimmed(req.api_key@).len() == 0 {
        step matches ConnectStep::Refuse { error } && error.is_bad_request("api_key is required"@)
    } else {
        match (facts.profile, req.merchant_profile_id) {
            (None, Some(id)) => step == (ConnectStep::FindProfile { id }),
            (None, None) => step is FindDefaultProfile,
            (Some(None), Some(id)) => step matches ConnectStep::Refuse { error }
                && error.is_bad_request("merchant profile "@ + id@ + " not found"@),
            (Some(None), None) => step is FindDefaultProfile,
            (Some(Some(profile)), _) => match facts.existing {
                None => step == (ConnectStep::ListProviders { profile_id: profile.id }),
                Some(rows) => if has_kind(rows@, "zaprite"@) {
                    step matches ConnectStep::Refuse { error } && error.is_conflict(
                        taken_words(profile.name@),
                    )
                } else if !is_web_url(base_url_of(req.base_url)) {
                    step matches ConnectStep::Refuse { error } && error.is_bad_request(
                        "base_url must start with http:// or https://"@,
                    )
                } else if !facts.tried {
                    step matches ConnectStep::Try { base_url, api_key } && base_url@ == base_url_of(
                        req.base_url,
                    ) && api_key@ == trimmed(req.api_key@)
                } else {
                    step matches ConnectStep::Keep { account } && is_account(
                        req,
                        profile,
                        rows@,
                        account,
                    )
                },
            },
        }
    }
}

/// What a key that was handed over needs next. The service's tier has to have
/// Zaprite payments.
pub fn connect(req: &ConnectReq, tier: &TierInfo, facts: &ConnectFacts) -> (r: ConnectStep)
    ensures
        is_connect_step(*req, *tier, *facts, r),
{
    if let Err(error) = enforce_zaprite_feature(tier) {
        return ConnectStep::Refuse { error };
    }
    let api_key: &str = trim(req.api_key.as_str());
    if api_key.unicode_len() == 0 {
        return ConnectStep::Refuse { error: bad_request("api_key is required") };
    }
    let profile: &MerchantProfile = match (&facts.profile, &req.merchant_profile_id) {
        (None, Some(id)) => {
            return ConnectStep::FindProfile { id: id.clone() };
        },
        (Some(None), Some(id)) => {
            return ConnectStep::Refuse {
                error: bad_request_with("merchant profile ", id.as_str(), " not found"),
            };
        },
        (None, None) | (Some(None), None) => {
            return ConnectStep::FindDefaultProfile;
        },
        (Some(Some(profile)), _) => profile,
    };
    let rows: &Vec<PaymentProviderRow> = match &facts.existing {
        None => {
            return ConnectStep::ListProviders { profile_id: profile.id.clone() };
        },
        Some(rows) => rows,
    };
    if any_of_kind(rows, "zaprite") {
        return ConnectStep::Refuse {
            error: AppError::Conflict(
                cat3(
                    "merchant profile '",
                    profile.name.as_str(),
                    "' already has a Zaprite provider attached. Disconnect it first if you want to rotate the API key or switch organizations, or pick a different merchant profile.",
                ),
            ),
        };
    }
    let url: String = base_url(&req.base_url);
    if !starts_with(url.as_str(), "http://") && !starts_with(url.as_str(), "https://") {
        return ConnectStep::Refuse {
            error: bad_request("base_url must start with http:// or https://"),
        };
    }
    if !facts.tried {
        return ConnectStep::Try { base_url: url, api_key: String::from_str(api_key) };
    }
    ConnectStep::Keep {
        account: NewAccount {
            profile_id: profile.id.clone(),
            profile_name: profile.name.clone(),
            label: label(&req.label, profile.name.as_str()),
            api_key: String::from_str(api_key),
            base_url: url,
            serves_all: profile.is_default && rows.len() == 0,
        },
    }
}

/// Only a key that Zaprite took is kept, only where the profile has none, and
/// only on a tier that has Zaprite payments.
pub proof fn only_tried_keys_are_kept(
    req: ConnectReq,
    tier: TierInfo,
    facts: ConnectFacts,
    step: ConnectStep,
)
    requires
        is_connect_step(req, tier, facts, step),
        step is Keep,
    ensures
        tier.holds("zaprite_payments"@),
        facts.tried,
        facts.existing matches Some(rows) && !has_kind(rows@, "zaprite"@),
{
}

/// Zaprite did not take the key.
pub fn key_refused(detail: &str) -> (r: AppError)
    ensures
        r.is_upstream(
            "Zaprite key validation failed (key may be invalid or revoked): "@ + detail@,
        ),
{
    AppError::Upstream(
        cat2("Zaprite key validation failed (key may be invalid or revoked): ", detail),
    )
}

/// Where an account's notices are sent to, or all notices where there is none.
pub open spec fn notice_url(public_base_url: Seq<char>, provider_id: Option<Seq<char>>) -> Seq<
    char,
> {
    match provider_id {
        Some(id) => without_trailing(public_base_url, '/') + "/v1/zaprite/webhook/"@ + id,
        None => without_trailing(public_base_url, '/') + "/v1/zaprite/webhook"@,
    }
}

/// Where an account's notices are sent to.
pub fn webhook_url(public_base_url: &str, provider_id: &Option<String>) -> (r: String)
    ensures
        r@ == notice_url(public_base_url@, opt_text(*provider_id)),
{
    let base: &str = trim_end_matches(public_base_url, '/');
    match provider_id {
        Some(id) => cat3(base, "/v1/zaprite/webhook/", id.as_str()),
        None => cat2(base, "/v1/zaprite/webhook"),
    }
}

/// The provider that a request to disconnect means, if there is one.
pub fn disconnect(req: &DisconnectReq, of_default: &Vec<PaymentProviderRow>) -> (r: Option<String>)
    ensures
        r == match req.provider_id {
            Some(id) => Some(id),
            None => match first_of_kind(of_default@, "zaprite"@) {
                Some(row) => Some(row.id),
                None => None,
            },
        },
{
    match &req.provider_id {
        Some(id) => Some(id.clone()),
        None => match find_kind(of_default, "zaprite") {
            Some(row) => Some(row.id.clone()),
            None => None,
        },
    }
}

/// What is told about the default profile's account.
#[derive(Clone, Debug, PartialEq, Eq)]
pub struct AccountStatus {
    pub connected: bool,
    pub provider_id: Option<String>,
    pub base_url: Option<String>,
    pub label: Option<String>,
    pub webhook_id: Option<String>,
    pub merchant_profile_id: Option<String>,
    pub merchant_profile_name: Option<String>,
    pub webhook_url: String,
}

/// What is told about the default profile's account.
pub fn status(
    default: &Option<MerchantProfile>,
    rows: &Vec<PaymentProviderRow>,
    public_base_url: &str,
) -> (r: AccountStatus)
    ensures
        ({
            let row = match *default {
                Some(_) => first_of_kind(rows@, "zaprite"@),
                None => None,
            };
            &&& r.connected == row is Some
            &&& r.provider_id == match row {
                Some(row) => Some(row.id),
                None => None,
            }
            &&& r.base_url == match row {
                Some(row) => Some(row.base_url),
                None => None,
            }
            &&& r.label == match row {
                Some(row) => Some(row.label),
                None => None,
            }
            &&& r.webhook_id == match row {
                Some(row) => row.webhook_id,
                None => None,
            }
            &&& r.merchant_profile_id == match *default {
                Some(p) => Some(p.id),
                None => None,
            }
            &&& r.merchant_profile_name == match *default {
                Some(p) => Some(p.name),
                None => None,
            }
            &&& r.webhook_url@ == notice_url(public_base_url@, opt_text(r.provider_id))
        }),
{
    let (profile_id, profile_name) = match default {
        Some(p) => (Some(p.id.clone()), Some(p.name.clone())),
        None => (None, None),
    };
    let row: Option<&PaymentProviderRow> = match default {
        Some(_) => find_kind(rows, "zaprite"),
        None => None,
    };
    match row {
        Some(row) => {
            let provider_id: Option<String> = Some(row.id.clone());
            let webhook_url: String = webhook_url(public_base_url, &provider_id);
            AccountStatus {
                connected: true,
                provider_id,
                base_url: Some(row.base_url.clone()),
                label: Some(row.label.clone()),
                webhook_id: copy_opt(&row.webhook_id),
                merchant_profile_id: profile_id,
                merchant_profile_name: profile_name,
                webhook_url,
            }
        },
        None => AccountStatus {
            connected: false,
            provider_id: None,
            base_url: None,
            label: None,
            webhook_id: None,
            merchant_profile_id: profile_id,
            merchant_profile_name: profile_name,
            webhook_url: webhook_url(public_base_url, &None),
        },
    }
}

} // verus!
