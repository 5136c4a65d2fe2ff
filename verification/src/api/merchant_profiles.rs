//! Which provider of a profile takes which kind of payment.

use crate::error::{bad_request_with, AppError};
use crate::models::{MerchantProfile, PaymentProviderRow};
use crate::text::{cat2, cat3, cat7, copy_opt, same};
use vstd::prelude::*;

verus! {

/// A way to pay.
#[derive(Clone, Copy, Debug, PartialEq, Eq, Structural)]
pub enum Rail {
    Lightning,
    Onchain,
    Card,
}

impl Rail {
    /// The way's name.
    pub open spec fn name(self) -> Seq<char> {
        match self {
            Rail::Lightning => "lightning"@,
            Rail::Onchain => "onchain"@,
            Rail::Card => "card"@,
        }
    }

    /// The way's name.
    pub fn as_str(self) -> (r: &'static str)
        ensures
            r@ == self.name(),
    {
        match self {
            Rail::Lightning => "lightning",
            Rail::Onchain => "onchain",
            Rail::Card => "card",
        }
    }

    /// The way to pay with a name.
    pub open spec fn named(name: Seq<char>) -> Option<Rail> {
        if name == "lightning"@ {
            Some(Rail::Lightning)
        } else if name == "onchain"@ {
            Some(Rail::Onchain)
        } else if name == "card"@ {
            Some(Rail::Card)
        } else {
            None
        }
    }

    /// The way to pay with a name.
    pub fn parse(name: &str) -> (r: Option<Rail>)
        ensures
            r == Rail::named(name@),
    {
        if same(name, "lightning") {
            Some(Rail::Lightning)
        } else if same(name, "onchain") {
            Some(Rail::Onchain)
        } else if same(name, "card") {
            Some(Rail::Card)
        } else {
            None
        }
    }
}

/// A name is read as the way that has it.
pub proof fn rails_are_found_by_name(rail: Rail)
    ensures
        Rail::named(rail.name()) == Some(rail),
{
    reveal_strlit("lightning");
    reveal_strlit("onchain");
    reveal_strlit("card");
    assert("onchain"@.len() == 7);
    assert("card"@.len() == 4);
    assert("lightning"@.len() == 9);
}

/// Names the provider that takes a kind of payment.
#[derive(Clone, Debug)]
pub struct SetRailPreferenceReq {
    pub payment_provider_id: String,
}

/// What is said of a name that is no way to pay.
pub open spec fn unknown_rail_words(rail: Seq<char>) -> Seq<char> {
    "unknown rail '"@ + rail + "'; accepted: lightning, onchain, card"@
}

/// The way to pay with a name, or the error that says there is none.
pub fn known_rail(rail: &str) -> (r: Result<Rail, AppError>)
    ensures
        match r {
            Ok(k) => Rail::named(rail@) == Some(k),
            Err(e) => Rail::named(rail@) is None && e.is_bad_request(unknown_rail_words(rail@)),
        },
{
    match Rail::parse(rail) {
        Some(k) => Ok(k),
        None => Err(
            bad_request_with("unknown rail '", rail, "'; accepted: lightning, onchain, card"),
        ),
    }
}

fn serves(served: &Vec<Rail>, rail: Rail) -> (r: bool)
    ensures
        r == served@.contains(rail),
{
    for i in 0..served.len()
        invariant
            forall|j: int| 0 <= j < i ==> served@[j] != rail,
    {
        if served[i] == rail {
            assert(served@[i as int] == rail);
            return true;
        }
    }
    false
}

/// What is wrong with a provider that is to take a kind of payment; `served` is
/// what providers of its kind take.
pub open spec fn preference_refusal(
    profile_id: Seq<char>,
    rail: Seq<char>,
    provider_id: Seq<char>,
    found: Option<PaymentProviderRow>,
    served: Seq<Rail>,
) -> Option<Seq<char>> {
    match (Rail::named(rail), found) {
        (None, _) => Some(unknown_rail_words(rail)),
        (Some(_), None) => Some("payment provider "@ + provider_id + " not found"@),
        (Some(k), Some(row)) => if row.merchant_profile_id@ != profile_id {
            Some(
                "payment provider "@ + provider_id + " is not attached to merchant profile "@
                    + profile_id,
            )
        } else if !served.contains(k) {
            Some(
                "payment provider "@ + provider_id + " (kind="@ + row.kind@
                    + ") does not serve the '"@ + rail
                    + "' rail; pick a provider that does, or remove this preference"@,
            )
        } else {
            None
        },
    }
}

/// Checks that a provider can take a kind of payment on a profile: it is
/// attached to the profile, and providers of its kind take it.
pub fn set_rail_preference(
    profile_id: &str,
    rail: &str,
    req: &SetRailPreferenceReq,
    found: &Option<PaymentProviderRow>,
    served: &Vec<Rail>,
) -> (r: Result<Rail, AppError>)
    ensures
        match (
            preference_refusal(
                profile_id@,
                rail@,
                req.payment_provider_id@,
                *found,
                served@,
            ),
            r,
        ) {
            (None, Ok(k)) => Rail::named(rail@) == Some(k),
            (Some(words), Err(e)) => e.is_bad_request(words),
            _ => false,
        },
{
    let parsed: Rail = match known_rail(rail) {
        Ok(k) => k,
        Err(e) => {
            return Err(e);
        },
    };
    let id: &str = req.payment_provider_id.as_str();
    let row: &PaymentProviderRow = match found {
        None => {
            return Err(bad_request_with("payment provider ", id, " not found"));
        },
        Some(row) => row,
    };
    if !same(row.merchant_profile_id.as_str(), profile_id) {
        let head: String = cat3("payment provider ", id, " is not attached to merchant profile ");
        return Err(AppError::BadRequest(cat2(head.as_str(), profile_id)));
    }
    if !serves(served, parsed) {
        return Err(
            AppError::BadRequest(
                cat7(
                    "payment provider ",
                    id,
                    " (kind=",
                    row.kind.as_str(),
                    ") does not serve the '",
                    rail,
                    "' rail; pick a provider that does, or remove this preference",
                ),
            ),
        );
    }
    Ok(parsed)
}

/// Only providers of the profile itself are ever preferred.
pub proof fn preferred_providers_are_attached(
    profile_id: Seq<char>,
    rail: Seq<char>,
    provider_id: Seq<char>,
    found: Option<PaymentProviderRow>,
    served: Seq<Rail>,
)
    requires
        preference_refusal(profile_id, rail, provider_id, found, served) is None,
    ensures
        found matches Some(row) && row.merchant_profile_id@ == profile_id,
        Rail::named(rail) matches Some(k) && served.contains(k),
{
}

// ---------- what is told about a profile ----------

/// What is told about a profile. The password of its mail account is not.
#[derive(Clone, Debug, PartialEq, Eq)]
pub struct ProfileView {
    pub id: String,
    pub name: String,
    pub legal_name: Option<String>,
    pub support_url: Option<String>,
    pub support_email: Option<String>,
    pub brand_color: Option<String>,
    pub post_purchase_redirect_url: Option<String>,
    pub is_default: bool,
    pub smtp_configured: bool,
    pub smtp_host: Option<String>,
    pub smtp_port: Option<i64>,
    pub smtp_username: Option<String>,
    pub smtp_from_address: Option<String>,
    pub smtp_from_name: Option<String>,
    pub smtp_use_starttls: bool,
    pub created_at: String,
    pub updated_at: String,
}

/// What is told about a profile.
pub open spec fn view_of(p: MerchantProfile) -> ProfileView {
    ProfileView {
        id: p.id,
        name: p.name,
        legal_name: p.legal_name,
        support_url: p.support_url,
        support_email: p.support_email,
        brand_color: p.brand_color,
        post_purchase_redirect_url: p.post_purchase_redirect_url,
        is_default: p.is_default,
        smtp_configured: p.smtp_host is Some,
        smtp_host: p.smtp_host,
        smtp_port: p.smtp_port,
        smtp_username: p.smtp_username,
        smtp_from_address: p.smtp_from_address,
        smtp_from_name: p.smtp_from_name,
        smtp_use_starttls: p.smtp_use_starttls,
        created_at: p.created_at,
        updated_at: p.updated_at,
    }
}

/// What is told about a profile.
pub fn profile_view(p: &MerchantProfile) -> (r: ProfileView)
    ensures
        r == view_of(*p),
{
    ProfileView {
        id: p.id.clone(),
        name: p.name.clone(),
        legal_name: copy_opt(&p.legal_name),
        support_url: copy_opt(&p.support_url),
        support_email: copy_opt(&p.support_email),
        brand_color: copy_opt(&p.brand_color),
        post_purchase_redirect_url: copy_opt(&p.post_purchase_redirect_url),
        is_default: p.is_default,
        smtp_configured: p.smtp_host.is_some(),
        smtp_host: copy_opt(&p.smtp_host),
        smtp_port: p.smtp_port,
        smtp_username: copy_opt(&p.smtp_username),
        smtp_from_address: copy_opt(&p.smtp_from_address),
        smtp_from_name: copy_opt(&p.smtp_from_name),
        smtp_use_starttls: p.smtp_use_starttls,
        created_at: p.created_at.clone(),
        updated_at: p.updated_at.clone(),
    }
}

/// What is told about a profile does not depend on its password.
pub proof fn passwords_are_not_told(p: MerchantProfile, q: MerchantProfile)
    requires
        q == (MerchantProfile { smtp_password: q.smtp_password, ..p }),
    ensures
        view_of(p) == view_of(q),
{
}

/// What is told about a profile's provider.
#[derive(Clone, Debug, PartialEq, Eq)]
pub struct AttachedProvider {
    pub id: String,
    pub kind: String,
    pub label: String,
    pub base_url: String,
    pub store_id: Option<String>,
    pub webhook_id: Option<String>,
    pub connected_at: String,
    /// The ways to pay that it takes.
    pub served_rails: Vec<&'static str>,
}

/// Is this what is told about a provider that takes the given ways to pay?
pub open spec fn is_attached(a: AttachedProvider, row: PaymentProviderRow, served: Seq<Rail>) -> bool {
    &&& a.id == row.id
    &&& a.kind == row.kind
    &&& a.label == row.label
    &&& a.base_url == row.base_url
    &&& a.store_id == row.store_id
    &&& a.webhook_id == row.webhook_id
    &&& a.connected_at == row.connected_at
    &&& a.served_rails@.len() == served.len()
    &&& forall|i: int| 0 <= i < served.len() ==> (#[trigger] a.served_rails@[i])@ == served[i].name()
}

/// What is told about a provider that takes the given ways to pay.
pub fn attached_provider(row: &PaymentProviderRow, served: &Vec<Rail>) -> (r: AttachedProvider)
    ensures
        is_attached(r, *row, served@),
{
    let mut served_rails: Vec<&'static str> = Vec::new();
    for i in 0..served.len()
        invariant
            served_rails@.len() == i,
            forall|j: int| 0 <= j < i ==> (#[trigger] served_rails@[j])@ == served@[j].name(),
    {
        served_rails.push(served[i].as_str());
    }
    AttachedProvider {
        id: row.id.clone(),
        kind: row.kind.clone(),
        label: row.label.clone(),
        base_url: row.base_url.clone(),
        store_id: copy_opt(&row.store_id),
        webhook_id: copy_opt(&row.webhook_id),
        connected_at: row.connected_at.clone(),
        served_rails,
    }
}

/// There is no profile with this id.
pub fn no_profile(id: &str) -> (r: AppError)
    ensures
        r.is_not_found("merchant profile "@ + id@),
{
    AppError::NotFound(cat2("merchant profile ", id))
}

} // verus!
