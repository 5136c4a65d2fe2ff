//! The records that the service keeps.

use crate::clock::{parse_rfc3339, rfc3339_moment, Moment};
use crate::text::{is_one_of, same, texts};
use vstd::prelude::*;

verus! {

/// One feature that a product's policies can grant.
#[derive(Clone, Debug, PartialEq, Eq)]
pub struct CatalogEntry {
    pub slug: String,
    pub name: String,
    pub description: String,
}

/// Something that is sold.
#[derive(Clone, Debug, PartialEq, Eq)]
pub struct Product {
    pub id: String,
    pub slug: String,
    pub name: String,
    pub description: String,
    pub active: bool,
    pub price_sats: i64,
    /// `SAT`, `USD` or `EUR`.
    pub price_currency: String,
    /// In the smallest unit of `price_currency`.
    pub price_value: i64,
    pub entitlements_catalog: Option<Vec<CatalogEntry>>,
}

/// What a policy's tier card shows beside the policy's own fields.
#[derive(Clone, Debug, PartialEq, Eq)]
pub struct PolicyDisplay {
    pub description: String,
    /// Marks the tier that the buy page recommends.
    pub highlight: bool,
    pub marketing_bullets: Vec<String>,
    /// `above` or `below` the entitlements.
    pub marketing_bullets_position: Option<String>,
    /// Granted by the license, and not shown to buyers.
    pub hidden_entitlements: Vec<String>,
}

/// A template that licenses are issued from; a tier of a product.
#[derive(Clone, Debug, PartialEq, Eq)]
pub struct Policy {
    pub id: String,
    pub product_id: String,
    pub slug: String,
    pub name: String,
    pub active: bool,
    pub public: bool,
    /// 0 means perpetual.
    pub duration_seconds: i64,
    pub grace_seconds: i64,
    /// 0 means unlimited.
    pub max_machines: i64,
    pub is_trial: bool,
    pub price_sats_override: Option<i64>,
    pub entitlements: Vec<String>,
    pub display: PolicyDisplay,
    pub tip_recipient: Option<String>,
    pub tip_pct_bps: i64,
    pub tip_label: Option<String>,
    pub is_recurring: bool,
    pub renewal_period_days: i64,
    pub grace_period_days: i64,
    pub trial_days: i64,
    pub tier_rank: Option<i64>,
}

/// A license that was issued.
#[derive(Clone, Debug, PartialEq, Eq)]
pub struct License {
    pub id: String,
    pub product_id: String,
    pub invoice_id: Option<String>,
    pub policy_id: Option<String>,
    /// `active`, `suspended` or `revoked`.
    pub status: String,
    pub issued_at: String,
    pub expires_at: Option<String>,
    pub grace_seconds: i64,
    pub max_machines: i64,
    pub is_trial: bool,
    pub entitlements: Vec<String>,
    /// The machine that a single-seat license is bound to.
    pub fingerprint: Option<String>,
    pub revoked_at: Option<String>,
    pub revocation_reason: Option<String>,
    pub suspended_at: Option<String>,
    pub suspension_reason: Option<String>,
    pub buyer_email: Option<String>,
}

/// A demand for payment, paid or not.
#[derive(Clone, Debug, PartialEq, Eq)]
pub struct Invoice {
    pub id: String,
    pub btcpay_invoice_id: String,
    pub product_id: String,
    pub policy_id: Option<String>,
    pub amount_sats: i64,
    /// `pending`, `settled`, `expired` or `invalid`.
    pub status: String,
    pub buyer_email: Option<String>,
    pub listed_currency: Option<String>,
    pub listed_value: Option<i64>,
    pub payment_provider_id: Option<String>,
}

/// A code that lowers a price or gives a license away.
#[derive(Clone, Debug, PartialEq, Eq)]
pub struct DiscountCode {
    pub id: String,
    pub code: String,
    /// `percent`, `fixed_sats`, `set_price` or `free_license`.
    pub kind: String,
    pub amount: i64,
    pub active: bool,
    pub max_uses: Option<i64>,
    pub used_count: i64,
    pub expires_at: Option<String>,
    pub applies_to_product_id: Option<String>,
    /// Set where the code is restricted to one policy.
    pub applies_to_policy_id: Option<String>,
    /// Filled where the code is restricted to several policies.
    pub applies_to_policy_ids: Vec<String>,
    pub referrer_label: Option<String>,
    pub description: String,
    pub featured: bool,
}

/// One use of a discount code.
#[derive(Clone, Debug, PartialEq, Eq)]
pub struct Redemption {
    pub id: String,
    pub code_id: String,
    pub invoice_id: String,
    pub discount_applied_sats: i64,
    pub base_price_sats: i64,
    pub final_price_sats: i64,
}

/// An install that takes up a seat of a license.
#[derive(Clone, Debug, PartialEq, Eq)]
pub struct Machine {
    pub id: String,
    pub license_id: String,
}

/// A recurring charge for a license.
#[derive(Clone, Debug, PartialEq, Eq)]
pub struct Subscription {
    pub id: String,
    pub license_id: String,
    pub policy_id: String,
    pub product_id: String,
    /// `active`, `past_due`, `cancelled` or `lapsed`.
    pub status: String,
}

/// An account at a payment provider, attached to a merchant profile.
#[derive(Clone, Debug, PartialEq, Eq)]
pub struct PaymentProviderRow {
    pub id: String,
    pub merchant_profile_id: String,
    /// `btcpay` or `zaprite`.
    pub kind: String,
    pub label: String,
    pub base_url: String,
    pub store_id: Option<String>,
    pub webhook_id: Option<String>,
    pub connected_at: String,
}

/// A business that products are sold under.
#[derive(Clone, Debug, PartialEq, Eq)]
pub struct MerchantProfile {
    pub id: String,
    pub name: String,
    pub legal_name: Option<String>,
    pub support_url: Option<String>,
    pub support_email: Option<String>,
    pub brand_color: Option<String>,
    pub post_purchase_redirect_url: Option<String>,
    pub is_default: bool,
    pub smtp_host: Option<String>,
    pub smtp_port: Option<i64>,
    pub smtp_username: Option<String>,
    pub smtp_password: Option<String>,
    pub smtp_from_address: Option<String>,
    pub smtp_from_name: Option<String>,
    pub smtp_use_starttls: bool,
    pub created_at: String,
    pub updated_at: String,
}

/// An amount in the smallest unit of a currency.
#[derive(Clone, Debug, PartialEq, Eq)]
pub struct Money {
    pub currency: String,
    pub amount: i64,
}

impl DiscountCode {
    /// The policies that the code is restricted to; none means any.
    pub open spec fn allowed(self) -> Seq<Seq<char>> {
        if self.applies_to_policy_ids@.len() > 0 {
            texts(self.applies_to_policy_ids@)
        } else {
            match self.applies_to_policy_id {
                Some(id) => seq![id@],
                None => seq![],
            }
        }
    }

    /// The policies that the code is restricted to; none means any.
    pub fn allowed_policy_ids(&self) -> (r: Vec<String>)
        ensures
            texts(r@) == self.allowed(),
    {
        if self.applies_to_policy_ids.len() > 0 {
            crate::text::copy_of(&self.applies_to_policy_ids)
        } else {
            let mut out: Vec<String> = Vec::new();
            if let Some(id) = &self.applies_to_policy_id {
                out.push(id.clone());
            }
            assert(texts(out@) =~= self.allowed());
            out
        }
    }
}

impl DiscountCode {
    /// Has the code expired? A date that cannot be read never passes.
    pub open spec fn is_expired(self, now: Moment) -> bool {
        self.expires_at matches Some(text) && rfc3339_moment(text@) matches Some(when)
            && when.is_before(now)
    }

    /// Is the code restricted to another product?
    pub open spec fn misses_product(self, product_id: Seq<char>) -> bool {
        self.applies_to_product_id matches Some(id) && id@ != product_id
    }

    /// Is the code restricted to policies that the chosen one is not among?
    /// Without a chosen policy no restriction applies.
    pub open spec fn misses_policy(self, policy: Option<Policy>) -> bool {
        policy matches Some(p) && self.allowed().len() > 0 && !self.allowed().contains(p.id@)
    }

    /// Has the code been used as often as it may be?
    pub open spec fn is_exhausted(self) -> bool {
        self.max_uses matches Some(max) && self.used_count >= max
    }

    /// Has the code expired?
    pub fn expired(&self, now: &Moment) -> (r: bool)
        ensures
            r == self.is_expired(*now),
    {
        match &self.expires_at {
            Some(text) => match parse_rfc3339(text.as_str()) {
                Some(when) => when.before(now),
                None => false,
            },
            None => false,
        }
    }

    /// Is the code restricted to another product?
    pub fn wrong_product(&self, product_id: &str) -> (r: bool)
        ensures
            r == self.misses_product(product_id@),
    {
        match &self.applies_to_product_id {
            Some(id) => !same(id.as_str(), product_id),
            None => false,
        }
    }

    /// Is the code restricted to policies that the chosen one is not among?
    pub fn wrong_policy(&self, policy: &Option<Policy>) -> (r: bool)
        ensures
            r == self.misses_policy(*policy),
    {
        match policy {
            Some(p) => {
                let allowed: Vec<String> = self.allowed_policy_ids();
                allowed.len() > 0 && !is_one_of(&allowed, p.id.as_str())
            },
            None => false,
        }
    }

    /// Has the code been used as often as it may be?
    pub fn exhausted(&self) -> (r: bool)
        ensures
            r == self.is_exhausted(),
    {
        match self.max_uses {
            Some(max) => self.used_count >= max,
            None => false,
        }
    }
}

} // verus!
