//! What goes into the records and to the payment provider.

use crate::api::webhook::LicenseTerms;
use crate::text::{copy_opt, opt_text};
use vstd::prelude::*;

verus! {

/// Which tier change an invoice is for.
#[derive(Clone, Debug, PartialEq, Eq)]
pub struct ChangeNamed {
    pub license_id: String,
    pub from_policy_id: String,
    pub to_policy_id: String,
}

/// An invoice that the provider is asked to make.
#[derive(Clone, Debug, PartialEq, Eq)]
pub struct Charge {
    pub amount_sats: i64,
    /// Where the buyer returns to after paying.
    pub redirect_url: String,
    /// The invoice's identifier in the records.
    pub order_id: String,
    pub buyer_email: Option<String>,
    pub product_id: String,
    /// The tier change that is paid for, if it is one.
    pub change: Option<ChangeNamed>,
}

/// An invoice of the payment provider.
#[derive(Clone, Debug, PartialEq, Eq)]
pub struct ProviderInvoice {
    pub id: String,
    pub checkout_url: String,
}

/// An invoice to keep.
#[derive(Clone, Debug, PartialEq, Eq)]
pub struct InvoiceRow {
    pub id: String,
    pub provider_invoice_id: String,
    pub product_id: String,
    pub amount_sats: i64,
    pub checkout_url: String,
    pub buyer_email: Option<String>,
    pub buyer_note: Option<String>,
    pub policy_id: Option<String>,
    pub listed_currency: Option<String>,
    pub listed_value: Option<i64>,
    pub exchange_rate_centibps: Option<i64>,
    pub exchange_rate_source: Option<String>,
}

/// An invoice over nothing to keep; it is settled already.
#[derive(Clone, Debug, PartialEq, Eq)]
pub struct FreeInvoiceRow {
    pub product_id: String,
    pub policy_id: Option<String>,
    pub buyer_email: Option<String>,
    pub buyer_note: Option<String>,
}

/// Where a license comes from.
#[derive(Clone, Debug, PartialEq, Eq)]
pub enum LicenseSource {
    /// The operator issued it.
    ByHand { note: Option<String> },
    /// It was paid for, by this invoice of the provider.
    Purchase { provider_invoice_id: String },
}

/// A license to keep.
#[derive(Clone, Debug)]
pub struct LicenseRow {
    pub id: String,
    pub product_id: String,
    pub invoice_id: Option<String>,
    pub terms: LicenseTerms,
    pub source: LicenseSource,
    pub buyer_email: Option<String>,
    pub nostr_npub: Option<String>,
}

impl ProviderInvoice {
    pub fn copy(&self) -> (r: Self)
        ensures
            r == *self,
    {
        ProviderInvoice { id: self.id.clone(), checkout_url: self.checkout_url.clone() }
    }
}

// ---------- metadata ----------

/// The names and values of metadata.
pub open spec fn named(members: Seq<(&'static str, Option<String>)>) -> Seq<
    (Seq<char>, Option<Seq<char>>),
> {
    members.map_values(|m: (&'static str, Option<String>)| (m.0@, opt_text(m.1)))
}

/// The metadata of an invoice that the provider is asked to make: the product,
/// and for a tier change the license and both tiers.
pub open spec fn charge_metadata(charge: Charge) -> Seq<(Seq<char>, Option<Seq<char>>)> {
    match charge.change {
        None => seq![("productId"@, Some(charge.product_id@))],
        Some(change) => seq![
            ("productId"@, Some(charge.product_id@)),
            ("intent"@, Some("tier_change"@)),
            ("licenseId"@, Some(change.license_id@)),
            ("fromPolicyId"@, Some(change.from_policy_id@)),
            ("toPolicyId"@, Some(change.to_policy_id@)),
        ],
    }
}

/// The metadata of a license that is kept: where it comes from.
pub open spec fn license_metadata(source: LicenseSource) -> Seq<(Seq<char>, Option<Seq<char>>)> {
    match source {
        LicenseSource::ByHand { note } => seq![
            ("source"@, Some("admin_issue"@)),
            ("note"@, opt_text(note)),
        ],
        LicenseSource::Purchase { provider_invoice_id } => seq![
            ("source"@, Some("purchase"@)),
            ("btcpay_invoice_id"@, Some(provider_invoice_id@)),
        ],
    }
}

impl Charge {
    /// The metadata of the invoice.
    pub fn metadata(&self) -> (r: Vec<(&'static str, Option<String>)>)
        ensures
            named(r@) == charge_metadata(*self),
    {
        let product_id: Option<String> = Some(self.product_id.clone());
        let r: Vec<(&'static str, Option<String>)> = match &self.change {
            None => vec![("productId", product_id)],
            Some(change) => vec![
                ("productId", product_id),
                ("intent", Some(String::from_str("tier_change"))),
                ("licenseId", Some(change.license_id.clone())),
                ("fromPolicyId", Some(change.from_policy_id.clone())),
                ("toPolicyId", Some(change.to_policy_id.clone())),
            ],
        };
        assert(named(r@) =~= charge_metadata(*self));
        r
    }
}

impl LicenseRow {
    /// The metadata of the license.
    pub fn metadata(&self) -> (r: Vec<(&'static str, Option<String>)>)
        ensures
            named(r@) == license_metadata(self.source),
    {
        let r: Vec<(&'static str, Option<String>)> = match &self.source {
            LicenseSource::ByHand { note } => vec![
                ("source", Some(String::from_str("admin_issue"))),
                ("note", copy_opt(note)),
            ],
            LicenseSource::Purchase { provider_invoice_id } => vec![
                ("source", Some(String::from_str("purchase"))),
                ("btcpay_invoice_id", Some(provider_invoice_id.clone())),
            ],
        };
        assert(named(r@) =~= license_metadata(self.source));
        r
    }
}

} // verus!
