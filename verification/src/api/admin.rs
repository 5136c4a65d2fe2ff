//! The operator's side: who may act, products, and licenses issued by hand.

use crate::api::cascade::{gone_with_product, product_cascade, Records};
use crate::api::currency::{is_accepted_currency, normalize_currency, unsupported_currency};
use crate::api::records::{LicenseRow, LicenseSource};
use crate::api::tier::{
    enforce_product_cap, product_cap_words, TierInfo, CREATOR_PRODUCT_CAP, UPGRADE_URL_PRO,
};
use crate::api::validate::first_client;
use crate::api::webhook::{expiry_text, LicenseTerms};
use crate::clock::{rfc3339_text, to_rfc3339, unix_or_zero, unix_seconds, Moment};
use crate::codec::{
    bytes_match, ed25519_public, hex_sha256, sha256_hex, uuid_parse, uuid_reading, uuid_text, Uuid,
};
use crate::crypto::payload::{LicensePayload, PayloadModel, FLAG_TRIAL, KEY_VERSION_V2};
use crate::crypto::{issue_key, issued_key, read_key, SigningKey};
use crate::error::{bad_request, not_found_with, AppError};
use crate::licensing::{entitlements_fit, issue_flags, no_fingerprint};
use crate::models::{License, Policy, Product};
use crate::text::{
    after_prefix, cat2, cat5, cat7, copy_of, copy_opt, cut, int_text, int_to_text, opt_str,
    opt_text, same, strip_prefix, texts, trim, trimmed, unicode_upper,
};
use vstd::prelude::*;
use vstd::utf8::{encode_utf8, encode_utf8_decode_utf8};

verus! {

/// A request to make a product.
#[derive(Clone, Debug)]
pub struct CreateProductReq {
    pub slug: String,
    pub name: String,
    pub description: String,
    /// A price in sats, where no currency is given.
    pub price_sats: Option<i64>,
    /// `SAT`, `USD` or `EUR`.
    pub price_currency: Option<String>,
    /// In the smallest unit of `price_currency`; not looked at where there is no
    /// currency.
    pub price_value: Option<i64>,
}

/// Switches a product on or off.
#[derive(Clone, Copy, Debug)]
pub struct SetActiveReq {
    pub active: bool,
}

/// How a product is deleted.
#[derive(Clone, Copy, Debug)]
pub struct DeleteOpts {
    /// Delete everything that refers to the product too.
    pub force: bool,
}

/// Changes to a product. A field that is `None` is left alone.
#[derive(Clone, Debug)]
pub struct UpdateProductReq {
    pub name: Option<String>,
    pub description: Option<String>,
    pub price_sats: Option<i64>,
    pub price_currency: Option<String>,
    pub price_value: Option<i64>,
}

/// Which licenses to list.
#[derive(Clone, Debug)]
pub struct ListLicensesQuery {
    pub product_id: String,
}

/// Which licenses to look for.
#[derive(Clone, Debug)]
pub struct SearchLicensesQuery {
    pub buyer_email: Option<String>,
    pub nostr_npub: Option<String>,
    pub invoice_id: Option<String>,
}

/// A request to issue a license by hand.
#[derive(Clone, Debug)]
pub struct IssueLicenseReq {
    pub product_slug: String,
    /// Where a policy is named, the license is issued on its terms and the
    /// fields below up to `is_trial` are ignored.
    pub policy_slug: Option<String>,
    pub note: Option<String>,
    pub expires_at: Option<String>,
    pub entitlements: Option<Vec<String>>,
    pub max_machines: Option<i64>,
    pub grace_seconds: Option<i64>,
    pub is_trial: Option<bool>,
    pub buyer_email: Option<String>,
    pub nostr_npub: Option<String>,
}

/// A license that was issued by hand.
#[derive(Clone, Debug)]
pub struct IssueLicenseResp {
    pub license_id: String,
    pub product_id: String,
    pub license_key: String,
    pub issued_at: String,
    pub expires_at: Option<String>,
    pub entitlements: Vec<String>,
    pub is_trial: bool,
    pub max_machines: i64,
}

/// A request to revoke a license.
#[derive(Clone, Debug)]
pub struct RevokeReq {
    pub reason: String,
}

/// A request to suspend a license.
#[derive(Clone, Debug)]
pub struct SuspendReq {
    pub reason: String,
}

/// Which lines of the audit log to list.
#[derive(Clone, Debug)]
pub struct ListAuditQuery {
    pub limit: i64,
    pub action: Option<String>,
}

/// Names the operator; an empty name goes back to the configured one.
#[derive(Clone, Debug)]
pub struct SetOperatorNameReq {
    pub name: String,
}

/// The setting that holds the operator's name.
pub const SETTING_OPERATOR_NAME: &'static str = "operator_name";

// ---------- who acts ----------

/// The token of a bearer header.
pub open spec fn bearer_token(header: Option<Seq<char>>) -> Option<Seq<char>> {
    match header {
        Some(h) => after_prefix(h, "Bearer "@),
        None => None,
    }
}

/// The token of a bearer header.
pub fn token_of(header: Option<&str>) -> (r: Option<&str>)
    ensures
        opt_str(r) == bearer_token(opt_str(header)),
{
    match header {
        Some(h) => strip_prefix(h, "Bearer "),
        None => None,
    }
}

/// Whether two texts are the same, in a time that does not tell where they
/// differ.
pub fn secrets_match(a: &str, b: &str) -> (r: bool)
    ensures
        r == (a@ == b@),
{
    let r: bool = bytes_match(a.as_bytes(), b.as_bytes());
    proof {
        encode_utf8_decode_utf8(a@);
        encode_utf8_decode_utf8(b@);
    }
    r
}

/// Who acts, where the header carries the operator's key: the hash of the key,
/// which identifies it in the audit log without giving it away.
pub fn require_admin(authorization: Option<&str>, admin_api_key: &str) -> (r: Result<
    String,
    AppError,
>)
    ensures
        match bearer_token(opt_str(authorization)) {
            None => r matches Err(e) && e is Unauthorized,
            Some(token) => if token == admin_api_key@ {
                r matches Ok(actor) && actor@ == sha256_hex(token)
            } else {
                r matches Err(e) && e is Forbidden
            },
        },
{
    match token_of(authorization) {
        None => Err(AppError::Unauthorized),
        Some(token) => if secrets_match(token, admin_api_key) {
            Ok(hex_sha256(token))
        } else {
            Err(AppError::Forbidden)
        },
    }
}

/// The client and the browser that a request names, for the audit log.
pub fn request_context(forwarded_for: Option<&str>, user_agent: Option<&str>) -> (r: (
    Option<String>,
    Option<String>,
))
    ensures
        opt_text(r.0) == match forwarded_for {
            Some(h) => if first_client(h@).len() > 0 {
                Some(first_client(h@))
            } else {
                None
            },
            None => None,
        },
        opt_text(r.1) == opt_str(user_agent),
{
    let client: Option<String> = match forwarded_for {
        Some(h) => {
            let (first, _rest) = cut(h, ',');
            let ip: &str = trim(first);
            if ip.is_empty() {
                None
            } else {
                Some(String::from_str(ip))
            }
        },
        None => None,
    };
    let agent: Option<String> = match user_agent {
        Some(a) => Some(String::from_str(a)),
        None => None,
    };
    (client, agent)
}

// ---------- prices ----------

/// What a request's price fields amount to: a currency and a value, or what is
/// wrong with them. A value below `least` is refused with the given words.
/// Sats may be sent along with a price in sats where they say the same.
pub open spec fn priced_as(
    currency: Option<Seq<char>>,
    value: Option<i64>,
    sats: Option<i64>,
    least: int,
    value_words: Seq<char>,
    sats_words: Seq<char>,
) -> Result<Option<(Seq<char>, i64)>, Seq<char>> {
    match (currency, value, sats) {
        (Some(c), Some(v), legacy) => {
            let cur = unicode_upper(c);
            if !is_accepted_currency(cur) {
                Err(unsupported_currency("price_currency"@, cur))
            } else if v < least {
                Err(value_words)
            } else if legacy is Some && (cur != "SAT"@ || legacy->0 != v) {
                Err(
                    "send price_currency + price_value, OR price_sats alone — not both with mismatched values"@,
                )
            } else {
                Ok(Some((cur, v)))
            }
        },
        (None, None, Some(s)) => if s < least {
            Err(sats_words)
        } else {
            Ok(Some(("SAT"@, s)))
        },
        (Some(_), None, _) => Err("price_currency was supplied but price_value is missing"@),
        (None, Some(_), _) => Err("price_value was supplied but price_currency is missing"@),
        (None, None, None) => Ok(None),
    }
}

/// The view of a price.
pub open spec fn opt_price(p: Option<(String, i64)>) -> Option<(Seq<char>, i64)> {
    match p {
        Some((c, v)) => Some((c@, v)),
        None => None,
    }
}

fn price_fields(
    currency: &Option<String>,
    value: Option<i64>,
    sats: Option<i64>,
    least: i64,
    value_words: &str,
    sats_words: &str,
) -> (r: Result<Option<(String, i64)>, AppError>)
    ensures
        match (
            priced_as(opt_text(*currency), value, sats, least as int, value_words@, sats_words@),
            r,
        ) {
            (Ok(p), Ok(q)) => opt_price(q) == p,
            (Err(words), Err(e)) => e.is_bad_request(words),
            _ => false,
        },
{
    match (currency, value, sats) {
        (Some(c), Some(v), legacy) => {
            let cur: String = match normalize_currency("price_currency", c.as_str()) {
                Err(e) => {
                    return Err(e);
                },
                Ok(cur) => cur,
            };
            if v < least {
                return Err(bad_request(value_words));
            }
            if let Some(s) = legacy {
                if !same(cur.as_str(), "SAT") || s != v {
                    return Err(
                        bad_request(
                            "send price_currency + price_value, OR price_sats alone — not both with mismatched values",
                        ),
                    );
                }
            }
            Ok(Some((cur, v)))
        },
        (None, None, Some(s)) => if s < least {
            Err(bad_request(sats_words))
        } else {
            Ok(Some((String::from_str("SAT"), s)))
        },
        (Some(_), None, _) => Err(
            bad_request("price_currency was supplied but price_value is missing"),
        ),
        (None, Some(_), _) => Err(
            bad_request("price_value was supplied but price_currency is missing"),
        ),
        (None, None, None) => Ok(None),
    }
}

/// What a new product's price fields amount to. A price is above 0, and one
/// has to be given. Without a currency, the price in sats alone decides.
pub open spec fn new_price(req: CreateProductReq) -> Result<(Seq<char>, i64), Seq<char>> {
    match priced_as(
        opt_text(req.price_currency),
        if req.price_currency is None {
            None
        } else {
            req.price_value
        },
        req.price_sats,
        1,
        "price_value must be positive"@,
        "price_sats must be positive"@,
    ) {
        Err(words) => Err(words),
        Ok(None) => Err(
            "must supply either price_sats (legacy) or price_currency + price_value"@,
        ),
        Ok(Some(p)) => Ok(p),
    }
}

/// The currency and value of a new product's price.
pub fn resolve_price(req: &CreateProductReq) -> (r: Result<(String, i64), AppError>)
    ensures
        match (new_price(*req), r) {
            (Ok(p), Ok(q)) => q.0@ == p.0 && q.1 == p.1,
            (Err(words), Err(e)) => e.is_bad_request(words),
            _ => false,
        },
{
    let value: Option<i64> = if req.price_currency.is_none() {
        None
    } else {
        req.price_value
    };
    match price_fields(
        &req.price_currency,
        value,
        req.price_sats,
        1,
        "price_value must be positive",
        "price_sats must be positive",
    ) {
        Err(e) => Err(e),
        Ok(None) => Err(
            bad_request("must supply either price_sats (legacy) or price_currency + price_value"),
        ),
        Ok(Some(p)) => Ok(p),
    }
}

/// What a new product is stored with, beside what the request says as it is.
#[derive(Clone, Debug)]
pub struct NewProduct {
    pub price_currency: String,
    pub price_value: i64,
}

/// Is `r` what a new product is stored with?
pub open spec fn is_new_product(
    req: CreateProductReq,
    tier: TierInfo,
    count: i64,
    r: Result<NewProduct, AppError>,
) -> bool {
    if !tier.holds("unlimited_products"@) && count >= CREATOR_PRODUCT_CAP {
        r matches Err(e) && e.is_payment_required(
            product_cap_words(tier.display_name@, count as int),
            UPGRADE_URL_PRO@,
        )
    } else {
        match (new_price(req), r) {
            (Ok(price), Ok(p)) => p.price_currency@ == price.0 && p.price_value == price.1,
            (Err(words), Err(e)) => e.is_bad_request(words),
            _ => false,
        }
    }
}

/// What a new product is stored with; `count` is how many products there are.
/// There has to be room under the tier's cap, and a price.
pub fn create_product(req: &CreateProductReq, tier: &TierInfo, count: i64) -> (r: Result<
    NewProduct,
    AppError,
>)
    ensures
        is_new_product(*req, *tier, count, r),
{
    if let Err(e) = enforce_product_cap(tier, count) {
        return Err(e);
    }
    match resolve_price(req) {
        Err(e) => Err(e),
        Ok((price_currency, price_value)) => Ok(NewProduct { price_currency, price_value }),
    }
}

/// What a change of a product's price amounts to. A price is not below 0; none
/// is changed where none is given.
pub fn update_product(req: &UpdateProductReq) -> (r: Result<Option<(String, i64)>, AppError>)
    ensures
        match (
            priced_as(
                opt_text(req.price_currency),
                req.price_value,
                req.price_sats,
                0,
                "price_value must be >= 0"@,
                "price_sats must be >= 0"@,
            ),
            r,
        ) {
            (Ok(p), Ok(q)) => opt_price(q) == p,
            (Err(words), Err(e)) => e.is_bad_request(words),
            _ => false,
        },
{
    price_fields(
        &req.price_currency,
        req.price_value,
        req.price_sats,
        0,
        "price_value must be >= 0",
        "price_sats must be >= 0",
    )
}

/// Without a currency a new product's price is its price in sats, whatever
/// value is sent along.
pub proof fn values_without_a_currency_are_ignored(req: CreateProductReq, value: Option<i64>)
    requires
        req.price_currency is None,
    ensures
        new_price(req) == new_price(CreateProductReq { price_value: value, ..req }),
        req.price_sats matches Some(sats) && sats >= 1 ==> new_price(req) == Ok::<
            (Seq<char>, i64),
            Seq<char>,
        >(("SAT"@, req.price_sats->0)),
{
}

/// A product's price is in a currency that prices can be in, and above 0.
pub proof fn new_prices_are_positive(req: CreateProductReq)
    requires
        new_price(req) is Ok,
    ensures
        is_accepted_currency(new_price(req)->Ok_0.0),
        new_price(req)->Ok_0.1 >= 1,
{
}

// ---------- deleting a product ----------

/// What a product's deletion takes with it.
#[derive(Clone, Copy, Debug, PartialEq, Eq, Structural)]
pub struct ProductCascade {
    pub policies: i64,
    pub codes: i64,
    pub licenses: i64,
    pub invoices: i64,
    pub machines: i64,
    pub redemptions: i64,
}

/// A deletion that may go ahead.
#[derive(Clone, Debug)]
pub struct ProductDeletion {
    pub slug: String,
    pub name: String,
    /// How the audit log calls it.
    pub action: String,
    /// What goes, in its order.
    pub gone: Vec<Records>,
    /// How many records go.
    pub counts: ProductCascade,
}

/// Is `r` what comes of deleting a product?
pub open spec fn is_product_deletion(
    id: Seq<char>,
    found: Option<Product>,
    force: bool,
    counts: ProductCascade,
    r: Result<ProductDeletion, AppError>,
) -> bool {
    match found {
        None => r matches Err(e) && e.is_not_found("product '"@ + id + "'"@),
        Some(product) => if !force && counts.invoices + counts.licenses > 0 {
            r matches Err(e) && e.is_conflict(
                "cannot delete product '"@ + product.slug@ + "' — it has "@ + int_text(
                    counts.invoices as int,
                ) + " invoice(s) and "@ + int_text(counts.licenses as int)
                    + " license(s) referencing it. Disable it instead (existing licenses keep working; the product just stops being available for new purchases). To override and wipe all references, use ?force=true."@,
            )
        } else {
            &&& r matches Ok(deletion)
            &&& deletion.slug == product.slug
            &&& deletion.name == product.name
            &&& deletion.gone@ == gone_with_product(force)
            &&& deletion.action@ == if force {
                "product.force_delete"@
            } else {
                "product.delete"@
            }
            &&& deletion.counts == if force {
                counts
            } else {
                ProductCascade { licenses: 0, invoices: 0, machines: 0, redemptions: 0, ..counts }
            }
        },
    }
}

/// What a product's deletion takes with it, and how the audit log calls it. A
/// product that invoices or licenses refer to is deleted only by force;
/// customers' records go only then.
pub fn delete_product(
    id: &str,
    found: &Option<Product>,
    opts: &DeleteOpts,
    counts: &ProductCascade,
) -> (r: Result<ProductDeletion, AppError>)
    ensures
        is_product_deletion(id@, *found, opts.force, *counts, r),
{
    let product: &Product = match found {
        None => {
            return Err(not_found_with("product '", id, "'"));
        },
        Some(product) => product,
    };
    let total: i128 = counts.invoices as i128 + counts.licenses as i128;
    if !opts.force && total > 0 {
        return Err(
            AppError::Conflict(
                cat7(
                    "cannot delete product '",
                    product.slug.as_str(),
                    "' — it has ",
                    int_to_text(counts.invoices).as_str(),
                    " invoice(s) and ",
                    int_to_text(counts.licenses).as_str(),
                    " license(s) referencing it. Disable it instead (existing licenses keep working; the product just stops being available for new purchases). To override and wipe all references, use ?force=true.",
                ),
            ),
        );
    }
    let slug: String = product.slug.clone();
    let name: String = product.name.clone();
    let gone: Vec<Records> = product_cascade(opts.force);
    if opts.force {
        let action: String = String::from_str("product.force_delete");
        Ok(ProductDeletion { slug, name, action, gone, counts: *counts })
    } else {
        let action: String = String::from_str("product.delete");
        let kept: ProductCascade = ProductCascade {
            policies: counts.policies,
            codes: counts.codes,
            licenses: 0,
            invoices: 0,
            machines: 0,
            redemptions: 0,
        };
        Ok(ProductDeletion { slug, name, action, gone, counts: kept })
    }
}

// ---------- issuing by hand ----------

/// What has been looked up for a license that is issued by hand so far.
#[derive(Clone, Debug)]
pub struct IssueFacts {
    pub product: Option<Option<Product>>,
    pub policy: Option<Option<Policy>>,
}

/// What a license that is issued by hand needs next.
#[derive(Clone, Debug)]
pub enum IssueStep {
    FindProduct { slug: String },
    FindPolicy { product_id: String, slug: String },
    Refuse { error: AppError },
    /// The policy's duration reaches past the end of the calendar.
    OutOfCalendar,
    Issue { product_id: String, terms: LicenseTerms },
}

/// The terms that a request without a policy asks for.
pub open spec fn terms_asked_for(req: IssueLicenseReq, now: Moment, terms: LicenseTerms) -> bool {
    &&& terms.policy_id is None
    &&& terms.issued_at@ == rfc3339_text(now.secs, now.nanos)
    &&& terms.expires_at == req.expires_at
    &&& terms.grace_seconds == match req.grace_seconds {
        Some(g) => g,
        None => 0,
    }
    &&& terms.max_machines == match req.max_machines {
        Some(m) => m,
        None => 1,
    }
    &&& terms.is_trial == (req.is_trial == Some(true))
    &&& terms.entitlements@ == match req.entitlements {
        Some(e) => e@,
        None => seq![],
    }
}

/// The terms of a policy's license that is issued by hand.
pub open spec fn terms_of_policy(p: Policy, now: Moment, terms: LicenseTerms) -> bool {
    &&& terms.policy_id == Some(p.id)
    &&& terms.issued_at@ == rfc3339_text(now.secs, now.nanos)
    &&& opt_text(terms.expires_at) == expiry_text(now, p.duration_seconds as int)
    &&& terms.grace_seconds == p.grace_seconds
    &&& terms.max_machines == p.max_machines
    &&& terms.is_trial == p.is_trial
    &&& terms.entitlements@ == p.entitlements@
}

/// Is `step` what a license that is issued by hand needs next?
pub open spec fn is_issue_step(
    req: IssueLicenseReq,
    facts: IssueFacts,
    now: Moment,
    step: IssueStep,
) -> bool {
    match facts.product {
        None => step == (IssueStep::FindProduct { slug: req.product_slug }),
        Some(None) => step matches IssueStep::Refuse { error } && error.is_not_found(
            "product '"@ + req.product_slug@ + "'"@,
        ),
        Some(Some(product)) => match req.policy_slug {
            None => step matches IssueStep::Issue { product_id, terms } && product_id == product.id
                && terms_asked_for(req, now, terms),
            Some(slug) => match facts.policy {
                None => step == (IssueStep::FindPolicy { product_id: product.id, slug }),
                Some(None) => step matches IssueStep::Refuse { error } && error.is_not_found(
                    "policy '"@ + slug@ + "' for product '"@ + req.product_slug@ + "'"@,
                ),
                Some(Some(p)) => if p.duration_seconds != 0 && !now.can_add(
                    p.duration_seconds as int,
                ) {
                    step is OutOfCalendar
                } else {
                    step matches IssueStep::Issue { product_id, terms } && product_id == product.id
                        && terms_of_policy(p, now, terms)
                },
            },
        },
    }
}

/// What a license that is issued by hand needs next. With a policy it is issued
/// on the policy's terms, without one on those of the request.
pub fn issue_license(req: &IssueLicenseReq, facts: &IssueFacts, now: &Moment) -> (r: IssueStep)
    requires
        now.in_calendar(),
    ensures
        is_issue_step(*req, *facts, *now, r),
{
    let product: &Product = match &facts.product {
        None => {
            return IssueStep::FindProduct { slug: req.product_slug.clone() };
        },
        Some(None) => {
            return IssueStep::Refuse {
                error: not_found_with("product '", req.product_slug.as_str(), "'"),
            };
        },
        Some(Some(product)) => product,
    };
    let slug: &String = match &req.policy_slug {
        None => {
            let terms: LicenseTerms = LicenseTerms {
                policy_id: None,
                issued_at: to_rfc3339(now),
                expires_at: copy_opt(&req.expires_at),
                grace_seconds: req.grace_seconds.unwrap_or(0),
                max_machines: req.max_machines.unwrap_or(1),
                is_trial: req.is_trial.unwrap_or(false),
                entitlements: match &req.entitlements {
                    Some(e) => copy_of(e),
                    None => Vec::new(),
                },
            };
            return IssueStep::Issue { product_id: product.id.clone(), terms };
        },
        Some(slug) => slug,
    };
    match &facts.policy {
        None => IssueStep::FindPolicy { product_id: product.id.clone(), slug: slug.clone() },
        Some(None) => IssueStep::Refuse {
            error: AppError::NotFound(
                cat5(
                    "policy '",
                    slug.as_str(),
                    "' for product '",
                    req.product_slug.as_str(),
                    "'",
                ),
            ),
        },
        Some(Some(p)) => {
            let mut expires_at: Option<String> = None;
            if p.duration_seconds != 0 {
                if !now.reaches(p.duration_seconds) {
                    return IssueStep::OutOfCalendar;
                }
                expires_at = crate::api::webhook::expiry_after(now, p.duration_seconds);
            }
            let terms: LicenseTerms = LicenseTerms {
                policy_id: Some(p.id.clone()),
                issued_at: to_rfc3339(now),
                expires_at,
                grace_seconds: p.grace_seconds,
                max_machines: p.max_machines,
                is_trial: p.is_trial,
                entitlements: copy_of(&p.entitlements),
            };
            IssueStep::Issue { product_id: product.id.clone(), terms }
        },
    }
}

/// The row of a license that is issued by hand: for no invoice, on its terms,
/// with what the request says of the buyer.
pub fn row_by_hand(
    req: &IssueLicenseReq,
    product_id: &str,
    license_id: &Uuid,
    terms: LicenseTerms,
) -> (r: LicenseRow)
    ensures
        r.id@ == uuid_text(license_id@),
        r.product_id@ == product_id@,
        r.invoice_id is None,
        r.terms == terms,
        r.source == (LicenseSource::ByHand { note: req.note }),
        r.buyer_email == req.buyer_email,
        r.nostr_npub == req.nostr_npub,
{
    LicenseRow {
        id: license_id.to_text(),
        product_id: String::from_str(product_id),
        invoice_id: None,
        terms,
        source: LicenseSource::ByHand { note: copy_opt(&req.note) },
        buyer_email: copy_opt(&req.buyer_email),
        nostr_npub: copy_opt(&req.nostr_npub),
    }
}

/// What the audit log and the subscribers are told of a license that was issued
/// by hand.
#[derive(Clone, Debug)]
pub struct HandNotice {
    pub license_id: String,
    pub product_id: String,
    pub policy_id: Option<String>,
    pub is_trial: bool,
    pub expires_at: Option<String>,
    pub entitlements: Vec<String>,
}

/// What is told of a license that was issued by hand: what was kept of it.
pub fn notice_by_hand(row: &LicenseRow) -> (r: HandNotice)
    ensures
        r.license_id == row.id,
        r.product_id == row.product_id,
        r.policy_id == row.terms.policy_id,
        r.is_trial == row.terms.is_trial,
        r.expires_at == row.terms.expires_at,
        r.entitlements@ == row.terms.entitlements@,
{
    HandNotice {
        license_id: row.id.clone(),
        product_id: row.product_id.clone(),
        policy_id: copy_opt(&row.terms.policy_id),
        is_trial: row.terms.is_trial,
        expires_at: copy_opt(&row.terms.expires_at),
        entitlements: copy_of(&row.terms.entitlements),
    }
}

/// What a license that is issued by hand is signed as.
pub open spec fn hand_payload(
    product: Seq<u8>,
    license_id: Seq<u8>,
    terms: LicenseTerms,
    now: Moment,
) -> PayloadModel {
    PayloadModel {
        version: KEY_VERSION_V2,
        flags: issue_flags(terms.is_trial),
        product_id: product,
        license_id,
        issued_at: now.secs,
        expires_at: unix_or_zero(opt_text(terms.expires_at)),
        fingerprint_hash: no_fingerprint(),
        entitlements: texts(terms.entitlements@),
    }
}

/// The answer with a license that was issued by hand. Its key reads back as the
/// terms and is accepted by the server's public key.
pub fn issued_by_hand(
    product_id: &str,
    license_id: &Uuid,
    terms: LicenseTerms,
    now: &Moment,
    signing_key: &SigningKey,
) -> (r: Result<IssueLicenseResp, AppError>)
    requires
        entitlements_fit(terms.entitlements@),
    ensures
        match uuid_reading(product_id@) {
            Err(detail) => r matches Err(e) && e.is_internal("bad product_id: "@ + detail),
            Ok(product) => {
                let payload = hand_payload(product, license_id@, terms, *now);
                &&& r is Ok
                &&& r->Ok_0.license_id@ == uuid_text(license_id@)
                &&& r->Ok_0.product_id@ == product_id@
                &&& r->Ok_0.license_key@ == issued_key(signing_key.secret@, payload)
                &&& read_key(r->Ok_0.license_key@) is Ok
                &&& read_key(r->Ok_0.license_key@)->Ok_0.payload == payload
                &&& read_key(r->Ok_0.license_key@)->Ok_0.verifies(
                    ed25519_public(signing_key.secret@),
                )
                &&& r->Ok_0.issued_at == terms.issued_at
                &&& r->Ok_0.expires_at == terms.expires_at
                &&& r->Ok_0.entitlements == terms.entitlements
                &&& r->Ok_0.is_trial == terms.is_trial
                &&& r->Ok_0.max_machines == terms.max_machines
            },
        },
{
    let product: Uuid = match uuid_parse(product_id) {
        Err(e) => {
            return Err(AppError::Internal(cat2("bad product_id: ", e.as_str())));
        },
        Ok(product) => product,
    };
    let payload: LicensePayload = LicensePayload {
        version: KEY_VERSION_V2,
        flags: if terms.is_trial {
            FLAG_TRIAL
        } else {
            0
        },
        product_id: product,
        license_id: *license_id,
        issued_at: now.secs,
        expires_at: unix_seconds(&terms.expires_at),
        fingerprint_hash: [0u8; 32],
        entitlements: copy_of(&terms.entitlements),
    };
    proof {
        assert(payload@.fingerprint_hash =~= no_fingerprint());
        assert(payload@ == hand_payload(product@, license_id@, terms, *now));
        assert(payload@.fits()) by {
            assert forall|i: int| 0 <= i < payload@.entitlements.len() implies encode_utf8(
                #[trigger] payload@.entitlements[i],
            ).len() <= 255 by {
                assert(payload@.entitlements[i] == terms.entitlements@[i]@);
            }
        }
    }
    let license_key: String = issue_key(signing_key, &payload);
    Ok(
        IssueLicenseResp {
            license_id: license_id.to_text(),
            product_id: String::from_str(product_id),
            license_key,
            issued_at: terms.issued_at,
            expires_at: terms.expires_at,
            entitlements: terms.entitlements,
            is_trial: terms.is_trial,
            max_machines: terms.max_machines,
        },
    )
}

// ---------- revoking and suspending ----------

/// A reason, or the given one where it is empty.
pub open spec fn reason_or(reason: Seq<char>, otherwise: Seq<char>) -> Seq<char> {
    if reason.len() == 0 {
        otherwise
    } else {
        reason
    }
}

/// Why a license is revoked.
pub fn revoke_license(req: &RevokeReq) -> (r: String)
    ensures
        r@ == reason_or(req.reason@, "admin revoke"@),
{
    if req.reason.as_str().is_empty() {
        String::from_str("admin revoke")
    } else {
        req.reason.clone()
    }
}

/// Why a license is suspended.
pub fn suspend_license(req: &SuspendReq) -> (r: String)
    ensures
        r@ == reason_or(req.reason@, "admin suspend"@),
{
    if req.reason.as_str().is_empty() {
        String::from_str("admin suspend")
    } else {
        req.reason.clone()
    }
}

// ---------- listings ----------

/// How many lines of the audit log are listed where nothing is said.
pub fn default_audit_limit() -> (r: i64)
    ensures
        r == 200,
{
    200
}

/// A number brought into a range.
pub open spec fn clamped(n: int, least: int, most: int) -> int {
    if n < least {
        least
    } else if n > most {
        most
    } else {
        n
    }
}

/// How many lines are listed: between `least` and `most`.
pub fn clamp_limit(n: i64, least: i64, most: i64) -> (r: i64)
    requires
        least <= most,
    ensures
        r == clamped(n as int, least as int, most as int),
{
    if n < least {
        least
    } else if n > most {
        most
    } else {
        n
    }
}

/// How many lines of the audit log are listed.
pub fn list_audit(q: &ListAuditQuery) -> (r: i64)
    ensures
        r == clamped(q.limit as int, 1, 1000),
{
    clamp_limit(q.limit, 1, 1000)
}

/// A row that is known by its identifier: its slug and its name.
#[derive(Clone, Debug)]
pub struct NamedRow {
    pub id: String,
    pub slug: String,
    pub name: String,
}

/// The last row with an identifier.
pub open spec fn row_with(rows: Seq<NamedRow>, id: Seq<char>) -> Option<NamedRow>
    decreases rows.len(),
{
    if rows.len() == 0 {
        None
    } else if rows.last().id@ == id {
        Some(rows.last())
    } else {
        row_with(rows.drop_last(), id)
    }
}

fn find_row<'a>(rows: &'a Vec<NamedRow>, id: &str) -> (r: Option<&'a NamedRow>)
    ensures
        match row_with(rows@, id@) {
            Some(row) => r == Some(&row),
            None => r is None,
        },
{
    let mut n: usize = rows.len();
    assert(rows@.take(n as int) == rows@);
    while n > 0
        invariant
            n <= rows@.len(),
            row_with(rows@, id@) == row_with(rows@.take(n as int), id@),
        decreases n,
    {
        assert(rows@.take(n as int).last() == rows@[n - 1]);
        if same(rows[n - 1].id.as_str(), id) {
            return Some(&rows[n - 1]);
        }
        assert(rows@.take(n as int).drop_last() == rows@.take(n - 1));
        n -= 1;
    }
    None
}

/// What a license is shown with beside its own fields.
#[derive(Clone, Debug)]
pub struct LicenseNames {
    pub policy_slug: Option<String>,
    pub policy_name: Option<String>,
    pub product_slug: Option<String>,
}

/// Is `names` what a license is shown with?
pub open spec fn is_named(
    license: License,
    policies: Seq<NamedRow>,
    products: Seq<NamedRow>,
    names: LicenseNames,
) -> bool {
    let policy = match license.policy_id {
        Some(id) => row_with(policies, id@),
        None => None,
    };
    &&& match policy {
        Some(row) => names.policy_slug == Some(row.slug) && names.policy_name == Some(row.name),
        None => names.policy_slug is None && names.policy_name is None,
    }
    &&& match row_with(products, license.product_id@) {
        Some(row) => names.product_slug == Some(row.slug),
        None => names.product_slug is None,
    }
}

/// What each license is shown with: the slug and name of its policy and the
/// slug of its product, where these are known.
pub fn search_licenses(
    licenses: &Vec<License>,
    policies: &Vec<NamedRow>,
    products: &Vec<NamedRow>,
) -> (r: Vec<LicenseNames>)
    ensures
        r@.len() == licenses@.len(),
        forall|i: int|
            0 <= i < licenses@.len() ==> is_named(
                licenses@[i],
                policies@,
                products@,
                #[trigger] r@[i],
            ),
{
    let mut out: Vec<LicenseNames> = Vec::new();
    for i in 0..licenses.len()
        invariant
            out@.len() == i,
            forall|j: int|
                0 <= j < i ==> is_named(licenses@[j], policies@, products@, #[trigger] out@[j]),
    {
        let license: &License = &licenses[i];
        let mut policy_slug: Option<String> = None;
        let mut policy_name: Option<String> = None;
        let mut product_slug: Option<String> = None;
        if let Some(id) = &license.policy_id {
            if let Some(row) = find_row(policies, id.as_str()) {
                policy_slug = Some(row.slug.clone());
                policy_name = Some(row.name.clone());
            }
        }
        if let Some(row) = find_row(products, license.product_id.as_str()) {
            product_slug = Some(row.slug.clone());
        }
        out.push(LicenseNames { policy_slug, policy_name, product_slug });
    }
    out
}

/// The counts that belong to a policy.
pub open spec fn of_policies(rows: Seq<(Option<String>, i64)>) -> Seq<(String, i64)>
    decreases rows.len(),
{
    if rows.len() == 0 {
        seq![]
    } else {
        let before = of_policies(rows.drop_last());
        match rows.last().0 {
            Some(id) => before.push((id, rows.last().1)),
            None => before,
        }
    }
}

/// How many licenses each policy has; licenses without a policy are left out.
pub fn license_counts(rows: &Vec<(Option<String>, i64)>) -> (r: Vec<(String, i64)>)
    ensures
        r@ == of_policies(rows@),
{
    let mut out: Vec<(String, i64)> = Vec::new();
    for i in 0..rows.len()
        invariant
            out@ == of_policies(rows@.take(i as int)),
    {
        assert(rows@.take(i + 1).drop_last() == rows@.take(i as int));
        assert(rows@.take(i + 1).last() == rows@[i as int]);
        let count: i64 = rows[i].1;
        if let Some(id) = &rows[i].0 {
            out.push((id.clone(), count));
        }
    }
    assert(rows@.take(rows@.len() as int) == rows@);
    out
}

// ---------- the operator's name ----------

/// The name to store, without white space around it; none where it is blank.
pub fn set_operator_name(req: &SetOperatorNameReq) -> (r: Option<String>)
    ensures
        match r {
            Some(name) => name@ == trimmed(req.name@) && name@.len() > 0,
            None => trimmed(req.name@).len() == 0,
        },
{
    let name: &str = trim(req.name.as_str());
    if name.is_empty() {
        None
    } else {
        Some(String::from_str(name))
    }
}

/// The name that is shown: the stored one, or else the configured one.
pub fn effective_operator_name(stored: &Option<String>, configured: &Option<String>) -> (r: Option<
    String,
>)
    ensures
        r == if stored is Some {
            *stored
        } else {
            *configured
        },
{
    if stored.is_some() {
        copy_opt(stored)
    } else {
        copy_opt(configured)
    }
}

/// The operator's name as it is stored, shown and configured.
#[derive(Clone, Debug)]
pub struct OperatorName {
    pub stored: Option<String>,
    pub effective: Option<String>,
    pub fallback_env: Option<String>,
}

/// The operator's name as it is stored, shown and configured.
pub fn get_operator_name(stored: &Option<String>, configured: &Option<String>) -> (r: OperatorName)
    ensures
        r.stored == *stored,
        r.fallback_env == *configured,
        r.effective == if stored is Some {
            *stored
        } else {
            *configured
        },
{
    OperatorName {
        stored: copy_opt(stored),
        effective: effective_operator_name(stored, configured),
        fallback_env: copy_opt(configured),
    }
}

} // verus!
