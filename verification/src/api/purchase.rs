//! Buying a license.
//!
//! A purchase looks up the product and the chosen tier, prices it in sats,
//! takes the trial and free-tier shortcuts where they apply, checks and
//! reserves a discount code, and charges the rest through the payment provider.
//! A code's slot is reserved before anything is charged; whatever fails after
//! that gives the slot back.

use crate::clock::Moment;
use crate::codec::ed25519_public;
use crate::crypto::{read_key, SigningKey};
use crate::error::{bad_request, bad_request_with, not_found_with, AppError};
use crate::licensing::{
    bad_id_words, derive_key, entitlements_fit, has_uuids, key_of, payload_of,
};
use crate::models::{DiscountCode, Invoice, License, Policy, Product};
use crate::text::{cat2, cat3, cat4, cat5, copy_opt, is_blank, opt_text, same, trim};
use vstd::prelude::*;

verus! {

/// A request to buy.
#[derive(Clone, Debug)]
pub struct StartPurchaseReq {
    /// Slug of the product.
    pub product: String,
    pub buyer_email: Option<String>,
    pub buyer_note: Option<String>,
    /// Where the buyer returns to after paying.
    pub redirect_url: Option<String>,
    /// Discount or referral code.
    pub code: Option<String>,
    /// Slug of the chosen tier.
    pub policy_slug: Option<String>,
}

/// The answer to a request to buy.
#[derive(Clone, Debug)]
pub struct StartPurchaseResp {
    pub invoice_id: String,
    /// Empty where the price is 0: the provider has no invoice then.
    pub btcpay_invoice_id: String,
    /// Empty where nothing is to be paid.
    pub checkout_url: String,
    /// What the provider charges.
    pub amount_sats: i64,
    pub base_price_sats: i64,
    pub discount_applied_sats: i64,
    pub poll_url: String,
    /// Set where the license was issued at once.
    pub license_key: Option<String>,
    pub license_id: Option<String>,
}

/// The least that an invoice asks for once a code is applied.
pub const MIN_INVOICE_SATS: i64 = 1;

// ---------- what is bought ----------

/// Does `error` say that a product is not on offer, and is that so? It is not
/// where it does not exist or is not active; `what` names what it would be
/// offered for.
pub open spec fn product_is_refused(
    slug: Seq<char>,
    found: Option<Product>,
    what: Seq<char>,
    error: AppError,
) -> bool {
    match found {
        None => error.is_not_found("product '"@ + slug + "'"@),
        Some(p) => !p.active && error.is_bad_request(
            "product '"@ + slug + "' is not available for "@ + what,
        ),
    }
}

/// Whether the product that was asked for exists and is on offer.
pub fn available_product(slug: &str, found: &Option<Product>, what: &str) -> (r: Result<
    (),
    AppError,
>)
    ensures
        match r {
            Ok(_) => found matches Some(p) && p.active,
            Err(e) => product_is_refused(slug@, *found, what@, e),
        },
{
    match found {
        None => Err(not_found_with("product '", slug, "'")),
        Some(p) => if p.active {
            Ok(())
        } else {
            Err(
                AppError::BadRequest(cat4("product '", slug, "' is not available for ", what)),
            )
        },
    }
}

/// The tier that was asked for, if one was: an empty slug asks for none.
pub open spec fn wanted_slug(policy_slug: Option<String>) -> Option<String> {
    match policy_slug {
        Some(s) => if s@.len() > 0 {
            Some(s)
        } else {
            None
        },
        None => None,
    }
}

/// The tier that was asked for, if one was.
pub fn wanted_policy(policy_slug: &Option<String>) -> (r: Option<String>)
    ensures
        r == wanted_slug(*policy_slug),
{
    match policy_slug {
        Some(s) => if s.as_str().is_empty() {
            None
        } else {
            Some(s.clone())
        },
        None => None,
    }
}

/// Does `error` say that a tier cannot be chosen, and is that so? It cannot
/// where it does not exist, is not active, or is not public.
pub open spec fn policy_is_refused(
    slug: Seq<char>,
    product_slug: Seq<char>,
    found: Option<Policy>,
    error: AppError,
) -> bool {
    match found {
        None => error.is_not_found("policy '"@ + slug + "' for product '"@ + product_slug + "'"@),
        Some(p) => if !p.active {
            error.is_bad_request("policy '"@ + slug + "' is not active"@)
        } else {
            !p.public && error.is_bad_request(
                "policy '"@ + slug + "' is not available on the public buy page"@,
            )
        },
    }
}

/// The tier that a buyer chose, where it exists, is active, and is public.
pub fn selectable_policy(slug: &str, product_slug: &str, found: &Option<Policy>) -> (r: Result<
    (),
    AppError,
>)
    ensures
        match r {
            Ok(_) => found matches Some(p) && p.active && p.public,
            Err(e) => policy_is_refused(slug@, product_slug@, *found, e),
        },
{
    match found {
        None => Err(
            AppError::NotFound(cat5("policy '", slug, "' for product '", product_slug, "'")),
        ),
        Some(p) => if !p.active {
            Err(bad_request_with("policy '", slug, "' is not active"))
        } else if !p.public {
            Err(bad_request_with("policy '", slug, "' is not available on the public buy page"))
        } else {
            Ok(())
        },
    }
}

// ---------- what it costs ----------

/// What is listed: sats, or an amount in another currency that has to be
/// converted.
#[derive(Clone, Debug)]
pub enum ListPrice {
    Sats { sats: i64 },
    Fiat { currency: String, value: i64 },
}

/// The chosen tier's own price, or else the given one.
pub open spec fn tier_price(policy: Option<Policy>, otherwise: i64) -> i64 {
    match policy {
        Some(p) => match p.price_sats_override {
            Some(v) => v,
            None => otherwise,
        },
        None => otherwise,
    }
}

/// The chosen tier's own price, or else the given one.
pub fn price_of_tier(policy: &Option<Policy>, otherwise: i64) -> (r: i64)
    ensures
        r == tier_price(*policy, otherwise),
{
    match policy {
        Some(p) => match p.price_sats_override {
            Some(v) => v,
            None => otherwise,
        },
        None => otherwise,
    }
}

/// What the product in the chosen tier is listed at. A tier's price is in the
/// product's currency.
pub fn list_price(product: &Product, policy: &Option<Policy>) -> (r: ListPrice)
    ensures
        if product.price_currency@ == "SAT"@ {
            r == (ListPrice::Sats { sats: tier_price(*policy, product.price_sats) })
        } else {
            r == (ListPrice::Fiat {
                currency: product.price_currency,
                value: tier_price(*policy, product.price_value),
            })
        },
{
    if same(product.price_currency.as_str(), "SAT") {
        ListPrice::Sats { sats: price_of_tier(policy, product.price_sats) }
    } else {
        ListPrice::Fiat {
            currency: product.price_currency.clone(),
            value: price_of_tier(policy, product.price_value),
        }
    }
}

/// An amount converted to sats, with the rate it was converted at.
#[derive(Clone, Debug)]
pub struct Conversion {
    pub sats: i64,
    pub rate_centibps: Option<i64>,
    pub source: String,
}

/// A purchase that has been priced.
#[derive(Clone, Debug)]
pub struct Sale {
    pub product_id: String,
    pub policy_id: Option<String>,
    pub base_price: i64,
    /// The listing and the rate, where the price was converted.
    pub listed_currency: Option<String>,
    pub listed_value: Option<i64>,
    pub exchange_rate_centibps: Option<i64>,
    pub exchange_rate_source: Option<String>,
    /// The code whose slot is reserved for this purchase.
    pub code_id: Option<String>,
    pub discount: i64,
    pub price: i64,
}

/// The identifier of the chosen tier.
pub open spec fn policy_id_of(policy: Option<Policy>) -> Option<String> {
    match policy {
        Some(p) => Some(p.id),
        None => None,
    }
}

/// The same purchase once more.
pub fn copy_sale(sale: &Sale) -> (r: Sale)
    ensures
        r == *sale,
{
    Sale {
        product_id: sale.product_id.clone(),
        policy_id: copy_opt(&sale.policy_id),
        base_price: sale.base_price,
        listed_currency: copy_opt(&sale.listed_currency),
        listed_value: sale.listed_value,
        exchange_rate_centibps: sale.exchange_rate_centibps,
        exchange_rate_source: copy_opt(&sale.exchange_rate_source),
        code_id: copy_opt(&sale.code_id),
        discount: sale.discount,
        price: sale.price,
    }
}

fn id_of_policy(policy: &Option<Policy>) -> (r: Option<String>)
    ensures
        r == policy_id_of(*policy),
{
    match policy {
        Some(p) => Some(p.id.clone()),
        None => None,
    }
}

/// A purchase at a price in sats, before any code.
pub open spec fn sats_sale(product: Product, policy: Option<Policy>, sats: i64) -> Sale {
    Sale {
        product_id: product.id,
        policy_id: policy_id_of(policy),
        base_price: sats,
        listed_currency: None,
        listed_value: None,
        exchange_rate_centibps: None,
        exchange_rate_source: None,
        code_id: None,
        discount: 0,
        price: sats,
    }
}

/// A purchase at a converted price, before any code; the listing and the rate
/// are kept with it.
pub open spec fn converted_sale(
    product: Product,
    policy: Option<Policy>,
    value: i64,
    conversion: Conversion,
) -> Sale {
    Sale {
        listed_currency: Some(product.price_currency),
        listed_value: Some(value),
        exchange_rate_centibps: conversion.rate_centibps,
        exchange_rate_source: Some(conversion.source),
        ..sats_sale(product, policy, conversion.sats)
    }
}

/// A purchase at a price in sats, before any code.
pub fn sale_in_sats(product: &Product, policy: &Option<Policy>, sats: i64) -> (r: Sale)
    ensures
        r == sats_sale(*product, *policy, sats),
{
    Sale {
        product_id: product.id.clone(),
        policy_id: id_of_policy(policy),
        base_price: sats,
        listed_currency: None,
        listed_value: None,
        exchange_rate_centibps: None,
        exchange_rate_source: None,
        code_id: None,
        discount: 0,
        price: sats,
    }
}

/// A purchase at a converted price, before any code.
pub fn sale_converted(
    product: &Product,
    policy: &Option<Policy>,
    value: i64,
    conversion: &Conversion,
) -> (r: Sale)
    ensures
        r == converted_sale(*product, *policy, value, *conversion),
{
    Sale {
        product_id: product.id.clone(),
        policy_id: id_of_policy(policy),
        base_price: conversion.sats,
        listed_currency: Some(product.price_currency.clone()),
        listed_value: Some(value),
        exchange_rate_centibps: conversion.rate_centibps,
        exchange_rate_source: Some(conversion.source.clone()),
        code_id: None,
        discount: 0,
        price: conversion.sats,
    }
}

/// The rate that a price had to be converted at could not be had.
pub fn rate_unavailable(detail: &str) -> (r: AppError)
    ensures
        r.is_upstream("rate fetch failed: "@ + detail@),
{
    AppError::Upstream(cat2("rate fetch failed: ", detail))
}

// ---------- what happens next ----------

/// What a priced purchase does next.
#[derive(Clone, Debug)]
pub enum NextStep {
    /// Issue a trial license; nothing is charged and codes are ignored.
    StartTrial,
    /// Look the code up and check it.
    CheckCode { code: String },
    /// Issue the license at once: there is nothing to pay.
    IssueFree,
    /// Have the provider charge the price, less what a featured code takes off.
    Charge,
}

/// Does the tier begin with a free trial?
pub open spec fn begins_with_trial(policy: Option<Policy>) -> bool {
    policy matches Some(p) && p.is_recurring && p.trial_days > 0
}

/// The code that a buyer typed, unless it is blank.
pub open spec fn typed_code(code: Option<String>) -> Option<String> {
    match code {
        Some(c) => if is_blank(c@) {
            None
        } else {
            Some(c)
        },
        None => None,
    }
}

/// What a priced purchase does next. A trial comes before any code, and a code
/// before the free tier.
pub fn next_step(policy: &Option<Policy>, code: &Option<String>, sale: &Sale) -> (r: NextStep)
    ensures
        if begins_with_trial(*policy) {
            r is StartTrial
        } else if typed_code(*code) is Some {
            r == (NextStep::CheckCode { code: typed_code(*code)->0 })
        } else if sale.price <= 0 {
            r is IssueFree
        } else {
            r is Charge
        },
{
    if let Some(p) = policy {
        if p.is_recurring && p.trial_days > 0 {
            return NextStep::StartTrial;
        }
    }
    if let Some(c) = code {
        if !trim(c.as_str()).is_empty() {
            return NextStep::CheckCode { code: c.clone() };
        }
    }
    if sale.price <= 0 {
        NextStep::IssueFree
    } else {
        NextStep::Charge
    }
}

// ---------- codes ----------

/// Why a code is refused at purchase, in the order that the reasons are looked
/// for.
pub open spec fn code_refusal(
    found: Option<DiscountCode>,
    product_id: Seq<char>,
    policy: Option<Policy>,
    now: Moment,
) -> Option<Seq<char>> {
    match found {
        None => Some("unknown discount code"@),
        Some(code) => if !code.active {
            Some("discount code is disabled"@)
        } else if code.is_expired(now) {
            Some("discount code has expired"@)
        } else if code.misses_product(product_id) {
            Some("discount code does not apply to this product"@)
        } else if code.misses_policy(policy) {
            Some("discount code does not apply to the selected tier"@)
        } else {
            None
        },
    }
}

/// The code that a buyer typed, where it applies to this purchase.
pub fn check_code(
    found: &Option<DiscountCode>,
    product_id: &str,
    policy: &Option<Policy>,
    now: &Moment,
) -> (r: Result<(), AppError>)
    ensures
        match (code_refusal(*found, product_id@, *policy, *now), r) {
            (None, Ok(_)) => found is Some,
            (Some(words), Err(e)) => e.is_bad_request(words),
            _ => false,
        },
{
    match found {
        None => Err(bad_request("unknown discount code")),
        Some(code) => if !code.active {
            Err(bad_request("discount code is disabled"))
        } else if code.expired(now) {
            Err(bad_request("discount code has expired"))
        } else if code.wrong_product(product_id) {
            Err(bad_request("discount code does not apply to this product"))
        } else if code.wrong_policy(policy) {
            Err(bad_request("discount code does not apply to the selected tier"))
        } else {
            Ok(())
        },
    }
}

/// Does a code apply to a purchase although nobody typed it? It has to be
/// featured, to apply to the purchase, and to have uses left. A code that gives
/// licenses away does not: it is redeemed, and takes nothing off a price.
pub open spec fn applies_unasked(
    found: Option<DiscountCode>,
    product_id: Seq<char>,
    policy: Option<Policy>,
    now: Moment,
) -> bool {
    &&& code_refusal(found, product_id, policy, now) is None
    &&& found->0.featured
    &&& found->0.kind@ != "free_license"@
    &&& !found->0.is_exhausted()
}

pub open spec fn max_of(a: int, b: int) -> int {
    if a >= b {
        a
    } else {
        b
    }
}

pub open spec fn min_of(a: int, b: int) -> int {
    if a <= b {
        a
    } else {
        b
    }
}

/// What a code takes off a base price, in sats. A percentage is in basis
/// points, of which more than 10000 count as 10000; a set price takes off what
/// lies above it.
pub open spec fn discount_for(kind: Seq<char>, amount: int, base: int) -> int {
    if kind == "percent"@ {
        if base < 0 {
            base
        } else {
            base * min_of(max_of(amount, 0), 10_000) / 10_000
        }
    } else if kind == "fixed_sats"@ {
        min_of(max_of(amount, 0), base)
    } else if kind == "set_price"@ {
        max_of(base - max_of(amount, 0), 0)
    } else {
        0
    }
}

/// What a buyer pays once a code is applied.
pub open spec fn price_after(base: int, discount: int) -> int {
    max_of(base - discount, MIN_INVOICE_SATS as int)
}

/// A code never takes off more than the base price and never raises it, and
/// what is left to pay is at least one sat.
pub proof fn discount_stays_within_price(kind: Seq<char>, amount: int, base: int)
    requires
        base >= 0,
    ensures
        0 <= discount_for(kind, amount, base) <= base,
        MIN_INVOICE_SATS <= price_after(base, discount_for(kind, amount, base)) <= max_of(
            base,
            MIN_INVOICE_SATS as int,
        ),
{
    let bps = min_of(max_of(amount, 0), 10_000);
    assert(0 <= base * bps / 10_000 <= base) by (nonlinear_arith)
        requires
            base >= 0,
            0 <= bps <= 10_000,
    ;
}

/// Under a set-price code the buyer pays the set price, wherever that lies
/// between one sat and the base price.
pub proof fn set_price_is_what_is_paid(amount: int, base: int)
    requires
        1 <= amount <= base,
    ensures
        price_after(base, discount_for("set_price"@, amount, base)) == amount,
{
    reveal_strlit("set_price");
    reveal_strlit("percent");
    reveal_strlit("fixed_sats");
    assert("set_price"@.len() == 9 && "percent"@.len() == 7 && "fixed_sats"@.len() == 10);
}

/// What a code takes off a base price, in sats.
pub fn compute_discount(kind: &str, amount: i64, base_price_sats: i64) -> (r: i64)
    ensures
        r == discount_for(kind@, amount as int, base_price_sats as int),
{
    if same(kind, "percent") {
        if base_price_sats < 0 {
            base_price_sats
        } else {
            let bps: u128 = if amount < 0 {
                0
            } else if amount > 10_000 {
                10_000
            } else {
                amount as u128
            };
            let base: u128 = base_price_sats as u128;
            assert(base * bps <= base * 10_000) by (nonlinear_arith)
                requires
                    bps <= 10_000,
            ;
            let off: u128 = base * bps / 10_000;
            assert(off <= base) by (nonlinear_arith)
                requires
                    base * bps <= base * 10_000,
                    off == base * bps / 10_000,
            ;
            off as i64
        }
    } else if same(kind, "fixed_sats") {
        let wanted: i64 = if amount < 0 {
            0
        } else {
            amount
        };
        if wanted <= base_price_sats {
            wanted
        } else {
            base_price_sats
        }
    } else if same(kind, "set_price") {
        let target: i64 = if amount < 0 {
            0
        } else {
            amount
        };
        if target >= base_price_sats {
            0
        } else {
            base_price_sats - target
        }
    } else {
        0
    }
}

proof fn lemma_discount_fits(kind: Seq<char>, amount: int, base: int)
    ensures
        base >= 0 ==> 0 <= base - discount_for(kind, amount, base) <= base,
        base < 0 ==> base <= base - discount_for(kind, amount, base) <= 0,
{
    if base >= 0 {
        discount_stays_within_price(kind, amount, base);
    }
}

/// A purchase with a code applied.
pub open spec fn sale_with(sale: Sale, code: DiscountCode) -> Sale {
    let discount = discount_for(code.kind@, code.amount as int, sale.base_price as int);
    Sale {
        code_id: Some(code.id),
        discount: discount as i64,
        price: price_after(sale.base_price as int, discount) as i64,
        ..sale
    }
}

/// The purchase with a code applied whose slot has been reserved. Something is
/// left to pay, so it is charged.
pub fn apply_code(sale: Sale, code: &DiscountCode) -> (r: Sale)
    ensures
        r == sale_with(sale, *code),
        r.code_id == Some(code.id),
        r.discount == discount_for(code.kind@, code.amount as int, sale.base_price as int),
        r.price == price_after(sale.base_price as int, r.discount as int),
        r == (Sale { code_id: r.code_id, discount: r.discount, price: r.price, ..sale }),
{
    let discount: i64 = compute_discount(code.kind.as_str(), code.amount, sale.base_price);
    proof {
        lemma_discount_fits(code.kind@, code.amount as int, sale.base_price as int);
    }
    let left: i64 = sale.base_price - discount;
    let price: i64 = if left >= MIN_INVOICE_SATS {
        left
    } else {
        MIN_INVOICE_SATS
    };
    Sale { code_id: Some(code.id.clone()), discount, price, ..sale }
}

// ---------- the whole of it ----------

/// What has been looked up for a purchase so far. A field is `None` until it
/// has been looked up.
#[derive(Clone, Debug)]
pub struct PurchaseFacts {
    pub product: Option<Option<Product>>,
    pub policy: Option<Option<Policy>>,
    /// The listed price in sats, or why the rate could not be had.
    pub conversion: Option<Result<Conversion, String>>,
    /// The code that the buyer typed.
    pub code: Option<Option<DiscountCode>>,
    /// The code that is shown to every buyer of the product in its tier.
    pub featured: Option<Option<DiscountCode>>,
}

/// What a purchase needs done before it can go on, or where it ends up.
#[derive(Clone, Debug)]
pub enum PurchaseStep {
    FindProduct { slug: String },
    FindPolicy { product_id: String, slug: String },
    Convert { currency: String, value: i64 },
    FindCode { code: String },
    FindFeatured { product_id: String, policy_id: Option<String> },
    Refuse { error: AppError },
    /// Issue a trial license; nothing is charged.
    StartTrial { sale: Sale },
    /// Reserve a slot of the code, and check out with it.
    Reserve { sale: Sale, code_id: String, typed: bool },
    /// Issue the license at once; there is nothing to pay.
    IssueFree { sale: Sale },
    /// Check out: have the provider charge the price.
    Charge { sale: Sale },
}

/// Is `step` what a purchase of an available product and tier, priced as
/// `sale`, does next?
pub open spec fn is_step_of_sale(
    req: StartPurchaseReq,
    facts: PurchaseFacts,
    policy: Option<Policy>,
    sale: Sale,
    now: Moment,
    step: PurchaseStep,
) -> bool {
    if begins_with_trial(policy) {
        step == (PurchaseStep::StartTrial { sale })
    } else if typed_code(req.code) is Some {
        match facts.code {
            None => step == (PurchaseStep::FindCode { code: typed_code(req.code)->0 }),
            Some(found) => match code_refusal(found, sale.product_id@, policy, now) {
                Some(words) => step matches PurchaseStep::Refuse { error } && error.is_bad_request(
                    words,
                ),
                None => step == (PurchaseStep::Reserve {
                    sale,
                    code_id: found->0.id,
                    typed: true,
                }),
            },
        }
    } else if sale.price <= 0 {
        step == (PurchaseStep::IssueFree { sale })
    } else {
        match facts.featured {
            None => step == (PurchaseStep::FindFeatured {
                product_id: sale.product_id,
                policy_id: sale.policy_id,
            }),
            Some(found) => if applies_unasked(found, sale.product_id@, policy, now) {
                step == (PurchaseStep::Reserve { sale, code_id: found->0.id, typed: false })
            } else {
                step == (PurchaseStep::Charge { sale })
            },
        }
    }
}

/// Is `step` what a purchase of an available product and tier does next?
pub open spec fn is_step_of_choice(
    req: StartPurchaseReq,
    facts: PurchaseFacts,
    product: Product,
    policy: Option<Policy>,
    now: Moment,
    step: PurchaseStep,
) -> bool {
    if product.price_currency@ == "SAT"@ {
        is_step_of_sale(
            req,
            facts,
            policy,
            sats_sale(product, policy, tier_price(policy, product.price_sats)),
            now,
            step,
        )
    } else {
        let value = tier_price(policy, product.price_value);
        match facts.conversion {
            None => step == (PurchaseStep::Convert { currency: product.price_currency, value }),
            Some(Err(detail)) => step matches PurchaseStep::Refuse { error } && error.is_upstream(
                "rate fetch failed: "@ + detail@,
            ),
            Some(Ok(conversion)) => is_step_of_sale(
                req,
                facts,
                policy,
                converted_sale(product, policy, value, conversion),
                now,
                step,
            ),
        }
    }
}

/// Is `step` what a purchase does next? The product is settled first, then the
/// tier, the price, the trial, the code that was typed, whether anything is to
/// be paid, and last the code that is featured.
pub open spec fn is_purchase_step(
    req: StartPurchaseReq,
    facts: PurchaseFacts,
    now: Moment,
    step: PurchaseStep,
) -> bool {
    match facts.product {
        None => step == (PurchaseStep::FindProduct { slug: req.product }),
        Some(found) => if found is None || !found->0.active {
            step matches PurchaseStep::Refuse { error } && product_is_refused(
                req.product@,
                found,
                "purchase"@,
                error,
            )
        } else {
            let product = found->0;
            match wanted_slug(req.policy_slug) {
                None => is_step_of_choice(req, facts, product, None, now, step),
                Some(slug) => match facts.policy {
                    None => step == (PurchaseStep::FindPolicy { product_id: product.id, slug }),
                    Some(policy) => if policy is None || !policy->0.active || !policy->0.public {
                        step matches PurchaseStep::Refuse { error } && policy_is_refused(
                            slug@,
                            req.product@,
                            policy,
                            error,
                        )
                    } else {
                        is_step_of_choice(req, facts, product, policy, now, step)
                    },
                },
            }
        },
    }
}

fn step_of_sale(
    req: &StartPurchaseReq,
    facts: &PurchaseFacts,
    policy: &Option<Policy>,
    sale: Sale,
    now: &Moment,
) -> (r: PurchaseStep)
    ensures
        is_step_of_sale(*req, *facts, *policy, sale, *now, r),
{
    match next_step(policy, &req.code, &sale) {
        NextStep::StartTrial => PurchaseStep::StartTrial { sale },
        NextStep::IssueFree => PurchaseStep::IssueFree { sale },
        NextStep::Charge => match &facts.featured {
            None => PurchaseStep::FindFeatured {
                product_id: sale.product_id.clone(),
                policy_id: copy_opt(&sale.policy_id),
            },
            Some(found) => {
                if check_code(found, sale.product_id.as_str(), policy, now).is_ok() {
                    if let Some(c) = found {
                        if c.featured && !same(c.kind.as_str(), "free_license") && !c.exhausted() {
                            let code_id: String = c.id.clone();
                            return PurchaseStep::Reserve { sale, code_id, typed: false };
                        }
                    }
                }
                PurchaseStep::Charge { sale }
            },
        },
        NextStep::CheckCode { code } => match &facts.code {
            None => PurchaseStep::FindCode { code },
            Some(found) => match check_code(found, sale.product_id.as_str(), policy, now) {
                Err(error) => PurchaseStep::Refuse { error },
                Ok(_) => match found {
                    Some(c) => PurchaseStep::Reserve { sale, code_id: c.id.clone(), typed: true },
                    None => PurchaseStep::Refuse { error: bad_request("unknown discount code") },
                },
            },
        },
    }
}

fn step_of_choice(
    req: &StartPurchaseReq,
    facts: &PurchaseFacts,
    product: &Product,
    policy: &Option<Policy>,
    now: &Moment,
) -> (r: PurchaseStep)
    ensures
        is_step_of_choice(*req, *facts, *product, *policy, *now, r),
{
    match list_price(product, policy) {
        ListPrice::Sats { sats } => {
            let sale: Sale = sale_in_sats(product, policy, sats);
            step_of_sale(req, facts, policy, sale, now)
        },
        ListPrice::Fiat { currency, value } => match &facts.conversion {
            None => PurchaseStep::Convert { currency, value },
            Some(Err(detail)) => PurchaseStep::Refuse { error: rate_unavailable(detail.as_str()) },
            Some(Ok(conversion)) => {
                let sale: Sale = sale_converted(product, policy, value, conversion);
                step_of_sale(req, facts, policy, sale, now)
            },
        },
    }
}

/// What a purchase does next, given what has been looked up so far.
pub fn start(req: &StartPurchaseReq, facts: &PurchaseFacts, now: &Moment) -> (r: PurchaseStep)
    ensures
        is_purchase_step(*req, *facts, *now, r),
{
    let found: &Option<Product> = match &facts.product {
        None => {
            return PurchaseStep::FindProduct { slug: req.product.clone() };
        },
        Some(found) => found,
    };
    if let Err(error) = available_product(req.product.as_str(), found, "purchase") {
        return PurchaseStep::Refuse { error };
    }
    let product: &Product = match found {
        Some(product) => product,
        None => {
            return PurchaseStep::Refuse {
                error: not_found_with("product '", req.product.as_str(), "'"),
            };
        },
    };
    match wanted_policy(&req.policy_slug) {
        None => step_of_choice(req, facts, product, &None, now),
        Some(slug) => match &facts.policy {
            None => PurchaseStep::FindPolicy { product_id: product.id.clone(), slug },
            Some(policy) => match selectable_policy(slug.as_str(), req.product.as_str(), policy) {
                Err(error) => PurchaseStep::Refuse { error },
                Ok(_) => step_of_choice(req, facts, product, policy, now),
            },
        },
    }
}

/// A purchase is charged or has a code reserved only where the product is
/// active, the tier (if one was asked for) is active and public, and no trial
/// applies; and where it is charged at once, something is to be paid.
pub proof fn charged_purchases_are_on_offer(
    req: StartPurchaseReq,
    facts: PurchaseFacts,
    now: Moment,
    step: PurchaseStep,
)
    requires
        is_purchase_step(req, facts, now, step),
        step is Charge || step is Reserve,
    ensures
        facts.product matches Some(Some(p)) && p.active,
        wanted_slug(req.policy_slug) is Some ==> (facts.policy matches Some(Some(p)) && p.active
            && p.public && !begins_with_trial(Some(p))),
        step matches PurchaseStep::Charge { sale } ==> sale.price > 0 && sale.code_id is None,
{
}

/// A code that the buyer typed and that applies is the one that is reserved,
/// whatever code is featured.
pub proof fn typed_codes_win(
    req: StartPurchaseReq,
    facts: PurchaseFacts,
    now: Moment,
    step: PurchaseStep,
)
    requires
        is_purchase_step(req, facts, now, step),
        typed_code(req.code) is Some,
    ensures
        !(step is FindFeatured || step is Charge || step is IssueFree),
        step matches PurchaseStep::Reserve { code_id, typed, .. } ==> typed && (
        facts.code matches Some(Some(c)) && c.id == code_id),
{
}

/// A featured code applies to buyers who type none: where something is to be
/// paid and the code applies, it is reserved, and nobody is charged without it.
pub proof fn featured_codes_apply_unasked(
    req: StartPurchaseReq,
    facts: PurchaseFacts,
    policy: Policy,
    now: Moment,
    step: PurchaseStep,
)
    requires
        is_purchase_step(req, facts, now, step),
        facts.product matches Some(Some(product)),
        wanted_slug(req.policy_slug) is Some,
        facts.policy == Some(Some(policy)),
        typed_code(req.code) is None,
        facts.featured matches Some(found) && applies_unasked(
            found,
            facts.product->0->0.id@,
            Some(policy),
            now,
        ),
    ensures
        !(step is Charge),
        step matches PurchaseStep::Reserve { code_id, typed, .. } ==> !typed && code_id
            == facts.featured->0->0.id,
        facts.product->0->0.active && policy.active && policy.public && !begins_with_trial(
            Some(policy),
        ) && facts.product->0->0.price_currency@ == "SAT"@ && tier_price(
            Some(policy),
            facts.product->0->0.price_sats,
        ) > 0 ==> step is Reserve,
{
}

// ---------- charging ----------

/// A step that can fail once a code's slot is reserved.
#[derive(Clone, Copy, Debug, PartialEq, Eq)]
pub enum PurchaseStage {
    FindProvider,
    CreateProviderInvoice,
    StoreInvoice,
    RecordRedemption,
}

/// What has to be taken back when a step fails.
#[derive(Clone, Debug)]
pub struct Undo {
    /// The code whose slot is given back.
    pub release_code: Option<String>,
    /// Whether the stored invoice is marked invalid, so that it is not honoured
    /// if it settles.
    pub invalidate_invoice: bool,
}

/// What has to be taken back when a step fails: a slot that was reserved is
/// given back whichever step it is, so no failed purchase uses a code up.
pub fn undo_after(sale: &Sale, stage: PurchaseStage) -> (r: Undo)
    ensures
        r.release_code == sale.code_id,
        r.invalidate_invoice <==> (stage is RecordRedemption && sale.code_id is Some),
{
    Undo {
        release_code: copy_opt(&sale.code_id),
        invalidate_invoice: match stage {
            PurchaseStage::RecordRedemption => sale.code_id.is_some(),
            _ => false,
        },
    }
}

/// The provider would not create the invoice.
pub fn charge_failed(detail: &str) -> (r: AppError)
    ensures
        r.is_upstream("payment provider create-invoice failed: "@ + detail@),
{
    AppError::Upstream(cat2("payment provider create-invoice failed: ", detail))
}

/// Where the buyer returns to after paying: where they asked to, or the page
/// that waits for the license of this invoice.
pub open spec fn redirect_text(
    wanted: Option<String>,
    public_base_url: Seq<char>,
    invoice_id: Seq<char>,
) -> Seq<char> {
    match wanted {
        Some(url) if url@.len() > 0 => url@,
        _ => public_base_url + "/thank-you?invoice_id="@ + invoice_id,
    }
}

/// Where the buyer returns to after paying.
pub fn redirect_target(wanted: &Option<String>, public_base_url: &str, invoice_id: &str) -> (r:
    String)
    ensures
        r@ == redirect_text(*wanted, public_base_url@, invoice_id@),
{
    if let Some(url) = wanted {
        if !url.as_str().is_empty() {
            return url.clone();
        }
    }
    cat3(public_base_url, "/thank-you?invoice_id=", invoice_id)
}

/// Where the state of a purchase is asked for.
pub fn poll_url(public_base_url: &str, invoice_id: &str) -> (r: String)
    ensures
        r@ == public_base_url@ + "/v1/purchase/"@ + invoice_id@,
{
    cat3(public_base_url, "/v1/purchase/", invoice_id)
}

/// A use of a code that is not settled yet.
#[derive(Clone, Debug)]
pub struct PendingRedemption {
    pub code_id: String,
    pub invoice_id: String,
    pub discount_applied_sats: i64,
    pub base_price_sats: i64,
    pub final_price_sats: i64,
}

/// Is `r` the use of a code to record with an invoice over `charged` sats? There
/// is none where no code is reserved.
pub open spec fn is_redemption(
    sale: Sale,
    invoice_id: Seq<char>,
    charged: i64,
    r: Option<PendingRedemption>,
) -> bool {
    match (sale.code_id, r) {
        (None, None) => true,
        (Some(code), Some(p)) => {
            &&& p.code_id == code
            &&& p.invoice_id@ == invoice_id
            &&& p.discount_applied_sats == sale.discount
            &&& p.base_price_sats == sale.base_price
            &&& p.final_price_sats == charged
        },
        _ => false,
    }
}

/// The use of a code to record with an invoice over `charged` sats; none where
/// no code is reserved.
pub fn redemption_for(sale: &Sale, invoice_id: &str, charged: i64) -> (r: Option<
    PendingRedemption,
>)
    ensures
        is_redemption(*sale, invoice_id@, charged, r),
{
    match &sale.code_id {
        None => None,
        Some(code) => Some(
            PendingRedemption {
                code_id: code.clone(),
                invoice_id: String::from_str(invoice_id),
                discount_applied_sats: sale.discount,
                base_price_sats: sale.base_price,
                final_price_sats: charged,
            },
        ),
    }
}

/// Is `r` the answer where the provider is to be paid?
pub open spec fn is_charged_answer(
    sale: Sale,
    invoice_id: String,
    provider_invoice_id: String,
    checkout_url: String,
    public_base_url: Seq<char>,
    r: StartPurchaseResp,
) -> bool {
    &&& r.invoice_id == invoice_id
    &&& r.btcpay_invoice_id == provider_invoice_id
    &&& r.checkout_url == checkout_url
    &&& r.amount_sats == sale.price
    &&& r.base_price_sats == sale.base_price
    &&& r.discount_applied_sats == sale.discount
    &&& r.poll_url@ == public_base_url + "/v1/purchase/"@ + invoice_id@
    &&& r.license_key is None
    &&& r.license_id is None
}

/// The answer where the provider is to be paid.
pub fn charged_response(
    sale: &Sale,
    invoice_id: String,
    provider_invoice_id: String,
    checkout_url: String,
    public_base_url: &str,
) -> (r: StartPurchaseResp)
    ensures
        is_charged_answer(
            *sale,
            invoice_id,
            provider_invoice_id,
            checkout_url,
            public_base_url@,
            r,
        ),
{
    let poll: String = poll_url(public_base_url, invoice_id.as_str());
    StartPurchaseResp {
        invoice_id,
        btcpay_invoice_id: provider_invoice_id,
        checkout_url,
        amount_sats: sale.price,
        base_price_sats: sale.base_price,
        discount_applied_sats: sale.discount,
        poll_url: poll,
        license_key: None,
        license_id: None,
    }
}

/// Is `r` the answer where the license was issued at once?
pub open spec fn is_issued_answer(
    sale: Sale,
    invoice: Invoice,
    license_id: String,
    license: License,
    secret: Seq<u8>,
    public_base_url: Seq<char>,
    r: Result<StartPurchaseResp, AppError>,
) -> bool {
    match r {
        Ok(resp) => {
            &&& has_uuids(license)
            &&& resp.invoice_id == invoice.id
            &&& sale.price <= 0 ==> resp.btcpay_invoice_id@.len() == 0
            &&& sale.price > 0 ==> resp.btcpay_invoice_id == invoice.btcpay_invoice_id
            &&& resp.checkout_url@.len() == 0
            &&& resp.amount_sats == 0
            &&& resp.base_price_sats == sale.base_price
            &&& resp.discount_applied_sats == sale.discount
            &&& resp.poll_url@ == public_base_url + "/v1/purchase/"@ + invoice.id@
            &&& opt_text(resp.license_key) == Some(key_of(secret, license))
            &&& resp.license_id == Some(license_id)
        },
        Err(e) => !has_uuids(license) && e.is_internal(bad_id_words("bad"@, license)),
    }
}

/// The answer where the license was issued at once. The key in it is the key of
/// the license row.
pub fn issued_response(
    sale: &Sale,
    invoice: &Invoice,
    license_id: String,
    license: &License,
    signing_key: &SigningKey,
    public_base_url: &str,
) -> (r: Result<StartPurchaseResp, AppError>)
    requires
        entitlements_fit(license.entitlements@),
    ensures
        is_issued_answer(
            *sale,
            *invoice,
            license_id,
            *license,
            signing_key.secret@,
            public_base_url@,
            r,
        ),
{
    match derive_key(signing_key, license, "bad") {
        Err(e) => Err(e),
        Ok(key) => Ok(
            StartPurchaseResp {
                invoice_id: invoice.id.clone(),
                btcpay_invoice_id: if sale.price <= 0 {
                    String::new()
                } else {
                    invoice.btcpay_invoice_id.clone()
                },
                checkout_url: String::new(),
                amount_sats: 0,
                base_price_sats: sale.base_price,
                discount_applied_sats: sale.discount,
                poll_url: poll_url(public_base_url, invoice.id.as_str()),
                license_key: Some(key),
                license_id: Some(license_id),
            },
        ),
    }
}

/// A license that was issued a moment ago cannot be found.
pub fn license_vanished() -> (r: AppError)
    ensures
        r.is_internal("license vanished after issue"@),
{
    crate::error::internal("license vanished after issue")
}

// ---------- polling ----------

/// The state of a purchase.
#[derive(Clone, Debug)]
pub struct PurchaseStatus {
    pub invoice_id: String,
    pub status: String,
    pub product_id: String,
    pub amount_sats: i64,
    pub license_key: Option<String>,
    pub license_id: Option<String>,
}

/// Is `r` how a purchase stands?
pub open spec fn is_purchase_status(
    invoice_id: Seq<char>,
    found: Option<Invoice>,
    license: Option<License>,
    secret: Seq<u8>,
    r: Result<PurchaseStatus, AppError>,
) -> bool {
    match found {
        None => r matches Err(e) && e.is_not_found("invoice '"@ + invoice_id + "'"@),
        Some(invoice) => match r {
            Ok(s) => {
                &&& s.invoice_id == invoice.id
                &&& s.status == invoice.status
                &&& s.product_id == invoice.product_id
                &&& s.amount_sats == invoice.amount_sats
                &&& match license {
                    Some(l) => {
                        &&& s.license_id == Some(l.id)
                        &&& l.status@ == "active"@ ==> {
                            &&& has_uuids(l)
                            &&& opt_text(s.license_key) == Some(key_of(secret, l))
                            &&& read_key(s.license_key->0@) is Ok
                            &&& read_key(s.license_key->0@)->Ok_0.payload == payload_of(l)
                            &&& read_key(s.license_key->0@)->Ok_0.verifies(ed25519_public(secret))
                        }
                        &&& l.status@ != "active"@ ==> s.license_key is None
                    },
                    None => s.license_id is None && s.license_key is None,
                }
            },
            Err(e) => license matches Some(l) && l.status@ == "active"@ && !has_uuids(l)
                && e.is_internal(bad_id_words("bad stored"@, l)),
        },
    }
}

/// The state of a purchase. The key is told once a license is there and active,
/// and is the key of the license row, which the server's public key accepts.
pub fn purchase_status(
    invoice_id: &str,
    found: Option<Invoice>,
    license: &Option<License>,
    signing_key: &SigningKey,
) -> (r: Result<PurchaseStatus, AppError>)
    requires
        found is Some ==> (license matches Some(l) ==> (l.status@ == "active"@
            ==> entitlements_fit(l.entitlements@))),
    ensures
        is_purchase_status(invoice_id@, found, *license, signing_key.secret@, r),
{
    let invoice: Invoice = match found {
        None => {
            return Err(not_found_with("invoice '", invoice_id, "'"));
        },
        Some(invoice) => invoice,
    };
    let mut license_key: Option<String> = None;
    let mut license_id: Option<String> = None;
    if let Some(l) = license {
        license_id = Some(l.id.clone());
        if same(l.status.as_str(), "active") {
            match derive_key(signing_key, l, "bad stored") {
                Err(e) => {
                    return Err(e);
                },
                Ok(key) => {
                    license_key = Some(key);
                },
            }
        }
    }
    Ok(
        PurchaseStatus {
            invoice_id: invoice.id,
            status: invoice.status,
            product_id: invoice.product_id,
            amount_sats: invoice.amount_sats,
            license_key,
            license_id,
        },
    )
}

} // verus!
