//! What comes of buying.

use crate::api::purchase::{
    code_refusal, discount_for, is_purchase_status, is_purchase_step, sale_with, PurchaseFacts,
    PurchaseStatus, PurchaseStep, Sale, StartPurchaseReq,
};
use crate::clock::{rfc3339_parts, Moment};
use crate::error::AppError;
use crate::models::{DiscountCode, Invoice, License, Policy, Product};
use crate::text::is_white_space;
use vstd::prelude::*;

verus! {

// ---------- what codes take off ----------

proof fn lemma_kinds()
    ensures
        "percent"@ != "fixed_sats"@,
        "percent"@ != "set_price"@,
        "fixed_sats"@ != "set_price"@,
        "free_license"@ != "percent"@,
        "free_license"@ != "fixed_sats"@,
        "free_license"@ != "set_price"@,
{
    reveal_strlit("percent");
    reveal_strlit("fixed_sats");
    reveal_strlit("set_price");
    reveal_strlit("free_license");
    assert("percent"@.len() == 7 && "fixed_sats"@.len() == 10 && "set_price"@.len() == 9
        && "free_license"@.len() == 12);
}

/// Under a code for a fixed amount the buyer pays that much less: what is paid
/// and what is taken off add up to the price before. Something is left to pay.
pub proof fn fixed_codes_take_their_amount_off(sale: Sale, code: DiscountCode)
    requires
        code.kind@ == "fixed_sats"@,
        sale.base_price >= 0,
    ensures
        0 <= code.amount <= sale.base_price - 1 ==> {
            &&& sale_with(sale, code).discount == code.amount
            &&& sale_with(sale, code).price == sale.base_price - code.amount
        },
        code.amount >= sale.base_price ==> {
            &&& sale_with(sale, code).discount == sale.base_price
            &&& sale_with(sale, code).price == 1
        },
        code.amount <= 0 && sale.base_price >= 1 ==> {
            &&& sale_with(sale, code).discount == 0
            &&& sale_with(sale, code).price == sale.base_price
        },
{
    lemma_kinds();
}

/// Under a code for a percentage, in hundredths of a percent, the buyer pays that
/// share less, rounded in the buyer's disfavour by less than a sat. More than all
/// counts as all, and less than nothing as nothing.
pub proof fn percent_codes_take_their_share_off(sale: Sale, code: DiscountCode)
    requires
        code.kind@ == "percent"@,
        sale.base_price >= 0,
    ensures
        ({
            let off = sale_with(sale, code).discount;
            &&& 0 <= code.amount <= 10_000 ==> off * 10_000 <= sale.base_price * code.amount
                < (off + 1) * 10_000
            &&& code.amount >= 10_000 ==> off == sale.base_price
            &&& code.amount <= 0 ==> off == 0
            &&& 0 <= off <= sale.base_price
            &&& sale.base_price - off >= 1 ==> sale_with(sale, code).price == sale.base_price - off
            &&& sale.base_price - off < 1 ==> sale_with(sale, code).price == 1
        }),
{
    lemma_kinds();
    let base = sale.base_price as int;
    let bps = if code.amount < 0 {
        0
    } else if code.amount > 10_000 {
        10_000
    } else {
        code.amount as int
    };
    let off = base * bps / 10_000;
    assert(0 <= off <= base && off * 10_000 <= base * bps < (off + 1) * 10_000) by (nonlinear_arith)
        requires
            base >= 0,
            0 <= bps <= 10_000,
            off == base * bps / 10_000,
    ;
    assert(bps == 10_000 ==> off == base) by (nonlinear_arith)
        requires
            off == base * bps / 10_000,
    ;
    assert(bps == 0 ==> off == 0) by (nonlinear_arith)
        requires
            off == base * bps / 10_000,
    ;
    assert(sale_with(sale, code).discount == off);
}

/// A larger percentage never takes less off, and a larger price is never lowered
/// by less.
pub proof fn larger_shares_take_more_off(a: int, b: int, base: int, dearer: int)
    requires
        0 <= a <= b <= 10_000,
        0 <= base <= dearer,
    ensures
        discount_for("percent"@, a, base) <= discount_for("percent"@, b, base),
        discount_for("percent"@, a, base) <= discount_for("percent"@, a, dearer),
{
    lemma_kinds();
    assert(base * a / 10_000 <= base * b / 10_000) by (nonlinear_arith)
        requires
            0 <= a <= b,
            0 <= base,
    ;
    assert(base * a / 10_000 <= dearer * a / 10_000) by (nonlinear_arith)
        requires
            0 <= a,
            0 <= base <= dearer,
    ;
}

/// Under a code that sets the price the buyer pays that price, and never more
/// than without the code.
pub proof fn set_prices_are_what_is_paid(sale: Sale, code: DiscountCode)
    requires
        code.kind@ == "set_price"@,
        sale.base_price >= 1,
    ensures
        1 <= code.amount <= sale.base_price ==> {
            &&& sale_with(sale, code).price == code.amount
            &&& sale_with(sale, code).discount == sale.base_price - code.amount
        },
        code.amount > sale.base_price ==> {
            &&& sale_with(sale, code).price == sale.base_price
            &&& sale_with(sale, code).discount == 0
        },
        code.amount <= 0 ==> {
            &&& sale_with(sale, code).price == 1
            &&& sale_with(sale, code).discount == sale.base_price
        },
{
    lemma_kinds();
}

/// A code of any other kind takes nothing off a price.
pub proof fn other_codes_take_nothing_off(sale: Sale, code: DiscountCode)
    requires
        code.kind@ != "percent"@,
        code.kind@ != "fixed_sats"@,
        code.kind@ != "set_price"@,
        sale.base_price >= 1,
    ensures
        sale_with(sale, code).discount == 0,
        sale_with(sale, code).price == sale.base_price,
{
}

/// A code changes what is paid, and nothing else of a purchase. The code that is
/// named is the one that was applied.
pub proof fn codes_change_only_the_price(sale: Sale, code: DiscountCode)
    ensures
        ({
            let after = sale_with(sale, code);
            &&& after.code_id == Some(code.id)
            &&& after.product_id == sale.product_id
            &&& after.policy_id == sale.policy_id
            &&& after.base_price == sale.base_price
            &&& after.listed_currency == sale.listed_currency
            &&& after.listed_value == sale.listed_value
            &&& after.exchange_rate_centibps == sale.exchange_rate_centibps
            &&& after.exchange_rate_source == sale.exchange_rate_source
            &&& sale.base_price >= 0 ==> after.price >= 1 && (after.price == 1 || after.price
                == sale.base_price - after.discount)
        }),
{
    if sale.base_price >= 0 {
        crate::api::purchase::discount_stays_within_price(
            code.kind@,
            code.amount as int,
            sale.base_price as int,
        );
    }
}

// ---------- what is bought ----------

/// Is a product on offer, in the tier that was asked for, if one was?
pub open spec fn is_on_offer(
    req: StartPurchaseReq,
    facts: PurchaseFacts,
    product: Product,
    policy: Option<Policy>,
) -> bool {
    &&& facts.product == Some(Some(product))
    &&& product.active
    &&& match policy {
        None => req.policy_slug is None || req.policy_slug->0@.len() == 0,
        Some(p) => {
            &&& req.policy_slug is Some
            &&& req.policy_slug->0@.len() > 0
            &&& facts.policy == Some(Some(p))
            &&& p.active
            &&& p.public
        },
    }
}

/// What a product is listed at in sats: at the tier's own price where it has one.
pub open spec fn is_listed_in_sats(product: Product, policy: Option<Policy>, sats: i64) -> bool {
    &&& product.price_currency@ == "SAT"@
    &&& sats == if policy is Some && policy->0.price_sats_override is Some {
        policy->0.price_sats_override->0
    } else {
        product.price_sats
    }
}

/// What a product is listed at in another currency.
pub open spec fn is_listed_otherwise(product: Product, policy: Option<Policy>, value: i64) -> bool {
    &&& product.price_currency@ != "SAT"@
    &&& value == if policy is Some && policy->0.price_sats_override is Some {
        policy->0.price_sats_override->0
    } else {
        product.price_value
    }
}

/// What a purchase costs in sats before any code.
pub open spec fn costs(
    facts: PurchaseFacts,
    product: Product,
    policy: Option<Policy>,
    sats: i64,
) -> bool {
    is_listed_in_sats(product, policy, sats) || (product.price_currency@ != "SAT"@
        && facts.conversion is Some && (facts.conversion->0 matches Ok(c) && c.sats == sats))
}

/// Does the tier begin with days that are free?
pub open spec fn is_tried_first(policy: Option<Policy>) -> bool {
    policy is Some && policy->0.is_recurring && policy->0.trial_days > 0
}

/// Is nothing typed but white space?
pub open spec fn is_code_left_out(req: StartPurchaseReq) -> bool {
    req.code is Some ==> forall|i: int|
        0 <= i < req.code->0@.len() ==> is_white_space(#[trigger] req.code->0@[i])
}

/// Is a code typed, of more than white space?
pub open spec fn is_code_typed(req: StartPurchaseReq) -> bool {
    req.code is Some && exists|i: int|
        0 <= i < req.code->0@.len() && !is_white_space(#[trigger] req.code->0@[i])
}

/// Is a sale what was asked for, at this price and with no code applied?
pub open spec fn is_plain_sale(
    sale: Sale,
    facts: PurchaseFacts,
    product: Product,
    policy: Option<Policy>,
    sats: i64,
) -> bool {
    &&& sale.product_id == product.id
    &&& sale.policy_id is Some <==> policy is Some
    &&& policy is Some ==> sale.policy_id->0 == policy->0.id
    &&& sale.base_price == sats
    &&& sale.price == sats
    &&& sale.discount == 0
    &&& sale.code_id is None
    &&& product.price_currency@ == "SAT"@ ==> {
        &&& sale.listed_currency is None
        &&& sale.listed_value is None
        &&& sale.exchange_rate_centibps is None
        &&& sale.exchange_rate_source is None
    }
    &&& product.price_currency@ != "SAT"@ ==> {
        &&& sale.listed_currency == Some(product.price_currency)
        &&& sale.listed_value is Some && is_listed_otherwise(product, policy, sale.listed_value->0)
        &&& facts.conversion->0 matches Ok(c) && sale.exchange_rate_centibps == c.rate_centibps
            && sale.exchange_rate_source == Some(c.source)
    }
}

/// Can a code be used for this purchase? It is active, its date has not passed,
/// and it is restricted neither to another product nor to other tiers.
pub open spec fn is_code_usable(
    code: DiscountCode,
    product: Product,
    policy: Option<Policy>,
    now: Moment,
) -> bool {
    &&& code.active
    &&& !is_code_past(code, now)
    &&& code.applies_to_product_id is Some ==> code.applies_to_product_id->0@ == product.id@
    &&& policy is Some ==> is_tier_allowed(code, policy->0)
}

/// Has the date of a code passed?
pub open spec fn is_code_past(code: DiscountCode, now: Moment) -> bool {
    code.expires_at is Some && (rfc3339_parts(code.expires_at->0@) matches Some(end) && (end.0
        < now.secs || (end.0 == now.secs && end.1 < now.nanos)))
}

/// Is a code not restricted to other tiers? A list of tiers goes before a single
/// one.
pub open spec fn is_tier_allowed(code: DiscountCode, policy: Policy) -> bool {
    if code.applies_to_policy_ids@.len() > 0 {
        exists|i: int|
            0 <= i < code.applies_to_policy_ids@.len() && (
            #[trigger] code.applies_to_policy_ids@[i])@ == policy.id@
    } else {
        code.applies_to_policy_id is Some ==> code.applies_to_policy_id->0@ == policy.id@
    }
}

proof fn lemma_blank(s: Seq<char>)
    ensures
        crate::text::is_blank(s) <==> forall|i: int|
            0 <= i < s.len() ==> is_white_space(#[trigger] s[i]),
{
    crate::laws::texts::blank_texts_are_white_space(s);
}

proof fn lemma_typed(req: StartPurchaseReq)
    ensures
        crate::api::purchase::typed_code(req.code) is None <==> is_code_left_out(req),
        is_code_typed(req) <==> !is_code_left_out(req),
        is_code_typed(req) ==> crate::api::purchase::typed_code(req.code) == req.code,
{
    if req.code is Some {
        lemma_blank(req.code->0@);
    }
}

proof fn lemma_usable(
    code: DiscountCode,
    product: Product,
    policy: Option<Policy>,
    now: Moment,
)
    ensures
        is_code_usable(code, product, policy, now) <==> code_refusal(
            Some(code),
            product.id@,
            policy,
            now,
        ) is None,
        policy is Some ==> (is_tier_allowed(code, policy->0) <==> !code.misses_policy(policy)),
        is_code_past(code, now) <==> code.is_expired(now),
{
    if policy is Some {
        let id = policy->0.id@;
        if code.applies_to_policy_ids@.len() > 0 {
            let ids = crate::text::texts(code.applies_to_policy_ids@);
            if is_tier_allowed(code, policy->0) {
                let i = choose|i: int|
                    0 <= i < code.applies_to_policy_ids@.len() && (
                    #[trigger] code.applies_to_policy_ids@[i])@ == id;
                assert(ids[i] == id);
            }
            if ids.contains(id) {
                let i = choose|i: int| 0 <= i < ids.len() && ids[i] == id;
                assert(code.applies_to_policy_ids@[i]@ == id);
            }
        } else if code.applies_to_policy_id is Some {
            let one = seq![code.applies_to_policy_id->0@];
            assert(code.allowed() == one);
            assert(one[0] == code.applies_to_policy_id->0@);
            if one.contains(id) {
                assert(one[0] == id);
            }
        }
    }
}

// ---------- what comes of it ----------

/// A product that is not there or not on sale, and a tier that is not there, not
/// active or not public, cannot be bought.
pub proof fn only_what_is_on_offer_is_sold(
    req: StartPurchaseReq,
    facts: PurchaseFacts,
    now: Moment,
    step: PurchaseStep,
)
    requires
        is_purchase_step(req, facts, now, step),
    ensures
        facts.product is None <==> step is FindProduct,
        step is FindProduct ==> step->FindProduct_slug == req.product,
        facts.product matches Some(None) ==> step is Refuse && (step->error is NotFound),
        facts.product matches Some(Some(p)) && !p.active ==> step is Refuse && (step->error
            is BadRequest),
        (facts.product matches Some(Some(p)) && p.active) && req.policy_slug is Some
            && req.policy_slug->0@.len() > 0 ==> match facts.policy {
            None => step is FindPolicy && step->FindPolicy_slug == req.policy_slug->0
                && step->FindPolicy_product_id == facts.product->0->0.id,
            Some(None) => step is Refuse && (step->error is NotFound),
            Some(Some(p)) => !p.active || !p.public ==> step is Refuse && (step->error
                is BadRequest),
        },
{
}

/// A purchase starts with a trial exactly where the tier is renewed and has free
/// days; the license is then issued at once, whatever code is typed.
pub proof fn trials_are_for_tiers_with_free_days(
    req: StartPurchaseReq,
    facts: PurchaseFacts,
    now: Moment,
    step: PurchaseStep,
    product: Product,
    policy: Option<Policy>,
    sats: i64,
)
    requires
        is_purchase_step(req, facts, now, step),
        is_on_offer(req, facts, product, policy),
        costs(facts, product, policy, sats),
    ensures
        step is StartTrial <==> policy is Some && policy->0.is_recurring && policy->0.trial_days
            > 0,
        step is StartTrial ==> is_plain_sale(step->StartTrial_sale, facts, product, policy, sats),
{
}

/// Without a code a buyer is charged what the product is listed at in the tier,
/// where that is something; where it is nothing, the license is issued at once.
pub proof fn buyers_are_charged_what_is_listed(
    req: StartPurchaseReq,
    facts: PurchaseFacts,
    now: Moment,
    step: PurchaseStep,
    product: Product,
    policy: Option<Policy>,
    sats: i64,
)
    requires
        is_purchase_step(req, facts, now, step),
        is_on_offer(req, facts, product, policy),
        costs(facts, product, policy, sats),
        !(policy is Some && policy->0.is_recurring && policy->0.trial_days > 0),
        is_code_left_out(req),
    ensures
        sats <= 0 ==> step is IssueFree && is_plain_sale(
            step->IssueFree_sale,
            facts,
            product,
            policy,
            sats,
        ),
        sats > 0 && facts.featured == Some(None::<DiscountCode>) ==> step is Charge
            && is_plain_sale(step->Charge_sale, facts, product, policy, sats),
        sats > 0 && facts.featured is None ==> step is FindFeatured,
{
    lemma_typed(req);
}

/// A price in another currency is converted as it is listed, and nobody is
/// charged without a rate.
pub proof fn other_currencies_are_converted(
    req: StartPurchaseReq,
    facts: PurchaseFacts,
    now: Moment,
    step: PurchaseStep,
    product: Product,
    policy: Option<Policy>,
    value: i64,
)
    requires
        is_purchase_step(req, facts, now, step),
        is_on_offer(req, facts, product, policy),
        is_listed_otherwise(product, policy, value),
    ensures
        facts.conversion is None ==> step == (PurchaseStep::Convert {
            currency: product.price_currency,
            value,
        }),
        facts.conversion matches Some(Err(_)) ==> step is Refuse && (step->error is Upstream),
{
}

/// A code that is typed and can be used is reserved before anything is charged;
/// one that cannot is refused. No other code is looked at.
pub proof fn typed_codes_are_reserved_or_refused(
    req: StartPurchaseReq,
    facts: PurchaseFacts,
    now: Moment,
    step: PurchaseStep,
    product: Product,
    policy: Option<Policy>,
    sats: i64,
)
    requires
        is_purchase_step(req, facts, now, step),
        is_on_offer(req, facts, product, policy),
        costs(facts, product, policy, sats),
        !(policy is Some && policy->0.is_recurring && policy->0.trial_days > 0),
        is_code_typed(req),
    ensures
        match facts.code {
            None => step == (PurchaseStep::FindCode { code: req.code->0 }),
            Some(None) => step is Refuse && (step->error is BadRequest),
            Some(Some(code)) => if is_code_usable(code, product, policy, now) {
                &&& step is Reserve
                &&& step->code_id == code.id
                &&& step->typed
                &&& is_plain_sale(step->Reserve_sale, facts, product, policy, sats)
            } else {
                step is Refuse && (step->error is BadRequest)
            },
        },
{
    lemma_typed(req);
    if facts.code is Some && facts.code->0 is Some {
        lemma_usable(facts.code->0->0, product, policy, now);
    }
}

/// Where no code is typed, the featured one is reserved where it can be used,
/// has uses left and takes something off; otherwise the listed price is charged.
pub proof fn featured_codes_are_reserved_where_they_help(
    req: StartPurchaseReq,
    facts: PurchaseFacts,
    now: Moment,
    step: PurchaseStep,
    product: Product,
    policy: Option<Policy>,
    sats: i64,
    code: DiscountCode,
)
    requires
        is_purchase_step(req, facts, now, step),
        is_on_offer(req, facts, product, policy),
        costs(facts, product, policy, sats),
        !(policy is Some && policy->0.is_recurring && policy->0.trial_days > 0),
        is_code_left_out(req),
        sats > 0,
        facts.featured == Some(Some(code)),
    ensures
        if is_code_usable(code, product, policy, now) && code.featured && code.kind@
            != "free_license"@ && (code.max_uses is Some ==> code.used_count < code.max_uses->0) {
            &&& step is Reserve
            &&& step->code_id == code.id
            &&& !step->typed
            &&& is_plain_sale(step->Reserve_sale, facts, product, policy, sats)
        } else {
            step is Charge && is_plain_sale(step->Charge_sale, facts, product, policy, sats)
        },
{
    lemma_typed(req);
    lemma_usable(code, product, policy, now);
}

// ---------- how a purchase stands ----------

/// A buyer is told how an invoice that is known stands, and the key of its license
/// exactly where that license is active.
pub proof fn keys_are_told_while_they_are_active(
    invoice_id: Seq<char>,
    found: Option<Invoice>,
    license: Option<License>,
    secret: Seq<u8>,
    r: Result<PurchaseStatus, AppError>,
)
    requires
        is_purchase_status(invoice_id, found, license, secret, r),
    ensures
        found is None ==> r is Err && (r->Err_0 is NotFound),
        found is Some && r is Ok ==> {
            let s = r->Ok_0;
            let invoice = found->0;
            &&& s.invoice_id == invoice.id
            &&& s.status == invoice.status
            &&& s.product_id == invoice.product_id
            &&& s.amount_sats == invoice.amount_sats
            &&& license is None ==> s.license_id is None && s.license_key is None
            &&& license is Some ==> s.license_id == Some(license->0.id) && (s.license_key is Some
                <==> license->0.status@ == "active"@)
            &&& s.license_key is Some ==> {
                let key = crate::crypto::read_key(s.license_key->0@);
                &&& key is Ok
                &&& key->Ok_0.payload == crate::licensing::payload_of(license->0)
                &&& key->Ok_0.verifies(crate::codec::ed25519_public(secret))
            }
        },
        found is Some && r is Err ==> (r->Err_0 is Internal),
        found is Some && (license is None || license->0.status@ != "active"@ || (
        crate::codec::uuid_reading(license->0.id@) is Ok && crate::codec::uuid_reading(
            license->0.product_id@,
        ) is Ok)) ==> r is Ok,
{
}

/// A buyer whose code cannot be used is told why, the first that holds of: it is not
/// known, switched off, past its date, for another product, for another tier.
pub proof fn refused_codes_are_told_why(
    code: DiscountCode,
    product: Product,
    policy: Policy,
    now: Moment,
)
    ensures
        code_refusal(None, product.id@, Some(policy), now) == Some("unknown discount code"@),
        ({
            let why = code_refusal(Some(code), product.id@, Some(policy), now);
            let elsewhere = code.applies_to_product_id is Some && code.applies_to_product_id->0@
                != product.id@;
            &&& !code.active ==> why == Some("discount code is disabled"@)
            &&& code.active && is_code_past(code, now) ==> why == Some("discount code has expired"@)
            &&& code.active && !is_code_past(code, now) && elsewhere ==> why == Some(
                "discount code does not apply to this product"@,
            )
            &&& code.active && !is_code_past(code, now) && !elsewhere && !is_tier_allowed(
                code,
                policy,
            ) ==> why == Some("discount code does not apply to the selected tier"@)
            &&& code.active && !is_code_past(code, now) && !elsewhere && is_tier_allowed(
                code,
                policy,
            ) ==> why is None
        }),
{
    lemma_usable(code, product, Some(policy), now);
}

} // verus!
