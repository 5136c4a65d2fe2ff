//! What comes of setting up products and tiers.

use crate::api::admin::{
    is_issue_step, is_new_product, is_product_deletion, new_price, CreateProductReq, IssueFacts,
    IssueLicenseReq, IssueStep, NewProduct, ProductCascade, ProductDeletion,
};
use crate::api::cascade::Records;
use crate::api::policies::{
    bullets_position, catalog_refusal, is_listing, is_new_policy, is_policy_deletion, is_tip_set,
    recurring_refusal, update_refusal, CreatePolicyReq, NewPolicy, PolicyDeletion,
    PolicyReferences, PublicListing, SetTipReq, TipConfig, UpdatePolicyReq,
};
use crate::api::self_license::Tier;
use crate::api::tier::{is_overview, is_profile_verdict, is_tier_of, TierInfo, TierOverview};
use crate::clock::{rfc3339_text, Moment};
use crate::error::AppError;
use crate::laws::codes::{carries, lemma_carries};
use crate::models::{CatalogEntry, DiscountCode, Policy, Product};
use crate::text::{is_white_space, texts, unicode_upper};
use vstd::prelude::*;

verus! {

// ---------- prices ----------

/// A new product's price is the value in the currency that was named, or else the
/// price in sats. It is above nothing, and in a currency that is accepted.
pub proof fn new_products_cost_what_was_asked(req: CreateProductReq)
    ensures
        req.price_currency is None ==> (new_price(req) is Ok <==> req.price_sats is Some
            && req.price_sats->0 >= 1),
        req.price_currency is None && new_price(req) is Ok ==> new_price(req)->Ok_0.0 == "SAT"@
            && new_price(req)->Ok_0.1 == req.price_sats->0,
        req.price_currency is Some ==> (new_price(req) is Ok <==> {
            let currency = unicode_upper(req.price_currency->0@);
            &&& currency == "SAT"@ || currency == "USD"@ || currency == "EUR"@
            &&& req.price_value is Some
            &&& req.price_value->0 >= 1
            &&& req.price_sats is Some ==> currency == "SAT"@ && req.price_sats->0
                == req.price_value->0
        }),
        req.price_currency is Some && new_price(req) is Ok ==> new_price(req)->Ok_0.0
            == unicode_upper(req.price_currency->0@) && new_price(req)->Ok_0.1
            == req.price_value->0,
{
}

/// Five products can be made, or any number where the tier says so.
pub proof fn products_are_capped(
    req: CreateProductReq,
    tier: TierInfo,
    count: i64,
    r: Result<NewProduct, AppError>,
)
    requires
        is_new_product(req, tier, count, r),
    ensures
        count >= 5 && !carries(tier, "unlimited_products"@) <==> r is Err && (r->Err_0
            is PaymentRequired),
        r matches Ok(p) ==> new_price(req) is Ok && p.price_currency@ == new_price(req)->Ok_0.0
            && p.price_value == new_price(req)->Ok_0.1,
        r is Err && !(r->Err_0 is PaymentRequired) ==> new_price(req) is Err,
        (count < 5 || carries(tier, "unlimited_products"@)) && new_price(req) is Ok ==> r is Ok,
{
    lemma_carries(tier, "unlimited_products"@);
}

// ---------- deleting ----------

/// A product that invoices or licenses refer to goes only by force; what of its
/// customers goes with it is told.
pub proof fn products_in_use_go_only_by_force(
    id: Seq<char>,
    found: Option<Product>,
    force: bool,
    counts: ProductCascade,
    r: Result<ProductDeletion, AppError>,
)
    requires
        is_product_deletion(id, found, force, counts, r),
        counts.invoices >= 0,
        counts.licenses >= 0,
    ensures
        found is None ==> r is Err && (r->Err_0 is NotFound),
        found is Some && !force && (counts.invoices > 0 || counts.licenses > 0) ==> r is Err && (
        r->Err_0 is Conflict),
        found is Some && (force || (counts.invoices == 0 && counts.licenses == 0)) ==> r is Ok,
        r matches Ok(d) ==> {
            &&& d.slug == found->0.slug
            &&& d.name == found->0.name
            &&& d.counts.policies == counts.policies
            &&& d.counts.codes == counts.codes
            &&& force ==> d.counts == counts && d.action@ == "product.force_delete"@
            &&& !force ==> d.counts.licenses == 0 && d.counts.invoices == 0 && d.counts.machines
                == 0 && d.counts.redemptions == 0 && d.action@ == "product.delete"@
            &&& d.gone@.contains(Records::Products) && d.gone@.contains(Records::Policies)
                && d.gone@.contains(Records::Codes)
            &&& d.gone@.contains(Records::Licenses) <==> force
            &&& d.gone@.contains(Records::Invoices) <==> force
            &&& d.gone@.contains(Records::Machines) <==> force
            &&& d.gone@.contains(Records::Redemptions) <==> force
        },
{
    if r is Ok {
        let gone = r->Ok_0.gone@;
        if force {
            assert(gone[0] is Machines && gone[1] is Redemptions && gone[2] is Licenses && gone[3]
                is Invoices && gone[4] is Codes && gone[5] is Policies && gone[6] is Products);
        } else {
            assert(gone.len() == 3);
            assert(gone[0] is Codes && gone[1] is Policies && gone[2] is Products);
        }
    }
}

/// A policy that any license, invoice or running subscription refers to goes only
/// by force, and all that refers to it goes with it; its codes stay.
pub proof fn policies_in_use_go_only_by_force(
    id: Seq<char>,
    found: Option<Policy>,
    force: bool,
    refs: PolicyReferences,
    r: Result<PolicyDeletion, AppError>,
)
    requires
        is_policy_deletion(id, found, force, refs, r),
    ensures
        found is None ==> r is Err && (r->Err_0 is NotFound),
        found is Some && !force && (refs.licenses > 0 || refs.invoices > 0
            || refs.active_subscriptions > 0) ==> r is Err && (r->Err_0 is Conflict),
        found is Some && (force || (refs.licenses <= 0 && refs.invoices <= 0
            && refs.active_subscriptions <= 0)) ==> r is Ok,
        r matches Ok(d) ==> {
            &&& d.slug == found->0.slug
            &&& d.name == found->0.name
            &&& d.counts.licenses == refs.licenses
            &&& d.counts.invoices == refs.invoices
            &&& d.counts.machines == refs.machines
            &&& d.counts.redemptions == refs.redemptions
            &&& force ==> d.action@ == "policy.force_delete"@
            &&& !force ==> d.action@ == "policy.delete"@
            &&& d.gone@.len() == 8
            &&& !d.gone@.contains(Records::Codes) && !d.gone@.contains(Records::Products)
            &&& d.gone@.contains(Records::Policies) && d.gone@.contains(Records::Licenses)
                && d.gone@.contains(Records::Invoices) && d.gone@.contains(Records::Machines)
                && d.gone@.contains(Records::Redemptions) && d.gone@.contains(
                Records::Subscriptions,
            ) && d.gone@.contains(Records::TierChanges)
        },
{
    if r is Ok {
        let gone = r->Ok_0.gone@;
        assert(gone.len() == 8);
        assert(gone[0] is Machines && gone[1] is Redemptions && gone[2] is TierChanges && gone[3]
            is CodeScopes && gone[4] is Subscriptions && gone[5] is Licenses && gone[6] is Invoices
            && gone[7] is Policies);
    }
}

// ---------- tiers of a product ----------

/// Charges that are repeated come every day up to every five years, wait up to
/// ninety days for a payment that is late, and are free for at most a period.
pub proof fn repeated_charges_keep_to_bounds(
    recurs: bool,
    period: int,
    grace: int,
    trial: int,
)
    ensures
        recurring_refusal(recurs, period, grace, trial) is None <==> !recurs || (1 <= period <= 1830
            && 0 <= grace <= 90 && 0 <= trial <= period),
{
}

/// Is an entitlement one of those that a product's catalog lists?
pub open spec fn is_listed(catalog: Seq<CatalogEntry>, slug: Seq<char>) -> bool {
    exists|j: int| 0 <= j < catalog.len() && (#[trigger] catalog[j]).slug@ == slug
}

proof fn lemma_unknown(known: Seq<Seq<char>>, wanted: Seq<Seq<char>>)
    ensures
        crate::api::policies::first_unknown(known, wanted) is None <==> forall|i: int|
            0 <= i < wanted.len() ==> known.contains(#[trigger] wanted[i]),
    decreases wanted.len(),
{
    if wanted.len() > 0 {
        let front = wanted.drop_last();
        lemma_unknown(known, front);
        if crate::api::policies::first_unknown(known, wanted) is None {
            assert forall|i: int| 0 <= i < wanted.len() implies known.contains(
                #[trigger] wanted[i],
            ) by {
                if i < wanted.len() - 1 {
                    assert(front[i] == wanted[i]);
                }
            }
        }
        if forall|i: int| 0 <= i < wanted.len() ==> known.contains(#[trigger] wanted[i]) {
            assert forall|i: int| 0 <= i < front.len() implies known.contains(
                #[trigger] front[i],
            ) by {
                assert(front[i] == wanted[i]);
            }
            assert(known.contains(wanted[wanted.len() - 1]));
        }
    }
}

/// Where a product has a catalog, a tier may grant what the catalog lists, and
/// nothing else; without one it may grant anything.
pub proof fn tiers_grant_what_is_listed(product: Product, wanted: Vec<String>)
    ensures
        catalog_refusal(product, texts(wanted@)) is None <==> product.entitlements_catalog is None
            || product.entitlements_catalog->0@.len() == 0 || (forall|i: int|
            0 <= i < wanted@.len() ==> is_listed(
                product.entitlements_catalog->0@,
                (#[trigger] wanted@[i])@,
            )),
{
    if product.entitlements_catalog is Some {
        let catalog = product.entitlements_catalog->0@;
        let known = crate::api::policies::catalog_slugs(catalog);
        let all = texts(wanted@);
        lemma_unknown(known, all);
        assert forall|s: Seq<char>| #[trigger] known.contains(s) implies is_listed(catalog, s) by {
            let k = choose|k: int| 0 <= k < known.len() && known[k] == s;
            assert(catalog[k].slug@ == s);
        }
        assert forall|s: Seq<char>| #[trigger] is_listed(catalog, s) implies known.contains(s) by {
            let k = choose|k: int| 0 <= k < catalog.len() && (#[trigger] catalog[k]).slug@ == s;
            assert(known[k] == s);
        }
        if forall|i: int| 0 <= i < all.len() ==> known.contains(#[trigger] all[i]) {
            assert forall|i: int| 0 <= i < wanted@.len() implies is_listed(
                catalog,
                (#[trigger] wanted@[i])@,
            ) by {
                assert(known.contains(all[i]));
            }
        }
        if forall|i: int| 0 <= i < wanted@.len() ==> is_listed(catalog, (#[trigger] wanted@[i])@) {
            assert forall|i: int| 0 <= i < all.len() implies known.contains(#[trigger] all[i]) by {
                assert(is_listed(catalog, wanted@[i]@));
            }
        }
    }
}

/// Is a text given that says something?
pub open spec fn says_something(text: Option<String>) -> bool {
    text is Some && exists|i: int|
        0 <= i < text->0@.len() && !is_white_space(#[trigger] text->0@[i])
}

proof fn lemma_says(text: Option<String>)
    ensures
        says_something(text) <==> crate::api::policies::non_blank(text) is Some,
        says_something(text) ==> crate::api::policies::non_blank(text) == text,
{
    if text is Some {
        crate::laws::texts::blank_texts_are_white_space(text->0@);
    }
}

/// A tip goes to someone and is a share of the sale between nothing and all: there
/// is a share exactly where there is someone to get it.
pub proof fn tips_have_a_recipient(req: SetTipReq, r: Result<TipConfig, AppError>)
    requires
        is_tip_set(req, r),
    ensures
        r is Ok <==> 0 <= req.tip_pct_bps <= 10_000 && (says_something(req.tip_recipient)
            <==> req.tip_pct_bps > 0),
        r matches Ok(tip) ==> {
            &&& tip.pct_bps == req.tip_pct_bps
            &&& says_something(req.tip_recipient) ==> tip.recipient == req.tip_recipient
            &&& !says_something(req.tip_recipient) ==> tip.recipient is None
            &&& says_something(req.tip_label) ==> tip.label == req.tip_label
            &&& !says_something(req.tip_label) ==> tip.label is None
        },
{
    lemma_says(req.tip_recipient);
    lemma_says(req.tip_label);
}

/// Five tiers can be made for a product, or any number where the service's tier
/// says so.
pub proof fn tiers_are_capped(
    req: CreatePolicyReq,
    found: Option<Product>,
    tier: TierInfo,
    count: i64,
    r: Result<NewPolicy, AppError>,
)
    requires
        is_new_policy(req, found, tier, count, r),
    ensures
        found is None ==> r is Err && (r->Err_0 is NotFound),
        found is Some && count >= 5 && !carries(tier, "unlimited_policies"@) ==> r is Err && (
        r->Err_0 is PaymentRequired),
{
    lemma_carries(tier, "unlimited_policies"@);
}

/// A tier is made exactly where its terms make sense: nothing below zero, a tip
/// with a recipient, charges within bounds and allowed by the service's tier, a
/// rank between 0 and 1000, and entitlements that the product lists.
pub proof fn sound_tiers_are_made(
    req: CreatePolicyReq,
    product: Product,
    tier: TierInfo,
    count: i64,
    r: Result<NewPolicy, AppError>,
)
    requires
        is_new_policy(req, Some(product), tier, count, r),
        count < 5 || carries(tier, "unlimited_policies"@),
    ensures
        r is Ok <==> {
            let grace = if req.grace_period_days is Some {
                req.grace_period_days->0
            } else {
                7
            };
            &&& req.duration_seconds >= 0
            &&& req.grace_seconds >= 0
            &&& req.max_machines >= 0
            &&& 0 <= req.tip_pct_bps <= 10_000
            &&& says_something(req.tip_recipient) <==> req.tip_pct_bps > 0
            &&& req.is_recurring ==> 1 <= req.renewal_period_days <= 1830 && 0 <= grace <= 90 && 0
                <= req.trial_days <= req.renewal_period_days && carries(
                tier,
                "recurring_billing"@,
            )
            &&& req.tier_rank is Some ==> 0 <= req.tier_rank->0 <= 1000
            &&& catalog_refusal(product, texts(req.entitlements@)) is None
        },
        r matches Ok(p) ==> {
            &&& p.product_id == product.id
            &&& req.grace_period_days is Some ==> p.grace_period_days == req.grace_period_days->0
            &&& req.grace_period_days is None ==> p.grace_period_days == 7
            &&& says_something(req.tip_recipient) ==> p.tip_recipient == req.tip_recipient
            &&& !says_something(req.tip_recipient) ==> p.tip_recipient is None
        },
{
    lemma_carries(tier, "unlimited_policies"@);
    lemma_carries(tier, "recurring_billing"@);
    lemma_says(req.tip_recipient);
    lemma_says(req.tip_label);
}

/// A tier is changed exactly where what comes of it makes sense. Only a tier that
/// becomes one with repeated charges needs the service's tier to allow those.
pub proof fn sound_changes_are_made(
    id: Seq<char>,
    req: UpdatePolicyReq,
    current: Policy,
    product: Product,
    tier: TierInfo,
)
    ensures
        update_refusal(id, req, Some(current), Some(product), tier) is None <==> {
            let recurs = if req.is_recurring is Some {
                req.is_recurring->0
            } else {
                current.is_recurring
            };
            let period = if req.renewal_period_days is Some {
                req.renewal_period_days->0
            } else {
                current.renewal_period_days
            };
            let grace = if req.grace_period_days is Some {
                req.grace_period_days->0
            } else {
                current.grace_period_days
            };
            let trial = if req.trial_days is Some {
                req.trial_days->0
            } else {
                current.trial_days
            };
            let touched = req.is_recurring is Some || req.renewal_period_days is Some
                || req.grace_period_days is Some || req.trial_days is Some;
            &&& req.duration_seconds is Some ==> req.duration_seconds->0 >= 0
            &&& req.grace_seconds is Some ==> req.grace_seconds->0 >= 0
            &&& req.max_machines is Some ==> req.max_machines->0 >= 0
            &&& touched && recurs ==> 1 <= period <= 1830 && 0 <= grace <= 90 && 0 <= trial
                <= period && (current.is_recurring || carries(tier, "recurring_billing"@))
            &&& (req.tier_rank matches Some(Some(rank)) ==> 0 <= rank <= 1000)
            &&& req.entitlements is Some ==> catalog_refusal(
                product,
                texts(req.entitlements->0@),
            ) is None
        },
{
    lemma_carries(tier, "recurring_billing"@);
}

// ---------- what buyers see ----------

/// Buyers see a product that is on sale, and each of its tiers at its own price or
/// else the product's, with what a featured code takes off.
pub proof fn buyers_see_what_is_on_sale(
    slug: Seq<char>,
    found: Option<Product>,
    policies: Seq<Policy>,
    featured: Seq<Option<DiscountCode>>,
    r: Result<PublicListing, AppError>,
    i: int,
)
    requires
        is_listing(slug, found, policies, featured, r),
        policies.len() == featured.len(),
        0 <= i < policies.len(),
    ensures
        r is Ok <==> found is Some && found->0.active,
        r is Err ==> (r->Err_0 is NotFound),
        r matches Ok(shown) ==> {
            let p = policies[i];
            let s = shown.policies@[i];
            let price = if p.price_sats_override is Some {
                p.price_sats_override->0
            } else {
                found->0.price_sats
            };
            &&& shown.slug == found->0.slug
            &&& shown.base_price_sats == found->0.price_sats
            &&& shown.policies@.len() == policies.len()
            &&& s.slug == p.slug
            &&& s.name == p.name
            &&& s.price_sats == price
            &&& s.duration_seconds == p.duration_seconds
            &&& s.max_machines == p.max_machines
            &&& s.is_trial == p.is_trial
            &&& s.entitlements@ == p.entitlements@
            &&& s.hidden_entitlements@ == p.display.hidden_entitlements@
            &&& s.is_recurring == p.is_recurring
            &&& s.renewal_period_days == p.renewal_period_days
            &&& s.trial_days == p.trial_days
            &&& s.highlighted == p.display.highlight
            &&& s.featured_discount is Some <==> featured[i] is Some
            &&& featured[i] matches Some(code) ==> {
                let f = s.featured_discount->0;
                &&& f.code == code.code
                &&& f.kind == code.kind
                &&& f.amount == code.amount
                &&& f.description == code.description
                &&& f.expires_at == code.expires_at
                &&& f.max_uses == code.max_uses
                &&& f.used_count == code.used_count
                &&& code.max_uses is None ==> f.remaining_uses is None
                &&& code.max_uses is Some && code.used_count <= code.max_uses->0
                    ==> f.remaining_uses == Some((code.max_uses->0 - code.used_count) as i64)
                &&& code.max_uses is Some && code.used_count > code.max_uses->0
                    ==> f.remaining_uses == Some(0i64)
                &&& code.kind@ == "fixed_sats"@ && 0 <= code.amount <= price
                    ==> f.discounted_price_sats == price - code.amount
                &&& code.kind@ == "set_price"@ && 0 <= code.amount <= price
                    ==> f.discounted_price_sats == code.amount
                &&& price >= 0 && f.discount_applied_sats <= price ==> f.discounted_price_sats
                    == price - f.discount_applied_sats
            }
        },
{
    reveal_strlit("percent");
    reveal_strlit("fixed_sats");
    reveal_strlit("set_price");
    assert("percent"@.len() == 7 && "fixed_sats"@.len() == 10 && "set_price"@.len() == 9);
    if r is Ok {
        assert(crate::api::policies::is_public_view(
            policies[i],
            found->0,
            featured[i],
            r->Ok_0.policies@[i],
        ));
    }
}

/// The points of a tier stand above what it grants, unless it is asked that they
/// stand below.
pub proof fn points_stand_above_unless_asked(given: Option<String>)
    ensures
        given is Some && given->0@ == "below"@ ==> bullets_position(given) == "below"@,
        given is None || given->0@ != "below"@ ==> bullets_position(given) == "above"@,
{
}

// ---------- the service's own tier ----------

/// The service is on the tier that its license's entitlements amount to; without a
/// license it is on the lowest.
pub proof fn entitlements_make_the_tier(tier: Tier, r: TierInfo)
    requires
        is_tier_of(tier, r),
    ensures
        tier is Unlicensed ==> r.entitlements@.len() == 0 && r.label@ == "creator"@,
        tier matches Tier::Licensed { entitlements, .. } ==> r.entitlements@.len()
            == entitlements@.len() && forall|i: int|
            0 <= i < entitlements@.len() ==> (#[trigger] r.entitlements@[i])@ == entitlements@[i]@,
        carries(r, "patron"@) ==> r.label@ == "patron"@,
        !carries(r, "patron"@) && carries(r, "unlimited_products"@) ==> r.label@ == "pro"@,
        !carries(r, "patron"@) && !carries(r, "unlimited_products"@) ==> r.label@ == "creator"@,
{
    lemma_carries(r, "patron"@);
    lemma_carries(r, "unlimited_products"@);
    let mine = texts(r.entitlements@);
    assert(mine.len() == r.entitlements@.len());
    if tier is Unlicensed {
        assert(!mine.contains("patron"@));
        assert(!mine.contains("unlimited_products"@));
    } else {
        let theirs = texts(tier->entitlements@);
        assert(theirs.len() == tier->entitlements@.len());
        assert forall|i: int| 0 <= i < tier->entitlements@.len() implies (
        #[trigger] r.entitlements@[i])@ == tier->entitlements@[i]@ by {
            assert(mine[i] == theirs[i]);
        }
    }
}

/// The operator is shown the caps that hold, and the next tier that there is.
pub proof fn caps_are_shown(info: TierInfo, products: i64, active_codes: i64, r: TierOverview)
    requires
        is_overview(info, products, active_codes, r),
    ensures
        r.products == products,
        r.active_codes == active_codes,
        r.product_cap == if carries(info, "unlimited_products"@) {
            None
        } else {
            Some(5i64)
        },
        r.policy_cap == if carries(info, "unlimited_policies"@) {
            None
        } else {
            Some(5i64)
        },
        r.code_cap == if carries(info, "unlimited_codes"@) {
            None
        } else {
            Some(10i64)
        },
        info.label@ == "patron"@ <==> r.next_tier is None,
        info.label@ == "patron"@ <==> r.upgrade_url is None,
        info.label@ == "creator"@ && info.label@ != "patron"@ ==> r.next_tier->0@ == "pro"@
            && r.upgrade_url->0@ == "https://licensing.keysat.xyz/buy/keysat?policy=pro"@,
        info.label@ != "creator"@ && info.label@ != "patron"@ ==> r.next_tier->0@ == "patron"@
            && r.upgrade_url->0@ == "https://licensing.keysat.xyz/buy/keysat?policy=patron"@,
        r.tier@ == info.label@,
        r.tier_name@ == info.display_name@,
        r.entitlements@ == info.entitlements@,
{
    lemma_carries(info, "unlimited_products"@);
    lemma_carries(info, "unlimited_policies"@);
    lemma_carries(info, "unlimited_codes"@);
}

/// There is one merchant profile, or any number where the tier says so.
pub proof fn profiles_are_capped(tier: TierInfo, count: i64, r: Result<(), AppError>)
    requires
        is_profile_verdict(tier, count, r),
    ensures
        r is Ok <==> count < 1 || carries(tier, "unlimited_merchant_profiles"@),
        r is Err ==> (r->Err_0 is PaymentRequired),
{
    lemma_carries(tier, "unlimited_merchant_profiles"@);
}

// ---------- licenses by hand ----------

/// A license that the operator issues is for the product that was named, on the
/// terms of the tier that was named, or else on those of the request.
pub proof fn licenses_by_hand_have_their_terms(
    req: IssueLicenseReq,
    facts: IssueFacts,
    now: Moment,
    step: IssueStep,
    product: Product,
)
    requires
        is_issue_step(req, facts, now, step),
        now.nanos < 1_000_000_000,
    ensures
        facts.product is None ==> step == (IssueStep::FindProduct { slug: req.product_slug }),
        facts.product matches Some(None) ==> step is Refuse && (step->error is NotFound),
        facts.product == Some(Some(product)) && req.policy_slug is None ==> {
            &&& step is Issue
            &&& step->Issue_product_id == product.id
            &&& step->terms.policy_id is None
            &&& step->terms.issued_at@ == rfc3339_text(now.secs, now.nanos)
            &&& step->terms.expires_at == req.expires_at
            &&& req.grace_seconds is Some ==> step->terms.grace_seconds == req.grace_seconds->0
            &&& req.grace_seconds is None ==> step->terms.grace_seconds == 0
            &&& req.max_machines is Some ==> step->terms.max_machines == req.max_machines->0
            &&& req.max_machines is None ==> step->terms.max_machines == 1
            &&& step->terms.is_trial <==> req.is_trial == Some(true)
            &&& req.entitlements is Some ==> step->terms.entitlements@ == req.entitlements->0@
            &&& req.entitlements is None ==> step->terms.entitlements@.len() == 0
        },
        facts.product == Some(Some(product)) && req.policy_slug is Some ==> match facts.policy {
            None => step is FindPolicy && step->FindPolicy_product_id == product.id
                && step->FindPolicy_slug == req.policy_slug->0,
            Some(None) => step is Refuse && (step->error is NotFound),
            Some(Some(p)) => p.duration_seconds == 0 || (-8_334_601_228_800 <= now.secs
                + p.duration_seconds <= 8_210_266_876_799) ==> {
                &&& step is Issue
                &&& step->Issue_product_id == product.id
                &&& step->terms.policy_id == Some(p.id)
                &&& step->terms.issued_at@ == rfc3339_text(now.secs, now.nanos)
                &&& p.duration_seconds == 0 ==> step->terms.expires_at is None
                &&& p.duration_seconds != 0 ==> step->terms.expires_at is Some
                    && step->terms.expires_at->0@ == rfc3339_text(
                    (now.secs + p.duration_seconds) as i64,
                    now.nanos,
                )
                &&& step->terms.grace_seconds == p.grace_seconds
                &&& step->terms.max_machines == p.max_machines
                &&& step->terms.is_trial == p.is_trial
                &&& step->terms.entitlements@ == p.entitlements@
            },
        },
{
}

} // verus!
