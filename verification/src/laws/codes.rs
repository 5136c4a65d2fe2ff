//! What comes of making, changing, deleting and previewing a code.

use crate::api::discount_codes::{
    is_code_deletion, is_create_step, is_preview_step, is_update_step, percent_text,
    CreateDiscountCodeReq, CreateFacts, CreateStep, Preview, PreviewFacts, PreviewQuery,
    PreviewStep, UpdateDiscountCodeReq, UpdateFacts, UpdateStep,
};
use crate::api::tier::TierInfo;
use crate::clock::Moment;
use crate::error::AppError;
use crate::laws::purchases::{is_code_past, is_tier_allowed};
use crate::laws::texts::value_of;
use crate::models::{DiscountCode, Policy, Product};
use crate::text::{int_text, is_white_space, trimmed, unicode_upper};
use vstd::prelude::*;

verus! {

/// Does the service's tier carry an entitlement?
pub open spec fn carries(tier: TierInfo, name: Seq<char>) -> bool {
    exists|i: int| 0 <= i < tier.entitlements@.len() && (#[trigger] tier.entitlements@[i])@ == name
}

pub proof fn lemma_carries(tier: TierInfo, name: Seq<char>)
    ensures
        carries(tier, name) <==> tier.holds(name),
{
    let all = crate::text::texts(tier.entitlements@);
    if carries(tier, name) {
        let i = choose|i: int|
            0 <= i < tier.entitlements@.len() && (#[trigger] tier.entitlements@[i])@ == name;
        assert(all[i] == name);
    }
    if all.contains(name) {
        let i = choose|i: int| 0 <= i < all.len() && all[i] == name;
        assert(tier.entitlements@[i]@ == name);
    }
}

// ---------- making ----------

/// Ten codes can be active at a time, or any number where the tier says so; an
/// eleventh asks for a better tier.
pub proof fn codes_are_capped(
    req: CreateDiscountCodeReq,
    tier: TierInfo,
    facts: CreateFacts,
    step: CreateStep,
)
    requires
        is_create_step(req, tier, facts, step),
    ensures
        facts.active_codes >= 10 && !carries(tier, "unlimited_codes"@) <==> step is Refuse && (
        step->error is PaymentRequired),
{
    lemma_carries(tier, "unlimited_codes"@);
}

/// Is there room for another code?
pub open spec fn has_room(tier: TierInfo, facts: CreateFacts) -> bool {
    facts.active_codes < 10 || carries(tier, "unlimited_codes"@)
}

/// A code is restricted to the product that was named, which has to be there, and
/// can be restricted to tiers only where a product was named.
pub proof fn codes_are_tied_to_their_product(
    req: CreateDiscountCodeReq,
    tier: TierInfo,
    facts: CreateFacts,
    step: CreateStep,
)
    requires
        is_create_step(req, tier, facts, step),
        has_room(tier, facts),
    ensures
        req.product_slug is Some && facts.product is None ==> step == (CreateStep::FindProduct {
            slug: req.product_slug->0,
        }),
        req.product_slug is Some && (facts.product matches Some(None)) ==> step is Refuse && (
        step->error is NotFound),
        req.product_slug is None && req.policy_slugs is Some && req.policy_slugs->0@.len() > 0
            ==> step is Refuse && (step->error is BadRequest),
        req.product_slug is None && req.policy_slugs is None && req.policy_slug is Some ==> step
            is Refuse && (step->error is BadRequest),
        step matches CreateStep::Create { code } ==> {
            &&& req.product_slug is None ==> code.product_id is None
            &&& req.product_slug is Some ==> (facts.product matches Some(Some(p))
                && code.product_id == Some(p.id))
        },
{
    lemma_carries(tier, "unlimited_codes"@);
}

/// A code's amount is in sats unless another accepted currency is named.
pub proof fn code_amounts_have_a_currency(
    req: CreateDiscountCodeReq,
    tier: TierInfo,
    facts: CreateFacts,
    step: CreateStep,
)
    requires
        is_create_step(req, tier, facts, step),
        step is Create,
    ensures
        req.discount_currency is None || req.discount_currency->0@.len() == 0
            ==> step->code.discount_currency@ == "SAT"@,
        req.discount_currency is Some && req.discount_currency->0@.len() > 0 ==> {
            &&& step->code.discount_currency@ == unicode_upper(req.discount_currency->0@)
            &&& step->code.discount_currency@ == "SAT"@ || step->code.discount_currency@ == "USD"@
                || step->code.discount_currency@ == "EUR"@
        },
{
}

/// A code that names no product and no tier is made at once, restricted to none.
pub proof fn plain_codes_are_made(
    req: CreateDiscountCodeReq,
    tier: TierInfo,
    facts: CreateFacts,
    step: CreateStep,
)
    requires
        is_create_step(req, tier, facts, step),
        has_room(tier, facts),
        req.product_slug is None,
        req.policy_slug is None,
        req.policy_slugs is None,
        req.discount_currency is None,
    ensures
        step is Create,
        step->code.product_id is None,
        step->code.scope.policy_id is None,
        step->code.scope.policy_ids is None,
{
    lemma_carries(tier, "unlimited_codes"@);
}

proof fn lemma_first_missing(found: Seq<Option<String>>)
    ensures
        ({
            let k = crate::api::discount_codes::first_missing(found);
            &&& 0 <= k <= found.len()
            &&& forall|j: int| 0 <= j < k ==> (#[trigger] found[j]) is Some
            &&& k < found.len() ==> found[k] is None
        }),
    decreases found.len(),
{
    if found.len() > 0 && found[0] is Some {
        let rest = found.subrange(1, found.len() as int);
        lemma_first_missing(rest);
        let k = crate::api::discount_codes::first_missing(found);
        assert forall|j: int| 0 <= j < k implies (#[trigger] found[j]) is Some by {
            if j > 0 {
                assert(found[j] == rest[j - 1]);
            }
        }
        if k < found.len() {
            assert(found[k] == rest[k - 1]);
        }
    }
}

/// A code for tiers is restricted to those very tiers, all of which have to be
/// there: one tier is stored as such, and a list as a list.
pub proof fn codes_keep_to_their_tiers(
    req: CreateDiscountCodeReq,
    tier: TierInfo,
    facts: CreateFacts,
    step: CreateStep,
    found: Vec<Option<String>>,
)
    requires
        is_create_step(req, tier, facts, step),
        has_room(tier, facts),
        req.product_slug is Some,
        facts.product matches Some(Some(_)),
        req.discount_currency is None,
        facts.policies == Some(found),
        req.policy_slugs is Some,
        req.policy_slugs->0@.len() == found@.len(),
        found@.len() > 0,
    ensures
        (exists|i: int| 0 <= i < found@.len() && (#[trigger] found@[i]) is None) ==> step is Refuse
            && (step->error is NotFound),
        (forall|i: int| 0 <= i < found@.len() ==> (#[trigger] found@[i]) is Some) ==> {
            &&& step is Create
            &&& step->code.scope.policy_ids is Some
            &&& step->code.scope.policy_ids->0@.len() == found@.len()
            &&& forall|i: int|
                0 <= i < found@.len() ==> (#[trigger] found@[i]) == Some(
                    step->code.scope.policy_ids->0@[i],
                )
            &&& found@.len() == 1 ==> step->code.scope.policy_id == found@[0]
            &&& found@.len() > 1 ==> step->code.scope.policy_id is None
        },
{
    lemma_carries(tier, "unlimited_codes"@);
    lemma_first_missing(found@);
}

/// The tiers that a code is for are looked up under the product that it is for: all
/// that are listed, or else the single one.
pub proof fn tiers_of_codes_are_looked_up(
    req: CreateDiscountCodeReq,
    tier: TierInfo,
    facts: CreateFacts,
    step: CreateStep,
    product: Product,
)
    requires
        is_create_step(req, tier, facts, step),
        has_room(tier, facts),
        req.product_slug is Some,
        facts.product == Some(Some(product)),
        facts.policies is None,
    ensures
        req.policy_slugs is Some && req.policy_slugs->0@.len() > 0 ==> step is FindPolicies
            && step->product_id == product.id && step->slugs@ == req.policy_slugs->0@,
        req.policy_slugs is None && req.policy_slug is Some ==> step is FindPolicies
            && step->product_id == product.id && step->slugs@.len() == 1 && step->slugs@[0]
            == req.policy_slug->0,
        req.policy_slugs is None && req.policy_slug is None ==> !(step is FindPolicies),
{
    lemma_carries(tier, "unlimited_codes"@);
}

/// A code for a single tier is restricted to that tier.
pub proof fn codes_for_one_tier_keep_to_it(
    req: CreateDiscountCodeReq,
    tier: TierInfo,
    facts: CreateFacts,
    step: CreateStep,
    found: Vec<Option<String>>,
)
    requires
        is_create_step(req, tier, facts, step),
        has_room(tier, facts),
        req.product_slug is Some,
        facts.product matches Some(Some(_)),
        req.discount_currency is None,
        req.policy_slugs is None,
        req.policy_slug is Some,
        facts.policies == Some(found),
        found@.len() == 1,
    ensures
        found@[0] is None ==> step is Refuse && (step->error is NotFound),
        found@[0] is Some ==> step is Create && step->code.scope.policy_id == found@[0]
            && step->code.scope.policy_ids is None,
{
    lemma_carries(tier, "unlimited_codes"@);
    lemma_first_missing(found@);
}

// ---------- changing and deleting ----------

/// A change that names no tiers leaves the restriction alone; one that does needs
/// the code, its product and every tier to be there, and replaces the
/// restriction by those tiers.
pub proof fn restrictions_are_replaced(
    id: Seq<char>,
    req: UpdateDiscountCodeReq,
    facts: UpdateFacts,
    step: UpdateStep,
)
    requires
        is_update_step(id, req, facts, step),
    ensures
        req.policy_slugs is None ==> step is Update && step->scope.policy_id is None
            && step->scope.policy_ids is None,
        req.policy_slugs is Some ==> match facts.code {
            None => step is FindCode && step->id@ == id,
            Some(None) => step is Refuse && (step->error is NotFound),
            Some(Some(code)) => {
                &&& code.applies_to_product_id is None ==> step is Refuse && (step->error
                    is BadRequest)
                &&& code.applies_to_product_id is Some && req.policy_slugs->0@.len() == 0 ==> step
                    is Update && step->scope.policy_id == Some(None::<String>)
                    && step->scope.policy_ids is Some && step->scope.policy_ids->0@.len() == 0
                &&& code.applies_to_product_id is Some && req.policy_slugs->0@.len() > 0
                    && facts.policies is None ==> step is FindPolicies && step->product_id
                    == code.applies_to_product_id->0 && step->slugs@ == req.policy_slugs->0@
            },
        },
{
    lemma_first_missing(Seq::<Option<String>>::empty());
}

/// A code whose restriction is replaced is afterwards restricted to the tiers that
/// were named, in order, and to no others.
pub proof fn replaced_restrictions_hold(
    id: Seq<char>,
    req: UpdateDiscountCodeReq,
    facts: UpdateFacts,
    step: UpdateStep,
    code: DiscountCode,
    found: Vec<Option<String>>,
)
    requires
        is_update_step(id, req, facts, step),
        req.policy_slugs is Some,
        facts.code == Some(Some(code)),
        code.applies_to_product_id is Some,
        facts.policies == Some(found),
        found@.len() == req.policy_slugs->0@.len(),
        found@.len() > 0,
    ensures
        (exists|i: int| 0 <= i < found@.len() && (#[trigger] found@[i]) is None) ==> step is Refuse
            && (step->error is NotFound),
        (forall|i: int| 0 <= i < found@.len() ==> (#[trigger] found@[i]) is Some) ==> {
            &&& step is Update
            &&& found@.len() == 1 ==> step->scope.policy_id == Some(found@[0])
                && step->scope.policy_ids is Some && step->scope.policy_ids->0@.len() == 0
            &&& found@.len() > 1 ==> {
                &&& step->scope.policy_id == Some(None::<String>)
                &&& step->scope.policy_ids is Some
                &&& step->scope.policy_ids->0@.len() == found@.len()
                &&& forall|i: int|
                    0 <= i < found@.len() ==> (#[trigger] found@[i]) == Some(
                        step->scope.policy_ids->0@[i],
                    )
            }
        },
{
    lemma_first_missing(found@);
}

/// A code that was never used can be deleted; one that was used is kept.
pub proof fn used_codes_are_kept(
    id: Seq<char>,
    found: Option<DiscountCode>,
    redemptions: i64,
    r: Result<(), AppError>,
)
    requires
        is_code_deletion(id, found, redemptions, r),
    ensures
        r is Ok <==> found is Some && redemptions <= 0,
        found is None ==> (r->Err_0 is NotFound),
        found is Some && redemptions > 0 ==> (r->Err_0 is Conflict),
{
}

// ---------- previewing ----------

/// Is everything there that a preview needs?
pub open spec fn is_ready(
    q: PreviewQuery,
    facts: PreviewFacts,
    product: Product,
    policy: Option<Policy>,
) -> bool {
    &&& exists|i: int| 0 <= i < q.code@.len() && !is_white_space(#[trigger] q.code@[i])
    &&& facts.product == Some(Some(product))
    &&& match policy {
        None => q.policy_slug is None || q.policy_slug->0@.len() == 0,
        Some(p) => q.policy_slug is Some && q.policy_slug->0@.len() > 0 && facts.policy == Some(
            Some(p),
        ),
    }
}

/// The price that a preview starts from.
pub open spec fn starts_from(product: Product, policy: Option<Policy>) -> i64 {
    if policy is Some && policy->0.price_sats_override is Some {
        policy->0.price_sats_override->0
    } else {
        product.price_sats
    }
}

proof fn lemma_missed(code: DiscountCode, policy: Policy)
    ensures
        is_tier_allowed(code, policy) <==> !code.misses_policy(Some(policy)),
{
    let id = policy.id@;
    if code.applies_to_policy_ids@.len() > 0 {
        let ids = crate::text::texts(code.applies_to_policy_ids@);
        if is_tier_allowed(code, policy) {
            let i = choose|i: int|
                0 <= i < code.applies_to_policy_ids@.len() && (
                #[trigger] code.applies_to_policy_ids@[i])@ == id;
            assert(ids[i] == id);
        }
        if ids.contains(id) {
            let i = choose|i: int| 0 <= i < ids.len() && ids[i] == id;
            assert(code.applies_to_policy_ids@[i]@ == id);
        }
    } else if code.applies_to_policy_id is Some {
        let one = seq![code.applies_to_policy_id->0@];
        assert(code.allowed() == one);
        assert(one[0] == code.applies_to_policy_id->0@);
        if one.contains(id) {
            assert(one[0] == id);
        }
    }
}

/// Can a code be used once more for this purchase?
pub open spec fn works(
    code: DiscountCode,
    product: Product,
    policy: Option<Policy>,
    now: Moment,
) -> bool {
    &&& code.active
    &&& !is_code_past(code, now)
    &&& code.applies_to_product_id is Some ==> code.applies_to_product_id->0@ == product.id@
    &&& policy is Some ==> is_tier_allowed(code, policy->0)
    &&& code.max_uses is Some ==> code.used_count < code.max_uses->0
}

/// A preview asks for a code, finds the product, the tier and the code, and shows
/// whether the code can be used: with the reason where it cannot.
pub proof fn previews_tell_whether_a_code_works(
    q: PreviewQuery,
    facts: PreviewFacts,
    now: Moment,
    step: PreviewStep,
    product: Product,
    policy: Option<Policy>,
)
    requires
        is_preview_step(q, facts, now, step),
        is_ready(q, facts, product, policy),
    ensures
        facts.code is None ==> step is FindCode && step->FindCode_code@ == trimmed(q.code@),
        facts.code matches Some(None) ==> step is Show && (step->preview matches Preview::Invalid {
            reason,
            ..
        } && reason@ == "unknown_code"@),
        facts.code matches Some(Some(code)) ==> {
            &&& step is Show
            &&& works(code, product, policy, now) <==> step->preview is Valid
            &&& !code.active ==> (step->preview matches Preview::Invalid { reason, .. } && reason@
                == "disabled"@)
            &&& code.active && is_code_past(code, now) ==> (step->preview matches Preview::Invalid {
                reason,
                ..
            } && reason@ == "expired"@)
        },
{
    crate::laws::texts::blank_texts_are_white_space(q.code@);
    if facts.code is Some && facts.code->0 is Some && policy is Some {
        lemma_missed(facts.code->0->0, policy->0);
    }
}

/// What a preview shows of a code that works: what it takes off, and what is left
/// to pay, which is what a purchase then comes to.
pub proof fn previews_show_what_is_paid(
    q: PreviewQuery,
    facts: PreviewFacts,
    now: Moment,
    step: PreviewStep,
    product: Product,
    policy: Option<Policy>,
    code: DiscountCode,
)
    requires
        is_preview_step(q, facts, now, step),
        is_ready(q, facts, product, policy),
        facts.code == Some(Some(code)),
        works(code, product, policy, now),
        starts_from(product, policy) >= 1,
    ensures
        ({
            let base = starts_from(product, policy);
            let shown = step->preview;
            &&& step is Show && shown is Valid
            &&& shown->Valid_code@ == code.code@
            &&& shown->kind@ == code.kind@
            &&& shown->Valid_base_price_sats == base
            &&& shown->is_free <==> code.kind@ == "free_license"@
            &&& code.kind@ == "free_license"@ ==> shown->Valid_message@
                == "Free license — no payment required."@
            &&& code.kind@ == "fixed_sats"@ ==> shown->Valid_message@ == int_text(
                code.amount as int,
            ) + " sats off applied."@
            &&& code.kind@ == "set_price"@ && code.amount < base ==> shown->Valid_message@
                == "Flat price applied: "@ + int_text(code.amount as int) + " sats."@
            &&& code.kind@ == "set_price"@ && code.amount >= base ==> shown->Valid_message@
                == "Code applied — but it doesn't lower the price for this product."@
            &&& code.kind@ == "free_license"@ ==> shown->final_price_sats == 0
                && shown->discount_applied_sats == base
            &&& code.kind@ == "fixed_sats"@ && 0 <= code.amount <= base - 1
                ==> shown->final_price_sats == base - code.amount && shown->discount_applied_sats
                == code.amount
            &&& code.kind@ == "fixed_sats"@ && code.amount >= base ==> shown->final_price_sats == 1
            &&& code.kind@ == "set_price"@ && 1 <= code.amount <= base ==> shown->final_price_sats
                == code.amount
            &&& code.kind@ == "set_price"@ && code.amount > base ==> shown->final_price_sats == base
            &&& code.kind@ == "percent"@ && 0 <= code.amount <= 10_000 ==> {
                let off = shown->discount_applied_sats;
                &&& off * 10_000 <= base * code.amount < (off + 1) * 10_000
                &&& base - off >= 1 ==> shown->final_price_sats == base - off
                &&& base - off < 1 ==> shown->final_price_sats == 1
            }
        }),
{
    crate::laws::texts::blank_texts_are_white_space(q.code@);
    if policy is Some {
        lemma_missed(code, policy->0);
    }
    reveal_strlit("percent");
    reveal_strlit("fixed_sats");
    reveal_strlit("set_price");
    reveal_strlit("free_license");
    assert("percent"@.len() == 7 && "fixed_sats"@.len() == 10 && "set_price"@.len() == 9
        && "free_license"@.len() == 12);
    let base = starts_from(product, policy) as int;
    if code.kind@ == "percent"@ && 0 <= code.amount <= 10_000 {
        let bps = code.amount as int;
        let off = base * bps / 10_000;
        assert(0 <= off <= base && off * 10_000 <= base * bps < (off + 1) * 10_000)
            by (nonlinear_arith)
            requires
                base >= 0,
                0 <= bps <= 10_000,
                off == base * bps / 10_000,
        ;
        assert(step->preview->discount_applied_sats == off);
    }
}

/// A preview without a code is refused; one for a product or tier that is not
/// looked up yet looks it up.
pub proof fn previews_look_up_what_they_need(
    q: PreviewQuery,
    facts: PreviewFacts,
    now: Moment,
    step: PreviewStep,
)
    requires
        is_preview_step(q, facts, now, step),
    ensures
        (forall|i: int| 0 <= i < q.code@.len() ==> is_white_space(#[trigger] q.code@[i])) ==> step
            is Refuse && (step->error is BadRequest),
        (exists|i: int| 0 <= i < q.code@.len() && !is_white_space(#[trigger] q.code@[i])) ==> {
            &&& facts.product is None ==> step == (PreviewStep::FindProduct { slug: q.product })
            &&& facts.product matches Some(None) ==> step is Refuse && (step->error is NotFound)
            &&& (facts.product matches Some(Some(p)) && q.policy_slug is Some
                && q.policy_slug->0@.len() > 0 && facts.policy is None) ==> step == (
            PreviewStep::FindPolicy {
                product_id: facts.product->0->0.id,
                slug: q.policy_slug->0,
            })
        },
{
    crate::laws::texts::blank_texts_are_white_space(q.code@);
}

/// A percentage is written as its whole part, and behind a point what is left,
/// without zeros at the end.
pub proof fn percentages_are_written_out(bps: int)
    requires
        bps >= 0,
    ensures
        bps % 100 == 0 ==> value_of(percent_text(bps)) == bps / 100,
        bps % 100 != 0 && bps % 10 == 0 ==> percent_text(bps) == crate::text::nat_text(
            (bps / 100) as nat,
        ) + "."@ + crate::text::nat_text((bps % 100 / 10) as nat),
        bps % 10 != 0 && bps % 100 >= 10 ==> percent_text(bps) == crate::text::nat_text(
            (bps / 100) as nat,
        ) + "."@ + crate::text::nat_text((bps % 100) as nat),
        0 < bps % 100 < 10 ==> percent_text(bps) == crate::text::nat_text((bps / 100) as nat)
            + ".0"@ + crate::text::nat_text((bps % 100) as nat),
{
    reveal_strlit("");
    let whole = crate::text::nat_text((bps / 100) as nat);
    crate::laws::texts::numbers_read_back((bps / 100) as nat);
    assert(""@ + whole =~= whole);
    assert(whole + ""@ =~= whole);
    assert(percent_text(bps) == ""@ + whole + crate::api::discount_codes::decimals(
        (bps % 100) as nat,
    ));
    if bps % 100 != 0 {
        assert(percent_text(bps) =~= whole + crate::api::discount_codes::decimals(
            (bps % 100) as nat,
        ));
        if bps % 10 == 0 {
            assert(bps % 100 % 10 == 0) by (nonlinear_arith)
                requires
                    bps % 10 == 0,
                    bps >= 0,
            ;
            assert(whole + ("."@ + crate::text::nat_text((bps % 100 / 10) as nat)) =~= whole + "."@
                + crate::text::nat_text((bps % 100 / 10) as nat));
        } else {
            assert(bps % 100 % 10 != 0) by (nonlinear_arith)
                requires
                    bps % 10 != 0,
                    bps >= 0,
            ;
            assert(whole + ("."@ + crate::text::nat_text((bps % 100) as nat)) =~= whole + "."@
                + crate::text::nat_text((bps % 100) as nat));
            assert(whole + (".0"@ + crate::text::nat_text((bps % 100) as nat)) =~= whole + ".0"@
                + crate::text::nat_text((bps % 100) as nat));
        }
    }
}

} // verus!
