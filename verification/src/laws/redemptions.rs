//! What comes of redeeming a code.

use crate::api::checkout::Slot;
use crate::api::redeem::{
    is_claim_step, is_redeem_step, redeem_refusal, redemption_of, Claim, ClaimFacts, ClaimStep,
    RedeemFacts, RedeemReq, RedeemStep,
};
use crate::clock::Moment;
use crate::laws::purchases::{is_code_past, is_tier_allowed};
use crate::licensing::key_of;
use crate::models::{DiscountCode, License, Policy, Product, Redemption};
use crate::text::is_white_space;
use vstd::prelude::*;

verus! {

/// Is a product there for a code to be redeemed for?
pub open spec fn is_there(req: RedeemReq, facts: RedeemFacts, product: Product) -> bool {
    &&& facts.product == Some(Some(product))
    &&& product.active
    &&& exists|i: int| 0 <= i < req.code@.len() && !is_white_space(#[trigger] req.code@[i])
}

/// Can a code be redeemed for a product? It is active, gives licenses away, its
/// date has not passed, and it is not restricted to another product.
pub open spec fn is_redeemable(code: DiscountCode, product: Product, now: Moment) -> bool {
    &&& code.active
    &&& code.kind@ == "free_license"@
    &&& !is_code_past(code, now)
    &&& code.applies_to_product_id is Some ==> code.applies_to_product_id->0@ == product.id@
}

proof fn lemma_redeemable(code: DiscountCode, product: Product, now: Moment)
    ensures
        is_redeemable(code, product, now) <==> redeem_refusal(
            Some(code),
            product.id@,
            now,
        ) is None,
{
}

proof fn lemma_allowed(code: DiscountCode, policy: Policy)
    ensures
        is_tier_allowed(code, policy) <==> !code.misses_policy(Some(policy)),
{
    let id = policy.id@;
    if code.applies_to_policy_ids@.len() > 0 {
        let ids = crate::text::texts(code.applies_to_policy_ids@);
        if is_tier_allowed(code, policy) {
            let i = choose|i: int|
                0 <= i < code.applies_to_policy_ids@.len() && (
                #[trigger] code.applies_to_policy_ids@[i])@ == id;
            assert(ids[i] == id);
        }
        if ids.contains(id) {
            let i = choose|i: int| 0 <= i < ids.len() && ids[i] == id;
            assert(code.applies_to_policy_ids@[i]@ == id);
        }
    } else if code.applies_to_policy_id is Some {
        let one = seq![code.applies_to_policy_id->0@];
        assert(code.allowed() == one);
        assert(one[0] == code.applies_to_policy_id->0@);
        if one.contains(id) {
            assert(one[0] == id);
        }
    }
}

/// Nothing is given away for a product that is not there or not on sale, nor for
/// a code of nothing but white space.
pub proof fn codes_are_redeemed_for_what_is_there(
    req: RedeemReq,
    facts: RedeemFacts,
    now: Moment,
    step: RedeemStep,
)
    requires
        is_redeem_step(req, facts, now, step),
    ensures
        facts.product is None ==> step == (RedeemStep::FindProduct { slug: req.product }),
        facts.product matches Some(None) ==> step is Refuse && (step->error is NotFound),
        facts.product matches Some(Some(p)) && !p.active ==> step is Refuse && (step->error
            is BadRequest),
        (facts.product matches Some(Some(p)) && p.active) && (forall|i: int|
            0 <= i < req.code@.len() ==> is_white_space(#[trigger] req.code@[i])) ==> step is Refuse
            && (step->error is BadRequest),
{
    crate::laws::texts::blank_texts_are_white_space(req.code@);
}

/// A code that can be redeemed is reserved for the product, and the tier that was
/// asked for; one that cannot is refused.
pub proof fn redeemable_codes_are_reserved(
    req: RedeemReq,
    facts: RedeemFacts,
    now: Moment,
    step: RedeemStep,
    product: Product,
)
    requires
        is_redeem_step(req, facts, now, step),
        is_there(req, facts, product),
    ensures
        facts.code is None ==> step == (RedeemStep::FindCode { code: req.code }),
        facts.code matches Some(None) ==> step is Refuse && (step->error is BadRequest),
        facts.code matches Some(Some(code)) ==> {
            &&& !is_redeemable(code, product, now) ==> step is Refuse && (step->error is BadRequest)
            &&& is_redeemable(code, product, now) && (req.policy_slug is None
                || req.policy_slug->0@.len() == 0) ==> step == (RedeemStep::Reserve {
                code_id: code.id,
                product_id: product.id,
                policy_id: None,
            })
            &&& is_redeemable(code, product, now) && req.policy_slug is Some
                && req.policy_slug->0@.len() > 0 ==> match facts.policy {
                None => step == (RedeemStep::FindPolicy {
                    product_id: product.id,
                    slug: req.policy_slug->0,
                }),
                Some(None) => step is Refuse && (step->error is NotFound),
                Some(Some(p)) => if p.active && p.public && is_tier_allowed(code, p) {
                    step == (RedeemStep::Reserve {
                        code_id: code.id,
                        product_id: product.id,
                        policy_id: Some(p.id),
                    })
                } else {
                    step is Refuse && (step->error is BadRequest)
                },
            }
        },
{
    crate::laws::texts::blank_texts_are_white_space(req.code@);
    if facts.code is Some && facts.code->0 is Some {
        let code = facts.code->0->0;
        lemma_redeemable(code, product, now);
        if facts.policy is Some && facts.policy->0 is Some {
            lemma_allowed(code, facts.policy->0->0);
        }
    }
}

/// A claim takes a slot of its code first; then an invoice over nothing is kept
/// for the buyer, the use of the code with it, and the license is issued.
pub proof fn claims_go_step_by_step(
    claim: Claim,
    req: RedeemReq,
    secret: Seq<u8>,
    facts: ClaimFacts,
    step: ClaimStep,
)
    requires
        is_claim_step(claim, req, secret, facts, step),
    ensures
        facts.slot is None <==> step is ReserveSlot,
        step is ReserveSlot ==> step->ReserveSlot_code_id == claim.code_id,
        facts.slot matches Some(Slot::NoneLeft { error }) ==> step == (ClaimStep::Refuse {
            error: facts.slot->0->NoneLeft_error,
        }),
        facts.slot matches Some(Slot::Failed { error }) ==> step == (ClaimStep::Refuse {
            error: facts.slot->0->Failed_error,
        }),
        facts.slot == Some(Slot::Reserved) && facts.invoice is None <==> step is CreateInvoice,
        step matches ClaimStep::CreateInvoice { row } ==> {
            &&& row.product_id == claim.product_id
            &&& row.policy_id == claim.policy_id
            &&& row.buyer_email == req.buyer_email
            &&& row.buyer_note == req.buyer_note
        },
        facts.slot == Some(Slot::Reserved) && (facts.invoice matches Some(Ok(_)))
            && facts.recorded is None <==> step is RecordRedemption,
        step matches ClaimStep::RecordRedemption { redemption } ==> {
            &&& redemption.code_id@ == claim.code_id@
            &&& redemption.invoice_id@ == facts.invoice->0->Ok_0@
            &&& redemption.discount_applied_sats == 0
            &&& redemption.base_price_sats == 0
            &&& redemption.final_price_sats == 0
        },
        facts.slot == Some(Slot::Reserved) && (facts.invoice matches Some(Ok(_))) && (
        facts.recorded matches Some(Ok(_))) && facts.issued is None <==> step is IssueLicense,
        step is IssueLicense ==> step->IssueLicense_invoice_id == facts.invoice->0->Ok_0,
{
}

/// A claim whose license was issued is answered with its key and the use of the
/// code, once both are looked up.
pub proof fn claims_are_answered_with_their_key(
    claim: Claim,
    req: RedeemReq,
    secret: Seq<u8>,
    facts: ClaimFacts,
    step: ClaimStep,
    license: License,
    rows: Vec<Redemption>,
)
    requires
        is_claim_step(claim, req, secret, facts, step),
        facts.slot == Some(Slot::Reserved),
        facts.invoice matches Some(Ok(_)),
        facts.recorded matches Some(Ok(_)),
        facts.issued matches Some(Ok(_)),
        facts.license == Some(Some(license)),
        facts.rows == Some(rows),
        crate::codec::uuid_reading(license.id@) is Ok,
        crate::codec::uuid_reading(license.product_id@) is Ok,
    ensures
        step is Answer,
        step->resp.license_id == facts.issued->0->Ok_0,
        step->resp.license_key@ == key_of(secret, license),
        crate::crypto::read_key(step->resp.license_key@) is Ok,
        crate::crypto::read_key(step->resp.license_key@)->Ok_0.payload
            == crate::licensing::payload_of(license),
        crate::crypto::read_key(step->resp.license_key@)->Ok_0.verifies(
            crate::codec::ed25519_public(secret),
        ),
        step->resp.invoice_id == facts.invoice->0->Ok_0,
        step->resp.redemption_id@ == redemption_of(rows@, facts.invoice->0->Ok_0@),
{
}

/// The use of a code that is told is one of this invoice, where there is one.
pub proof fn the_use_that_is_told_is_the_invoices(
    rows: Seq<Redemption>,
    invoice_id: Seq<char>,
    k: int,
)
    requires
        0 <= k < rows.len(),
        rows[k].invoice_id@ == invoice_id,
        forall|j: int| 0 <= j < k ==> (#[trigger] rows[j]).invoice_id@ != invoice_id,
    ensures
        redemption_of(rows, invoice_id) == rows[k].id@,
    decreases rows.len(),
{
    if k > 0 {
        let rest = rows.subrange(1, rows.len() as int);
        assert(rows[0].invoice_id@ != invoice_id);
        assert(rest[k - 1] == rows[k]);
        assert forall|j: int| 0 <= j < k - 1 implies (#[trigger] rest[j]).invoice_id@
            != invoice_id by {
            assert(rest[j] == rows[j + 1]);
        }
        the_use_that_is_told_is_the_invoices(rest, invoice_id, k - 1);
    }
}

/// A claim that fails before the use of its code is kept gives the slot back; one
/// whose license cannot be issued has the use of its code cancelled. Then the
/// buyer is told the error.
pub proof fn failed_claims_give_back(
    claim: Claim,
    req: RedeemReq,
    secret: Seq<u8>,
    facts: ClaimFacts,
    step: ClaimStep,
)
    requires
        is_claim_step(claim, req, secret, facts, step),
        facts.slot == Some(Slot::Reserved),
    ensures
        facts.invoice matches Some(Err(e)) ==> step == if facts.returned {
            ClaimStep::Refuse { error: facts.invoice->0->Err_0 }
        } else {
            ClaimStep::ReleaseSlot { code_id: claim.code_id }
        },
        (facts.invoice matches Some(Ok(_))) && (facts.recorded matches Some(Err(e))) ==> step
            == if facts.returned {
            ClaimStep::Refuse { error: facts.recorded->0->Err_0 }
        } else {
            ClaimStep::ReleaseSlot { code_id: claim.code_id }
        },
        (facts.invoice matches Some(Ok(_))) && (facts.recorded matches Some(Ok(_))) && (
        facts.issued matches Some(Err(e))) ==> {
            &&& facts.pending is None ==> step == (ClaimStep::FindRedemption {
                invoice_id: facts.invoice->0->Ok_0,
            })
            &&& (facts.pending matches Some(Some(r))) && !facts.returned ==> step == (
            ClaimStep::CancelRedemption { redemption_id: facts.pending->0->0.id })
            &&& (facts.pending matches Some(None)) || (facts.pending is Some && facts.returned)
                ==> step == (ClaimStep::Refuse { error: facts.issued->0->Err_0 })
        },
{
}

/// Who has a code that cannot be redeemed is told why, the first that holds of: it is
/// not known, switched off, to be paid with, past its date, for another product.
pub proof fn codes_that_give_nothing_are_told_why(code: DiscountCode, product: Product, now: Moment)
    ensures
        redeem_refusal(None, product.id@, now) == Some("unknown code"@),
        ({
            let why = redeem_refusal(Some(code), product.id@, now);
            let gives = code.kind@ == "free_license"@;
            &&& !code.active ==> why == Some("code is disabled"@)
            &&& code.active && !gives ==> why == Some(
                "this code requires payment — use the standard purchase flow with the code applied"@,
            )
            &&& code.active && gives && is_code_past(code, now) ==> why == Some(
                "code has expired"@,
            )
            &&& code.active && gives && !is_code_past(code, now) && code.applies_to_product_id
                is Some && code.applies_to_product_id->0@ != product.id@ ==> why == Some(
                "code does not apply to this product"@,
            )
        }),
{
    lemma_redeemable(code, product, now);
}

} // verus!
