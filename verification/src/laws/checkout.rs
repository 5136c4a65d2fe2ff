//! What comes of checking out.

use crate::api::checkout::{
    is_checkout_step, is_gift_step, CheckoutFacts, CheckoutStep, GiftFacts, GiftStep, Order, Slot,
};
use crate::api::purchase::{sale_with, Sale, StartPurchaseReq};
use crate::api::records::{charge_metadata, license_metadata, Charge, LicenseSource};
use crate::error::AppError;
use crate::licensing::key_of;
use crate::models::{DiscountCode, Invoice, License};
use vstd::prelude::*;

verus! {

/// Is a slot of the order's code reserved?
pub open spec fn holds_slot(order: Order, facts: CheckoutFacts) -> bool {
    order.code is Some && facts.slot == Some(Slot::Reserved)
}

/// Can an order go on to be charged? It has no code, a slot of its code is
/// reserved, or none was left of a code that nobody typed.
pub open spec fn goes_on(order: Order, facts: CheckoutFacts) -> bool {
    ||| order.code is None
    ||| holds_slot(order, facts)
    ||| (order.code is Some && !order.typed && facts.slot is Some && facts.slot->0 is NoneLeft)
}

/// The sale that an order is charged for.
pub open spec fn charged_sale(order: Order, facts: CheckoutFacts) -> Sale {
    if holds_slot(order, facts) {
        sale_with(order.sale, order.code->0)
    } else {
        order.sale
    }
}

/// A slot of the code is reserved before anything else. Where none is left of a
/// code that was typed, or it cannot be found out, the buyer is told so.
pub proof fn slots_are_settled_first(
    order: Order,
    req: StartPurchaseReq,
    base: Seq<char>,
    facts: CheckoutFacts,
    step: CheckoutStep,
    code: DiscountCode,
)
    requires
        is_checkout_step(order, req, base, facts, step),
        order.code == Some(code),
    ensures
        facts.slot is None <==> step is ReserveSlot,
        step is ReserveSlot ==> step->ReserveSlot_code_id == code.id,
        facts.slot matches Some(Slot::NoneLeft { error }) && order.typed ==> step == (
        CheckoutStep::Refuse { error: facts.slot->0->NoneLeft_error }),
        facts.slot matches Some(Slot::Failed { error }) ==> step == (CheckoutStep::Refuse {
            error: facts.slot->0->Failed_error,
        }),
{
}

/// The provider is found, then charges the price of the sale for the invoice's
/// identifier, naming the product and the buyer, who returns to where they asked.
pub proof fn the_provider_is_asked_for_the_price(
    order: Order,
    req: StartPurchaseReq,
    base: Seq<char>,
    facts: CheckoutFacts,
    step: CheckoutStep,
)
    requires
        is_checkout_step(order, req, base, facts, step),
        goes_on(order, facts),
    ensures
        facts.provider is None <==> step is FindProvider,
        (facts.provider matches Some(Ok(_))) && facts.charged is None <==> step is CreateInvoice,
        step matches CheckoutStep::CreateInvoice { charge } ==> {
            &&& charge.amount_sats == charged_sale(order, facts).price
            &&& charge.order_id@ == order.invoice_id@
            &&& charge.product_id@ == order.sale.product_id@
            &&& charge.buyer_email == req.buyer_email
            &&& charge.change is None
            &&& req.redirect_url is Some && req.redirect_url->0@.len() > 0 ==> charge.redirect_url@
                == req.redirect_url->0@
            &&& req.redirect_url is None || req.redirect_url->0@.len() == 0 ==> charge.redirect_url@
                == base + "/thank-you?invoice_id="@ + order.invoice_id@
        },
{
}

/// What the provider charges is kept with the invoice, with the listing and the
/// rate, and what the buyer said.
pub proof fn invoices_keep_what_is_charged(
    order: Order,
    req: StartPurchaseReq,
    base: Seq<char>,
    facts: CheckoutFacts,
    step: CheckoutStep,
)
    requires
        is_checkout_step(order, req, base, facts, step),
        goes_on(order, facts),
        facts.provider matches Some(Ok(_)),
        facts.charged matches Some(Ok(_)),
    ensures
        facts.stored is None <==> step is StoreInvoice,
        step matches CheckoutStep::StoreInvoice { row } ==> {
            &&& row.id@ == order.invoice_id@
            &&& row.provider_invoice_id@ == facts.charged->0->Ok_0.id@
            &&& row.checkout_url@ == facts.charged->0->Ok_0.checkout_url@
            &&& row.amount_sats == charged_sale(order, facts).price
            &&& row.product_id@ == order.sale.product_id@
            &&& row.policy_id == order.sale.policy_id
            &&& row.buyer_email == req.buyer_email
            &&& row.buyer_note == req.buyer_note
            &&& row.listed_currency == order.sale.listed_currency
            &&& row.listed_value == order.sale.listed_value
            &&& row.exchange_rate_centibps == order.sale.exchange_rate_centibps
            &&& row.exchange_rate_source == order.sale.exchange_rate_source
        },
{
}

/// The use of a code is kept with the invoice before the buyer is answered; who
/// used no code is answered at once. The answer tells what is to be paid, and
/// where.
pub proof fn buyers_are_told_what_to_pay(
    order: Order,
    req: StartPurchaseReq,
    base: Seq<char>,
    facts: CheckoutFacts,
    step: CheckoutStep,
)
    requires
        is_checkout_step(order, req, base, facts, step),
        goes_on(order, facts),
        order.sale.code_id is None,
        facts.provider matches Some(Ok(_)),
        facts.charged matches Some(Ok(_)),
        facts.stored matches Some(Ok(_)),
    ensures
        step is RecordRedemption <==> holds_slot(order, facts) && facts.recorded is None,
        step matches CheckoutStep::RecordRedemption { redemption } ==> {
            &&& redemption.code_id@ == order.code->0.id@
            &&& redemption.invoice_id@ == facts.stored->0->Ok_0@
            &&& redemption.base_price_sats == order.sale.base_price
            &&& redemption.final_price_sats == sale_with(order.sale, order.code->0).price
            &&& redemption.discount_applied_sats == sale_with(order.sale, order.code->0).discount
        },
        step is Answer <==> !holds_slot(order, facts) || (facts.recorded matches Some(Ok(_))),
        step matches CheckoutStep::Answer { resp } ==> {
            &&& resp.invoice_id@ == facts.stored->0->Ok_0@
            &&& resp.btcpay_invoice_id@ == facts.charged->0->Ok_0.id@
            &&& resp.checkout_url@ == facts.charged->0->Ok_0.checkout_url@
            &&& resp.amount_sats == charged_sale(order, facts).price
            &&& resp.base_price_sats == order.sale.base_price
            &&& resp.discount_applied_sats == charged_sale(order, facts).discount
            &&& resp.poll_url@ == base + "/v1/purchase/"@ + facts.stored->0->Ok_0@
            &&& resp.license_key is None
            &&& resp.license_id is None
        },
{
}

/// Has an order failed, with this error?
pub open spec fn has_failed(facts: CheckoutFacts, error: AppError) -> bool {
    ||| facts.provider == Some(Err::<(), AppError>(error))
    ||| ((facts.provider matches Some(Ok(_))) && (facts.charged matches Some(Ok(_))) && (
    facts.stored matches Some(Err(e)) && e == error))
}

/// Whatever fails once a slot is reserved gives the slot back before the buyer is
/// told; where no slot is reserved the buyer is told at once.
pub proof fn failures_give_the_slot_back(
    order: Order,
    req: StartPurchaseReq,
    base: Seq<char>,
    facts: CheckoutFacts,
    step: CheckoutStep,
    error: AppError,
)
    requires
        is_checkout_step(order, req, base, facts, step),
        goes_on(order, facts),
        order.sale.code_id is None,
        has_failed(facts, error),
    ensures
        holds_slot(order, facts) && !facts.released ==> step == (CheckoutStep::ReleaseSlot {
            code_id: order.code->0.id,
        }),
        !holds_slot(order, facts) || facts.released ==> step == (CheckoutStep::Refuse { error }),
{
}

/// Where the provider makes no invoice, the slot is given back, and the buyer is
/// told what the provider said.
pub proof fn refused_charges_give_the_slot_back(
    order: Order,
    req: StartPurchaseReq,
    base: Seq<char>,
    facts: CheckoutFacts,
    step: CheckoutStep,
)
    requires
        is_checkout_step(order, req, base, facts, step),
        goes_on(order, facts),
        order.sale.code_id is None,
        facts.provider matches Some(Ok(_)),
        facts.charged matches Some(Err(_)),
    ensures
        holds_slot(order, facts) && !facts.released ==> step == (CheckoutStep::ReleaseSlot {
            code_id: order.code->0.id,
        }),
        !holds_slot(order, facts) || facts.released ==> step is Refuse && (
        step->Refuse_error matches AppError::Upstream(words) && words@
            == "payment provider create-invoice failed: "@ + facts.charged->0->Err_0@),
{
}

/// Where the use of a code cannot be kept, the slot is given back and the invoice
/// marked invalid, so that it is not honoured; then the buyer is told.
pub proof fn unrecorded_codes_are_taken_back(
    order: Order,
    req: StartPurchaseReq,
    base: Seq<char>,
    facts: CheckoutFacts,
    step: CheckoutStep,
    error: AppError,
)
    requires
        is_checkout_step(order, req, base, facts, step),
        holds_slot(order, facts),
        facts.provider matches Some(Ok(_)),
        facts.charged matches Some(Ok(_)),
        facts.stored matches Some(Ok(_)),
        facts.recorded == Some(Err::<(), AppError>(error)),
    ensures
        !facts.released ==> step == (CheckoutStep::ReleaseSlot { code_id: order.code->0.id }),
        facts.released && !facts.invalidated ==> step == (CheckoutStep::InvalidateInvoice {
            provider_invoice_id: facts.charged->0->Ok_0.id,
        }),
        facts.released && facts.invalidated ==> step == (CheckoutStep::Refuse { error }),
{
}

/// What is told of an invoice beside its amount: its product, and for a change of
/// tier the license and both tiers.
pub proof fn charges_say_what_they_are_for(charge: Charge)
    ensures
        charge_metadata(charge).len() > 0,
        charge_metadata(charge)[0] == ("productId"@, Some(charge.product_id@)),
        charge.change is None ==> charge_metadata(charge).len() == 1,
        charge.change matches Some(change) ==> {
            &&& charge_metadata(charge).len() == 5
            &&& charge_metadata(charge)[1] == ("intent"@, Some("tier_change"@))
            &&& charge_metadata(charge)[2] == ("licenseId"@, Some(change.license_id@))
            &&& charge_metadata(charge)[3] == ("fromPolicyId"@, Some(change.from_policy_id@))
            &&& charge_metadata(charge)[4] == ("toPolicyId"@, Some(change.to_policy_id@))
        },
{
}

/// What is told of a license beside its terms: where it comes from.
pub proof fn licenses_say_where_they_come_from(source: LicenseSource)
    ensures
        license_metadata(source).len() == 2,
        source matches LicenseSource::ByHand { note } ==> {
            &&& license_metadata(source)[0] == ("source"@, Some("admin_issue"@))
            &&& license_metadata(source)[1].0 == "note"@
            &&& note is None ==> license_metadata(source)[1].1 is None
            &&& note is Some ==> license_metadata(source)[1].1 == Some(note->0@)
        },
        source matches LicenseSource::Purchase { provider_invoice_id } ==> {
            &&& license_metadata(source)[0] == ("source"@, Some("purchase"@))
            &&& license_metadata(source)[1] == ("btcpay_invoice_id"@, Some(provider_invoice_id@))
        },
{
}

// ---------- what is free ----------

/// What costs nothing is kept as an invoice for the buyer, product and tier, the
/// license is issued for it, and the buyer is told its key at once. Nothing is
/// charged, and there is nowhere to pay.
pub proof fn gifts_are_given_at_once(
    sale: Sale,
    req: StartPurchaseReq,
    secret: Seq<u8>,
    base: Seq<char>,
    facts: GiftFacts,
    step: GiftStep,
)
    requires
        is_gift_step(sale, req, secret, base, facts, step),
    ensures
        facts.invoice is None <==> step is CreateInvoice,
        step matches GiftStep::CreateInvoice { row } ==> {
            &&& row.product_id@ == sale.product_id@
            &&& row.policy_id == sale.policy_id
            &&& row.buyer_email == req.buyer_email
            &&& row.buyer_note == req.buyer_note
        },
        facts.invoice matches Some(Err(e)) ==> step == (GiftStep::Refuse {
            error: facts.invoice->0->Err_0,
        }),
        (facts.invoice matches Some(Ok(_))) && facts.issued is None <==> step is IssueLicense,
        step matches GiftStep::IssueLicense { invoice_id } ==> invoice_id
            == facts.invoice->0->Ok_0.id,
        (facts.invoice matches Some(Ok(_))) && (facts.issued matches Some(Ok(_))) && facts.license
            is None <==> step is FindLicense,
        step matches GiftStep::Answer { resp } ==> {
            &&& facts.issued matches Some(Ok(id)) && resp.license_id == Some(id)
            &&& facts.license matches Some(Some(license)) && resp.license_key is Some
                && resp.license_key->0@ == key_of(secret, license)
            &&& facts.invoice matches Some(Ok(invoice)) && resp.invoice_id == invoice.id
                && resp.poll_url@ == base + "/v1/purchase/"@ + invoice.id@
            &&& resp.amount_sats == 0
            &&& resp.checkout_url@.len() == 0
            &&& resp.base_price_sats == sale.base_price
            &&& resp.discount_applied_sats == sale.discount
        },
{
}

/// A buyer whose license was issued gets its key, where the license is well
/// formed.
pub proof fn issued_gifts_are_answered(
    sale: Sale,
    req: StartPurchaseReq,
    secret: Seq<u8>,
    base: Seq<char>,
    facts: GiftFacts,
    step: GiftStep,
    invoice: Invoice,
    license: License,
)
    requires
        is_gift_step(sale, req, secret, base, facts, step),
        facts.invoice == Some(Ok::<Invoice, AppError>(invoice)),
        facts.issued matches Some(Ok(_)),
        facts.license == Some(Some(license)),
        crate::codec::uuid_reading(license.id@) is Ok,
        crate::codec::uuid_reading(license.product_id@) is Ok,
    ensures
        step is Answer,
{
}

} // verus!
