//! Checking out: what is done once a purchase is priced.
//!
//! Where something is to be paid, the slot of the code comes first, then the
//! provider, its invoice, the invoice in the records, and the use of the code.
//! Whatever fails on the way gives the slot back. Where nothing is to be paid,
//! the license is issued at once.

use crate::api::purchase::{
    apply_code, charge_failed, charged_response, copy_sale, is_charged_answer, is_issued_answer,
    is_redemption, issued_response, license_vanished, redemption_for, redirect_target,
    redirect_text, sale_with, undo_after, PendingRedemption, PurchaseStage, Sale,
    StartPurchaseReq, StartPurchaseResp, Undo,
};
use crate::api::records::{Charge, FreeInvoiceRow, InvoiceRow, ProviderInvoice};
use crate::crypto::SigningKey;
use crate::error::AppError;
use crate::licensing::entitlements_fit;
use crate::models::{DiscountCode, Invoice, License};
use crate::text::copy_opt;
use vstd::prelude::*;

verus! {

// ---------- what is paid ----------

/// What came of reserving a slot of a code.
#[derive(Clone, Debug)]
pub enum Slot {
    Reserved,
    /// None was left; the error says so.
    NoneLeft { error: AppError },
    /// Whether one was left could not be found out.
    Failed { error: AppError },
}

/// A purchase that is to be paid.
#[derive(Clone, Debug)]
pub struct Order {
    /// The identifier that its invoice gets in the records.
    pub invoice_id: String,
    pub sale: Sale,
    /// The code to reserve a slot of.
    pub code: Option<DiscountCode>,
    /// Whether the buyer typed the code.
    pub typed: bool,
}

/// What has been done for an order so far. A field is `None` until it has been
/// done.
#[derive(Clone, Debug)]
pub struct CheckoutFacts {
    pub slot: Option<Slot>,
    /// Whether there is a provider.
    pub provider: Option<Result<(), AppError>>,
    /// The provider's invoice, or why it made none.
    pub charged: Option<Result<ProviderInvoice, String>>,
    /// The identifier of the invoice in the records.
    pub stored: Option<Result<String, AppError>>,
    /// Whether the use of the code is in the records.
    pub recorded: Option<Result<(), AppError>>,
    /// Whether the slot was given back.
    pub released: bool,
    /// Whether the invoice was marked invalid.
    pub invalidated: bool,
}

impl CheckoutFacts {
    /// Nothing has been done yet.
    pub fn new() -> (r: Self)
        ensures
            r == (CheckoutFacts {
                slot: None,
                provider: None,
                charged: None,
                stored: None,
                recorded: None,
                released: false,
                invalidated: false,
            }),
    {
        CheckoutFacts {
            slot: None,
            provider: None,
            charged: None,
            stored: None,
            recorded: None,
            released: false,
            invalidated: false,
        }
    }
}

/// What an order needs next, or where it ends up.
#[derive(Clone, Debug)]
pub enum CheckoutStep {
    ReserveSlot { code_id: String },
    FindProvider,
    /// Have the provider make an invoice.
    CreateInvoice { charge: Charge },
    StoreInvoice { row: InvoiceRow },
    RecordRedemption { redemption: PendingRedemption },
    ReleaseSlot { code_id: String },
    /// Mark the invoice invalid, so that it is not honoured if it settles.
    InvalidateInvoice { provider_invoice_id: String },
    Refuse { error: AppError },
    Answer { resp: StartPurchaseResp },
}

/// Is `charge` what the provider is handed for a sale? It is over the price, for
/// the invoice's identifier in the records, and names the product and the buyer.
pub open spec fn is_charge(
    sale: Sale,
    req: StartPurchaseReq,
    invoice_id: String,
    public_base_url: Seq<char>,
    charge: Charge,
) -> bool {
    &&& charge.amount_sats == sale.price
    &&& charge.redirect_url@ == redirect_text(req.redirect_url, public_base_url, invoice_id@)
    &&& charge.order_id == invoice_id
    &&& charge.buyer_email == req.buyer_email
    &&& charge.product_id == sale.product_id
    &&& charge.change is None
}

/// What the provider is handed for a sale.
pub fn charge_for(sale: &Sale, req: &StartPurchaseReq, invoice_id: &String, public_base_url: &str) -> (r:
    Charge)
    ensures
        is_charge(*sale, *req, *invoice_id, public_base_url@, r),
{
    Charge {
        amount_sats: sale.price,
        redirect_url: redirect_target(&req.redirect_url, public_base_url, invoice_id.as_str()),
        order_id: invoice_id.clone(),
        buyer_email: copy_opt(&req.buyer_email),
        product_id: sale.product_id.clone(),
        change: None,
    }
}

/// The invoice of a sale as it is kept.
pub open spec fn sale_row(
    sale: Sale,
    req: StartPurchaseReq,
    invoice_id: String,
    made: ProviderInvoice,
) -> InvoiceRow {
    InvoiceRow {
        id: invoice_id,
        provider_invoice_id: made.id,
        product_id: sale.product_id,
        amount_sats: sale.price,
        checkout_url: made.checkout_url,
        buyer_email: req.buyer_email,
        buyer_note: req.buyer_note,
        policy_id: sale.policy_id,
        listed_currency: sale.listed_currency,
        listed_value: sale.listed_value,
        exchange_rate_centibps: sale.exchange_rate_centibps,
        exchange_rate_source: sale.exchange_rate_source,
    }
}

/// The invoice of a sale as it is kept.
pub fn row_for(sale: &Sale, req: &StartPurchaseReq, invoice_id: &String, made: &ProviderInvoice) -> (r:
    InvoiceRow)
    ensures
        r == sale_row(*sale, *req, *invoice_id, *made),
{
    let invoice: ProviderInvoice = made.copy();
    InvoiceRow {
        id: invoice_id.clone(),
        provider_invoice_id: invoice.id,
        product_id: sale.product_id.clone(),
        amount_sats: sale.price,
        checkout_url: invoice.checkout_url,
        buyer_email: copy_opt(&req.buyer_email),
        buyer_note: copy_opt(&req.buyer_note),
        policy_id: copy_opt(&sale.policy_id),
        listed_currency: copy_opt(&sale.listed_currency),
        listed_value: sale.listed_value,
        exchange_rate_centibps: sale.exchange_rate_centibps,
        exchange_rate_source: copy_opt(&sale.exchange_rate_source),
    }
}

/// What is kept of an invoice is what the provider was handed.
pub proof fn what_is_charged_is_kept(
    sale: Sale,
    req: StartPurchaseReq,
    invoice_id: String,
    public_base_url: Seq<char>,
    charge: Charge,
    made: ProviderInvoice,
)
    requires
        is_charge(sale, req, invoice_id, public_base_url, charge),
    ensures
        ({
            let row = sale_row(sale, req, invoice_id, made);
            &&& row.id == charge.order_id
            &&& row.amount_sats == charge.amount_sats
            &&& row.product_id == charge.product_id
            &&& row.buyer_email == charge.buyer_email
        }),
{
}

/// Is `step` what an order needs next that failed with an error that `says` tells
/// of? The slot is given back first; an invoice whose use of the code is not in
/// the records is marked invalid.
pub open spec fn is_failing_step(
    sale: Sale,
    invalid: Option<String>,
    facts: CheckoutFacts,
    says: spec_fn(AppError) -> bool,
    step: CheckoutStep,
) -> bool {
    if sale.code_id is Some && !facts.released {
        step == (CheckoutStep::ReleaseSlot { code_id: sale.code_id->0 })
    } else if invalid is Some && !facts.invalidated {
        step == (CheckoutStep::InvalidateInvoice { provider_invoice_id: invalid->0 })
    } else {
        step matches CheckoutStep::Refuse { error } && says(error)
    }
}

/// Is `step` what an order needs next whose price is that of `sale`?
pub open spec fn is_charge_step(
    sale: Sale,
    req: StartPurchaseReq,
    invoice_id: String,
    public_base_url: Seq<char>,
    facts: CheckoutFacts,
    step: CheckoutStep,
) -> bool {
    match facts.provider {
        None => step is FindProvider,
        Some(Err(told)) => is_failing_step(sale, None, facts, |e: AppError| e == told, step),
        Some(Ok(_)) => match facts.charged {
            None => step matches CheckoutStep::CreateInvoice { charge } && is_charge(
                sale,
                req,
                invoice_id,
                public_base_url,
                charge,
            ),
            Some(Err(detail)) => is_failing_step(
                sale,
                None,
                facts,
                |e: AppError|
                    e.is_upstream("payment provider create-invoice failed: "@ + detail@),
                step,
            ),
            Some(Ok(invoice)) => match facts.stored {
                None => step == (CheckoutStep::StoreInvoice {
                    row: sale_row(sale, req, invoice_id, invoice),
                }),
                Some(Err(told)) => is_failing_step(
                    sale,
                    None,
                    facts,
                    |e: AppError| e == told,
                    step,
                ),
                Some(Ok(id)) => if sale.code_id is Some && facts.recorded is None {
                    step matches CheckoutStep::RecordRedemption { redemption } && is_redemption(
                        sale,
                        id@,
                        sale.price,
                        Some(redemption),
                    )
                } else if sale.code_id is Some && facts.recorded->0 is Err {
                    is_failing_step(
                        sale,
                        Some(invoice.id),
                        facts,
                        |e: AppError| e == facts.recorded->0->Err_0,
                        step,
                    )
                } else {
                    step matches CheckoutStep::Answer { resp } && is_charged_answer(
                        sale,
                        id,
                        invoice.id,
                        invoice.checkout_url,
                        public_base_url,
                        resp,
                    )
                },
            },
        },
    }
}

/// Is `step` what an order needs next? A slot of its code comes first. Where
/// none is left, a code that was typed is refused; one that was not is let go,
/// and the full price is charged.
pub open spec fn is_checkout_step(
    order: Order,
    req: StartPurchaseReq,
    public_base_url: Seq<char>,
    facts: CheckoutFacts,
    step: CheckoutStep,
) -> bool {
    match order.code {
        None => is_charge_step(order.sale, req, order.invoice_id, public_base_url, facts, step),
        Some(code) => match facts.slot {
            None => step == (CheckoutStep::ReserveSlot { code_id: code.id }),
            Some(Slot::Reserved) => is_charge_step(
                sale_with(order.sale, code),
                req,
                order.invoice_id,
                public_base_url,
                facts,
                step,
            ),
            Some(Slot::NoneLeft { error }) => if order.typed {
                step == (CheckoutStep::Refuse { error })
            } else {
                is_charge_step(order.sale, req, order.invoice_id, public_base_url, facts, step)
            },
            Some(Slot::Failed { error }) => step == (CheckoutStep::Refuse { error }),
        },
    }
}

fn failing_step(
    sale: &Sale,
    stage: PurchaseStage,
    invoice: Option<&ProviderInvoice>,
    facts: &CheckoutFacts,
    error: AppError,
) -> (r: CheckoutStep)
    requires
        invoice is Some <==> stage is RecordRedemption,
    ensures
        r == if sale.code_id is Some && !facts.released {
            CheckoutStep::ReleaseSlot { code_id: sale.code_id->0 }
        } else if invoice is Some && sale.code_id is Some && !facts.invalidated {
            CheckoutStep::InvalidateInvoice { provider_invoice_id: invoice->0.id }
        } else {
            CheckoutStep::Refuse { error }
        },
{
    let undo: Undo = undo_after(sale, stage);
    if let Some(code_id) = undo.release_code {
        if !facts.released {
            return CheckoutStep::ReleaseSlot { code_id };
        }
    }
    if undo.invalidate_invoice && !facts.invalidated {
        if let Some(i) = invoice {
            return CheckoutStep::InvalidateInvoice { provider_invoice_id: i.id.clone() };
        }
    }
    CheckoutStep::Refuse { error }
}

fn charge_step(
    sale: Sale,
    req: &StartPurchaseReq,
    invoice_id: &String,
    public_base_url: &str,
    facts: &CheckoutFacts,
) -> (r: CheckoutStep)
    ensures
        is_charge_step(sale, *req, *invoice_id, public_base_url@, *facts, r),
{
    match &facts.provider {
        None => {
            return CheckoutStep::FindProvider;
        },
        Some(Err(told)) => {
            return failing_step(&sale, PurchaseStage::FindProvider, None, facts, told.copy());
        },
        Some(Ok(_)) => {},
    }
    let invoice: &ProviderInvoice = match &facts.charged {
        None => {
            return CheckoutStep::CreateInvoice {
                charge: charge_for(&sale, req, invoice_id, public_base_url),
            };
        },
        Some(Err(detail)) => {
            let error: AppError = charge_failed(detail.as_str());
            return failing_step(&sale, PurchaseStage::CreateProviderInvoice, None, facts, error);
        },
        Some(Ok(invoice)) => invoice,
    };
    let id: &String = match &facts.stored {
        None => {
            return CheckoutStep::StoreInvoice { row: row_for(&sale, req, invoice_id, invoice) };
        },
        Some(Err(told)) => {
            return failing_step(&sale, PurchaseStage::StoreInvoice, None, facts, told.copy());
        },
        Some(Ok(id)) => id,
    };
    if let Some(redemption) = redemption_for(&sale, id.as_str(), sale.price) {
        match &facts.recorded {
            None => {
                return CheckoutStep::RecordRedemption { redemption };
            },
            Some(Err(told)) => {
                let stage: PurchaseStage = PurchaseStage::RecordRedemption;
                return failing_step(&sale, stage, Some(invoice), facts, told.copy());
            },
            Some(Ok(_)) => {},
        }
    }
    let resp: StartPurchaseResp = charged_response(
        &sale,
        id.clone(),
        invoice.id.clone(),
        invoice.checkout_url.clone(),
        public_base_url,
    );
    CheckoutStep::Answer { resp }
}

/// What an order needs next, given what has been done so far.
pub fn checkout(
    order: &Order,
    req: &StartPurchaseReq,
    public_base_url: &str,
    facts: &CheckoutFacts,
) -> (r: CheckoutStep)
    ensures
        is_checkout_step(*order, *req, public_base_url@, *facts, r),
{
    let id: &String = &order.invoice_id;
    let sale: Sale = copy_sale(&order.sale);
    let code: &DiscountCode = match &order.code {
        None => {
            return charge_step(sale, req, id, public_base_url, facts);
        },
        Some(code) => code,
    };
    match &facts.slot {
        None => CheckoutStep::ReserveSlot { code_id: code.id.clone() },
        Some(Slot::Reserved) => charge_step(
            apply_code(sale, code),
            req,
            id,
            public_base_url,
            facts,
        ),
        Some(Slot::NoneLeft { error }) => if order.typed {
            CheckoutStep::Refuse { error: error.copy() }
        } else {
            charge_step(sale, req, id, public_base_url, facts)
        },
        Some(Slot::Failed { error }) => CheckoutStep::Refuse { error: error.copy() },
    }
}

/// Was something done, and did it succeed?
pub open spec fn succeeded<T, E>(outcome: Option<Result<T, E>>) -> bool {
    outcome matches Some(Ok(_))
}

/// Nothing is asked of the provider before the slot of the code is settled: a
/// code that the buyer typed is reserved by then, and so is one that is featured
/// unless no slot was left.
pub proof fn slots_come_before_charges(
    order: Order,
    req: StartPurchaseReq,
    public_base_url: Seq<char>,
    facts: CheckoutFacts,
    step: CheckoutStep,
)
    requires
        is_checkout_step(order, req, public_base_url, facts, step),
        order.code is Some,
        !(step is ReserveSlot || step is Refuse),
    ensures
        facts.slot == Some(Slot::Reserved) || (facts.slot matches Some(Slot::NoneLeft { .. })
            && !order.typed),
{
}

/// A buyer is charged with the code where its slot is reserved, and the full
/// price where the code was let go. A code that was typed is never let go.
pub proof fn what_is_charged_follows_the_slot(
    order: Order,
    req: StartPurchaseReq,
    public_base_url: Seq<char>,
    facts: CheckoutFacts,
    step: CheckoutStep,
    code: DiscountCode,
)
    requires
        is_checkout_step(order, req, public_base_url, facts, step),
        order.code == Some(code),
        step is CreateInvoice,
    ensures
        is_charge(
            if facts.slot == Some(Slot::Reserved) {
                sale_with(order.sale, code)
            } else {
                order.sale
            },
            req,
            order.invoice_id,
            public_base_url,
            step->charge,
        ),
        order.typed ==> facts.slot == Some(Slot::Reserved),
{
}

/// An order that failed uses no code up: its slot was given back. Where the use
/// of the code could not be recorded, the invoice was marked invalid too.
pub proof fn failed_orders_use_no_code_up(
    order: Order,
    req: StartPurchaseReq,
    public_base_url: Seq<char>,
    facts: CheckoutFacts,
    step: CheckoutStep,
)
    requires
        is_checkout_step(order, req, public_base_url, facts, step),
        order.code is Some,
        facts.slot == Some(Slot::Reserved),
        step is Refuse,
    ensures
        facts.released,
        succeeded(facts.provider) && succeeded(facts.charged) && succeeded(facts.stored)
            ==> facts.invalidated,
{
}

/// What was reserved is given back only after a failure, and an order that
/// succeeds keeps its slot: it is answered only where the use of the code is in
/// the records.
pub proof fn answered_orders_keep_their_slot(
    order: Order,
    req: StartPurchaseReq,
    public_base_url: Seq<char>,
    facts: CheckoutFacts,
    step: CheckoutStep,
)
    requires
        is_checkout_step(order, req, public_base_url, facts, step),
        order.code is Some,
        facts.slot == Some(Slot::Reserved),
        step is Answer,
    ensures
        succeeded(facts.provider) && succeeded(facts.charged) && succeeded(facts.stored)
            && succeeded(facts.recorded),
{
}

// ---------- what is free ----------

/// What has been done so far for a purchase that costs nothing. A field is
/// `None` until it has been done.
#[derive(Clone, Debug)]
pub struct GiftFacts {
    pub invoice: Option<Result<Invoice, AppError>>,
    /// The identifier of the license that was issued.
    pub issued: Option<Result<String, AppError>>,
    pub license: Option<Option<License>>,
}

/// What a purchase that costs nothing needs next, or where it ends up.
#[derive(Clone, Debug)]
pub enum GiftStep {
    /// Make an invoice that is settled already.
    CreateInvoice { row: FreeInvoiceRow },
    IssueLicense { invoice_id: String },
    FindLicense { invoice_id: String },
    Refuse { error: AppError },
    Answer { resp: StartPurchaseResp },
}

/// Is `step` what a purchase that costs nothing needs next? The provider has no
/// part in it: an invoice is made that is settled already, and the license is
/// issued for it.
pub open spec fn is_gift_step(
    sale: Sale,
    req: StartPurchaseReq,
    secret: Seq<u8>,
    public_base_url: Seq<char>,
    facts: GiftFacts,
    step: GiftStep,
) -> bool {
    match facts.invoice {
        None => step == (GiftStep::CreateInvoice {
            row: FreeInvoiceRow {
                product_id: sale.product_id,
                policy_id: sale.policy_id,
                buyer_email: req.buyer_email,
                buyer_note: req.buyer_note,
            },
        }),
        Some(Err(error)) => step == (GiftStep::Refuse { error }),
        Some(Ok(invoice)) => match facts.issued {
            None => step == (GiftStep::IssueLicense { invoice_id: invoice.id }),
            Some(Err(error)) => step == (GiftStep::Refuse { error }),
            Some(Ok(license_id)) => match facts.license {
                None => step == (GiftStep::FindLicense { invoice_id: invoice.id }),
                Some(None) => step matches GiftStep::Refuse { error } && error.is_internal(
                    "license vanished after issue"@,
                ),
                Some(Some(license)) => match step {
                    GiftStep::Answer { resp } => is_issued_answer(
                        sale,
                        invoice,
                        license_id,
                        license,
                        secret,
                        public_base_url,
                        Ok(resp),
                    ),
                    GiftStep::Refuse { error } => is_issued_answer(
                        sale,
                        invoice,
                        license_id,
                        license,
                        secret,
                        public_base_url,
                        Err(error),
                    ),
                    _ => false,
                },
            },
        },
    }
}

/// What a purchase that costs nothing needs next, given what has been done so
/// far.
pub fn give(
    sale: &Sale,
    req: &StartPurchaseReq,
    signing_key: &SigningKey,
    public_base_url: &str,
    facts: &GiftFacts,
) -> (r: GiftStep)
    requires
        facts.license matches Some(Some(license)) ==> entitlements_fit(license.entitlements@),
    ensures
        is_gift_step(*sale, *req, signing_key.secret@, public_base_url@, *facts, r),
{
    let invoice: &Invoice = match &facts.invoice {
        None => {
            return GiftStep::CreateInvoice {
                row: FreeInvoiceRow {
                    product_id: sale.product_id.clone(),
                    policy_id: copy_opt(&sale.policy_id),
                    buyer_email: copy_opt(&req.buyer_email),
                    buyer_note: copy_opt(&req.buyer_note),
                },
            };
        },
        Some(Err(error)) => {
            return GiftStep::Refuse { error: error.copy() };
        },
        Some(Ok(invoice)) => invoice,
    };
    let license_id: &String = match &facts.issued {
        None => {
            return GiftStep::IssueLicense { invoice_id: invoice.id.clone() };
        },
        Some(Err(error)) => {
            return GiftStep::Refuse { error: error.copy() };
        },
        Some(Ok(license_id)) => license_id,
    };
    match &facts.license {
        None => GiftStep::FindLicense { invoice_id: invoice.id.clone() },
        Some(None) => GiftStep::Refuse { error: license_vanished() },
        Some(Some(license)) => {
            match issued_response(
                sale,
                invoice,
                license_id.clone(),
                license,
                signing_key,
                public_base_url,
            ) {
                Ok(resp) => GiftStep::Answer { resp },
                Err(error) => GiftStep::Refuse { error },
            }
        },
    }
}

} // verus!
