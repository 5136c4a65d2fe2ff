//! Redeeming a code that gives a license away, without any payment.

use crate::api::checkout::Slot;
use crate::api::purchase::{
    available_product, license_vanished, policy_is_refused, product_is_refused, selectable_policy,
    wanted_policy, wanted_slug, PendingRedemption,
};
use crate::api::records::FreeInvoiceRow;
use crate::clock::Moment;
use crate::codec::ed25519_public;
use crate::crypto::{read_key, SigningKey};
use crate::error::{bad_request, not_found_with, AppError};
use crate::licensing::{bad_id_words, derive_key, entitlements_fit, has_uuids, key_of, payload_of};
use crate::models::{DiscountCode, License, Policy, Product, Redemption};
use crate::text::{copy_opt, is_blank, same, trim};
use vstd::prelude::*;

verus! {

/// A request to redeem a code.
#[derive(Clone, Debug)]
pub struct RedeemReq {
    /// Slug of the product.
    pub product: String,
    pub code: String,
    pub buyer_email: Option<String>,
    pub buyer_note: Option<String>,
    /// Slug of the chosen tier.
    pub policy_slug: Option<String>,
}

/// The answer to a request to redeem a code.
#[derive(Clone, Debug)]
pub struct RedeemResp {
    pub license_id: String,
    pub license_key: String,
    pub invoice_id: String,
    pub redemption_id: String,
}

/// What has been looked up for a redemption so far. A field is `None` until it
/// has been looked up.
#[derive(Clone, Debug)]
pub struct RedeemFacts {
    pub product: Option<Option<Product>>,
    pub code: Option<Option<DiscountCode>>,
    pub policy: Option<Option<Policy>>,
}

/// What a redemption needs next, or where it ends up.
#[derive(Clone, Debug)]
pub enum RedeemStep {
    FindProduct { slug: String },
    FindCode { code: String },
    FindPolicy { product_id: String, slug: String },
    Refuse { error: AppError },
    /// Reserve a slot of the code, and give a license under the policy for it.
    Reserve { code_id: String, product_id: String, policy_id: Option<String> },
}

/// Why a code cannot be redeemed for a product, in the order that the reasons
/// are looked for.
pub open spec fn redeem_refusal(
    found: Option<DiscountCode>,
    product_id: Seq<char>,
    now: Moment,
) -> Option<Seq<char>> {
    match found {
        None => Some("unknown code"@),
        Some(code) => if !code.active {
            Some("code is disabled"@)
        } else if code.kind@ != "free_license"@ {
            Some(
                "this code requires payment — use the standard purchase flow with the code applied"@,
            )
        } else if code.is_expired(now) {
            Some("code has expired"@)
        } else if code.misses_product(product_id) {
            Some("code does not apply to this product"@)
        } else {
            None
        },
    }
}

/// Why a code cannot be redeemed for a product.
pub fn check_redeemable(found: &Option<DiscountCode>, product_id: &str, now: &Moment) -> (r: Result<
    (),
    AppError,
>)
    ensures
        match (redeem_refusal(*found, product_id@, *now), r) {
            (None, Ok(_)) => found is Some,
            (Some(words), Err(e)) => e.is_bad_request(words),
            _ => false,
        },
{
    match found {
        None => Err(bad_request("unknown code")),
        Some(code) => if !code.active {
            Err(bad_request("code is disabled"))
        } else if !same(code.kind.as_str(), "free_license") {
            Err(
                bad_request(
                    "this code requires payment — use the standard purchase flow with the code applied",
                ),
            )
        } else if code.expired(now) {
            Err(bad_request("code has expired"))
        } else if code.wrong_product(product_id) {
            Err(bad_request("code does not apply to this product"))
        } else {
            Ok(())
        },
    }
}

/// Is `step` what a redemption needs next whose product, code and tier are
/// settled?
pub open spec fn is_step_of_tier(
    code: DiscountCode,
    product: Product,
    policy: Option<Policy>,
    step: RedeemStep,
) -> bool {
    if code.misses_policy(policy) {
        step matches RedeemStep::Refuse { error } && error.is_bad_request(
            "code does not apply to the selected tier"@,
        )
    } else {
        step == (RedeemStep::Reserve {
            code_id: code.id,
            product_id: product.id,
            policy_id: match policy {
                Some(p) => Some(p.id),
                None => None,
            },
        })
    }
}

/// Is `step` what a redemption needs next? The product is settled first, then
/// the code, then the tier.
pub open spec fn is_redeem_step(
    req: RedeemReq,
    facts: RedeemFacts,
    now: Moment,
    step: RedeemStep,
) -> bool {
    match facts.product {
        None => step == (RedeemStep::FindProduct { slug: req.product }),
        Some(found) => if found is None || !found->0.active {
            step matches RedeemStep::Refuse { error } && product_is_refused(
                req.product@,
                found,
                "redemption"@,
                error,
            )
        } else if is_blank(req.code@) {
            step matches RedeemStep::Refuse { error } && error.is_bad_request("code is required"@)
        } else {
            let product = found->0;
            match facts.code {
                None => step == (RedeemStep::FindCode { code: req.code }),
                Some(code) => match redeem_refusal(code, product.id@, now) {
                    Some(words) => step matches RedeemStep::Refuse { error }
                        && error.is_bad_request(words),
                    None => match wanted_slug(req.policy_slug) {
                        None => is_step_of_tier(code->0, product, None, step),
                        Some(slug) => match facts.policy {
                            None => step == (RedeemStep::FindPolicy {
                                product_id: product.id,
                                slug,
                            }),
                            Some(policy) => if policy is None || !policy->0.active
                                || !policy->0.public {
                                step matches RedeemStep::Refuse { error } && policy_is_refused(
                                    slug@,
                                    req.product@,
                                    policy,
                                    error,
                                )
                            } else {
                                is_step_of_tier(code->0, product, policy, step)
                            },
                        },
                    },
                },
            }
        },
    }
}

fn step_of_tier(code: &DiscountCode, product: &Product, policy: &Option<Policy>) -> (r: RedeemStep)
    ensures
        is_step_of_tier(*code, *product, *policy, r),
{
    if code.wrong_policy(policy) {
        return RedeemStep::Refuse { error: bad_request("code does not apply to the selected tier") };
    }
    RedeemStep::Reserve {
        code_id: code.id.clone(),
        product_id: product.id.clone(),
        policy_id: match policy {
            Some(p) => Some(p.id.clone()),
            None => None,
        },
    }
}

/// What a redemption needs next, given what has been looked up so far.
pub fn redeem(req: &RedeemReq, facts: &RedeemFacts, now: &Moment) -> (r: RedeemStep)
    ensures
        is_redeem_step(*req, *facts, *now, r),
{
    let found: &Option<Product> = match &facts.product {
        None => {
            return RedeemStep::FindProduct { slug: req.product.clone() };
        },
        Some(found) => found,
    };
    if let Err(error) = available_product(req.product.as_str(), found, "redemption") {
        return RedeemStep::Refuse { error };
    }
    let product: &Product = match found {
        Some(product) => product,
        None => {
            return RedeemStep::Refuse {
                error: not_found_with("product '", req.product.as_str(), "'"),
            };
        },
    };
    if trim(req.code.as_str()).is_empty() {
        return RedeemStep::Refuse { error: bad_request("code is required") };
    }
    let found_code: &Option<DiscountCode> = match &facts.code {
        None => {
            return RedeemStep::FindCode { code: req.code.clone() };
        },
        Some(code) => code,
    };
    if let Err(error) = check_redeemable(found_code, product.id.as_str(), now) {
        return RedeemStep::Refuse { error };
    }
    let code: &DiscountCode = match found_code {
        Some(code) => code,
        None => {
            return RedeemStep::Refuse { error: bad_request("unknown code") };
        },
    };
    match wanted_policy(&req.policy_slug) {
        None => step_of_tier(code, product, &None),
        Some(slug) => match &facts.policy {
            None => RedeemStep::FindPolicy { product_id: product.id.clone(), slug },
            Some(policy) => match selectable_policy(slug.as_str(), req.product.as_str(), policy) {
                Err(error) => RedeemStep::Refuse { error },
                Ok(_) => step_of_tier(code, product, policy),
            },
        },
    }
}

/// Only a code that gives licenses away, is active, has not expired and applies
/// to the product and tier is ever reserved.
pub proof fn only_free_codes_are_redeemed(
    req: RedeemReq,
    facts: RedeemFacts,
    now: Moment,
    step: RedeemStep,
)
    requires
        is_redeem_step(req, facts, now, step),
        step is Reserve,
    ensures
        facts.product matches Some(Some(p)) && p.active,
        facts.code matches Some(Some(code)) && code.active && code.kind@ == "free_license"@
            && !code.is_expired(now) && !code.misses_product(facts.product->0->0.id@)
            && step->code_id == code.id,
{
}

/// A step that can fail once a code's slot is reserved.
#[derive(Clone, Copy, Debug, PartialEq, Eq)]
pub enum RedeemStage {
    CreateInvoice,
    RecordRedemption,
    IssueLicense,
}

/// How the slot of a redemption that failed comes back.
#[derive(Clone, Copy, Debug, PartialEq, Eq)]
pub enum SlotReturn {
    /// The slot is given back.
    Release,
    /// The recorded use is cancelled, which gives the slot back.
    CancelRedemption,
}

/// How the slot of a redemption that failed comes back: through the recorded
/// use once there is one.
pub fn slot_return(stage: RedeemStage) -> (r: SlotReturn)
    ensures
        r is CancelRedemption <==> stage is IssueLicense,
{
    match stage {
        RedeemStage::CreateInvoice => SlotReturn::Release,
        RedeemStage::RecordRedemption => SlotReturn::Release,
        RedeemStage::IssueLicense => SlotReturn::CancelRedemption,
    }
}

/// The use of the code to record: the whole price is given away.
pub fn free_redemption(code_id: &str, invoice_id: &str) -> (r: PendingRedemption)
    ensures
        is_free_redemption(code_id@, invoice_id@, r),
{
    PendingRedemption {
        code_id: String::from_str(code_id),
        invoice_id: String::from_str(invoice_id),
        discount_applied_sats: 0,
        base_price_sats: 0,
        final_price_sats: 0,
    }
}

/// The first recorded use that belongs to an invoice.
pub open spec fn redemption_of(rows: Seq<Redemption>, invoice_id: Seq<char>) -> Seq<char>
    decreases rows.len(),
{
    if rows.len() == 0 {
        seq![]
    } else if rows[0].invoice_id@ == invoice_id {
        rows[0].id@
    } else {
        redemption_of(rows.subrange(1, rows.len() as int), invoice_id)
    }
}

/// The identifier of the first recorded use that belongs to an invoice; empty
/// where there is none.
pub fn redemption_id_of(rows: &Vec<Redemption>, invoice_id: &str) -> (r: String)
    ensures
        r@ == redemption_of(rows@, invoice_id@),
{
    let n: usize = rows.len();
    let mut i: usize = 0;
    assert(rows@.subrange(0, n as int) == rows@);
    while i < n
        invariant
            i <= n == rows@.len(),
            redemption_of(rows@, invoice_id@) == redemption_of(
                rows@.subrange(i as int, n as int),
                invoice_id@,
            ),
        decreases n - i,
    {
        assert(rows@.subrange(i as int, n as int)[0] == rows@[i as int]);
        if same(rows[i].invoice_id.as_str(), invoice_id) {
            return rows[i].id.clone();
        }
        assert(rows@.subrange(i as int, n as int).subrange(1, n - i) == rows@.subrange(
            i + 1,
            n as int,
        ));
        i += 1;
    }
    String::new()
}

/// Is `r` the answer once the license was issued?
pub open spec fn is_redeem_answer(
    license_id: String,
    license: License,
    invoice_id: String,
    rows: Seq<Redemption>,
    secret: Seq<u8>,
    r: Result<RedeemResp, AppError>,
) -> bool {
    match r {
        Ok(resp) => {
            &&& has_uuids(license)
            &&& resp.license_id == license_id
            &&& resp.invoice_id == invoice_id
            &&& resp.redemption_id@ == redemption_of(rows, invoice_id@)
            &&& resp.license_key@ == key_of(secret, license)
            &&& read_key(resp.license_key@) is Ok
            &&& read_key(resp.license_key@)->Ok_0.payload == payload_of(license)
            &&& read_key(resp.license_key@)->Ok_0.verifies(ed25519_public(secret))
        },
        Err(e) => !has_uuids(license) && e.is_internal(bad_id_words("bad stored"@, license)),
    }
}

/// The answer once the license was issued: the key in it is the key of the
/// license row, which the server's public key accepts.
pub fn redeem_response(
    license_id: String,
    license: &License,
    invoice_id: String,
    rows: &Vec<Redemption>,
    signing_key: &SigningKey,
) -> (r: Result<RedeemResp, AppError>)
    requires
        entitlements_fit(license.entitlements@),
    ensures
        is_redeem_answer(license_id, *license, invoice_id, rows@, signing_key.secret@, r),
{
    match derive_key(signing_key, license, "bad stored") {
        Err(e) => Err(e),
        Ok(license_key) => {
            let redemption_id: String = redemption_id_of(rows, invoice_id.as_str());
            Ok(RedeemResp { license_id, license_key, invoice_id, redemption_id })
        },
    }
}

// ---------- giving the license ----------

/// A code to give a license for.
#[derive(Clone, Debug)]
pub struct Claim {
    pub code_id: String,
    pub product_id: String,
    pub policy_id: Option<String>,
}

/// What has been done for a claim so far. A field is `None` until it has been
/// done.
#[derive(Clone, Debug)]
pub struct ClaimFacts {
    pub slot: Option<Slot>,
    /// The identifier of an invoice that is settled already.
    pub invoice: Option<Result<String, AppError>>,
    /// Whether the use of the code is in the records.
    pub recorded: Option<Result<(), AppError>>,
    /// The identifier of the license that was issued.
    pub issued: Option<Result<String, AppError>>,
    /// The use of the code to cancel.
    pub pending: Option<Option<Redemption>>,
    /// Whether the slot was given back.
    pub returned: bool,
    pub license: Option<Option<License>>,
    /// The recorded uses of the code.
    pub rows: Option<Vec<Redemption>>,
}

impl ClaimFacts {
    /// Nothing has been done yet.
    pub fn new() -> (r: Self)
        ensures
            r == (ClaimFacts {
                slot: None,
                invoice: None,
                recorded: None,
                issued: None,
                pending: None,
                returned: false,
                license: None,
                rows: None,
            }),
    {
        ClaimFacts {
            slot: None,
            invoice: None,
            recorded: None,
            issued: None,
            pending: None,
            returned: false,
            license: None,
            rows: None,
        }
    }
}

/// What a claim needs next, or where it ends up.
#[derive(Clone, Debug)]
pub enum ClaimStep {
    ReserveSlot { code_id: String },
    /// Make an invoice over nothing that is settled already.
    CreateInvoice { row: FreeInvoiceRow },
    RecordRedemption { redemption: PendingRedemption },
    IssueLicense { invoice_id: String },
    ReleaseSlot { code_id: String },
    FindRedemption { invoice_id: String },
    CancelRedemption { redemption_id: String },
    FindLicense { invoice_id: String },
    ListRedemptions { code_id: String },
    Refuse { error: AppError },
    Answer { resp: RedeemResp },
}

/// Is `redemption` the use of a code for an invoice over nothing?
pub open spec fn is_free_redemption(
    code_id: Seq<char>,
    invoice_id: Seq<char>,
    redemption: PendingRedemption,
) -> bool {
    &&& redemption.code_id@ == code_id
    &&& redemption.invoice_id@ == invoice_id
    &&& redemption.discount_applied_sats == 0
    &&& redemption.base_price_sats == 0
    &&& redemption.final_price_sats == 0
}

/// Is `step` what a claim needs next whose slot is to be given back?
pub open spec fn is_releasing_step(
    claim: Claim,
    facts: ClaimFacts,
    error: AppError,
    step: ClaimStep,
) -> bool {
    if facts.returned {
        step == (ClaimStep::Refuse { error })
    } else {
        step == (ClaimStep::ReleaseSlot { code_id: claim.code_id })
    }
}

/// Is `step` what a claim needs next whose license could not be issued? The use
/// of the code that is in the records is cancelled, where it is found.
pub open spec fn is_cancelling_step(
    invoice_id: String,
    facts: ClaimFacts,
    error: AppError,
    step: ClaimStep,
) -> bool {
    match facts.pending {
        None => step == (ClaimStep::FindRedemption { invoice_id }),
        Some(Some(redemption)) if !facts.returned => step == (ClaimStep::CancelRedemption {
            redemption_id: redemption.id,
        }),
        _ => step == (ClaimStep::Refuse { error }),
    }
}

/// Is `step` what a claim needs next whose slot is reserved and whose invoice is
/// made?
pub open spec fn is_giving_step(
    claim: Claim,
    invoice_id: String,
    secret: Seq<u8>,
    facts: ClaimFacts,
    step: ClaimStep,
) -> bool {
    match facts.recorded {
        None => step matches ClaimStep::RecordRedemption { redemption } && is_free_redemption(
            claim.code_id@,
            invoice_id@,
            redemption,
        ),
        Some(Err(error)) => is_releasing_step(claim, facts, error, step),
        Some(Ok(_)) => match facts.issued {
            None => step == (ClaimStep::IssueLicense { invoice_id }),
            Some(Err(error)) => is_cancelling_step(invoice_id, facts, error, step),
            Some(Ok(license_id)) => match facts.license {
                None => step == (ClaimStep::FindLicense { invoice_id }),
                Some(None) => step matches ClaimStep::Refuse { error } && error.is_internal(
                    "license vanished after issue"@,
                ),
                Some(Some(license)) => match facts.rows {
                    None => step == (ClaimStep::ListRedemptions { code_id: claim.code_id }),
                    Some(rows) => match step {
                        ClaimStep::Answer { resp } => is_redeem_answer(
                            license_id,
                            license,
                            invoice_id,
                            rows@,
                            secret,
                            Ok(resp),
                        ),
                        ClaimStep::Refuse { error } => is_redeem_answer(
                            license_id,
                            license,
                            invoice_id,
                            rows@,
                            secret,
                            Err(error),
                        ),
                        _ => false,
                    },
                },
            },
        },
    }
}

/// Is `step` what a claim needs next? The slot comes first, then an invoice, the
/// use of the code, the license, and what the answer is made of.
pub open spec fn is_claim_step(
    claim: Claim,
    req: RedeemReq,
    secret: Seq<u8>,
    facts: ClaimFacts,
    step: ClaimStep,
) -> bool {
    match facts.slot {
        None => step == (ClaimStep::ReserveSlot { code_id: claim.code_id }),
        Some(Slot::NoneLeft { error }) => step == (ClaimStep::Refuse { error }),
        Some(Slot::Failed { error }) => step == (ClaimStep::Refuse { error }),
        Some(Slot::Reserved) => match facts.invoice {
            None => step == (ClaimStep::CreateInvoice {
                row: FreeInvoiceRow {
                    product_id: claim.product_id,
                    policy_id: claim.policy_id,
                    buyer_email: req.buyer_email,
                    buyer_note: req.buyer_note,
                },
            }),
            Some(Err(error)) => is_releasing_step(claim, facts, error, step),
            Some(Ok(invoice_id)) => is_giving_step(claim, invoice_id, secret, facts, step),
        },
    }
}

fn returning_step(
    claim: &Claim,
    invoice_id: &String,
    stage: RedeemStage,
    facts: &ClaimFacts,
    error: &AppError,
) -> (r: ClaimStep)
    ensures
        if stage is IssueLicense {
            is_cancelling_step(*invoice_id, *facts, *error, r)
        } else {
            is_releasing_step(*claim, *facts, *error, r)
        },
{
    match slot_return(stage) {
        SlotReturn::Release => if !facts.returned {
            return ClaimStep::ReleaseSlot { code_id: claim.code_id.clone() };
        },
        SlotReturn::CancelRedemption => match &facts.pending {
            None => {
                return ClaimStep::FindRedemption { invoice_id: invoice_id.clone() };
            },
            Some(Some(redemption)) => if !facts.returned {
                return ClaimStep::CancelRedemption { redemption_id: redemption.id.clone() };
            },
            Some(None) => {},
        },
    }
    ClaimStep::Refuse { error: error.copy() }
}

/// What a claim needs next, given what has been done so far.
pub fn give(claim: &Claim, req: &RedeemReq, signing_key: &SigningKey, facts: &ClaimFacts) -> (r:
    ClaimStep)
    requires
        facts.license matches Some(Some(license)) ==> entitlements_fit(license.entitlements@),
    ensures
        is_claim_step(*claim, *req, signing_key.secret@, *facts, r),
{
    match &facts.slot {
        None => {
            return ClaimStep::ReserveSlot { code_id: claim.code_id.clone() };
        },
        Some(Slot::NoneLeft { error }) => {
            return ClaimStep::Refuse { error: error.copy() };
        },
        Some(Slot::Failed { error }) => {
            return ClaimStep::Refuse { error: error.copy() };
        },
        Some(Slot::Reserved) => {},
    }
    let invoice_id: &String = match &facts.invoice {
        None => {
            return ClaimStep::CreateInvoice {
                row: FreeInvoiceRow {
                    product_id: claim.product_id.clone(),
                    policy_id: copy_opt(&claim.policy_id),
                    buyer_email: copy_opt(&req.buyer_email),
                    buyer_note: copy_opt(&req.buyer_note),
                },
            };
        },
        Some(Err(error)) => {
            let none: String = String::new();
            return returning_step(claim, &none, RedeemStage::CreateInvoice, facts, error);
        },
        Some(Ok(invoice_id)) => invoice_id,
    };
    match &facts.recorded {
        None => {
            return ClaimStep::RecordRedemption {
                redemption: free_redemption(claim.code_id.as_str(), invoice_id.as_str()),
            };
        },
        Some(Err(error)) => {
            return returning_step(claim, invoice_id, RedeemStage::RecordRedemption, facts, error);
        },
        Some(Ok(_)) => {},
    }
    let license_id: &String = match &facts.issued {
        None => {
            return ClaimStep::IssueLicense { invoice_id: invoice_id.clone() };
        },
        Some(Err(error)) => {
            return returning_step(claim, invoice_id, RedeemStage::IssueLicense, facts, error);
        },
        Some(Ok(license_id)) => license_id,
    };
    let license: &License = match &facts.license {
        None => {
            return ClaimStep::FindLicense { invoice_id: invoice_id.clone() };
        },
        Some(None) => {
            return ClaimStep::Refuse { error: license_vanished() };
        },
        Some(Some(license)) => license,
    };
    match &facts.rows {
        None => ClaimStep::ListRedemptions { code_id: claim.code_id.clone() },
        Some(rows) => {
            match redeem_response(
                license_id.clone(),
                license,
                invoice_id.clone(),
                rows,
                signing_key,
            ) {
                Ok(resp) => ClaimStep::Answer { resp },
                Err(error) => ClaimStep::Refuse { error },
            }
        },
    }
}

/// Nothing is given before a slot of the code is reserved.
pub proof fn slots_come_before_gifts(
    claim: Claim,
    req: RedeemReq,
    secret: Seq<u8>,
    facts: ClaimFacts,
    step: ClaimStep,
)
    requires
        is_claim_step(claim, req, secret, facts, step),
        !(step is ReserveSlot || step is Refuse),
    ensures
        facts.slot == Some(Slot::Reserved),
{
}

/// A claim that failed before its license was issued uses no code up: the slot
/// was given back, unless the use of the code was not in the records any more.
pub proof fn failed_claims_use_no_code_up(
    claim: Claim,
    req: RedeemReq,
    secret: Seq<u8>,
    facts: ClaimFacts,
    step: ClaimStep,
)
    requires
        is_claim_step(claim, req, secret, facts, step),
        facts.slot == Some(Slot::Reserved),
        step is Refuse,
        !(facts.issued matches Some(Ok(_))),
    ensures
        facts.returned || facts.pending == Some(None::<Redemption>),
{
}

} // verus!
