//! What holders of a license may do: cancel, change their tier, and have a lost
//! key again.

use crate::api::recover::{is_recover_step, RecoverFacts, RecoverReq, RecoverStep};
use crate::api::subscriptions::{
    is_admin_cancel_step, is_buyer_cancel_step, is_list_verdict, BuyerCancelReq, CancelFacts,
    CancelReq, CancelStep, Cancellation, ListQuery,
};
use crate::api::upgrade::{
    is_change_step, is_quote_step, is_start_step, ChangeFacts, ChangeOrder, ChangeStep,
    EffectiveAt, QuoteReq, StartReq, UpgradeFacts, UpgradeStep,
};
use crate::clock::{rfc3339_text, Moment};
use crate::codec::{sha256_hex, uuid_reading, uuid_text};
use crate::crypto::KeyModel;
use crate::error::AppError;
use crate::laws::machines::{is_no_key, is_signed_key};
use crate::licensing::key_of;
use crate::models::{Invoice, License, Policy, Subscription};
use crate::text::{is_white_space, trimmed, unicode_lower};
use vstd::prelude::*;

verus! {

// ---------- cancelling ----------

/// Does a cancellation tell of this subscription, by this actor and for the
/// reason that was given? A reason of nothing but white space counts as none.
pub open spec fn tells_of(
    c: Cancellation,
    sub: Subscription,
    actor: Seq<char>,
    reason: Option<String>,
) -> bool {
    &&& c.subscription_id@ == sub.id@
    &&& c.license_id@ == sub.license_id@
    &&& c.product_id@ == sub.product_id@
    &&& c.policy_id@ == sub.policy_id@
    &&& c.actor@ == actor
    &&& reason is None ==> c.reason is None
    &&& reason is Some && (forall|i: int|
        0 <= i < reason->0@.len() ==> is_white_space(#[trigger] reason->0@[i])) ==> c.reason is None
    &&& reason is Some && (exists|i: int|
        0 <= i < reason->0@.len() && !is_white_space(#[trigger] reason->0@[i])) ==> c.reason
        == reason
}

/// The operator cancels any subscription that is there. One that has ended
/// already is left, and the answer tells its state.
pub proof fn the_operator_cancels(
    id: Seq<char>,
    req: CancelReq,
    facts: CancelFacts,
    step: CancelStep,
)
    requires
        is_admin_cancel_step(id, req, facts, step),
    ensures
        facts.subscription is None ==> step is FindSubscription && step->FindSubscription_id@ == id,
        facts.subscription matches Some(None) ==> step is Refuse && (step->error is NotFound),
        facts.subscription matches Some(Some(sub)) ==> match facts.cancelled {
            None => step == (CancelStep::Cancel { id: sub.id }),
            Some(true) => step is Cancelled && tells_of(
                step->cancellation,
                sub,
                "admin"@,
                req.reason,
            ),
            Some(false) => step == (CancelStep::Already { status: sub.status, id: sub.id }),
        },
{
    if req.reason is Some {
        crate::laws::texts::blank_texts_are_white_space(req.reason->0@);
    }
}

/// A holder cancels the subscription of their own license, with its key, while
/// the license is neither revoked nor suspended.
pub proof fn holders_cancel_their_own(
    req: BuyerCancelReq,
    public: Seq<u8>,
    facts: CancelFacts,
    step: CancelStep,
    k: KeyModel,
)
    requires
        is_buyer_cancel_step(req, public, facts, step),
    ensures
        is_no_key(req.license_key@, public) ==> step is Refuse && (step->error is Unauthorized),
        is_signed_key(req.license_key@, public, k) ==> match facts.license {
            None => step is FindLicense && step->FindLicense_license_id@ == uuid_text(
                k.payload.license_id,
            ),
            Some(None) => step is Refuse && (step->error is Unauthorized),
            Some(Some(license)) => if license.revoked_at is Some || license.suspended_at is Some {
                step is Refuse && (step->error is Unauthorized)
            } else {
                match facts.subscription {
                    None => step is FindSubscriptionOfLicense
                        && step->FindSubscriptionOfLicense_license_id@ == uuid_text(
                        k.payload.license_id,
                    ),
                    Some(None) => step is Refuse && (step->error is NotFound),
                    Some(Some(sub)) => match facts.cancelled {
                        None => step == (CancelStep::Cancel { id: sub.id }),
                        Some(true) => step is Cancelled && tells_of(
                            step->cancellation,
                            sub,
                            "buyer"@,
                            req.reason,
                        ),
                        Some(false) => step == (CancelStep::Already {
                            status: sub.status,
                            id: sub.id,
                        }),
                    },
                }
            },
        },
{
    if req.reason is Some {
        crate::laws::texts::blank_texts_are_white_space(req.reason->0@);
    }
}

// ---------- changing the tier ----------

/// Does a holder ask with a key whose license is neither revoked nor suspended?
pub open spec fn may_change(
    key: Seq<char>,
    public: Seq<u8>,
    facts: UpgradeFacts,
    k: KeyModel,
    license: License,
) -> bool {
    &&& is_signed_key(key, public, k)
    &&& facts.license == Some(Some(license))
    &&& license.revoked_at is None
    &&& license.suspended_at is None
}

/// What is no key of the server's, or of a license that is unknown or withdrawn,
/// is refused; the tier is looked for among those of the license's product.
pub proof fn changes_need_a_living_license(
    req: StartReq,
    public: Seq<u8>,
    facts: UpgradeFacts,
    step: UpgradeStep,
    k: KeyModel,
)
    requires
        is_start_step(req, public, facts, step),
    ensures
        is_no_key(req.license_key@, public) ==> step is Refuse && (step->error is Unauthorized),
        is_signed_key(req.license_key@, public, k) ==> match facts.license {
            None => step is FindLicense && step->license_id@ == uuid_text(k.payload.license_id),
            Some(None) => step is Refuse && (step->error is Unauthorized),
            Some(Some(license)) => if license.revoked_at is Some || license.suspended_at is Some {
                step is Refuse && (step->error is Unauthorized)
            } else if facts.policy is None {
                step is FindPolicy && step->FindPolicy_product_id == license.product_id
                    && step->slug@ == req.target_policy_slug@
            } else if facts.policy->0 is None {
                step is Refuse && (step->error is NotFound)
            } else {
                facts.quote is None <==> step is Quote
            },
        },
{
}

/// A change for the better that costs something is charged what it costs in sats,
/// at least one; a change for the worse, or one that costs nothing, is not the
/// holder's to make.
pub proof fn better_tiers_are_charged(
    req: StartReq,
    public: Seq<u8>,
    facts: UpgradeFacts,
    step: UpgradeStep,
    k: KeyModel,
    license: License,
    policy: Policy,
)
    requires
        is_start_step(req, public, facts, step),
        may_change(req.license_key@, public, facts, k, license),
        facts.policy == Some(Some(policy)),
        facts.quote is Some,
    ensures
        facts.quote->0.direction is Downgrade ==> step is Refuse && (step->error is Forbidden),
        facts.quote->0.direction is Upgrade && facts.quote->0.proration_charge_value <= 0 ==> step
            is Refuse && (step->error is BadRequest),
        facts.quote->0.direction is Upgrade && facts.quote->0.proration_charge_value > 0
            ==> match facts.conversion {
            None => step is Convert && step->currency@ == facts.quote->0.listed_currency@
                && step->value == facts.quote->0.proration_charge_value,
            Some(c) => {
                &&& step is Charge
                &&& c.sats >= 1 ==> step->amount_sats == c.sats
                &&& c.sats < 1 ==> step->amount_sats == 1
                &&& step->buyer_email == license.buyer_email
                &&& step->Charge_product_id == policy.product_id
            },
        },
{
}

/// Who asks what a change costs is told what it costs, and is charged nothing.
pub proof fn costs_are_told(
    req: QuoteReq,
    public: Seq<u8>,
    facts: UpgradeFacts,
    step: UpgradeStep,
    k: KeyModel,
    license: License,
    policy: Policy,
)
    requires
        is_quote_step(req, public, facts, step),
    ensures
        !(step is Charge),
        is_no_key(req.license_key@, public) ==> step is Refuse && (step->error is Unauthorized),
        may_change(req.license_key@, public, facts, k, license) && facts.policy == Some(
            Some(policy),
        ) ==> {
            &&& facts.quote is None ==> step is Quote
            &&& facts.quote is Some ==> step == (UpgradeStep::Tell { quote: facts.quote->0 })
        },
{
}

/// A change is charged to the buyer of the license, for the invoice's identifier,
/// and names the license and both tiers; it is kept with its invoice, and waits
/// for that.
pub proof fn changes_wait_for_their_invoice(
    order: ChangeOrder,
    req: StartReq,
    base: Seq<char>,
    now: Moment,
    facts: ChangeFacts,
    step: ChangeStep,
)
    requires
        is_change_step(order, req, base, now, facts, step),
    ensures
        facts.provider is None <==> step is FindProvider,
        facts.provider matches Some(Err(e)) ==> step == (ChangeStep::Refuse {
            error: facts.provider->0->Err_0,
        }),
        (facts.provider matches Some(Ok(_))) && facts.charged is None <==> step is CreateInvoice,
        step matches ChangeStep::CreateInvoice { charge } ==> {
            &&& charge.amount_sats == order.amount_sats
            &&& charge.order_id@ == order.invoice_id@
            &&& charge.buyer_email == order.license.buyer_email
            &&& charge.product_id@ == order.product_id@
            &&& charge.change is Some
            &&& charge.change->0.license_id@ == order.license.id@
            &&& charge.change->0.from_policy_id@ == order.quote.from_policy_id@
            &&& charge.change->0.to_policy_id@ == order.quote.to_policy_id@
            &&& req.redirect_url is Some && req.redirect_url->0@.len() > 0 ==> charge.redirect_url@
                == req.redirect_url->0@
            &&& req.redirect_url is None || req.redirect_url->0@.len() == 0 ==> charge.redirect_url@
                == base + "/thank-you?invoice_id="@ + order.invoice_id@
        },
        step matches ChangeStep::StoreInvoice { row } ==> {
            &&& facts.charged matches Some(Ok(made)) && row.provider_invoice_id@ == made.id@
                && row.checkout_url@ == made.checkout_url@
            &&& row.id@ == order.invoice_id@
            &&& row.amount_sats == order.amount_sats
            &&& row.product_id@ == order.product_id@
            &&& row.buyer_email == order.license.buyer_email
            &&& row.policy_id is Some && row.policy_id->0@ == order.quote.to_policy_id@
            &&& row.listed_currency is Some && row.listed_currency->0@
                == order.quote.listed_currency@
            &&& row.listed_value == Some(order.quote.proration_charge_value)
            &&& row.exchange_rate_centibps == order.conversion.rate_centibps
            &&& row.exchange_rate_source == Some(order.conversion.source)
            &&& row.buyer_note is Some && row.buyer_note->0@ == "tier upgrade"@
        },
        step matches ChangeStep::RecordChange { change } ==> {
            &&& facts.stored matches Some(Ok(id)) && change.invoice_id@ == id@
            &&& change.license_id@ == order.license.id@
            &&& change.from_policy_id@ == order.quote.from_policy_id@
            &&& change.to_policy_id@ == order.quote.to_policy_id@
            &&& change.direction == order.quote.direction
            &&& change.proration_charge_value == order.quote.proration_charge_value
            &&& change.actor@ == "buyer"@
            &&& order.quote.effective_at is Immediate ==> change.effective_at@ == rfc3339_text(
                now.secs,
                now.nanos,
            )
            &&& order.quote.effective_at matches EffectiveAt::At { time } ==> change.effective_at@
                == time@
        },
        step is Answer <==> (facts.provider matches Some(Ok(_))) && (facts.charged matches Some(
            Ok(_),
        )) && (facts.stored matches Some(Ok(_))) && (facts.recorded matches Some(Ok(_))),
        step matches ChangeStep::Answer { started } ==> {
            &&& started.invoice_id == facts.stored->0->Ok_0
            &&& started.tier_change_id == facts.recorded->0->Ok_0
            &&& started.checkout_url == facts.charged->0->Ok_0.checkout_url
            &&& started.amount_sats == order.amount_sats
        },
{
}

// ---------- having a key again ----------

/// The buyer of a paid invoice has the key of its license again, with the address
/// that the invoice was bought with; nobody else learns anything.
pub proof fn buyers_have_their_key_again(
    req: RecoverReq,
    forwarded_for: Option<Seq<char>>,
    secret: Seq<u8>,
    facts: RecoverFacts,
    step: RecoverStep,
    invoice: Invoice,
)
    requires
        is_recover_step(req, forwarded_for, secret, facts, step),
        facts.admitted == Some(true),
        trimmed(req.invoice_id@).len() > 0,
        unicode_lower(trimmed(req.email@)).len() > 0,
    ensures
        facts.invoice is None <==> step is FindInvoice,
        step is FindInvoice ==> step->FindInvoice_invoice_id@ == trimmed(req.invoice_id@),
        facts.invoice matches Some(None) ==> step is Refuse && (step->error is NotFound),
        facts.invoice == Some(Some(invoice)) && (invoice.status@ != "settled"@
            || invoice.buyer_email is None || unicode_lower(trimmed(invoice.buyer_email->0@))
            != unicode_lower(trimmed(req.email@))) ==> step is Refuse && (step->error is NotFound),
        facts.invoice == Some(Some(invoice)) && invoice.status@ == "settled"@
            && invoice.buyer_email is Some && unicode_lower(trimmed(invoice.buyer_email->0@))
            == unicode_lower(trimmed(req.email@)) ==> match facts.license {
            None => step == (RecoverStep::FindLicense { invoice_id: invoice.id }),
            Some(None) => step is Refuse && (step->error is NotFound),
            Some(Some(license)) => {
                &&& license.status@ != "active"@ ==> step is Refuse && (step->error is NotFound)
                &&& license.status@ == "active"@ && uuid_reading(license.id@) is Ok
                    && uuid_reading(license.product_id@) is Ok ==> {
                    &&& step is Answer
                    &&& step->recovered.license_key@ == key_of(secret, license)
                    &&& step->recovered.license_id@ == license.id@
                    &&& step->recovered.product_id@ == license.product_id@
                    &&& step->recovered.issued_at@ == license.issued_at@
                    &&& step->recovered.expires_at == license.expires_at
                    &&& step->recovered.invoice_id@ == invoice.id@
                    &&& step->recovered.email_hash@ == sha256_hex(
                        unicode_lower(trimmed(req.email@)),
                    )
                    &&& step->recovered.entitlements@.len() == license.entitlements@.len()
                }
            },
        },
{
    if facts.license is Some && facts.license->0 is Some && step is Answer {
        let a = crate::text::texts(step->recovered.entitlements@);
        let b = crate::text::texts(facts.license->0->0.entitlements@);
        assert(a.len() == step->recovered.entitlements@.len());
        assert(b.len() == facts.license->0->0.entitlements@.len());
    }
}

/// Attempts are counted first, by the client that asks; too many are held back,
/// and one that leaves a field out is refused.
pub proof fn recovery_is_rate_limited(
    req: RecoverReq,
    forwarded_for: Option<Seq<char>>,
    secret: Seq<u8>,
    facts: RecoverFacts,
    step: RecoverStep,
)
    requires
        is_recover_step(req, forwarded_for, secret, facts, step),
    ensures
        facts.admitted is None <==> step is ConsumeToken,
        facts.admitted is None && forwarded_for is None ==> step->bucket@ == "_lan_"@,
        facts.admitted == Some(false) ==> step is Refuse && (step->error is TooManyRequests),
        facts.admitted == Some(true) && (trimmed(req.invoice_id@).len() == 0 || unicode_lower(
            trimmed(req.email@),
        ).len() == 0) ==> step is Refuse && (step->error is BadRequest),
{
}

/// Subscriptions are listed whole, or those of one of the four states that there
/// are.
pub proof fn subscriptions_are_listed_by_state(q: ListQuery, r: Result<(), AppError>)
    requires
        is_list_verdict(q, r),
    ensures
        q.status is None ==> r is Ok,
        q.status is Some ==> (r is Ok <==> q.status->0@ == "active"@ || q.status->0@ == "past_due"@
            || q.status->0@ == "cancelled"@ || q.status->0@ == "lapsed"@),
        r is Err ==> (r->Err_0 is BadRequest),
{
}

} // verus!
