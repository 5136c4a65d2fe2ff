//! What a payment brings about.

use crate::api::records::{LicenseRow, LicenseSource};
use crate::api::webhook::{
    expiry_text, is_issuance, is_issued_step, is_purchased_row, is_tier_change_step,
    is_webhook_step, issuing_policy, Confirmation, Issuance, IssuedFacts, IssuedStep,
    ProviderWebhookEvent, TierChangeFacts, TierChangeRow, TierChangeStep, WebhookFacts,
    WebhookStep,
};
use crate::clock::{rfc3339_text, Moment};
use crate::models::{Invoice, License, Policy, Product};
use crate::text::opt_text;
use vstd::prelude::*;

verus! {

// ---------- notices ----------

/// Is a notice the provider's, that this invoice was paid?
pub open spec fn says_paid(event: Option<ProviderWebhookEvent>, id: String) -> bool {
    &&& event is Some
    &&& event->0.kind is InvoiceSettled
    &&& event->0.provider_invoice_id == Some(id)
}

/// Has the provider confirmed a payment?
pub open spec fn is_sure(facts: WebhookFacts) -> bool {
    facts.confirmation is Some && facts.confirmation->0 is Settled
}

/// A notice that is not the provider's is rejected; one that names no invoice, or
/// says nothing of its state, changes nothing.
pub proof fn strange_notices_change_nothing(
    event: Option<ProviderWebhookEvent>,
    facts: WebhookFacts,
    step: WebhookStep,
)
    requires
        is_webhook_step(event, facts, step),
    ensures
        event is None <==> step is Reject,
        step is Reject ==> (step->error is Unauthorized),
        event is Some && event->0.provider_invoice_id is None ==> step is Acknowledge,
        event is Some && (event->0.kind is Other || event->0.kind is InvoiceRefunded) ==> step
            is Acknowledge,
{
}

/// A notice of payment is put to the provider before anything is done; what the
/// provider does not confirm is acknowledged and left.
pub proof fn payments_are_confirmed_first(
    event: Option<ProviderWebhookEvent>,
    facts: WebhookFacts,
    step: WebhookStep,
    id: String,
)
    requires
        is_webhook_step(event, facts, step),
        says_paid(event, id),
    ensures
        facts.confirmation is None <==> step is Confirm,
        step is Confirm ==> step->Confirm_provider_invoice_id == id,
        facts.confirmation is Some && !(facts.confirmation->0 is Settled) ==> step is Acknowledge,
        is_sure(facts) && !facts.status_stored ==> {
            &&& step is StoreStatus
            &&& step->StoreStatus_provider_invoice_id == id
            &&& step->status@ == "settled"@
        },
        is_sure(facts) && facts.status_stored && facts.invoice is None ==> step == (
        WebhookStep::FindInvoice { provider_invoice_id: id }),
        is_sure(facts) && facts.status_stored && facts.invoice == Some(None::<Invoice>) ==> step
            is Acknowledge,
{
}

/// What a confirmed payment of a known invoice paid for is given: the tier change
/// that waits for it, or else the renewal of its subscription and the license,
/// once. It is acknowledged only where no change waits and the license is there.
pub proof fn confirmed_payments_are_honoured(
    event: Option<ProviderWebhookEvent>,
    facts: WebhookFacts,
    step: WebhookStep,
    id: String,
    invoice: Invoice,
)
    requires
        is_webhook_step(event, facts, step),
        says_paid(event, id),
        is_sure(facts),
        facts.status_stored,
        facts.invoice == Some(Some(invoice)),
    ensures
        !facts.amount_audited <==> step is AuditAmount,
        step is AuditAmount ==> (facts.confirmation->0 matches Confirmation::Settled { amount }
            && step->amount == amount),
        facts.amount_audited ==> {
            &&& facts.tier_change is None <==> step is FindTierChange
            &&& step is FindTierChange ==> step->FindTierChange_invoice_id == invoice.id
            &&& facts.tier_change is Some && facts.tier_change->0 is Some ==> step == (
            WebhookStep::ApplyTierChange { invoice_id: invoice.id })
            &&& facts.tier_change is Some && facts.tier_change->0 is None ==> {
                &&& !facts.subscription_renewed ==> step == (WebhookStep::RenewSubscription {
                    invoice_id: invoice.id,
                })
                &&& facts.subscription_renewed && facts.license_exists is None ==> step == (
                WebhookStep::FindLicense { invoice_id: invoice.id })
                &&& facts.subscription_renewed && facts.license_exists == Some(false) ==> step == (
                WebhookStep::IssueLicense { invoice_id: invoice.id })
            }
        },
        step is Acknowledge <==> {
            &&& facts.amount_audited
            &&& facts.tier_change is Some && facts.tier_change->0 is None
            &&& facts.subscription_renewed
            &&& facts.license_exists == Some(true)
        },
{
}

/// An invoice that expired, or that the provider calls invalid, is stored as
/// that, and the slot of a code that was held for it is given back.
pub proof fn unpaid_invoices_are_closed(
    event: Option<ProviderWebhookEvent>,
    facts: WebhookFacts,
    step: WebhookStep,
    id: String,
)
    requires
        is_webhook_step(event, facts, step),
        event is Some,
        event->0.kind is InvoiceExpired || event->0.kind is InvoiceInvalid,
        event->0.provider_invoice_id == Some(id),
    ensures
        !facts.status_stored ==> {
            &&& step is StoreStatus
            &&& step->StoreStatus_provider_invoice_id == id
            &&& event->0.kind is InvoiceExpired ==> step->status@ == "expired"@
            &&& event->0.kind is InvoiceInvalid ==> step->status@ == "invalid"@
        },
        facts.status_stored && facts.invoice is None ==> step is FindInvoice,
        facts.status_stored && (facts.invoice matches Some(Some(i)) && facts.redemption is None)
            ==> step == (WebhookStep::FindRedemption { invoice_id: facts.invoice->0->0.id }),
        facts.status_stored && (facts.invoice matches Some(Some(i)))
            && (facts.redemption matches Some(Some(r)) && !facts.redemption_cancelled) ==> step == (
        WebhookStep::CancelRedemption { redemption_id: facts.redemption->0->0.id }),
        facts.status_stored ==> step is FindInvoice || step is FindRedemption || step
            is CancelRedemption || step is Acknowledge,
        step is Acknowledge ==> facts.status_stored && facts.invoice is Some && (facts.invoice->0
            is Some ==> facts.redemption is Some && (facts.redemption->0 is Some
            ==> facts.redemption_cancelled)),
{
}

// ---------- licenses ----------

proof fn lemma_first_default(policies: Seq<Policy>)
    ensures
        match crate::api::webhook::first_default(policies) {
            Some(p) => exists|i: int|
                0 <= i < policies.len() && #[trigger] policies[i] == p && p.slug@ == "default"@ && (
                forall|j: int| 0 <= j < i ==> (#[trigger] policies[j]).slug@ != "default"@),
            None => forall|j: int|
                0 <= j < policies.len() ==> (#[trigger] policies[j]).slug@ != "default"@,
        },
    decreases policies.len(),
{
    if policies.len() > 0 {
        let front = policies.drop_last();
        lemma_first_default(front);
        match crate::api::webhook::first_default(front) {
            Some(p) => {
                let i = choose|i: int|
                    0 <= i < front.len() && #[trigger] front[i] == p && p.slug@ == "default"@ && (
                    forall|j: int| 0 <= j < i ==> (#[trigger] front[j]).slug@ != "default"@);
                assert(policies[i] == p);
                assert forall|j: int| 0 <= j < i implies (#[trigger] policies[j]).slug@
                    != "default"@ by {
                    assert(front[j] == policies[j]);
                }
            },
            None => {
                assert forall|j: int| 0 <= j < policies.len() - 1 implies (
                #[trigger] policies[j]).slug@ != "default"@ by {
                    assert(front[j] == policies[j]);
                }
                if policies.last().slug@ == "default"@ {
                    assert(policies[policies.len() - 1] == policies.last());
                }
            },
        }
    }
}

/// A license is issued under the tier that was bought; where none was named, under
/// the first of the product's that is called `default`, or else under the first.
pub proof fn licenses_follow_the_tier_that_was_bought(
    invoice: Invoice,
    named: Option<Policy>,
    active: Seq<Policy>,
    k: int,
)
    ensures
        invoice.policy_id is Some ==> issuing_policy(invoice, named, active) == named,
        invoice.policy_id is None && 0 <= k < active.len() && active[k].slug@ == "default"@ && (
        forall|j: int| 0 <= j < k ==> (#[trigger] active[j]).slug@ != "default"@)
            ==> issuing_policy(invoice, named, active) == Some(active[k]),
        invoice.policy_id is None && active.len() > 0 && (forall|j: int|
            0 <= j < active.len() ==> (#[trigger] active[j]).slug@ != "default"@)
            ==> issuing_policy(invoice, named, active) == Some(active[0]),
        invoice.policy_id is None && active.len() == 0 ==> issuing_policy(invoice, named, active)
            is None,
{
    lemma_first_default(active);
    if invoice.policy_id is None && 0 <= k < active.len() && active[k].slug@ == "default"@ && (
    forall|j: int| 0 <= j < k ==> (#[trigger] active[j]).slug@ != "default"@) {
        match crate::api::webhook::first_default(active) {
            Some(p) => {
                let i = choose|i: int|
                    0 <= i < active.len() && #[trigger] active[i] == p && p.slug@ == "default"@ && (
                    forall|j: int| 0 <= j < i ==> (#[trigger] active[j]).slug@ != "default"@);
                assert(active[i] == p);
                assert(i == k);
            },
            None => {
                assert(active[k].slug@ != "default"@);
            },
        }
    }
}

/// A license lasts as long as its tier says: to the end of the free days where the
/// tier begins with some, or else for the tier's own duration, or without end. It
/// grants what the tier grants, to the buyer and for the product of the invoice.
pub proof fn licenses_last_as_their_tier_says(
    invoice: Invoice,
    named: Option<Policy>,
    active: Seq<Policy>,
    now: Moment,
    r: Issuance,
    p: Policy,
)
    requires
        is_issuance(invoice, named, active, now, r),
        invoice.policy_id is Some,
        named == Some(p),
        now.nanos < 1_000_000_000,
    ensures
        r.product_id == invoice.product_id,
        r.invoice_id == invoice.id,
        r.buyer_email == invoice.buyer_email,
        r.amount_sats == invoice.amount_sats,
        r.terms.issued_at@ == rfc3339_text(now.secs, now.nanos),
        p.is_recurring && p.trial_days > 0 ==> {
            &&& r.terms.is_trial
            &&& r.terms.expires_at is Some
            &&& r.terms.expires_at->0@ == rfc3339_text(
                (now.secs + p.trial_days * 86_400) as i64,
                now.nanos,
            )
        },
        !(p.is_recurring && p.trial_days > 0) ==> {
            &&& r.terms.is_trial == p.is_trial
            &&& p.duration_seconds == 0 ==> r.terms.expires_at is None
            &&& p.duration_seconds != 0 ==> r.terms.expires_at is Some
                && r.terms.expires_at->0@ == rfc3339_text(
                (now.secs + p.duration_seconds) as i64,
                now.nanos,
            )
        },
        r.terms.policy_id == Some(p.id),
        r.terms.grace_seconds == p.grace_seconds,
        r.terms.max_machines == p.max_machines,
        r.terms.entitlements@.len() == p.entitlements@.len(),
        forall|i: int|
            0 <= i < p.entitlements@.len() ==> (#[trigger] r.terms.entitlements@[i])@
                == p.entitlements@[i]@,
        r.tip <==> p.tip_recipient is Some && p.tip_pct_bps > 0,
{
    assert(opt_text(r.terms.expires_at) == expiry_text(
        now,
        crate::api::webhook::first_duration(Some(p)),
    ));
    let a = crate::text::texts(r.terms.entitlements@);
    let b = crate::text::texts(p.entitlements@);
    assert(a.len() == b.len());
    assert forall|i: int| 0 <= i < p.entitlements@.len() implies (
    #[trigger] r.terms.entitlements@[i])@ == p.entitlements@[i]@ by {
        assert(a[i] == b[i]);
    }
}

/// A product without a tier gives a license without end, for one machine, with no
/// entitlements and no subscription.
pub proof fn licenses_without_a_tier_are_plain(
    invoice: Invoice,
    named: Option<Policy>,
    active: Seq<Policy>,
    now: Moment,
    r: Issuance,
)
    requires
        is_issuance(invoice, named, active, now, r),
        invoice.policy_id is None,
        active.len() == 0,
    ensures
        r.terms.policy_id is None,
        r.terms.expires_at is None,
        r.terms.grace_seconds == 0,
        r.terms.max_machines == 1,
        !r.terms.is_trial,
        r.terms.entitlements@.len() == 0,
        r.subscription is None,
        !r.tip,
{
}

/// A tier that is renewed opens a subscription, at the price that was listed, and
/// no other does. Its first cycle is the free days, or else a whole period.
pub proof fn renewed_tiers_open_subscriptions(
    invoice: Invoice,
    named: Option<Policy>,
    active: Seq<Policy>,
    now: Moment,
    r: Issuance,
    p: Policy,
)
    requires
        is_issuance(invoice, named, active, now, r),
        invoice.policy_id is Some,
        named == Some(p),
        now.nanos < 1_000_000_000,
    ensures
        r.subscription is Some <==> p.is_recurring,
        r.subscription matches Some(sub) ==> {
            &&& sub.policy_id == p.id
            &&& sub.product_id == invoice.product_id
            &&& sub.invoice_id == invoice.id
            &&& sub.payment_provider_id == invoice.payment_provider_id
            &&& p.renewal_period_days >= 1 ==> sub.period_days == p.renewal_period_days
            &&& p.renewal_period_days < 1 ==> sub.period_days == 1
            &&& p.trial_days > 0 ==> sub.first_cycle_days == p.trial_days
            &&& p.trial_days <= 0 ==> sub.first_cycle_days == sub.period_days
            &&& invoice.listed_currency is Some ==> sub.listed_currency@
                == invoice.listed_currency->0@
            &&& invoice.listed_currency is None ==> sub.listed_currency@ == "SAT"@
            &&& invoice.listed_value is Some ==> sub.listed_value == invoice.listed_value->0
            &&& invoice.listed_value is None ==> sub.listed_value == invoice.amount_sats
            &&& p.trial_days > 0 && p.trial_days != sub.period_days ==> r.next_renewal_at is Some
                && r.next_renewal_at->0@ == rfc3339_text(
                (now.secs + p.trial_days * 86_400) as i64,
                now.nanos,
            )
            &&& p.trial_days <= 0 ==> r.next_renewal_at is None
        },
{
}

/// Once a license is issued, the subscription that comes with it is opened unless
/// one is there, the tip goes out where one is due, the license is announced, and
/// the use of a code that was held for it is counted and announced. Nothing is
/// done twice, and nothing is left out.
pub proof fn what_comes_with_a_license_is_done(
    issuance: Issuance,
    license_id: Seq<char>,
    facts: IssuedFacts,
    step: IssuedStep,
)
    requires
        is_issued_step(issuance, license_id, facts, step),
    ensures
        step is FindSubscription ==> issuance.subscription is Some && facts.subscription_exists
            is None,
        step is OpenSubscription ==> {
            &&& issuance.subscription is Some
            &&& facts.subscription_exists == Some(false)
            &&& !facts.subscription_opened
            &&& step->OpenSubscription_license_id@ == license_id
            &&& facts.profile_id is Some && step->profile_id == facts.profile_id->0
        },
        step is StartTip ==> issuance.tip && !facts.tip_started && step->StartTip_license_id@
            == license_id && step->amount_sats == issuance.amount_sats,
        step matches IssuedStep::AnnounceLicense { event } ==> {
            &&& !facts.license_announced
            &&& event.license_id@ == license_id
            &&& event.product_id == issuance.product_id
            &&& event.invoice_id == issuance.invoice_id
            &&& event.policy_id == issuance.terms.policy_id
            &&& event.is_trial == issuance.terms.is_trial
            &&& event.expires_at == issuance.terms.expires_at
            &&& event.entitlements@ == issuance.terms.entitlements@
        },
        step is MarkRedeemed ==> !facts.redemption_marked && (
        facts.redemption matches Some(Some(r)) && step->redemption_id == r.id)
            && step->MarkRedeemed_license_id@ == license_id,
        step matches IssuedStep::AnnounceRedemption { event } ==> !facts.redemption_announced && (
        facts.redemption matches Some(Some(r)) && event.redemption_id == r.id && event.code_id
            == r.code_id && event.discount_applied_sats == r.discount_applied_sats
            && event.base_price_sats == r.base_price_sats && event.final_price_sats
            == r.final_price_sats) && event.license_id@ == license_id && event.invoice_id
            == issuance.invoice_id && event.product_id == issuance.product_id,
        step is Done <==> {
            &&& issuance.subscription is None || facts.subscription_exists == Some(true)
                || facts.subscription_opened
            &&& issuance.tip ==> facts.tip_started
            &&& facts.license_announced
            &&& facts.redemption is Some
            &&& facts.redemption->0 is Some ==> facts.redemption_marked && facts.code is Some
                && facts.redemption_announced
        },
{
}

// ---------- tier changes ----------

/// A change that was paid for moves its license to the tier that was bought, once:
/// a license that is on that tier already is left alone.
pub proof fn paid_changes_move_the_license(
    invoice_id: Seq<char>,
    change: TierChangeRow,
    facts: TierChangeFacts,
    step: TierChangeStep,
    license: License,
    policy: Policy,
    product: Product,
)
    requires
        is_tier_change_step(invoice_id, change, facts, step),
        facts.license == Some(Some(license)),
        facts.target_policy == Some(Some(policy)),
        facts.product == Some(Some(product)),
    ensures
        license.policy_id is Some && license.policy_id->0@ == policy.id@ ==> step is AlreadyApplied,
        license.policy_id is None || license.policy_id->0@ != policy.id@ ==> {
            &&& step is Apply
            &&& step->event.license_id == license.id
            &&& step->event.from_policy_id == change.from_policy_id
            &&& step->event.to_policy_id == change.to_policy_id
            &&& step->event.to_policy_slug == policy.slug
            &&& step->event.product_id == product.id
            &&& step->event.direction == change.direction
            &&& step->event.actor == change.actor
            &&& step->event.invoice_id@ == invoice_id
            &&& step->event.tier_change_id == change.id
        },
{
}

/// A change looks up its license, then the tier it leads to, then the product of
/// that tier, and fails where one of them is gone.
pub proof fn changes_look_up_what_they_need(
    invoice_id: Seq<char>,
    change: TierChangeRow,
    facts: TierChangeFacts,
    step: TierChangeStep,
)
    requires
        is_tier_change_step(invoice_id, change, facts, step),
    ensures
        facts.license is None ==> step == (TierChangeStep::FindLicense {
            license_id: change.license_id,
        }),
        facts.license matches Some(None) ==> step is Fail,
        facts.license matches Some(Some(_)) && facts.target_policy is None ==> step == (
        TierChangeStep::FindPolicy { policy_id: change.to_policy_id }),
        (facts.license matches Some(Some(_))) && (facts.target_policy matches Some(None)) ==> step
            is Fail,
        (facts.license matches Some(Some(_))) && (facts.target_policy matches Some(Some(p))
            && facts.product is None) ==> step == (TierChangeStep::FindProduct {
            product_id: facts.target_policy->0->0.product_id,
        }),
        step is Apply ==> (facts.license matches Some(Some(_))) && (
        facts.target_policy matches Some(Some(_))) && (facts.product matches Some(Some(_))),
{
}

/// The license that is kept is for the product and the invoice that were paid, and
/// grants what was decided, whole.
pub proof fn paid_licenses_are_kept_whole(
    invoice: Invoice,
    issuance: Issuance,
    license_id: Seq<char>,
    r: LicenseRow,
)
    requires
        is_purchased_row(invoice, issuance, license_id, r),
    ensures
        r.id@ == license_id,
        r.product_id == issuance.product_id,
        r.invoice_id == Some(issuance.invoice_id),
        r.terms.policy_id == issuance.terms.policy_id,
        r.terms.issued_at == issuance.terms.issued_at,
        r.terms.expires_at == issuance.terms.expires_at,
        r.terms.grace_seconds == issuance.terms.grace_seconds,
        r.terms.max_machines == issuance.terms.max_machines,
        r.terms.is_trial == issuance.terms.is_trial,
        r.terms.entitlements@ == issuance.terms.entitlements@,
        r.source == (LicenseSource::Purchase { provider_invoice_id: invoice.btcpay_invoice_id }),
        r.buyer_email == issuance.buyer_email,
        r.nostr_npub is None,
{
}

} // verus!
