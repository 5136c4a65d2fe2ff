//! What a payment provider's notice brings about.
//!
//! A notice that an invoice was paid is never believed on its own: the
//! provider is asked, and only its answer settles the invoice, applies a tier
//! change, renews a subscription or issues a license. Notices come more than
//! once, so a license that was issued is not issued again.

use crate::api::records::{LicenseRow, LicenseSource};
use crate::clock::{rfc3339_moment, rfc3339_text, to_rfc3339, Moment};
use crate::error::AppError;
use crate::models::{Invoice, License, Money, Policy, Product, Redemption};
use crate::text::{cat3, copy_of, copy_opt, opt_text, same, texts};
use vstd::prelude::*;

verus! {

/// What a provider says happened to an invoice.
#[derive(Clone, Copy, Debug, PartialEq, Eq)]
pub enum EventKind {
    InvoiceSettled,
    InvoiceExpired,
    InvoiceInvalid,
    InvoiceRefunded,
    Other,
}

/// A notice whose origin the provider's own scheme has vouched for.
#[derive(Clone, Debug)]
pub struct ProviderWebhookEvent {
    pub kind: EventKind,
    pub provider_invoice_id: Option<String>,
}

/// What the provider answers when it is asked about an invoice.
#[derive(Clone, Debug)]
pub enum Confirmation {
    /// Paid, with the amount where the provider tells one.
    Settled { amount: Option<Money> },
    /// In any other state.
    NotSettled,
    /// No answer.
    Unreachable,
}

/// A tier change that waits for its invoice.
#[derive(Clone, Debug)]
pub struct TierChangeRow {
    pub id: String,
    pub license_id: String,
    pub from_policy_id: String,
    pub to_policy_id: String,
    /// `upgrade` or `downgrade`.
    pub direction: String,
    /// Who asked for it.
    pub actor: String,
}

/// What has been found out and done about a notice so far. An optional field
/// is `None` until it has been found out.
#[derive(Clone, Debug)]
pub struct WebhookFacts {
    pub confirmation: Option<Confirmation>,
    pub status_stored: bool,
    pub invoice: Option<Option<Invoice>>,
    pub redemption: Option<Option<Redemption>>,
    pub redemption_cancelled: bool,
    pub amount_audited: bool,
    pub tier_change: Option<Option<TierChangeRow>>,
    pub subscription_renewed: bool,
    pub license_exists: Option<bool>,
}

/// What a notice needs done next.
#[derive(Clone, Debug)]
pub enum WebhookStep {
    /// The notice is not the provider's.
    Reject { error: AppError },
    /// Nothing more is to be done; the provider is told so.
    Acknowledge,
    /// Ask the provider for the invoice's state.
    Confirm { provider_invoice_id: String },
    StoreStatus { provider_invoice_id: String, status: String },
    FindInvoice { provider_invoice_id: String },
    /// Find the use of a code that waits for the invoice.
    FindRedemption { invoice_id: String },
    /// Give the code's slot back.
    CancelRedemption { redemption_id: String },
    /// Hold the amount against what was charged.
    AuditAmount { amount: Option<Money> },
    FindTierChange { invoice_id: String },
    ApplyTierChange { invoice_id: String },
    RenewSubscription { invoice_id: String },
    FindLicense { invoice_id: String },
    IssueLicense { invoice_id: String },
}

/// The state that a notice puts an invoice in, where it does.
pub open spec fn status_after(kind: EventKind) -> Option<Seq<char>> {
    match kind {
        EventKind::InvoiceSettled => Some("settled"@),
        EventKind::InvoiceExpired => Some("expired"@),
        EventKind::InvoiceInvalid => Some("invalid"@),
        EventKind::InvoiceRefunded => None,
        EventKind::Other => None,
    }
}

fn new_status(kind: EventKind) -> (r: Option<String>)
    ensures
        opt_text(r) == status_after(kind),
{
    match kind {
        EventKind::InvoiceSettled => Some(String::from_str("settled")),
        EventKind::InvoiceExpired => Some(String::from_str("expired")),
        EventKind::InvoiceInvalid => Some(String::from_str("invalid")),
        EventKind::InvoiceRefunded => None,
        EventKind::Other => None,
    }
}

/// Is `step` what an invoice that was paid, as the provider confirmed, needs
/// next?
pub open spec fn is_step_of_settled(
    provider_invoice_id: String,
    amount: Option<Money>,
    facts: WebhookFacts,
    step: WebhookStep,
) -> bool {
    match facts.invoice {
        None => step == (WebhookStep::FindInvoice { provider_invoice_id }),
        Some(None) => step is Acknowledge,
        Some(Some(invoice)) => if !facts.amount_audited {
            step == (WebhookStep::AuditAmount { amount })
        } else {
            match facts.tier_change {
                None => step == (WebhookStep::FindTierChange { invoice_id: invoice.id }),
                Some(Some(_)) => step == (WebhookStep::ApplyTierChange { invoice_id: invoice.id }),
                Some(None) => if !facts.subscription_renewed {
                    step == (WebhookStep::RenewSubscription { invoice_id: invoice.id })
                } else {
                    match facts.license_exists {
                        None => step == (WebhookStep::FindLicense { invoice_id: invoice.id }),
                        Some(true) => step is Acknowledge,
                        Some(false) => step == (WebhookStep::IssueLicense {
                            invoice_id: invoice.id,
                        }),
                    }
                },
            }
        },
    }
}

/// Is `step` what an invoice that will not be paid any more needs next? A
/// code's slot that was held for it is given back.
pub open spec fn is_step_of_unpaid(
    provider_invoice_id: String,
    facts: WebhookFacts,
    step: WebhookStep,
) -> bool {
    match facts.invoice {
        None => step == (WebhookStep::FindInvoice { provider_invoice_id }),
        Some(None) => step is Acknowledge,
        Some(Some(invoice)) => match facts.redemption {
            None => step == (WebhookStep::FindRedemption { invoice_id: invoice.id }),
            Some(None) => step is Acknowledge,
            Some(Some(redemption)) => if facts.redemption_cancelled {
                step is Acknowledge
            } else {
                step == (WebhookStep::CancelRedemption { redemption_id: redemption.id })
            },
        },
    }
}

/// Has the provider itself said that the invoice was paid?
pub open spec fn is_confirmed(facts: WebhookFacts) -> bool {
    facts.confirmation matches Some(Confirmation::Settled { .. })
}

/// Is `step` what a notice needs next?
pub open spec fn is_webhook_step(
    event: Option<ProviderWebhookEvent>,
    facts: WebhookFacts,
    step: WebhookStep,
) -> bool {
    match event {
        None => step == (WebhookStep::Reject { error: AppError::Unauthorized }),
        Some(e) => match (e.provider_invoice_id, status_after(e.kind)) {
            (None, _) => step is Acknowledge,
            (_, None) => step is Acknowledge,
            (Some(id), Some(status)) => {
                if e.kind is InvoiceSettled && facts.confirmation is None {
                    step == (WebhookStep::Confirm { provider_invoice_id: id })
                } else if e.kind is InvoiceSettled && !is_confirmed(facts) {
                    step is Acknowledge
                } else if !facts.status_stored {
                    step matches WebhookStep::StoreStatus { provider_invoice_id, status: s }
                        && provider_invoice_id == id && s@ == status
                } else if e.kind is InvoiceSettled {
                    is_step_of_settled(id, facts.confirmation->0->amount, facts, step)
                } else {
                    is_step_of_unpaid(id, facts, step)
                }
            },
        },
    }
}

fn copy_money(m: &Option<Money>) -> (r: Option<Money>)
    ensures
        r == *m,
{
    match m {
        Some(m) => Some(Money { currency: m.currency.clone(), amount: m.amount }),
        None => None,
    }
}

fn step_of_settled(provider_invoice_id: String, amount: &Option<Money>, facts: &WebhookFacts) -> (r:
    WebhookStep)
    ensures
        is_step_of_settled(provider_invoice_id, *amount, *facts, r),
{
    match &facts.invoice {
        None => WebhookStep::FindInvoice { provider_invoice_id },
        Some(None) => WebhookStep::Acknowledge,
        Some(Some(invoice)) => {
            if !facts.amount_audited {
                return WebhookStep::AuditAmount { amount: copy_money(amount) };
            }
            match &facts.tier_change {
                None => WebhookStep::FindTierChange { invoice_id: invoice.id.clone() },
                Some(Some(_)) => WebhookStep::ApplyTierChange { invoice_id: invoice.id.clone() },
                Some(None) => if !facts.subscription_renewed {
                    WebhookStep::RenewSubscription { invoice_id: invoice.id.clone() }
                } else {
                    match facts.license_exists {
                        None => WebhookStep::FindLicense { invoice_id: invoice.id.clone() },
                        Some(there) => if there {
                            WebhookStep::Acknowledge
                        } else {
                            WebhookStep::IssueLicense { invoice_id: invoice.id.clone() }
                        },
                    }
                },
            }
        },
    }
}

fn step_of_unpaid(provider_invoice_id: String, facts: &WebhookFacts) -> (r: WebhookStep)
    ensures
        is_step_of_unpaid(provider_invoice_id, *facts, r),
{
    match &facts.invoice {
        None => WebhookStep::FindInvoice { provider_invoice_id },
        Some(None) => WebhookStep::Acknowledge,
        Some(Some(invoice)) => match &facts.redemption {
            None => WebhookStep::FindRedemption { invoice_id: invoice.id.clone() },
            Some(None) => WebhookStep::Acknowledge,
            Some(Some(redemption)) => if facts.redemption_cancelled {
                WebhookStep::Acknowledge
            } else {
                WebhookStep::CancelRedemption { redemption_id: redemption.id.clone() }
            },
        },
    }
}

/// What a notice needs next; `event` is `None` where the provider's scheme did
/// not vouch for it.
pub fn handle(event: &Option<ProviderWebhookEvent>, facts: &WebhookFacts) -> (r: WebhookStep)
    ensures
        is_webhook_step(*event, *facts, r),
{
    let e: &ProviderWebhookEvent = match event {
        None => {
            return WebhookStep::Reject { error: AppError::Unauthorized };
        },
        Some(e) => e,
    };
    let id: String = match &e.provider_invoice_id {
        None => {
            return WebhookStep::Acknowledge;
        },
        Some(id) => id.clone(),
    };
    let status: String = match new_status(e.kind) {
        None => {
            return WebhookStep::Acknowledge;
        },
        Some(status) => status,
    };
    match e.kind {
        EventKind::InvoiceSettled => match &facts.confirmation {
            None => WebhookStep::Confirm { provider_invoice_id: id },
            Some(Confirmation::Settled { amount }) => if !facts.status_stored {
                WebhookStep::StoreStatus { provider_invoice_id: id, status }
            } else {
                step_of_settled(id, amount, facts)
            },
            Some(_) => WebhookStep::Acknowledge,
        },
        _ => if !facts.status_stored {
            WebhookStep::StoreStatus { provider_invoice_id: id, status }
        } else {
            step_of_unpaid(id, facts)
        },
    }
}

/// A notice of payment that the provider has not confirmed changes nothing: it
/// is rejected, put to the provider, or acknowledged.
pub proof fn unconfirmed_payments_change_nothing(
    event: Option<ProviderWebhookEvent>,
    facts: WebhookFacts,
    step: WebhookStep,
)
    requires
        is_webhook_step(event, facts, step),
        !is_confirmed(facts),
        event is None || event->0.kind is InvoiceSettled,
    ensures
        step is Reject || step is Confirm || step is Acknowledge,
{
}

/// A license is issued, a tier changed or a subscription renewed only on a
/// payment that the provider confirmed, and only once the invoice is stored as
/// settled.
pub proof fn only_confirmed_payments_are_honoured(
    event: Option<ProviderWebhookEvent>,
    facts: WebhookFacts,
    step: WebhookStep,
)
    requires
        is_webhook_step(event, facts, step),
        step is IssueLicense || step is ApplyTierChange || step is RenewSubscription,
    ensures
        event matches Some(e) && e.kind is InvoiceSettled,
        is_confirmed(facts),
        facts.status_stored,
        facts.invoice matches Some(Some(_)),
{
}

/// A notice that comes again after its license was issued issues no other.
pub proof fn repeated_notices_issue_no_second_license(
    event: Option<ProviderWebhookEvent>,
    facts: WebhookFacts,
    step: WebhookStep,
)
    requires
        is_webhook_step(event, facts, step),
        facts.license_exists == Some(true),
    ensures
        !(step is IssueLicense),
{
}

/// An invoice that expired or became invalid gives back the slot of the code
/// that was held for it, and issues nothing.
pub proof fn unpaid_invoices_free_their_code(
    event: ProviderWebhookEvent,
    facts: WebhookFacts,
    step: WebhookStep,
)
    requires
        is_webhook_step(Some(event), facts, step),
        event.kind is InvoiceExpired || event.kind is InvoiceInvalid,
        event.provider_invoice_id is Some,
        facts.status_stored,
        facts.invoice matches Some(Some(_)),
        facts.redemption matches Some(Some(_)),
        !facts.redemption_cancelled,
    ensures
        step == (WebhookStep::CancelRedemption { redemption_id: facts.redemption->0->0.id }),
{
}

// ---------- the amount ----------

/// A provider's amount that is not what was charged.
#[derive(Clone, Debug)]
pub struct AmountMismatch {
    pub expected_amount_sats: i64,
    pub provider_amount: i64,
    pub provider_currency: String,
}

/// Holds the provider's amount and currency against what was charged, which is
/// the invoice's amount in sats. A difference is reported and stops nothing;
/// where the provider told no amount there is none.
pub fn audit_settle_amount(invoice: &Invoice, confirmed: &Option<Money>) -> (r: Option<
    AmountMismatch,
>)
    ensures
        r is Some <==> (confirmed matches Some(paid) && !(paid.currency@ == "SAT"@ && paid.amount
            == invoice.amount_sats)),
        r matches Some(m) ==> {
            &&& m.expected_amount_sats == invoice.amount_sats
            &&& m.provider_amount == confirmed->0.amount
            &&& m.provider_currency == confirmed->0.currency
        },
{
    match confirmed {
        None => None,
        Some(paid) => if same(paid.currency.as_str(), "SAT") && paid.amount
            == invoice.amount_sats {
            None
        } else {
            Some(
                AmountMismatch {
                    expected_amount_sats: invoice.amount_sats,
                    provider_amount: paid.amount,
                    provider_currency: paid.currency.clone(),
                },
            )
        },
    }
}

// ---------- issuing ----------

/// The first policy called `default`.
pub open spec fn first_default(policies: Seq<Policy>) -> Option<Policy>
    decreases policies.len(),
{
    if policies.len() == 0 {
        None
    } else {
        match first_default(policies.drop_last()) {
            Some(p) => Some(p),
            None => if policies.last().slug@ == "default"@ {
                Some(policies.last())
            } else {
                None
            },
        }
    }
}

/// The policy that a license is issued under: the one that the invoice names,
/// as it was found, or else, among the product's active policies, the first one
/// called `default`, or else the first.
pub open spec fn issuing_policy(
    invoice: Invoice,
    named: Option<Policy>,
    active: Seq<Policy>,
) -> Option<Policy> {
    if invoice.policy_id is Some {
        named
    } else {
        match first_default(active) {
            Some(p) => Some(p),
            None => if active.len() > 0 {
                Some(active[0])
            } else {
                None
            },
        }
    }
}

proof fn lemma_first_default(policies: Seq<Policy>, k: int)
    requires
        0 <= k < policies.len(),
        policies[k].slug@ == "default"@,
        first_default(policies.take(k)) is None,
    ensures
        first_default(policies) == Some(policies[k]),
    decreases policies.len(),
{
    if k == policies.len() - 1 {
        assert(policies.drop_last() == policies.take(k));
    } else {
        assert(policies.drop_last().take(k) == policies.take(k));
        lemma_first_default(policies.drop_last(), k);
    }
}

fn default_of(active: &Vec<Policy>) -> (r: Option<&Policy>)
    ensures
        match first_default(active@) {
            Some(p) => r == Some(&p),
            None => if active@.len() > 0 {
                r == Some(&active@[0])
            } else {
                r is None
            },
        },
{
    for i in 0..active.len()
        invariant
            first_default(active@.take(i as int)) is None,
    {
        if same(active[i].slug.as_str(), "default") {
            proof {
                lemma_first_default(active@, i as int);
            }
            return Some(&active[i]);
        }
        assert(active@.take(i + 1).drop_last() == active@.take(i as int));
    }
    assert(active@.take(active@.len() as int) == active@);
    if active.len() == 0 {
        None
    } else {
        Some(&active[0])
    }
}

/// What a license grants, as its policy lays down. Without a policy it is
/// perpetual, for one machine, with no entitlements.
#[derive(Clone, Debug)]
pub struct LicenseTerms {
    pub policy_id: Option<String>,
    pub issued_at: String,
    pub expires_at: Option<String>,
    pub grace_seconds: i64,
    pub max_machines: i64,
    pub is_trial: bool,
    pub entitlements: Vec<String>,
}

/// The policy behind an optional reference.
pub open spec fn policy_at(policy: Option<&Policy>) -> Option<Policy> {
    match policy {
        Some(p) => Some(*p),
        None => None,
    }
}

/// Does a recurring policy begin with a free trial?
pub open spec fn has_trial(policy: Policy) -> bool {
    policy.is_recurring && policy.trial_days > 0
}

/// How long the first license under a policy lasts, in seconds; 0 means
/// without end. A trial counts in days and takes the place of the policy's own
/// duration.
pub open spec fn first_duration(policy: Option<Policy>) -> int {
    match policy {
        Some(p) => if has_trial(p) {
            p.trial_days * 86_400
        } else {
            p.duration_seconds as int
        },
        None => 0,
    }
}

/// The text of the moment that lies `duration` seconds ahead; none for 0.
pub open spec fn expiry_text(now: Moment, duration: int) -> Option<Seq<char>> {
    if duration == 0 {
        None
    } else {
        Some(rfc3339_text(now.later(duration).secs, now.nanos))
    }
}

/// The text of the moment that lies `duration` seconds ahead; none for 0. From
/// 1970 to the year 9999 it reads back as that moment.
pub fn expiry_after(now: &Moment, duration: i64) -> (r: Option<String>)
    requires
        now.in_calendar(),
        now.can_add(duration as int),
    ensures
        opt_text(r) == expiry_text(*now, duration as int),
        r is Some && 0 <= now.secs + duration <= 253_402_300_799 ==> rfc3339_moment(r->0@) == Some(
            now.later(duration as int),
        ),
{
    if duration == 0 {
        None
    } else {
        let end: Moment = now.plus(duration);
        Some(to_rfc3339(&end))
    }
}

/// The terms that a license is issued on, now, under a policy.
pub fn terms_under(policy: Option<&Policy>, now: &Moment) -> (r: LicenseTerms)
    requires
        now.in_calendar(),
        now.can_add(first_duration(policy_at(policy))),
    ensures
        r.issued_at@ == rfc3339_text(now.secs, now.nanos),
        opt_text(r.expires_at) == expiry_text(*now, first_duration(policy_at(policy))),
        r.expires_at is Some && 0 <= now.secs + first_duration(policy_at(policy)) <= 253_402_300_799
            ==> rfc3339_moment(r.expires_at->0@) == Some(now.later(first_duration(policy_at(policy)))),
        0 <= now.secs <= 253_402_300_799 ==> rfc3339_moment(r.issued_at@) == Some(*now),
        match policy {
            Some(p) => {
                &&& r.policy_id == Some(p.id)
                &&& r.grace_seconds == p.grace_seconds
                &&& r.max_machines == p.max_machines
                &&& r.is_trial == (p.is_trial || has_trial(*p))
                &&& texts(r.entitlements@) == texts(p.entitlements@)
            },
            None => {
                &&& r.policy_id is None
                &&& r.grace_seconds == 0
                &&& r.max_machines == 1
                &&& !r.is_trial
                &&& r.entitlements@.len() == 0
            },
        },
{
    let issued_at: String = to_rfc3339(now);
    match policy {
        Some(p) => {
            let trial: bool = p.is_recurring && p.trial_days > 0;
            let duration: i64 = if trial {
                p.trial_days * 86_400
            } else {
                p.duration_seconds
            };
            LicenseTerms {
                policy_id: Some(p.id.clone()),
                issued_at,
                expires_at: expiry_after(now, duration),
                grace_seconds: p.grace_seconds,
                max_machines: p.max_machines,
                is_trial: p.is_trial || trial,
                entitlements: copy_of(&p.entitlements),
            }
        },
        None => LicenseTerms {
            policy_id: None,
            issued_at,
            expires_at: None,
            grace_seconds: 0,
            max_machines: 1,
            is_trial: false,
            entitlements: Vec::new(),
        },
    }
}

/// A subscription to open with a license.
#[derive(Clone, Debug)]
pub struct NewSubscription {
    pub policy_id: String,
    pub product_id: String,
    pub period_days: i64,
    /// How long the first cycle lasts: the trial where there is one.
    pub first_cycle_days: i64,
    pub listed_currency: String,
    pub listed_value: i64,
    pub invoice_id: String,
    pub payment_provider_id: Option<String>,
}

/// Is `sub` the subscription that a recurring policy opens? The price is the
/// one that was listed, or the sats of the invoice where nothing was listed; a
/// period is at least a day.
pub open spec fn is_subscription_for(invoice: Invoice, p: Policy, sub: NewSubscription) -> bool {
    &&& sub.policy_id == p.id
    &&& sub.product_id == invoice.product_id
    &&& sub.period_days == if p.renewal_period_days >= 1 {
        p.renewal_period_days
    } else {
        1
    }
    &&& sub.first_cycle_days == if p.trial_days > 0 {
        p.trial_days
    } else {
        sub.period_days
    }
    &&& sub.listed_currency@ == match invoice.listed_currency {
        Some(c) => c@,
        None => "SAT"@,
    }
    &&& sub.listed_value == match invoice.listed_value {
        Some(v) => v,
        None => invoice.amount_sats,
    }
    &&& sub.invoice_id == invoice.id
    &&& sub.payment_provider_id == invoice.payment_provider_id
}

/// The subscription that a policy opens: one where it is recurring.
pub fn subscription_for(invoice: &Invoice, policy: Option<&Policy>) -> (r: Option<NewSubscription>)
    ensures
        match policy {
            Some(p) => if p.is_recurring {
                r matches Some(sub) && is_subscription_for(*invoice, *p, sub)
            } else {
                r is None
            },
            None => r is None,
        },
{
    match policy {
        Some(p) => if p.is_recurring {
            let period_days: i64 = if p.renewal_period_days >= 1 {
                p.renewal_period_days
            } else {
                1
            };
            Some(
                NewSubscription {
                    policy_id: p.id.clone(),
                    product_id: invoice.product_id.clone(),
                    period_days,
                    first_cycle_days: if p.trial_days > 0 {
                        p.trial_days
                    } else {
                        period_days
                    },
                    listed_currency: match &invoice.listed_currency {
                        Some(c) => c.clone(),
                        None => String::from_str("SAT"),
                    },
                    listed_value: match invoice.listed_value {
                        Some(v) => v,
                        None => invoice.amount_sats,
                    },
                    invoice_id: invoice.id.clone(),
                    payment_provider_id: copy_opt(&invoice.payment_provider_id),
                },
            )
        } else {
            None
        },
        None => None,
    }
}

/// When the first renewal falls due, where that is not one period ahead: at the
/// end of the trial.
pub open spec fn first_renewal_text(subscription: NewSubscription, now: Moment) -> Option<
    Seq<char>,
> {
    if subscription.first_cycle_days == subscription.period_days {
        None
    } else {
        Some(rfc3339_text(now.later(subscription.first_cycle_days * 86_400).secs, now.nanos))
    }
}

/// When the first renewal falls due, where that is not one period ahead: at the
/// end of the trial.
pub fn first_renewal(subscription: &NewSubscription, now: &Moment) -> (r: Option<String>)
    requires
        now.in_calendar(),
        subscription.first_cycle_days != subscription.period_days ==> now.can_add(
            subscription.first_cycle_days * 86_400,
        ),
    ensures
        opt_text(r) == first_renewal_text(*subscription, *now),
{
    if subscription.first_cycle_days == subscription.period_days {
        None
    } else {
        let end: Moment = now.plus(subscription.first_cycle_days * 86_400);
        Some(to_rfc3339(&end))
    }
}

/// Is a tip due under the policy?
pub fn tip_is_due(policy: Option<&Policy>) -> (r: bool)
    ensures
        r == (policy matches Some(p) && p.tip_recipient is Some && p.tip_pct_bps > 0),
{
    match policy {
        Some(p) => p.tip_recipient.is_some() && p.tip_pct_bps > 0,
        None => false,
    }
}

/// What a settled invoice brings: a license, and under a recurring policy a
/// subscription.
#[derive(Clone, Debug)]
pub struct Issuance {
    pub product_id: String,
    pub invoice_id: String,
    pub buyer_email: Option<String>,
    pub terms: LicenseTerms,
    pub subscription: Option<NewSubscription>,
    /// When the subscription's first renewal falls due, where that is not one
    /// period ahead.
    pub next_renewal_at: Option<String>,
    /// Whether a tip goes out.
    pub tip: bool,
    /// What the tip is a share of.
    pub amount_sats: i64,
}

/// Whether the end of the license that a settled invoice brings can be told.
pub fn can_issue(invoice: &Invoice, named: &Option<Policy>, active: &Vec<Policy>, now: &Moment) -> (r:
    bool)
    requires
        now.in_calendar(),
    ensures
        r == now.can_add(first_duration(issuing_policy(*invoice, *named, active@))),
{
    let policy: Option<&Policy> = if invoice.policy_id.is_some() {
        named.as_ref()
    } else {
        default_of(active)
    };
    match policy {
        Some(p) => if p.is_recurring && p.trial_days > 0 {
            p.trial_days <= i64::MAX / 86_400 && now.reaches(p.trial_days * 86_400)
        } else {
            now.reaches(p.duration_seconds)
        },
        None => now.reaches(0),
    }
}

/// Is `r` what a settled invoice brings?
pub open spec fn is_issuance(
    invoice: Invoice,
    named: Option<Policy>,
    active: Seq<Policy>,
    now: Moment,
    r: Issuance,
) -> bool {
    let policy = issuing_policy(invoice, named, active);
    &&& r.product_id == invoice.product_id
    &&& r.invoice_id == invoice.id
    &&& r.buyer_email == invoice.buyer_email
    &&& r.amount_sats == invoice.amount_sats
    &&& r.terms.issued_at@ == rfc3339_text(now.secs, now.nanos)
    &&& opt_text(r.terms.expires_at) == expiry_text(now, first_duration(policy))
    &&& match policy {
        Some(p) => {
            &&& r.terms.policy_id == Some(p.id)
            &&& r.terms.grace_seconds == p.grace_seconds
            &&& r.terms.max_machines == p.max_machines
            &&& r.terms.is_trial == (p.is_trial || has_trial(p))
            &&& texts(r.terms.entitlements@) == texts(p.entitlements@)
            &&& p.is_recurring ==> (r.subscription matches Some(sub) && is_subscription_for(
                invoice,
                p,
                sub,
            ) && opt_text(r.next_renewal_at) == first_renewal_text(sub, now))
            &&& !p.is_recurring ==> r.subscription is None && r.next_renewal_at is None
            &&& r.tip == (p.tip_recipient is Some && p.tip_pct_bps > 0)
        },
        None => {
            &&& r.terms.policy_id is None
            &&& r.terms.grace_seconds == 0
            &&& r.terms.max_machines == 1
            &&& !r.terms.is_trial
            &&& r.terms.entitlements@.len() == 0
            &&& r.subscription is None
            &&& r.next_renewal_at is None
            &&& !r.tip
        },
    }
}

/// What a settled invoice brings. The policy is the one that the buyer chose,
/// or else the product's default; the license is for the invoice's product and
/// buyer, on that policy's terms.
pub fn issue_license_for_invoice(
    invoice: &Invoice,
    named: &Option<Policy>,
    active: &Vec<Policy>,
    now: &Moment,
) -> (r: Issuance)
    requires
        now.in_calendar(),
        now.can_add(first_duration(issuing_policy(*invoice, *named, active@))),
    ensures
        is_issuance(*invoice, *named, active@, *now, r),
{
    let policy: Option<&Policy> = if invoice.policy_id.is_some() {
        named.as_ref()
    } else {
        default_of(active)
    };
    let subscription: Option<NewSubscription> = subscription_for(invoice, policy);
    let next_renewal_at: Option<String> = match &subscription {
        Some(sub) => first_renewal(sub, now),
        None => None,
    };
    Issuance {
        product_id: invoice.product_id.clone(),
        invoice_id: invoice.id.clone(),
        buyer_email: copy_opt(&invoice.buyer_email),
        terms: terms_under(policy, now),
        subscription,
        next_renewal_at,
        tip: tip_is_due(policy),
        amount_sats: invoice.amount_sats,
    }
}

/// Are two licenses granted the same?
pub open spec fn same_terms(a: LicenseTerms, b: LicenseTerms) -> bool {
    &&& a.policy_id == b.policy_id
    &&& a.issued_at == b.issued_at
    &&& a.expires_at == b.expires_at
    &&& a.grace_seconds == b.grace_seconds
    &&& a.max_machines == b.max_machines
    &&& a.is_trial == b.is_trial
    &&& a.entitlements@ == b.entitlements@
}

/// Is `r` the row of the license that a settled invoice brings?
pub open spec fn is_purchased_row(
    invoice: Invoice,
    issuance: Issuance,
    license_id: Seq<char>,
    r: LicenseRow,
) -> bool {
    &&& r.id@ == license_id
    &&& r.product_id == issuance.product_id
    &&& r.invoice_id == Some(issuance.invoice_id)
    &&& same_terms(r.terms, issuance.terms)
    &&& r.source == (LicenseSource::Purchase { provider_invoice_id: invoice.btcpay_invoice_id })
    &&& r.buyer_email == issuance.buyer_email
    &&& r.nostr_npub is None
}

/// The row of the license that a settled invoice brings.
pub fn purchased_row(invoice: &Invoice, issuance: &Issuance, license_id: &str) -> (r: LicenseRow)
    ensures
        is_purchased_row(*invoice, *issuance, license_id@, r),
{
    let terms: &LicenseTerms = &issuance.terms;
    LicenseRow {
        id: String::from_str(license_id),
        product_id: issuance.product_id.clone(),
        invoice_id: Some(issuance.invoice_id.clone()),
        terms: LicenseTerms {
            policy_id: copy_opt(&terms.policy_id),
            issued_at: terms.issued_at.clone(),
            expires_at: copy_opt(&terms.expires_at),
            grace_seconds: terms.grace_seconds,
            max_machines: terms.max_machines,
            is_trial: terms.is_trial,
            entitlements: copy_of(&terms.entitlements),
        },
        source: LicenseSource::Purchase { provider_invoice_id: invoice.btcpay_invoice_id.clone() },
        buyer_email: copy_opt(&issuance.buyer_email),
        nostr_npub: None,
    }
}

// ---------- after issuing ----------

/// What is announced of a license that was issued.
#[derive(Clone, Debug)]
pub struct LicenseIssued {
    pub license_id: String,
    pub product_id: String,
    pub invoice_id: String,
    pub policy_id: Option<String>,
    pub is_trial: bool,
    pub expires_at: Option<String>,
    pub entitlements: Vec<String>,
}

/// What is announced of a code that was used.
#[derive(Clone, Debug)]
pub struct CodeRedeemed {
    pub redemption_id: String,
    pub code_id: String,
    /// The code itself, where it is still there.
    pub code: Option<String>,
    pub license_id: String,
    pub product_id: String,
    pub invoice_id: String,
    pub discount_applied_sats: i64,
    pub base_price_sats: i64,
    pub final_price_sats: i64,
}

/// What has been found out and done since a license was issued. An optional
/// field is `None` until it has been found out; what was tried counts as done,
/// whether or not it worked out.
#[derive(Clone, Debug)]
pub struct IssuedFacts {
    pub subscription_exists: Option<bool>,
    /// The merchant profile of the product.
    pub profile_id: Option<Option<String>>,
    pub subscription_opened: bool,
    pub tip_started: bool,
    pub license_announced: bool,
    /// The use of a code that waits for the invoice.
    pub redemption: Option<Option<Redemption>>,
    pub redemption_marked: bool,
    /// The text of the code that was used.
    pub code: Option<Option<String>>,
    pub redemption_announced: bool,
}

/// What a license that was issued needs done next.
#[derive(Clone, Debug)]
pub enum IssuedStep {
    FindSubscription { license_id: String },
    FindProfile { product_id: String },
    /// Open the subscription, with the profile and the provider that it is to
    /// be renewed through.
    OpenSubscription {
        license_id: String,
        profile_id: Option<String>,
    },
    StartTip { license_id: String, amount_sats: i64 },
    AnnounceLicense { event: LicenseIssued },
    FindRedemption { invoice_id: String },
    MarkRedeemed { redemption_id: String, license_id: String },
    FindCode { code_id: String },
    AnnounceRedemption { event: CodeRedeemed },
    Done,
}

/// Is `event` what is announced of the license?
pub open spec fn announces_license(
    issuance: Issuance,
    license_id: Seq<char>,
    event: LicenseIssued,
) -> bool {
    &&& event.license_id@ == license_id
    &&& event.product_id == issuance.product_id
    &&& event.invoice_id == issuance.invoice_id
    &&& event.policy_id == issuance.terms.policy_id
    &&& event.is_trial == issuance.terms.is_trial
    &&& event.expires_at == issuance.terms.expires_at
    &&& event.entitlements@ == issuance.terms.entitlements@
}

/// Is `event` what is announced of the code that was used?
pub open spec fn announces_redemption(
    issuance: Issuance,
    license_id: Seq<char>,
    redemption: Redemption,
    code: Option<String>,
    event: CodeRedeemed,
) -> bool {
    &&& event.redemption_id == redemption.id
    &&& event.code_id == redemption.code_id
    &&& event.code == code
    &&& event.license_id@ == license_id
    &&& event.product_id == issuance.product_id
    &&& event.invoice_id == issuance.invoice_id
    &&& event.discount_applied_sats == redemption.discount_applied_sats
    &&& event.base_price_sats == redemption.base_price_sats
    &&& event.final_price_sats == redemption.final_price_sats
}

/// Is nothing left to do about the subscription that comes with the license?
pub open spec fn subscription_is_open(issuance: Issuance, facts: IssuedFacts) -> bool {
    issuance.subscription is None || facts.subscription_exists == Some(true)
        || facts.subscription_opened
}

/// Is `step` what a license that was issued needs done next?
pub open spec fn is_issued_step(
    issuance: Issuance,
    license_id: Seq<char>,
    facts: IssuedFacts,
    step: IssuedStep,
) -> bool {
    if !subscription_is_open(issuance, facts) {
        if facts.subscription_exists is None {
            step matches IssuedStep::FindSubscription { license_id: id } && id@ == license_id
        } else if facts.profile_id is None {
            step == (IssuedStep::FindProfile { product_id: issuance.product_id })
        } else {
            step matches IssuedStep::OpenSubscription { license_id: id, profile_id } && id@
                == license_id && Some(profile_id) == facts.profile_id
        }
    } else if issuance.tip && !facts.tip_started {
        step matches IssuedStep::StartTip { license_id: id, amount_sats } && id@ == license_id
            && amount_sats == issuance.amount_sats
    } else if !facts.license_announced {
        step matches IssuedStep::AnnounceLicense { event } && announces_license(
            issuance,
            license_id,
            event,
        )
    } else {
        match facts.redemption {
            None => step == (IssuedStep::FindRedemption { invoice_id: issuance.invoice_id }),
            Some(None) => step is Done,
            Some(Some(redemption)) => if !facts.redemption_marked {
                step matches IssuedStep::MarkRedeemed { redemption_id, license_id: id }
                    && redemption_id == redemption.id && id@ == license_id
            } else if facts.code is None {
                step == (IssuedStep::FindCode { code_id: redemption.code_id })
            } else if !facts.redemption_announced {
                step matches IssuedStep::AnnounceRedemption { event } && announces_redemption(
                    issuance,
                    license_id,
                    redemption,
                    facts.code->0,
                    event,
                )
            } else {
                step is Done
            },
        }
    }
}

fn step_of_redemption(
    issuance: &Issuance,
    license_id: &str,
    redemption: &Redemption,
    facts: &IssuedFacts,
) -> (r: IssuedStep)
    requires
        subscription_is_open(*issuance, *facts),
        issuance.tip ==> facts.tip_started,
        facts.license_announced,
        facts.redemption == Some(Some(*redemption)),
    ensures
        is_issued_step(*issuance, license_id@, *facts, r),
{
    if !facts.redemption_marked {
        return IssuedStep::MarkRedeemed {
            redemption_id: redemption.id.clone(),
            license_id: String::from_str(license_id),
        };
    }
    match &facts.code {
        None => IssuedStep::FindCode { code_id: redemption.code_id.clone() },
        Some(code) => if facts.redemption_announced {
            IssuedStep::Done
        } else {
            IssuedStep::AnnounceRedemption {
                event: CodeRedeemed {
                    redemption_id: redemption.id.clone(),
                    code_id: redemption.code_id.clone(),
                    code: copy_opt(code),
                    license_id: String::from_str(license_id),
                    product_id: issuance.product_id.clone(),
                    invoice_id: issuance.invoice_id.clone(),
                    discount_applied_sats: redemption.discount_applied_sats,
                    base_price_sats: redemption.base_price_sats,
                    final_price_sats: redemption.final_price_sats,
                },
            }
        },
    }
}

/// What a license that was issued needs done next: its subscription is opened,
/// the tip goes out, the license is announced, and the use of the code that was
/// held for the invoice is settled and announced.
pub fn after_issuing(issuance: &Issuance, license_id: &str, facts: &IssuedFacts) -> (r: IssuedStep)
    ensures
        is_issued_step(*issuance, license_id@, *facts, r),
{
    let exists: bool = match facts.subscription_exists {
        Some(there) => there,
        None => false,
    };
    if issuance.subscription.is_some() && !exists && !facts.subscription_opened {
        if facts.subscription_exists.is_none() {
            return IssuedStep::FindSubscription { license_id: String::from_str(license_id) };
        }
        return match &facts.profile_id {
            None => IssuedStep::FindProfile { product_id: issuance.product_id.clone() },
            Some(profile_id) => IssuedStep::OpenSubscription {
                license_id: String::from_str(license_id),
                profile_id: copy_opt(profile_id),
            },
        };
    }
    if issuance.tip && !facts.tip_started {
        return IssuedStep::StartTip {
            license_id: String::from_str(license_id),
            amount_sats: issuance.amount_sats,
        };
    }
    if !facts.license_announced {
        return IssuedStep::AnnounceLicense {
            event: LicenseIssued {
                license_id: String::from_str(license_id),
                product_id: issuance.product_id.clone(),
                invoice_id: issuance.invoice_id.clone(),
                policy_id: copy_opt(&issuance.terms.policy_id),
                is_trial: issuance.terms.is_trial,
                expires_at: copy_opt(&issuance.terms.expires_at),
                entitlements: copy_of(&issuance.terms.entitlements),
            },
        };
    }
    match &facts.redemption {
        None => IssuedStep::FindRedemption { invoice_id: issuance.invoice_id.clone() },
        Some(None) => IssuedStep::Done,
        Some(Some(redemption)) => step_of_redemption(issuance, license_id, redemption, facts),
    }
}

/// Issuing is over only once the subscription that comes with the license is
/// open, the license is announced, and the code that was held for the invoice
/// counts as used.
pub proof fn issuing_is_seen_through(
    issuance: Issuance,
    license_id: Seq<char>,
    facts: IssuedFacts,
    step: IssuedStep,
)
    requires
        is_issued_step(issuance, license_id, facts, step),
        step is Done,
    ensures
        subscription_is_open(issuance, facts),
        issuance.tip ==> facts.tip_started,
        facts.license_announced,
        facts.redemption matches Some(found) && (found is Some ==> facts.redemption_marked
            && facts.redemption_announced),
{
}

// ---------- tier changes ----------

/// What has been looked up for a tier change so far.
#[derive(Clone, Debug)]
pub struct TierChangeFacts {
    pub license: Option<Option<License>>,
    pub target_policy: Option<Option<Policy>>,
    pub product: Option<Option<Product>>,
}

/// What a tier change needs next.
#[derive(Clone, Debug)]
pub enum TierChangeStep {
    FindLicense { license_id: String },
    FindPolicy { policy_id: String },
    FindProduct { product_id: String },
    Fail { error: AppError },
    /// The license is on the target tier already.
    AlreadyApplied,
    /// Move the license to the target tier, and announce that.
    Apply { event: TierChanged },
}

/// What is announced of a license that was moved to another tier.
#[derive(Clone, Debug)]
pub struct TierChanged {
    pub license_id: String,
    pub product_id: String,
    pub from_policy_id: String,
    pub to_policy_id: String,
    pub to_policy_slug: String,
    pub direction: String,
    pub actor: String,
    pub invoice_id: String,
    pub tier_change_id: String,
}

/// Is `r` what a tier change whose invoice settled needs next?
pub open spec fn is_tier_change_step(
    invoice_id: Seq<char>,
    change: TierChangeRow,
    facts: TierChangeFacts,
    r: TierChangeStep,
) -> bool {
    match (facts.license, facts.target_policy, facts.product) {
        (None, _, _) => r == (TierChangeStep::FindLicense { license_id: change.license_id }),
        (Some(None), _, _) => r matches TierChangeStep::Fail { error } && error.is_internal(
            "tier_change references missing license '"@ + change.license_id@ + "'"@,
        ),
        (Some(Some(_)), None, _) => r == (TierChangeStep::FindPolicy {
            policy_id: change.to_policy_id,
        }),
        (Some(Some(_)), Some(None), _) => r matches TierChangeStep::Fail { error }
            && error.is_internal(
            "tier_change references missing target policy '"@ + change.to_policy_id@ + "'"@,
        ),
        (Some(Some(_)), Some(Some(policy)), None) => r == (TierChangeStep::FindProduct {
            product_id: policy.product_id,
        }),
        (Some(Some(_)), Some(Some(policy)), Some(None)) => r matches TierChangeStep::Fail {
            error,
        } && error.is_internal(
            "target policy references missing product '"@ + policy.product_id@ + "'"@,
        ),
        (Some(Some(license)), Some(Some(policy)), Some(Some(product))) => if opt_text(
            license.policy_id,
        ) == Some(policy.id@) {
            r is AlreadyApplied
        } else {
            &&& r matches TierChangeStep::Apply { event }
            &&& event.license_id == license.id
            &&& event.product_id == product.id
            &&& event.from_policy_id == change.from_policy_id
            &&& event.to_policy_id == change.to_policy_id
            &&& event.to_policy_slug == policy.slug
            &&& event.direction == change.direction
            &&& event.actor == change.actor
            &&& event.invoice_id@ == invoice_id
            &&& event.tier_change_id == change.id
        },
    }
}

/// What a tier change whose invoice settled needs next. A license that is on
/// the target tier already is left alone, so a notice that comes again changes
/// nothing.
pub fn apply_tier_change_on_settle(
    invoice_id: &str,
    change: &TierChangeRow,
    facts: &TierChangeFacts,
) -> (r: TierChangeStep)
    ensures
        is_tier_change_step(invoice_id@, *change, *facts, r),
{
    let license: &License = match &facts.license {
        None => {
            return TierChangeStep::FindLicense { license_id: change.license_id.clone() };
        },
        Some(None) => {
            return TierChangeStep::Fail {
                error: AppError::Internal(
                    cat3(
                        "tier_change references missing license '",
                        change.license_id.as_str(),
                        "'",
                    ),
                ),
            };
        },
        Some(Some(license)) => license,
    };
    let policy: &Policy = match &facts.target_policy {
        None => {
            return TierChangeStep::FindPolicy { policy_id: change.to_policy_id.clone() };
        },
        Some(None) => {
            return TierChangeStep::Fail {
                error: AppError::Internal(
                    cat3(
                        "tier_change references missing target policy '",
                        change.to_policy_id.as_str(),
                        "'",
                    ),
                ),
            };
        },
        Some(Some(policy)) => policy,
    };
    let product: &Product = match &facts.product {
        None => {
            return TierChangeStep::FindProduct { product_id: policy.product_id.clone() };
        },
        Some(None) => {
            return TierChangeStep::Fail {
                error: AppError::Internal(
                    cat3(
                        "target policy references missing product '",
                        policy.product_id.as_str(),
                        "'",
                    ),
                ),
            };
        },
        Some(Some(product)) => product,
    };
    if let Some(current) = &license.policy_id {
        if same(current.as_str(), policy.id.as_str()) {
            return TierChangeStep::AlreadyApplied;
        }
    }
    TierChangeStep::Apply {
        event: TierChanged {
            license_id: license.id.clone(),
            product_id: product.id.clone(),
            from_policy_id: change.from_policy_id.clone(),
            to_policy_id: change.to_policy_id.clone(),
            to_policy_slug: policy.slug.clone(),
            direction: change.direction.clone(),
            actor: change.actor.clone(),
            invoice_id: String::from_str(invoice_id),
            tier_change_id: change.id.clone(),
        },
    }
}

} // verus!
