//! Changing to a better tier.
//!
//! A buyer shows the license key and names the tier; what the change costs is
//! worked out anew when it is begun. It takes effect once its invoice is paid.

use crate::api::purchase::{redirect_target, redirect_text, Conversion};
use crate::api::records::{ChangeNamed, Charge, InvoiceRow, ProviderInvoice};
use crate::api::subscriptions::{genuine_license_id, is_withdrawn, withdrawn};
use crate::clock::{rfc3339_text, to_rfc3339, Moment};
use crate::codec::uuid_text;
use crate::crypto::{is_verified, read_key, VerifyingKey};
use crate::error::{bad_request, not_found_with, AppError};
use crate::models::{License, Policy};
use crate::text::{cat2, copy_opt, opt_text};
use vstd::prelude::*;

verus! {

/// Asks what a change would cost.
#[derive(Clone, Debug)]
pub struct QuoteReq {
    pub license_key: String,
    pub target_policy_slug: String,
}

/// Begins a change.
#[derive(Clone, Debug)]
pub struct StartReq {
    pub license_key: String,
    pub target_policy_slug: String,
    /// Where the buyer returns to after paying.
    pub redirect_url: Option<String>,
}

/// Which way a change goes.
#[derive(Clone, Copy, Debug, PartialEq, Eq, Structural)]
pub enum TierDirection {
    Upgrade,
    Downgrade,
}

impl TierDirection {
    /// The direction's name.
    pub fn as_str(self) -> (r: &'static str)
        ensures
            r@ == match self {
                TierDirection::Upgrade => "upgrade"@,
                TierDirection::Downgrade => "downgrade"@,
            },
    {
        match self {
            TierDirection::Upgrade => "upgrade",
            TierDirection::Downgrade => "downgrade",
        }
    }
}

/// When a change takes effect.
#[derive(Clone, Debug, PartialEq, Eq)]
pub enum EffectiveAt {
    Immediate,
    At { time: String },
}

/// What a change costs.
#[derive(Clone, Debug, PartialEq, Eq)]
pub struct UpgradeQuote {
    pub from_policy_id: String,
    pub from_policy_slug: String,
    pub to_policy_id: String,
    pub to_policy_slug: String,
    pub direction: TierDirection,
    pub listed_currency: String,
    /// In the smallest unit of the currency.
    pub proration_charge_value: i64,
    pub effective_at: EffectiveAt,
    pub next_renewal_charge: Option<i64>,
    pub next_renewal_period_days: Option<i64>,
}

/// When a change takes effect, as the buyer is told.
pub fn effective_words(at: &EffectiveAt) -> (r: String)
    ensures
        match *at {
            EffectiveAt::Immediate => r@ == "immediate"@,
            EffectiveAt::At { time } => r == time,
        },
{
    match at {
        EffectiveAt::Immediate => String::from_str("immediate"),
        EffectiveAt::At { time } => time.clone(),
    }
}

/// When a change takes effect, as it is stored.
pub fn effective_time(at: &EffectiveAt, now: &Moment) -> (r: String)
    requires
        now.in_calendar(),
    ensures
        match *at {
            EffectiveAt::Immediate => r@ == rfc3339_text(now.secs, now.nanos),
            EffectiveAt::At { time } => r == time,
        },
{
    match at {
        EffectiveAt::Immediate => to_rfc3339(now),
        EffectiveAt::At { time } => time.clone(),
    }
}

/// What has been found out about a change so far.
#[derive(Clone, Debug)]
pub struct UpgradeFacts {
    pub license: Option<Option<License>>,
    pub policy: Option<Option<Policy>>,
    pub quote: Option<UpgradeQuote>,
    pub conversion: Option<Conversion>,
}

/// What a change needs next.
#[derive(Clone, Debug)]
pub enum UpgradeStep {
    Refuse { error: AppError },
    FindLicense { license_id: String },
    FindPolicy { product_id: String, slug: String },
    /// Work out what the change costs.
    Quote,
    /// The cost is known, and nothing more was asked.
    Tell { quote: UpgradeQuote },
    Convert { currency: String, value: i64 },
    /// Demand payment for the change.
    Charge { amount_sats: i64, buyer_email: Option<String>, product_id: String },
}

/// Is `step` what a change needs next whose license and tier are not known yet?
/// A key that is not genuine, or whose license is unknown or withdrawn, is
/// refused before the tier is looked for.
pub open spec fn is_resolve_step(
    key: Seq<char>,
    slug: Seq<char>,
    public: Seq<u8>,
    facts: UpgradeFacts,
    step: UpgradeStep,
) -> bool {
    if !is_verified(key, public) {
        step matches UpgradeStep::Refuse { error } && error is Unauthorized
    } else {
        match facts.license {
            None => step matches UpgradeStep::FindLicense { license_id } && license_id@
                == uuid_text(read_key(key)->Ok_0.payload.license_id),
            Some(found) => if found is None || is_withdrawn(found->0) {
                step matches UpgradeStep::Refuse { error } && error is Unauthorized
            } else {
                match facts.policy {
                    None => step matches UpgradeStep::FindPolicy { product_id, slug: s }
                        && product_id == found->0.product_id && s@ == slug,
                    Some(None) => step matches UpgradeStep::Refuse { error } && error.is_not_found(
                        "target policy '"@ + slug + "'"@,
                    ),
                    Some(Some(_)) => false,
                }
            },
        }
    }
}

/// Are the license and the tier of a change known, and is the key genuine?
pub open spec fn is_resolved(key: Seq<char>, public: Seq<u8>, facts: UpgradeFacts) -> bool {
    &&& is_verified(key, public)
    &&& facts.license is Some && facts.license->0 is Some
    &&& !is_withdrawn(facts.license->0->0)
    &&& facts.policy is Some && facts.policy->0 is Some
}

/// What a change needs next, or its license and tier.
pub fn resolve_request<'a>(
    license_key: &str,
    target_policy_slug: &str,
    verifying_key: &VerifyingKey,
    facts: &'a UpgradeFacts,
) -> (r: Result<(&'a License, &'a Policy), UpgradeStep>)
    ensures
        match r {
            Ok((license, policy)) => {
                &&& is_resolved(license_key@, verifying_key.bytes@, *facts)
                &&& *license == facts.license->0->0
                &&& *policy == facts.policy->0->0
            },
            Err(step) => {
                &&& !is_resolved(license_key@, verifying_key.bytes@, *facts)
                &&& is_resolve_step(
                    license_key@,
                    target_policy_slug@,
                    verifying_key.bytes@,
                    *facts,
                    step,
                )
            },
        },
{
    let license_id: String = match genuine_license_id(license_key, verifying_key) {
        Some(id) => id,
        None => {
            return Err(UpgradeStep::Refuse { error: AppError::Unauthorized });
        },
    };
    let license: &License = match &facts.license {
        None => {
            return Err(UpgradeStep::FindLicense { license_id });
        },
        Some(None) => {
            return Err(UpgradeStep::Refuse { error: AppError::Unauthorized });
        },
        Some(Some(license)) => license,
    };
    if withdrawn(license) {
        return Err(UpgradeStep::Refuse { error: AppError::Unauthorized });
    }
    match &facts.policy {
        None => Err(
            UpgradeStep::FindPolicy {
                product_id: license.product_id.clone(),
                slug: String::from_str(target_policy_slug),
            },
        ),
        Some(None) => Err(
            UpgradeStep::Refuse {
                error: not_found_with("target policy '", target_policy_slug, "'"),
            },
        ),
        Some(Some(policy)) => Ok((license, policy)),
    }
}

fn copy_quote(q: &UpgradeQuote) -> (r: UpgradeQuote)
    ensures
        r == *q,
{
    UpgradeQuote {
        from_policy_id: q.from_policy_id.clone(),
        from_policy_slug: q.from_policy_slug.clone(),
        to_policy_id: q.to_policy_id.clone(),
        to_policy_slug: q.to_policy_slug.clone(),
        direction: q.direction,
        listed_currency: q.listed_currency.clone(),
        proration_charge_value: q.proration_charge_value,
        effective_at: match &q.effective_at {
            EffectiveAt::Immediate => EffectiveAt::Immediate,
            EffectiveAt::At { time } => EffectiveAt::At { time: time.clone() },
        },
        next_renewal_charge: q.next_renewal_charge,
        next_renewal_period_days: q.next_renewal_period_days,
    }
}

/// Is `r` what a question about a change's cost needs next?
pub open spec fn is_quote_step(
    req: QuoteReq,
    public: Seq<u8>,
    facts: UpgradeFacts,
    r: UpgradeStep,
) -> bool {
    if !is_resolved(req.license_key@, public, facts) {
        is_resolve_step(req.license_key@, req.target_policy_slug@, public, facts, r)
    } else {
        match facts.quote {
            None => r is Quote,
            Some(q) => r == (UpgradeStep::Tell { quote: q }),
        }
    }
}

/// What a question about a change's cost needs next.
pub fn quote(req: &QuoteReq, verifying_key: &VerifyingKey, facts: &UpgradeFacts) -> (r: UpgradeStep)
    ensures
        is_quote_step(*req, verifying_key.bytes@, *facts, r),
{
    match resolve_request(
        req.license_key.as_str(),
        req.target_policy_slug.as_str(),
        verifying_key,
        facts,
    ) {
        Err(step) => step,
        Ok(_) => match &facts.quote {
            None => UpgradeStep::Quote,
            Some(q) => UpgradeStep::Tell { quote: copy_quote(q) },
        },
    }
}

/// Is `step` what a change needs next that was begun? Changes for the worse and
/// those that cost nothing are not the buyer's to make; any other is charged at
/// least one sat.
pub open spec fn is_start_step(
    req: StartReq,
    public: Seq<u8>,
    facts: UpgradeFacts,
    step: UpgradeStep,
) -> bool {
    if !is_resolved(req.license_key@, public, facts) {
        is_resolve_step(req.license_key@, req.target_policy_slug@, public, facts, step)
    } else {
        match facts.quote {
            None => step is Quote,
            Some(q) => if q.direction is Downgrade {
                step matches UpgradeStep::Refuse { error } && error is Forbidden
            } else if q.proration_charge_value <= 0 {
                step matches UpgradeStep::Refuse { error } && error.is_bad_request(
                    no_charge_words(),
                )
            } else {
                match facts.conversion {
                    None => step == (UpgradeStep::Convert {
                        currency: q.listed_currency,
                        value: q.proration_charge_value,
                    }),
                    Some(c) => step == (UpgradeStep::Charge {
                        amount_sats: if c.sats < 1 {
                            1
                        } else {
                            c.sats
                        },
                        buyer_email: facts.license->0->0.buyer_email,
                        product_id: facts.policy->0->0.product_id,
                    }),
                }
            },
        }
    }
}

/// What is said of a change that costs nothing.
pub open spec fn no_charge_words() -> Seq<char> {
    "this upgrade has no charge owed; admin must apply it as a comp via POST /v1/admin/licenses/:id/change-tier (Phase 4)"@
}

/// What a change needs next that was begun.
pub fn start(req: &StartReq, verifying_key: &VerifyingKey, facts: &UpgradeFacts) -> (r: UpgradeStep)
    ensures
        is_start_step(*req, verifying_key.bytes@, *facts, r),
{
    let (license, policy) = match resolve_request(
        req.license_key.as_str(),
        req.target_policy_slug.as_str(),
        verifying_key,
        facts,
    ) {
        Err(step) => {
            return step;
        },
        Ok(found) => found,
    };
    let q: &UpgradeQuote = match &facts.quote {
        None => {
            return UpgradeStep::Quote;
        },
        Some(q) => q,
    };
    if matches!(q.direction, TierDirection::Downgrade) {
        return UpgradeStep::Refuse { error: AppError::Forbidden };
    }
    if q.proration_charge_value <= 0 {
        return UpgradeStep::Refuse {
            error: bad_request(
                "this upgrade has no charge owed; admin must apply it as a comp via POST /v1/admin/licenses/:id/change-tier (Phase 4)",
            ),
        };
    }
    match &facts.conversion {
        None => UpgradeStep::Convert {
            currency: q.listed_currency.clone(),
            value: q.proration_charge_value,
        },
        Some(c) => UpgradeStep::Charge {
            amount_sats: if c.sats < 1 {
                1
            } else {
                c.sats
            },
            buyer_email: copy_opt(&license.buyer_email),
            product_id: policy.product_id.clone(),
        },
    }
}

/// A buyer is only charged for a change for the better that costs something,
/// and with a genuine key whose license is not withdrawn.
pub proof fn only_upgrades_are_charged(
    req: StartReq,
    public: Seq<u8>,
    facts: UpgradeFacts,
    step: UpgradeStep,
)
    requires
        is_start_step(req, public, facts, step),
        step is Charge,
    ensures
        is_resolved(req.license_key@, public, facts),
        facts.quote matches Some(q) && q.direction is Upgrade && q.proration_charge_value > 0,
        step->amount_sats >= 1,
{
}

/// The rate of the currency could not be had.
pub fn conversion_failed(detail: &str) -> (r: AppError)
    ensures
        r.is_upstream("rate conversion failed: "@ + detail@),
{
    AppError::Upstream(cat2("rate conversion failed: ", detail))
}

/// The provider would not create the invoice.
pub fn charge_refused(detail: &str) -> (r: AppError)
    ensures
        r.is_upstream("provider create_invoice: "@ + detail@),
{
    AppError::Upstream(cat2("provider create_invoice: ", detail))
}

// ---------- being paid ----------

/// A change that is to be paid.
#[derive(Clone, Debug)]
pub struct ChangeOrder {
    /// The identifier that its invoice gets in the records.
    pub invoice_id: String,
    pub license: License,
    pub quote: UpgradeQuote,
    pub conversion: Conversion,
    pub amount_sats: i64,
    pub product_id: String,
}

/// What has been done for a change so far. A field is `None` until it has been
/// done.
#[derive(Clone, Debug)]
pub struct ChangeFacts {
    /// Whether there is a provider.
    pub provider: Option<Result<(), AppError>>,
    /// The provider's invoice, or why it made none.
    pub charged: Option<Result<ProviderInvoice, String>>,
    /// The identifier of the invoice in the records.
    pub stored: Option<Result<String, AppError>>,
    /// The identifier of the change in the records.
    pub recorded: Option<Result<String, AppError>>,
}

/// A change to keep; it waits for its invoice.
#[derive(Clone, Debug, PartialEq, Eq)]
pub struct NewTierChange {
    pub license_id: String,
    pub from_policy_id: String,
    pub to_policy_id: String,
    pub direction: TierDirection,
    pub listed_currency: String,
    pub proration_charge_value: i64,
    pub invoice_id: String,
    pub effective_at: String,
    pub actor: &'static str,
}

/// The answer to a change that was begun.
#[derive(Clone, Debug, PartialEq, Eq)]
pub struct ChangeStarted {
    pub invoice_id: String,
    pub provider_invoice_id: String,
    pub checkout_url: String,
    pub amount_sats: i64,
    pub proration_charge_value: i64,
    pub listed_currency: String,
    pub tier_change_id: String,
    pub from_policy_slug: String,
    pub to_policy_slug: String,
}

/// What a change that is to be paid needs next, or where it ends up.
#[derive(Clone, Debug)]
pub enum ChangeStep {
    FindProvider,
    /// Have the provider make an invoice.
    CreateInvoice { charge: Charge },
    StoreInvoice { row: InvoiceRow },
    RecordChange { change: NewTierChange },
    Refuse { error: AppError },
    Answer { started: ChangeStarted },
}

/// Is `charge` what the provider is handed for a change? It names the license
/// and both tiers.
pub open spec fn is_change_charge(
    order: ChangeOrder,
    req: StartReq,
    public_base_url: Seq<char>,
    charge: Charge,
) -> bool {
    &&& charge.amount_sats == order.amount_sats
    &&& charge.redirect_url@ == redirect_text(req.redirect_url, public_base_url, order.invoice_id@)
    &&& charge.order_id == order.invoice_id
    &&& charge.buyer_email == order.license.buyer_email
    &&& charge.product_id == order.product_id
    &&& charge.change == Some(
        ChangeNamed {
            license_id: order.license.id,
            from_policy_id: order.quote.from_policy_id,
            to_policy_id: order.quote.to_policy_id,
        },
    )
}

/// Is `row` the invoice of a change as it is kept? Its listed price is what the
/// change costs, beside the rate at which that was converted.
pub open spec fn is_change_row(order: ChangeOrder, made: ProviderInvoice, row: InvoiceRow) -> bool {
    &&& row.id == order.invoice_id
    &&& row.provider_invoice_id == made.id
    &&& row.product_id == order.product_id
    &&& row.amount_sats == order.amount_sats
    &&& row.checkout_url == made.checkout_url
    &&& row.buyer_email == order.license.buyer_email
    &&& opt_text(row.buyer_note) == Some("tier upgrade"@)
    &&& row.policy_id == Some(order.quote.to_policy_id)
    &&& row.listed_currency == Some(order.quote.listed_currency)
    &&& row.listed_value == Some(order.quote.proration_charge_value)
    &&& row.exchange_rate_centibps == order.conversion.rate_centibps
    &&& row.exchange_rate_source == Some(order.conversion.source)
}

/// Is `change` what is kept of a change that waits for an invoice?
pub open spec fn is_waiting_change(
    order: ChangeOrder,
    invoice_id: String,
    now: Moment,
    change: NewTierChange,
) -> bool {
    &&& change.license_id == order.license.id
    &&& change.from_policy_id == order.quote.from_policy_id
    &&& change.to_policy_id == order.quote.to_policy_id
    &&& change.direction == order.quote.direction
    &&& change.listed_currency == order.quote.listed_currency
    &&& change.proration_charge_value == order.quote.proration_charge_value
    &&& change.invoice_id == invoice_id
    &&& change.effective_at@ == match order.quote.effective_at {
        EffectiveAt::Immediate => rfc3339_text(now.secs, now.nanos),
        EffectiveAt::At { time } => time@,
    }
    &&& change.actor@ == "buyer"@
}

/// Is `step` what a change that is to be paid needs next? The provider's invoice
/// comes first, then the invoice in the records, then the change that waits for
/// it. Whatever fails ends it.
pub open spec fn is_change_step(
    order: ChangeOrder,
    req: StartReq,
    public_base_url: Seq<char>,
    now: Moment,
    facts: ChangeFacts,
    step: ChangeStep,
) -> bool {
    match facts.provider {
        None => step is FindProvider,
        Some(Err(error)) => step == (ChangeStep::Refuse { error }),
        Some(Ok(_)) => match facts.charged {
            None => step matches ChangeStep::CreateInvoice { charge } && is_change_charge(
                order,
                req,
                public_base_url,
                charge,
            ),
            Some(Err(detail)) => step matches ChangeStep::Refuse { error } && error.is_upstream(
                "provider create_invoice: "@ + detail@,
            ),
            Some(Ok(made)) => match facts.stored {
                None => step matches ChangeStep::StoreInvoice { row } && is_change_row(
                    order,
                    made,
                    row,
                ),
                Some(Err(error)) => step == (ChangeStep::Refuse { error }),
                Some(Ok(id)) => match facts.recorded {
                    None => step matches ChangeStep::RecordChange { change } && is_waiting_change(
                        order,
                        id,
                        now,
                        change,
                    ),
                    Some(Err(error)) => step == (ChangeStep::Refuse { error }),
                    Some(Ok(change_id)) => step == (ChangeStep::Answer {
                        started: ChangeStarted {
                            invoice_id: id,
                            provider_invoice_id: made.id,
                            checkout_url: made.checkout_url,
                            amount_sats: order.amount_sats,
                            proration_charge_value: order.quote.proration_charge_value,
                            listed_currency: order.quote.listed_currency,
                            tier_change_id: change_id,
                            from_policy_slug: order.quote.from_policy_slug,
                            to_policy_slug: order.quote.to_policy_slug,
                        },
                    }),
                },
            },
        },
    }
}

/// What a change that is to be paid needs next, given what has been done so far.
pub fn bill(
    order: &ChangeOrder,
    req: &StartReq,
    public_base_url: &str,
    now: &Moment,
    facts: &ChangeFacts,
) -> (r: ChangeStep)
    requires
        now.in_calendar(),
    ensures
        is_change_step(*order, *req, public_base_url@, *now, *facts, r),
{
    let quote: &UpgradeQuote = &order.quote;
    match &facts.provider {
        None => {
            return ChangeStep::FindProvider;
        },
        Some(Err(error)) => {
            return ChangeStep::Refuse { error: error.copy() };
        },
        Some(Ok(_)) => {},
    }
    let made: ProviderInvoice = match &facts.charged {
        None => {
            let charge: Charge = Charge {
                amount_sats: order.amount_sats,
                redirect_url: redirect_target(
                    &req.redirect_url,
                    public_base_url,
                    order.invoice_id.as_str(),
                ),
                order_id: order.invoice_id.clone(),
                buyer_email: copy_opt(&order.license.buyer_email),
                product_id: order.product_id.clone(),
                change: Some(
                    ChangeNamed {
                        license_id: order.license.id.clone(),
                        from_policy_id: quote.from_policy_id.clone(),
                        to_policy_id: quote.to_policy_id.clone(),
                    },
                ),
            };
            return ChangeStep::CreateInvoice { charge };
        },
        Some(Err(detail)) => {
            return ChangeStep::Refuse { error: charge_refused(detail.as_str()) };
        },
        Some(Ok(made)) => made.copy(),
    };
    let id: &String = match &facts.stored {
        None => {
            let row: InvoiceRow = InvoiceRow {
                id: order.invoice_id.clone(),
                provider_invoice_id: made.id,
                product_id: order.product_id.clone(),
                amount_sats: order.amount_sats,
                checkout_url: made.checkout_url,
                buyer_email: copy_opt(&order.license.buyer_email),
                buyer_note: Some(String::from_str("tier upgrade")),
                policy_id: Some(quote.to_policy_id.clone()),
                listed_currency: Some(quote.listed_currency.clone()),
                listed_value: Some(quote.proration_charge_value),
                exchange_rate_centibps: order.conversion.rate_centibps,
                exchange_rate_source: Some(order.conversion.source.clone()),
            };
            return ChangeStep::StoreInvoice { row };
        },
        Some(Err(error)) => {
            return ChangeStep::Refuse { error: error.copy() };
        },
        Some(Ok(id)) => id,
    };
    match &facts.recorded {
        None => ChangeStep::RecordChange {
            change: NewTierChange {
                license_id: order.license.id.clone(),
                from_policy_id: quote.from_policy_id.clone(),
                to_policy_id: quote.to_policy_id.clone(),
                direction: quote.direction,
                listed_currency: quote.listed_currency.clone(),
                proration_charge_value: quote.proration_charge_value,
                invoice_id: id.clone(),
                effective_at: effective_time(&quote.effective_at, now),
                actor: "buyer",
            },
        },
        Some(Err(error)) => ChangeStep::Refuse { error: error.copy() },
        Some(Ok(change_id)) => ChangeStep::Answer {
            started: ChangeStarted {
                invoice_id: id.clone(),
                provider_invoice_id: made.id,
                checkout_url: made.checkout_url,
                amount_sats: order.amount_sats,
                proration_charge_value: quote.proration_charge_value,
                listed_currency: quote.listed_currency.clone(),
                tier_change_id: change_id.clone(),
                from_policy_slug: quote.from_policy_slug.clone(),
                to_policy_slug: quote.to_policy_slug.clone(),
            },
        },
    }
}

/// A buyer is told of a change only once it waits for its invoice in the
/// records.
pub proof fn changes_are_kept_before_buyers_are_told(
    order: ChangeOrder,
    req: StartReq,
    public_base_url: Seq<char>,
    now: Moment,
    facts: ChangeFacts,
    step: ChangeStep,
)
    requires
        is_change_step(order, req, public_base_url, now, facts, step),
        step is Answer,
    ensures
        facts.charged matches Some(Ok(_)),
        facts.stored matches Some(Ok(_)),
        facts.recorded matches Some(Ok(_)),
{
}

} // verus!
