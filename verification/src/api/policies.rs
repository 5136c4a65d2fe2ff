//! Policies: the templates that licenses are issued from.

use crate::api::cascade::{gone_with_policy, policy_cascade, Records};
use crate::api::purchase::{
    compute_discount, discount_for, discount_stays_within_price, max_of, tier_price,
};
use crate::api::tier::{
    enforce_policy_cap, enforce_recurring_feature, policy_cap_words, recurring_words, TierInfo,
    CREATOR_POLICY_CAP_PER_PRODUCT, UPGRADE_URL_PRO,
};
use crate::error::{bad_request, not_found_with, AppError, Refusal};
use crate::models::{CatalogEntry, DiscountCode, Policy, Product};
use crate::text::{
    cat5, cat7, copy_of, copy_opt, int_text, int_to_text, is_blank, opt_text, same, texts, trim,
};
use vstd::prelude::*;

verus! {

/// A request to make a policy.
#[derive(Clone, Debug)]
pub struct CreatePolicyReq {
    pub product_slug: String,
    pub name: String,
    pub slug: String,
    /// 0 means perpetual.
    pub duration_seconds: i64,
    pub grace_seconds: i64,
    /// 0 means unlimited.
    pub max_machines: i64,
    pub is_trial: bool,
    pub price_sats_override: Option<i64>,
    pub entitlements: Vec<String>,
    /// Who gets a share of each sale, and how much of it in basis points.
    pub tip_recipient: Option<String>,
    pub tip_pct_bps: i64,
    pub tip_label: Option<String>,
    pub is_recurring: bool,
    pub renewal_period_days: i64,
    /// Seven where it is omitted.
    pub grace_period_days: Option<i64>,
    pub trial_days: i64,
    /// The policy's place in the ladder of tiers.
    pub tier_rank: Option<i64>,
}

/// Which policies to list.
#[derive(Clone, Debug)]
pub struct ListPoliciesQuery {
    pub product_slug: String,
    pub include_inactive: bool,
    pub include_archived: bool,
}

/// Switches a policy on or off.
#[derive(Clone, Copy, Debug)]
pub struct SetActiveReq {
    pub active: bool,
}

/// Archives a policy or brings it back.
#[derive(Clone, Copy, Debug)]
pub struct SetArchivedReq {
    pub archived: bool,
}

/// How a policy is deleted.
#[derive(Clone, Copy, Debug)]
pub struct PolicyDeleteOpts {
    /// Delete everything that refers to the policy too.
    pub force: bool,
}

/// Changes to a policy. A field that is `None` is left alone.
#[derive(Clone, Debug)]
pub struct UpdatePolicyReq {
    pub name: Option<String>,
    pub duration_seconds: Option<i64>,
    pub grace_seconds: Option<i64>,
    pub max_machines: Option<i64>,
    pub is_trial: Option<bool>,
    pub price_sats_override: Option<Option<i64>>,
    pub entitlements: Option<Vec<String>>,
    pub is_recurring: Option<bool>,
    pub renewal_period_days: Option<i64>,
    pub grace_period_days: Option<i64>,
    pub trial_days: Option<i64>,
    pub tier_rank: Option<Option<i64>>,
}

/// Shows a policy on the buy page or hides it.
#[derive(Clone, Copy, Debug)]
pub struct SetPublicReq {
    pub public: bool,
}

/// Sets who gets a share of each sale.
#[derive(Clone, Debug)]
pub struct SetTipReq {
    pub tip_recipient: Option<String>,
    pub tip_pct_bps: i64,
    pub tip_label: Option<String>,
}

/// Which tips to list.
#[derive(Clone, Debug)]
pub struct ListTipsQuery {
    pub license_id: Option<String>,
    pub recipient: Option<String>,
    pub limit: i64,
}

/// How many machines a license is for where nothing is said.
pub fn default_max_machines() -> (r: i64)
    ensures
        r == 1,
{
    1
}

/// How many tips are listed where nothing is said.
pub fn default_tip_limit() -> (r: i64)
    ensures
        r == 100,
{
    100
}

// ---------- rules ----------

/// The longest period that can be charged for: five years.
pub const MAX_RENEWAL_DAYS: i64 = 1830;

/// What is wrong with a policy's recurring charges. A policy that does not
/// recur has none, whatever else it says.
pub open spec fn recurring_refusal(
    is_recurring: bool,
    renewal_period_days: int,
    grace_period_days: int,
    trial_days: int,
) -> Option<Seq<char>> {
    if !is_recurring {
        None
    } else if renewal_period_days <= 0 {
        Some("renewal_period_days must be > 0 when is_recurring=true"@)
    } else if renewal_period_days > MAX_RENEWAL_DAYS {
        Some("renewal_period_days unreasonably large (>5 years)"@)
    } else if grace_period_days < 0 {
        Some("grace_period_days must be >= 0"@)
    } else if grace_period_days > 90 {
        Some(
            "grace_period_days capped at 90 — operators wanting longer should disable lapsing manually"@,
        )
    } else if trial_days < 0 {
        Some("trial_days must be >= 0"@)
    } else if trial_days > renewal_period_days {
        Some(
            "trial_days ("@ + int_text(trial_days) + ") cannot exceed renewal_period_days ("@
                + int_text(renewal_period_days) + ")"@,
        )
    } else {
        None
    }
}

/// Checks a policy's recurring charges.
pub fn validate_recurring(
    is_recurring: bool,
    renewal_period_days: i64,
    grace_period_days: i64,
    trial_days: i64,
) -> (r: Result<(), AppError>)
    ensures
        match (
            recurring_refusal(
                is_recurring,
                renewal_period_days as int,
                grace_period_days as int,
                trial_days as int,
            ),
            r,
        ) {
            (None, Ok(_)) => true,
            (Some(words), Err(e)) => e.is_bad_request(words),
            _ => false,
        },
{
    if !is_recurring {
        return Ok(());
    }
    if renewal_period_days <= 0 {
        return Err(bad_request("renewal_period_days must be > 0 when is_recurring=true"));
    }
    if renewal_period_days > MAX_RENEWAL_DAYS {
        return Err(bad_request("renewal_period_days unreasonably large (>5 years)"));
    }
    if grace_period_days < 0 {
        return Err(bad_request("grace_period_days must be >= 0"));
    }
    if grace_period_days > 90 {
        return Err(
            bad_request(
                "grace_period_days capped at 90 — operators wanting longer should disable lapsing manually",
            ),
        );
    }
    if trial_days < 0 {
        return Err(bad_request("trial_days must be >= 0"));
    }
    if trial_days > renewal_period_days {
        return Err(
            AppError::BadRequest(
                cat5(
                    "trial_days (",
                    int_to_text(trial_days).as_str(),
                    ") cannot exceed renewal_period_days (",
                    int_to_text(renewal_period_days).as_str(),
                    ")",
                ),
            ),
        );
    }
    Ok(())
}

/// A recurring policy that passes the check charges at least every five years,
/// and its trial is no longer than a period.
pub proof fn recurring_policies_are_consistent(period: int, grace: int, trial: int)
    requires
        recurring_refusal(true, period, grace, trial) is None,
    ensures
        1 <= period <= MAX_RENEWAL_DAYS,
        0 <= grace <= 90,
        0 <= trial <= period,
{
}

/// The slugs of a catalog.
pub open spec fn catalog_slugs(catalog: Seq<CatalogEntry>) -> Seq<Seq<char>> {
    catalog.map_values(|e: CatalogEntry| e.slug@)
}

/// The first entitlement that is not in a catalog.
pub open spec fn first_unknown(known: Seq<Seq<char>>, wanted: Seq<Seq<char>>) -> Option<Seq<char>>
    decreases wanted.len(),
{
    if wanted.len() == 0 {
        None
    } else {
        match first_unknown(known, wanted.drop_last()) {
            Some(slug) => Some(slug),
            None => if known.contains(wanted.last()) {
                None
            } else {
                Some(wanted.last())
            },
        }
    }
}

/// What is wrong with a policy's entitlements: each has to be in the product's
/// catalog, where the product has one that is not empty.
pub open spec fn catalog_refusal(product: Product, wanted: Seq<Seq<char>>) -> Option<Seq<char>> {
    match product.entitlements_catalog {
        None => None,
        Some(catalog) => if catalog@.len() == 0 {
            None
        } else {
            match first_unknown(catalog_slugs(catalog@), wanted) {
                None => None,
                Some(slug) => Some(
                    "entitlement '"@ + slug + "' is not in product '"@ + product.slug@
                        + "' catalog. Add it to the product's entitlements catalog first, or clear the catalog to drop back to free-text mode."@,
                ),
            }
        },
    }
}

fn in_catalog(catalog: &Vec<CatalogEntry>, slug: &str) -> (r: bool)
    ensures
        r == catalog_slugs(catalog@).contains(slug@),
{
    for i in 0..catalog.len()
        invariant
            forall|j: int| 0 <= j < i ==> (#[trigger] catalog@[j]).slug@ != slug@,
    {
        if same(catalog[i].slug.as_str(), slug) {
            assert(catalog_slugs(catalog@)[i as int] == slug@);
            return true;
        }
    }
    assert(!catalog_slugs(catalog@).contains(slug@)) by {
        if catalog_slugs(catalog@).contains(slug@) {
            let k = choose|k: int|
                0 <= k < catalog_slugs(catalog@).len() && catalog_slugs(catalog@)[k] == slug@;
            assert(catalog@[k].slug@ == slug@);
        }
    }
    false
}

proof fn lemma_first_unknown(known: Seq<Seq<char>>, wanted: Seq<Seq<char>>, k: int)
    requires
        0 <= k < wanted.len(),
        first_unknown(known, wanted.take(k)) is None,
        !known.contains(wanted[k]),
    ensures
        first_unknown(known, wanted) == Some(wanted[k]),
    decreases wanted.len(),
{
    if k == wanted.len() - 1 {
        assert(wanted.drop_last() == wanted.take(k));
    } else {
        assert(wanted.drop_last().take(k) == wanted.take(k));
        lemma_first_unknown(known, wanted.drop_last(), k);
    }
}

/// Checks a policy's entitlements against the product's catalog.
pub fn validate_entitlements_against_catalog(product: &Product, entitlements: &Vec<String>) -> (r:
    Result<(), AppError>)
    ensures
        match (catalog_refusal(*product, texts(entitlements@)), r) {
            (None, Ok(_)) => true,
            (Some(words), Err(e)) => e.is_bad_request(words),
            _ => false,
        },
{
    let catalog: &Vec<CatalogEntry> = match &product.entitlements_catalog {
        None => {
            return Ok(());
        },
        Some(catalog) => catalog,
    };
    if catalog.len() == 0 {
        return Ok(());
    }
    let ghost known = catalog_slugs(catalog@);
    let ghost wanted = texts(entitlements@);
    for i in 0..entitlements.len()
        invariant
            product.entitlements_catalog == Some(*catalog),
            catalog@.len() > 0,
            known == catalog_slugs(catalog@),
            wanted == texts(entitlements@),
            first_unknown(known, wanted.take(i as int)) is None,
    {
        assert(wanted[i as int] == entitlements@[i as int]@);
        if !in_catalog(catalog, entitlements[i].as_str()) {
            proof {
                lemma_first_unknown(known, wanted, i as int);
            }
            return Err(
                AppError::BadRequest(
                    cat5(
                        "entitlement '",
                        entitlements[i].as_str(),
                        "' is not in product '",
                        product.slug.as_str(),
                        "' catalog. Add it to the product's entitlements catalog first, or clear the catalog to drop back to free-text mode.",
                    ),
                ),
            );
        }
        assert(wanted.take(i + 1).drop_last() == wanted.take(i as int));
    }
    assert(wanted.take(wanted.len() as int) == wanted);
    Ok(())
}

/// Entitlements that pass the check are all in the product's catalog, where it
/// has one.
pub proof fn checked_entitlements_are_in_the_catalog(product: Product, wanted: Seq<Seq<char>>)
    requires
        catalog_refusal(product, wanted) is None,
        product.entitlements_catalog is Some,
        product.entitlements_catalog->0@.len() > 0,
    ensures
        forall|i: int|
            0 <= i < wanted.len() ==> catalog_slugs(product.entitlements_catalog->0@).contains(
                #[trigger] wanted[i],
            ),
{
    lemma_none_unknown(catalog_slugs(product.entitlements_catalog->0@), wanted);
}

proof fn lemma_none_unknown(known: Seq<Seq<char>>, wanted: Seq<Seq<char>>)
    requires
        first_unknown(known, wanted) is None,
    ensures
        forall|i: int| 0 <= i < wanted.len() ==> known.contains(#[trigger] wanted[i]),
    decreases wanted.len(),
{
    if wanted.len() > 0 {
        lemma_none_unknown(known, wanted.drop_last());
        assert forall|i: int| 0 <= i < wanted.len() implies known.contains(
            #[trigger] wanted[i],
        ) by {
            if i < wanted.len() - 1 {
                assert(wanted.drop_last()[i] == wanted[i]);
            }
        }
    }
}

/// A text that is not blank.
pub open spec fn non_blank(text: Option<String>) -> Option<String> {
    match text {
        Some(t) => if is_blank(t@) {
            None
        } else {
            Some(t)
        },
        None => None,
    }
}

/// A text, unless it is blank.
pub fn unless_blank(text: &Option<String>) -> (r: Option<String>)
    ensures
        r == non_blank(*text),
{
    match text {
        Some(t) => if trim(t.as_str()).is_empty() {
            None
        } else {
            Some(t.clone())
        },
        None => None,
    }
}

/// What is wrong with a tip: its share lies between nothing and the whole, and
/// there is a share exactly where there is a recipient. `range_words` says the
/// first of these.
pub open spec fn tip_refusal(
    recipient: Option<String>,
    bps: int,
    range_words: Seq<char>,
) -> Option<Seq<char>> {
    if bps < 0 || bps > 10_000 {
        Some(range_words)
    } else if non_blank(recipient) is Some && bps == 0 {
        Some("tip_pct_bps must be > 0 when tip_recipient is set"@)
    } else if non_blank(recipient) is None && bps > 0 {
        Some("tip_recipient must be set when tip_pct_bps > 0"@)
    } else {
        None
    }
}

/// Checks a tip.
pub fn check_tip(recipient: &Option<String>, bps: i64, range_words: &str) -> (r: Result<
    (),
    AppError,
>)
    ensures
        match (tip_refusal(*recipient, bps as int, range_words@), r) {
            (None, Ok(_)) => true,
            (Some(words), Err(e)) => e.is_bad_request(words),
            _ => false,
        },
{
    let known: bool = unless_blank(recipient).is_some();
    if bps < 0 || bps > 10_000 {
        Err(bad_request(range_words))
    } else if known && bps == 0 {
        Err(bad_request("tip_pct_bps must be > 0 when tip_recipient is set"))
    } else if !known && bps > 0 {
        Err(bad_request("tip_recipient must be set when tip_pct_bps > 0"))
    } else {
        Ok(())
    }
}

/// A tip to set.
#[derive(Clone, Debug)]
pub struct TipConfig {
    pub recipient: Option<String>,
    pub pct_bps: i64,
    pub label: Option<String>,
}

/// Is `r` the tip that a request sets?
pub open spec fn is_tip_set(req: SetTipReq, r: Result<TipConfig, AppError>) -> bool {
    match (
        tip_refusal(
            req.tip_recipient,
            req.tip_pct_bps as int,
            "tip_pct_bps must be between 0 and 10000"@,
        ),
        r,
    ) {
        (None, Ok(tip)) => tip == (TipConfig {
            recipient: non_blank(req.tip_recipient),
            pct_bps: req.tip_pct_bps,
            label: non_blank(req.tip_label),
        }),
        (Some(words), Err(e)) => e.is_bad_request(words),
        _ => false,
    }
}

/// The tip that a request sets; blank texts count as none.
pub fn set_tip(req: &SetTipReq) -> (r: Result<TipConfig, AppError>)
    ensures
        is_tip_set(*req, r),
{
    match check_tip(
        &req.tip_recipient,
        req.tip_pct_bps,
        "tip_pct_bps must be between 0 and 10000",
    ) {
        Err(e) => Err(e),
        Ok(_) => Ok(
            TipConfig {
                recipient: unless_blank(&req.tip_recipient),
                pct_bps: req.tip_pct_bps,
                label: unless_blank(&req.tip_label),
            },
        ),
    }
}

// ---------- making and changing ----------

/// What a new policy is stored with, beside what the request says as it is.
#[derive(Clone, Debug)]
pub struct NewPolicy {
    pub product_id: String,
    pub tip_recipient: Option<String>,
    pub tip_label: Option<String>,
    pub grace_period_days: i64,
}

/// How long a missed renewal is waited for.
pub open spec fn grace_days(given: Option<i64>) -> i64 {
    match given {
        Some(d) => d,
        None => 7,
    }
}

/// Why a policy cannot be made, in the order that the reasons are looked for;
/// `count` is how many policies the product has.
pub open spec fn create_refusal(
    req: CreatePolicyReq,
    found: Option<Product>,
    tier: TierInfo,
    count: int,
) -> Option<Refusal> {
    match found {
        None => Some(Refusal::NotFound { words: "product '"@ + req.product_slug@ + "'"@ }),
        Some(product) => {
            let bad = |words: Seq<char>| Some(Refusal::BadRequest { words });
            let tip = tip_refusal(
                req.tip_recipient,
                req.tip_pct_bps as int,
                "tip_pct_bps must be between 0 and 10000 (100%)"@,
            );
            let recurring = recurring_refusal(
                req.is_recurring,
                req.renewal_period_days as int,
                grace_days(req.grace_period_days) as int,
                req.trial_days as int,
            );
            if !tier.holds("unlimited_policies"@) && count >= CREATOR_POLICY_CAP_PER_PRODUCT {
                Some(
                    Refusal::PaymentRequired {
                        words: policy_cap_words(tier.display_name@, count),
                        url: UPGRADE_URL_PRO@,
                    },
                )
            } else if req.duration_seconds < 0 {
                bad("duration_seconds must be >= 0"@)
            } else if req.grace_seconds < 0 {
                bad("grace_seconds must be >= 0"@)
            } else if req.max_machines < 0 {
                bad("max_machines must be >= 0"@)
            } else if tip is Some {
                bad(tip->0)
            } else if recurring is Some {
                bad(recurring->0)
            } else if req.is_recurring && !tier.holds("recurring_billing"@) {
                Some(
                    Refusal::PaymentRequired {
                        words: recurring_words(tier.display_name@),
                        url: UPGRADE_URL_PRO@,
                    },
                )
            } else if !rank_in_range(req.tier_rank) {
                bad("tier_rank must be between 0 and 1000"@)
            } else {
                match catalog_refusal(product, texts(req.entitlements@)) {
                    Some(words) => bad(words),
                    None => None,
                }
            }
        },
    }
}

/// Is a place in the ladder of tiers one that can be had?
pub open spec fn rank_in_range(rank: Option<i64>) -> bool {
    rank matches Some(r) ==> 0 <= r <= 1000
}

fn check_rank(rank: &Option<i64>) -> (r: Result<(), AppError>)
    ensures
        match r {
            Ok(_) => rank_in_range(*rank),
            Err(e) => !rank_in_range(*rank) && e.is_bad_request(
                "tier_rank must be between 0 and 1000"@,
            ),
        },
{
    match *rank {
        Some(n) => if n < 0 || n > 1000 {
            Err(bad_request("tier_rank must be between 0 and 1000"))
        } else {
            Ok(())
        },
        None => Ok(()),
    }
}

/// Is `r` what a new policy is stored with?
pub open spec fn is_new_policy(
    req: CreatePolicyReq,
    found: Option<Product>,
    tier: TierInfo,
    count: i64,
    r: Result<NewPolicy, AppError>,
) -> bool {
    match (create_refusal(req, found, tier, count as int), r) {
        (None, Ok(p)) => found is Some && p == (NewPolicy {
            product_id: found->0.id,
            tip_recipient: non_blank(req.tip_recipient),
            tip_label: non_blank(req.tip_label),
            grace_period_days: grace_days(req.grace_period_days),
        }),
        (Some(refusal), Err(e)) => refusal.is(e),
        _ => false,
    }
}

/// What a new policy is stored with; `count` is how many policies the product
/// has.
pub fn create(
    req: &CreatePolicyReq,
    found: &Option<Product>,
    tier: &TierInfo,
    count: i64,
) -> (r: Result<NewPolicy, AppError>)
    ensures
        is_new_policy(*req, *found, *tier, count, r),
{
    let product: &Product = match found {
        None => {
            return Err(not_found_with("product '", req.product_slug.as_str(), "'"));
        },
        Some(product) => product,
    };
    if let Err(e) = enforce_policy_cap(tier, count) {
        return Err(e);
    }
    if req.duration_seconds < 0 {
        return Err(bad_request("duration_seconds must be >= 0"));
    }
    if req.grace_seconds < 0 {
        return Err(bad_request("grace_seconds must be >= 0"));
    }
    if req.max_machines < 0 {
        return Err(bad_request("max_machines must be >= 0"));
    }
    if let Err(e) = check_tip(
        &req.tip_recipient,
        req.tip_pct_bps,
        "tip_pct_bps must be between 0 and 10000 (100%)",
    ) {
        return Err(e);
    }
    let grace_period_days: i64 = match req.grace_period_days {
        Some(d) => d,
        None => 7,
    };
    if let Err(e) = validate_recurring(
        req.is_recurring,
        req.renewal_period_days,
        grace_period_days,
        req.trial_days,
    ) {
        return Err(e);
    }
    if req.is_recurring {
        if let Err(e) = enforce_recurring_feature(tier) {
            return Err(e);
        }
    }
    if let Err(e) = check_rank(&req.tier_rank) {
        return Err(e);
    }
    if let Err(e) = validate_entitlements_against_catalog(product, &req.entitlements) {
        return Err(e);
    }
    Ok(
        NewPolicy {
            product_id: product.id.clone(),
            tip_recipient: unless_blank(&req.tip_recipient),
            tip_label: unless_blank(&req.tip_label),
            grace_period_days,
        },
    )
}

/// Does the request touch the policy's recurring charges?
pub open spec fn touches_recurring(req: UpdatePolicyReq) -> bool {
    req.is_recurring is Some || req.renewal_period_days is Some || req.grace_period_days is Some
        || req.trial_days is Some
}

/// A value after a change.
pub open spec fn changed<T>(change: Option<T>, before: T) -> T {
    match change {
        Some(v) => v,
        None => before,
    }
}

/// What is wrong with the recurring charges of a policy once it is changed. Only
/// a policy that becomes recurring needs a tier that has recurring billing.
pub open spec fn recurring_change_refusal(
    req: UpdatePolicyReq,
    current: Policy,
    tier: TierInfo,
) -> Option<Refusal> {
    let recurs = changed(req.is_recurring, current.is_recurring);
    let refusal = recurring_refusal(
        recurs,
        changed(req.renewal_period_days, current.renewal_period_days) as int,
        changed(req.grace_period_days, current.grace_period_days) as int,
        changed(req.trial_days, current.trial_days) as int,
    );
    if refusal is Some {
        Some(Refusal::BadRequest { words: refusal->0 })
    } else if !current.is_recurring && recurs && !tier.holds("recurring_billing"@) {
        Some(
            Refusal::PaymentRequired {
                words: recurring_words(tier.display_name@),
                url: UPGRADE_URL_PRO@,
            },
        )
    } else {
        None
    }
}

/// What is wrong with the entitlements of a policy once it is changed.
pub open spec fn entitlement_change_refusal(
    id: Seq<char>,
    wanted: Seq<Seq<char>>,
    current: Option<Policy>,
    product: Option<Product>,
) -> Option<Refusal> {
    match current {
        None => Some(Refusal::NotFound { words: "policy '"@ + id + "'"@ }),
        Some(policy) => match product {
            None => Some(
                Refusal::NotFound { words: "product '"@ + policy.product_id@ + "'"@ },
            ),
            Some(product) => match catalog_refusal(product, wanted) {
                Some(words) => Some(Refusal::BadRequest { words }),
                None => None,
            },
        },
    }
}

/// Why a policy cannot be changed, in the order that the reasons are looked for.
pub open spec fn update_refusal(
    id: Seq<char>,
    req: UpdatePolicyReq,
    current: Option<Policy>,
    product: Option<Product>,
    tier: TierInfo,
) -> Option<Refusal> {
    let bad = |words: Seq<char>| Some(Refusal::BadRequest { words });
    if req.duration_seconds matches Some(d) && d < 0 {
        bad("duration_seconds must be >= 0"@)
    } else if req.grace_seconds matches Some(g) && g < 0 {
        bad("grace_seconds must be >= 0"@)
    } else if req.max_machines matches Some(m) && m < 0 {
        bad("max_machines must be >= 0"@)
    } else if touches_recurring(req) && current is None {
        Some(Refusal::NotFound { words: "policy '"@ + id + "'"@ })
    } else if touches_recurring(req) && recurring_change_refusal(req, current->0, tier) is Some {
        recurring_change_refusal(req, current->0, tier)
    } else if req.tier_rank is Some && !rank_in_range(req.tier_rank->0) {
        bad("tier_rank must be between 0 and 1000"@)
    } else if req.entitlements is Some {
        entitlement_change_refusal(id, texts(req.entitlements->0@), current, product)
    } else {
        None
    }
}

/// Checks a change to a policy; `current` is the policy as it stands and
/// `product` its product.
pub fn update(
    id: &str,
    req: &UpdatePolicyReq,
    current: &Option<Policy>,
    product: &Option<Product>,
    tier: &TierInfo,
) -> (r: Result<(), AppError>)
    ensures
        match (update_refusal(id@, *req, *current, *product, *tier), r) {
            (None, Ok(_)) => true,
            (Some(refusal), Err(e)) => refusal.is(e),
            _ => false,
        },
{
    if let Some(d) = req.duration_seconds {
        if d < 0 {
            return Err(bad_request("duration_seconds must be >= 0"));
        }
    }
    if let Some(g) = req.grace_seconds {
        if g < 0 {
            return Err(bad_request("grace_seconds must be >= 0"));
        }
    }
    if let Some(m) = req.max_machines {
        if m < 0 {
            return Err(bad_request("max_machines must be >= 0"));
        }
    }
    if req.is_recurring.is_some() || req.renewal_period_days.is_some()
        || req.grace_period_days.is_some() || req.trial_days.is_some() {
        let policy: &Policy = match current {
            None => {
                return Err(not_found_with("policy '", id, "'"));
            },
            Some(policy) => policy,
        };
        let recurs: bool = req.is_recurring.unwrap_or(policy.is_recurring);
        if let Err(e) = validate_recurring(
            recurs,
            req.renewal_period_days.unwrap_or(policy.renewal_period_days),
            req.grace_period_days.unwrap_or(policy.grace_period_days),
            req.trial_days.unwrap_or(policy.trial_days),
        ) {
            return Err(e);
        }
        if !policy.is_recurring && recurs {
            if let Err(e) = enforce_recurring_feature(tier) {
                return Err(e);
            }
        }
    }
    if let Some(rank) = &req.tier_rank {
        if let Err(e) = check_rank(rank) {
            return Err(e);
        }
    }
    if let Some(wanted) = &req.entitlements {
        let policy: &Policy = match current {
            None => {
                return Err(not_found_with("policy '", id, "'"));
            },
            Some(policy) => policy,
        };
        match product {
            None => {
                return Err(not_found_with("product '", policy.product_id.as_str(), "'"));
            },
            Some(product) => {
                if let Err(e) = validate_entitlements_against_catalog(product, wanted) {
                    return Err(e);
                }
            },
        }
    }
    Ok(())
}

/// How the audit log calls archiving a policy or bringing it back.
pub fn set_archived(req: &SetArchivedReq) -> (r: String)
    ensures
        r@ == if req.archived {
            "policy.archive"@
        } else {
            "policy.unarchive"@
        },
{
    if req.archived {
        String::from_str("policy.archive")
    } else {
        String::from_str("policy.unarchive")
    }
}

// ---------- deleting ----------

/// How many records refer to a policy.
#[derive(Clone, Copy, Debug)]
pub struct PolicyReferences {
    /// All licenses, revoked ones too.
    pub licenses: i64,
    /// All invoices, whatever became of them.
    pub invoices: i64,
    /// Subscriptions that are active or past due.
    pub active_subscriptions: i64,
    /// All machines of the licenses.
    pub machines: i64,
    /// All uses of codes for the invoices.
    pub redemptions: i64,
}

/// What a policy's deletion takes with it.
#[derive(Clone, Copy, Debug, PartialEq, Eq, Structural)]
pub struct PolicyCascade {
    pub licenses: i64,
    pub invoices: i64,
    pub machines: i64,
    pub redemptions: i64,
}

/// A deletion that may go ahead.
#[derive(Clone, Debug)]
pub struct PolicyDeletion {
    pub slug: String,
    pub name: String,
    /// How the audit log calls it.
    pub action: String,
    /// What goes, in its order.
    pub gone: Vec<Records>,
    /// How many records go.
    pub counts: PolicyCascade,
}

/// How many records go with a policy: all that refer to it, by force or not.
pub open spec fn cascade_counts(refs: PolicyReferences) -> PolicyCascade {
    PolicyCascade {
        licenses: refs.licenses,
        invoices: refs.invoices,
        machines: refs.machines,
        redemptions: refs.redemptions,
    }
}

/// Does anything of a customer's refer to a policy?
pub open spec fn in_use(refs: PolicyReferences) -> bool {
    refs.licenses > 0 || refs.invoices > 0 || refs.active_subscriptions > 0
}

/// What is said of a policy that is in use.
pub open spec fn in_use_words(slug: Seq<char>, refs: PolicyReferences) -> Seq<char> {
    "cannot delete policy '"@ + slug + "' — it has "@ + int_text(refs.licenses as int)
        + " license(s), "@ + int_text(refs.invoices as int) + " invoice(s), and "@ + int_text(
        refs.active_subscriptions as int,
    )
        + " active subscription(s) referencing it. Archive it to hide it from the admin grid and the buy page, or use ?force=true to cascade through everything."@
}

/// Is `r` what comes of deleting a policy?
pub open spec fn is_policy_deletion(
    id: Seq<char>,
    found: Option<Policy>,
    force: bool,
    refs: PolicyReferences,
    r: Result<PolicyDeletion, AppError>,
) -> bool {
    match found {
        None => r matches Err(e) && e.is_not_found("policy '"@ + id + "'"@),
        Some(policy) => if !force && in_use(refs) {
            r matches Err(e) && e.is_conflict(in_use_words(policy.slug@, refs))
        } else {
            &&& r matches Ok(deletion)
            &&& deletion.slug == policy.slug
            &&& deletion.name == policy.name
            &&& deletion.gone@ == gone_with_policy()
            &&& deletion.counts == cascade_counts(refs)
            &&& deletion.action@ == if force {
                "policy.force_delete"@
            } else {
                "policy.delete"@
            }
        },
    }
}

/// What a policy's deletion takes with it, how many records that is, and how the
/// audit log calls it. A policy that any license or invoice refers to is deleted only by force.
pub fn delete(
    id: &str,
    found: &Option<Policy>,
    opts: &PolicyDeleteOpts,
    refs: &PolicyReferences,
) -> (r: Result<PolicyDeletion, AppError>)
    ensures
        is_policy_deletion(id@, *found, opts.force, *refs, r),
{
    let policy: &Policy = match found {
        None => {
            return Err(not_found_with("policy '", id, "'"));
        },
        Some(policy) => policy,
    };
    if !opts.force && (refs.licenses > 0 || refs.invoices > 0 || refs.active_subscriptions > 0) {
        let mut words: String = cat7(
            "cannot delete policy '",
            policy.slug.as_str(),
            "' — it has ",
            int_to_text(refs.licenses).as_str(),
            " license(s), ",
            int_to_text(refs.invoices).as_str(),
            " invoice(s), and ",
        );
        words.append(int_to_text(refs.active_subscriptions).as_str());
        words.append(
            " active subscription(s) referencing it. Archive it to hide it from the admin grid and the buy page, or use ?force=true to cascade through everything.",
        );
        return Err(AppError::Conflict(words));
    }
    let action: String = if opts.force {
        String::from_str("policy.force_delete")
    } else {
        String::from_str("policy.delete")
    };
    Ok(
        PolicyDeletion {
            slug: policy.slug.clone(),
            name: policy.name.clone(),
            action,
            gone: policy_cascade(),
            counts: PolicyCascade {
                licenses: refs.licenses,
                invoices: refs.invoices,
                machines: refs.machines,
                redemptions: refs.redemptions,
            },
        },
    )
}

/// A policy that a license or an invoice refers to goes only by force, whatever
/// became of the license or the invoice.
pub proof fn policies_in_use_stay(
    id: Seq<char>,
    found: Option<Policy>,
    force: bool,
    refs: PolicyReferences,
    r: Result<PolicyDeletion, AppError>,
)
    requires
        is_policy_deletion(id, found, force, refs, r),
        refs.licenses > 0 || refs.invoices > 0,
        r is Ok,
    ensures
        force,
{
}

/// A policy that goes without force takes no license and no invoice with it.
pub proof fn safe_deletions_take_no_licenses(
    id: Seq<char>,
    found: Option<Policy>,
    refs: PolicyReferences,
    deletion: PolicyDeletion,
)
    requires
        is_policy_deletion(id, found, false, refs, Ok(deletion)),
    ensures
        deletion.counts.licenses <= 0,
        deletion.counts.invoices <= 0,
{
}

// ---------- what buyers see ----------

/// A code that is shown to every buyer, and what it does to a tier's price.
#[derive(Clone, Debug)]
pub struct FeaturedDiscount {
    pub code: String,
    pub kind: String,
    pub amount: i64,
    pub description: String,
    pub expires_at: Option<String>,
    pub max_uses: Option<i64>,
    pub used_count: i64,
    pub remaining_uses: Option<i64>,
    pub discount_applied_sats: i64,
    pub discounted_price_sats: i64,
}

/// Can the uses that are left of a code be counted?
pub open spec fn uses_countable(code: DiscountCode) -> bool {
    code.max_uses matches Some(max) ==> i64::MIN <= max - code.used_count <= i64::MAX
}

/// Does `f` say what the code does to a price? A price never falls below 0, and
/// neither do the uses that are left.
pub open spec fn features(code: DiscountCode, price: i64, f: FeaturedDiscount) -> bool {
    let off = discount_for(code.kind@, code.amount as int, price as int);
    &&& f.code == code.code
    &&& f.kind == code.kind
    &&& f.amount == code.amount
    &&& f.description == code.description
    &&& f.expires_at == code.expires_at
    &&& f.max_uses == code.max_uses
    &&& f.used_count == code.used_count
    &&& match code.max_uses {
        Some(max) => f.remaining_uses matches Some(left) && left == max_of(max - code.used_count, 0),
        None => f.remaining_uses is None,
    }
    &&& f.discount_applied_sats == off
    &&& f.discounted_price_sats == max_of(price - off, 0)
}

/// What a featured code does to a price.
pub fn featured_discount(code: &DiscountCode, price: i64) -> (r: FeaturedDiscount)
    requires
        uses_countable(*code),
    ensures
        features(*code, price, r),
{
    let off: i64 = compute_discount(code.kind.as_str(), code.amount, price);
    proof {
        if price >= 0 {
            discount_stays_within_price(code.kind@, code.amount as int, price as int);
        }
    }
    let left: i64 = price - off;
    FeaturedDiscount {
        code: code.code.clone(),
        kind: code.kind.clone(),
        amount: code.amount,
        description: code.description.clone(),
        expires_at: copy_opt(&code.expires_at),
        max_uses: code.max_uses,
        used_count: code.used_count,
        remaining_uses: match code.max_uses {
            Some(max) => {
                let rest: i64 = max - code.used_count;
                Some(
                    if rest >= 0 {
                        rest
                    } else {
                        0
                    },
                )
            },
            None => None,
        },
        discount_applied_sats: off,
        discounted_price_sats: if left >= 0 {
            left
        } else {
            0
        },
    }
}

/// A tier as buyers see it: nothing in it that is only for the operator.
#[derive(Clone, Debug)]
pub struct PublicPolicy {
    pub slug: String,
    pub name: String,
    pub description: String,
    pub price_sats: i64,
    pub duration_seconds: i64,
    pub max_machines: i64,
    pub is_trial: bool,
    pub entitlements: Vec<String>,
    pub marketing_bullets: Vec<String>,
    /// `above` or `below`.
    pub marketing_bullets_position: &'static str,
    pub hidden_entitlements: Vec<String>,
    pub highlighted: bool,
    pub is_recurring: bool,
    pub renewal_period_days: i64,
    pub trial_days: i64,
    pub featured_discount: Option<FeaturedDiscount>,
}

/// Where marketing bullets stand: above the entitlements unless the operator
/// said below.
pub open spec fn bullets_position(given: Option<String>) -> Seq<char> {
    if opt_text(given) == Some("below"@) {
        "below"@
    } else {
        "above"@
    }
}

/// Where marketing bullets stand.
pub fn position_of_bullets(given: &Option<String>) -> (r: &'static str)
    ensures
        r@ == bullets_position(*given),
{
    match given {
        Some(p) => if same(p.as_str(), "below") {
            "below"
        } else {
            "above"
        },
        None => "above",
    }
}

/// Is `shown` the tier as buyers see it?
pub open spec fn is_public_view(
    policy: Policy,
    product: Product,
    featured: Option<DiscountCode>,
    shown: PublicPolicy,
) -> bool {
    &&& shown.slug == policy.slug
    &&& shown.name == policy.name
    &&& shown.description == policy.display.description
    &&& shown.price_sats == tier_price(Some(policy), product.price_sats)
    &&& shown.duration_seconds == policy.duration_seconds
    &&& shown.max_machines == policy.max_machines
    &&& shown.is_trial == policy.is_trial
    &&& shown.entitlements@ == policy.entitlements@
    &&& shown.marketing_bullets@ == policy.display.marketing_bullets@
    &&& shown.marketing_bullets_position@ == bullets_position(
        policy.display.marketing_bullets_position,
    )
    &&& shown.hidden_entitlements@ == policy.display.hidden_entitlements@
    &&& shown.highlighted == policy.display.highlight
    &&& shown.is_recurring == policy.is_recurring
    &&& shown.renewal_period_days == policy.renewal_period_days
    &&& shown.trial_days == policy.trial_days
    &&& match featured {
        Some(code) => shown.featured_discount matches Some(f) && features(
            code,
            tier_price(Some(policy), product.price_sats),
            f,
        ),
        None => shown.featured_discount is None,
    }
}

/// The tier as buyers see it.
pub fn public_view(policy: &Policy, product: &Product, featured: &Option<DiscountCode>) -> (r:
    PublicPolicy)
    requires
        *featured matches Some(code) ==> uses_countable(code),
    ensures
        is_public_view(*policy, *product, *featured, r),
{
    let price_sats: i64 = match policy.price_sats_override {
        Some(v) => v,
        None => product.price_sats,
    };
    PublicPolicy {
        slug: policy.slug.clone(),
        name: policy.name.clone(),
        description: policy.display.description.clone(),
        price_sats,
        duration_seconds: policy.duration_seconds,
        max_machines: policy.max_machines,
        is_trial: policy.is_trial,
        entitlements: copy_of(&policy.entitlements),
        marketing_bullets: copy_of(&policy.display.marketing_bullets),
        marketing_bullets_position: position_of_bullets(&policy.display.marketing_bullets_position),
        hidden_entitlements: copy_of(&policy.display.hidden_entitlements),
        highlighted: policy.display.highlight,
        is_recurring: policy.is_recurring,
        renewal_period_days: policy.renewal_period_days,
        trial_days: policy.trial_days,
        featured_discount: match featured {
            Some(code) => Some(featured_discount(code, price_sats)),
            None => None,
        },
    }
}

/// A product as buyers see it, with its tiers.
#[derive(Clone, Debug)]
pub struct PublicListing {
    pub slug: String,
    pub name: String,
    pub description: String,
    pub base_price_sats: i64,
    /// Empty where the product has no catalog.
    pub entitlements_catalog: Vec<CatalogEntry>,
    pub policies: Vec<PublicPolicy>,
}

/// A product's catalog; empty where it has none.
pub open spec fn catalog_of(product: Product) -> Seq<CatalogEntry> {
    match product.entitlements_catalog {
        Some(catalog) => catalog@,
        None => seq![],
    }
}

fn copy_catalog(product: &Product) -> (r: Vec<CatalogEntry>)
    ensures
        r@ == catalog_of(*product),
{
    let mut out: Vec<CatalogEntry> = Vec::new();
    if let Some(catalog) = &product.entitlements_catalog {
        for i in 0..catalog.len()
            invariant
                out@ == catalog@.take(i as int),
        {
            let e: &CatalogEntry = &catalog[i];
            out.push(
                CatalogEntry {
                    slug: e.slug.clone(),
                    name: e.name.clone(),
                    description: e.description.clone(),
                },
            );
            assert(catalog@.take(i + 1) =~= catalog@.take(i as int).push(catalog@[i as int]));
        }
        assert(catalog@.take(catalog@.len() as int) =~= catalog@);
    }
    out
}

/// Is `r` a product and its tiers as buyers see them?
pub open spec fn is_listing(
    slug: Seq<char>,
    found: Option<Product>,
    policies: Seq<Policy>,
    featured: Seq<Option<DiscountCode>>,
    r: Result<PublicListing, AppError>,
) -> bool {
    match r {
        Ok(shown) => {
            &&& found matches Some(p)
            &&& p.active
            &&& shown.slug == p.slug
            &&& shown.name == p.name
            &&& shown.description == p.description
            &&& shown.base_price_sats == p.price_sats
            &&& shown.entitlements_catalog@ == catalog_of(p)
            &&& shown.policies@.len() == policies.len()
            &&& forall|i: int|
                0 <= i < policies.len() ==> is_public_view(
                    policies[i],
                    p,
                    featured[i],
                    #[trigger] shown.policies@[i],
                )
        },
        Err(e) => (found is None || !found->0.active) && e.is_not_found("product '"@ + slug + "'"@),
    }
}

/// A product and its tiers as buyers see them; `featured` holds, for each
/// policy, the code that is shown with it. A product that is not active is not
/// there.
pub fn list_public_policies(
    slug: &str,
    found: &Option<Product>,
    policies: &Vec<Policy>,
    featured: &Vec<Option<DiscountCode>>,
) -> (r: Result<PublicListing, AppError>)
    requires
        policies@.len() == featured@.len(),
        forall|i: int|
            0 <= i < featured@.len() ==> ((#[trigger] featured@[i]) matches Some(code)
                ==> uses_countable(code)),
    ensures
        is_listing(slug@, *found, policies@, featured@, r),
{
    let product: &Product = match found {
        None => {
            return Err(not_found_with("product '", slug, "'"));
        },
        Some(product) => product,
    };
    if !product.active {
        return Err(not_found_with("product '", slug, "'"));
    }
    let mut out: Vec<PublicPolicy> = Vec::new();
    for i in 0..policies.len()
        invariant
            policies@.len() == featured@.len(),
            forall|i: int|
                0 <= i < featured@.len() ==> ((#[trigger] featured@[i]) matches Some(code)
                    ==> uses_countable(code)),
            out@.len() == i,
            forall|j: int|
                0 <= j < i ==> is_public_view(
                    policies@[j],
                    *product,
                    featured@[j],
                    #[trigger] out@[j],
                ),
    {
        let shown: PublicPolicy = public_view(&policies[i], product, &featured[i]);
        out.push(shown);
    }
    Ok(
        PublicListing {
            slug: product.slug.clone(),
            name: product.name.clone(),
            description: product.description.clone(),
            base_price_sats: product.price_sats,
            entitlements_catalog: copy_catalog(product),
            policies: out,
        },
    )
}

} // verus!
