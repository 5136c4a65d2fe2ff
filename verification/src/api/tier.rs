//! Tiers of the service itself, and the caps that go with them.
//!
//! What the service may do follows from the entitlements of its own license.
//! Without one it is on the Creator tier, which caps products, policies per
//! product, active codes and merchant profiles, and has no recurring billing
//! and no Zaprite payments; each entitlement lifts one of these. The `patron`
//! entitlement is a badge and lifts nothing.

use crate::api::self_license::Tier;
use crate::error::AppError;
use crate::text::{cat3, cat7, copy_of, int_text, int_to_text, is_one_of, same, texts};
use vstd::prelude::*;

verus! {

/// How many products the Creator tier allows, inactive ones included.
pub const CREATOR_PRODUCT_CAP: i64 = 5;

/// How many policies the Creator tier allows for each product.
pub const CREATOR_POLICY_CAP_PER_PRODUCT: i64 = 5;

/// How many active discount codes the Creator tier allows.
pub const CREATOR_CODE_CAP: i64 = 10;

/// Where the Pro tier is sold.
pub const UPGRADE_URL_PRO: &'static str = "https://licensing.keysat.xyz/buy/keysat?policy=pro";

/// Where the Patron tier is sold.
pub const UPGRADE_URL_PATRON: &'static str = "https://licensing.keysat.xyz/buy/keysat?policy=patron";

/// The service's entitlements and the tier they amount to.
#[derive(Clone, Debug)]
pub struct TierInfo {
    /// `creator`, `pro` or `patron`.
    pub label: &'static str,
    pub display_name: &'static str,
    pub entitlements: Vec<String>,
}

impl TierInfo {
    /// Does the tier carry an entitlement?
    pub open spec fn holds(self, name: Seq<char>) -> bool {
        texts(self.entitlements@).contains(name)
    }

    /// Does the tier carry an entitlement?
    pub fn has(&self, name: &str) -> (r: bool)
        ensures
            r == self.holds(name@),
    {
        is_one_of(&self.entitlements, name)
    }

    /// Is the tier Pro or above?
    pub fn is_at_least_pro(&self) -> (r: bool)
        ensures
            r == self.holds("unlimited_products"@),
    {
        self.has("unlimited_products")
    }
}

/// The entitlements of the service's own license; none without a license.
pub open spec fn entitlements_of(tier: Tier) -> Seq<Seq<char>> {
    match tier {
        Tier::Licensed { entitlements, .. } => texts(entitlements@),
        Tier::Unlicensed { .. } => seq![],
    }
}

/// Is `r` the tier that the service's own license amounts to?
pub open spec fn is_tier_of(tier: Tier, r: TierInfo) -> bool {
    &&& texts(r.entitlements@) == entitlements_of(tier)
    &&& if r.holds("patron"@) {
        r.label@ == "patron"@ && r.display_name@ == "Patron"@
    } else if r.holds("unlimited_products"@) {
        r.label@ == "pro"@ && r.display_name@ == "Pro"@
    } else {
        r.label@ == "creator"@ && r.display_name@ == "Creator"@
    }
}

/// The tier that the service's own license amounts to.
pub fn current(tier: &Tier) -> (r: TierInfo)
    ensures
        is_tier_of(*tier, r),
{
    let entitlements: Vec<String> = match tier {
        Tier::Licensed { entitlements, .. } => copy_of(entitlements),
        Tier::Unlicensed { .. } => Vec::new(),
    };
    assert(texts(entitlements@) =~= entitlements_of(*tier));
    if is_one_of(&entitlements, "patron") {
        TierInfo { label: "patron", display_name: "Patron", entitlements }
    } else if is_one_of(&entitlements, "unlimited_products") {
        TierInfo { label: "pro", display_name: "Pro", entitlements }
    } else {
        TierInfo { label: "creator", display_name: "Creator", entitlements }
    }
}

/// Without a license the service is on the Creator tier.
pub proof fn no_license_means_creator(reason: String, info: TierInfo)
    requires
        texts(info.entitlements@) == entitlements_of(Tier::Unlicensed { reason }),
    ensures
        !info.holds("patron"@),
        !info.holds("unlimited_products"@),
{
}

/// What the operator is shown about the service's tier.
#[derive(Clone, Debug)]
pub struct TierOverview {
    pub tier: &'static str,
    pub tier_name: &'static str,
    pub entitlements: Vec<String>,
    /// How many products there are, and how many codes are active.
    pub products: i64,
    pub active_codes: i64,
    /// `None` means no cap.
    pub product_cap: Option<i64>,
    pub policy_cap: Option<i64>,
    pub code_cap: Option<i64>,
    /// What to upgrade to; `None` on the highest tier.
    pub next_tier: Option<&'static str>,
    pub upgrade_url: Option<&'static str>,
}

/// A cap that an entitlement lifts.
pub open spec fn cap_unless(lifted: bool, cap: i64) -> Option<i64> {
    if lifted {
        None
    } else {
        Some(cap)
    }
}

/// Is `r` what the operator is shown about the service's tier?
pub open spec fn is_overview(info: TierInfo, products: i64, active_codes: i64, r: TierOverview) -> bool {
    &&& r.products == products
    &&& r.active_codes == active_codes
    &&& r.tier@ == info.label@
    &&& r.tier_name@ == info.display_name@
    &&& r.entitlements@ == info.entitlements@
    &&& r.product_cap == cap_unless(info.holds("unlimited_products"@), CREATOR_PRODUCT_CAP)
    &&& r.policy_cap == cap_unless(
        info.holds("unlimited_policies"@),
        CREATOR_POLICY_CAP_PER_PRODUCT,
    )
    &&& r.code_cap == cap_unless(info.holds("unlimited_codes"@), CREATOR_CODE_CAP)
    &&& if info.label@ == "patron"@ {
        r.next_tier is None && r.upgrade_url is None
    } else if info.label@ == "creator"@ {
        &&& r.next_tier matches Some(t) && t@ == "pro"@
        &&& r.upgrade_url matches Some(u) && u@ == UPGRADE_URL_PRO@
    } else {
        &&& r.next_tier matches Some(t) && t@ == "patron"@
        &&& r.upgrade_url matches Some(u) && u@ == UPGRADE_URL_PATRON@
    }
}

/// What the operator is shown about the service's tier.
pub fn admin_status(info: &TierInfo, products: i64, active_codes: i64) -> (r: TierOverview)
    ensures
        is_overview(*info, products, active_codes, r),
{
    let top: bool = same(info.label, "patron");
    let entry: bool = same(info.label, "creator");
    TierOverview {
        tier: info.label,
        tier_name: info.display_name,
        entitlements: copy_of(&info.entitlements),
        products,
        active_codes,
        product_cap: if info.has("unlimited_products") {
            None
        } else {
            Some(CREATOR_PRODUCT_CAP)
        },
        policy_cap: if info.has("unlimited_policies") {
            None
        } else {
            Some(CREATOR_POLICY_CAP_PER_PRODUCT)
        },
        code_cap: if info.has("unlimited_codes") {
            None
        } else {
            Some(CREATOR_CODE_CAP)
        },
        next_tier: if top {
            None
        } else if entry {
            Some("pro")
        } else {
            Some("patron")
        },
        upgrade_url: if top {
            None
        } else if entry {
            Some(UPGRADE_URL_PRO)
        } else {
            Some(UPGRADE_URL_PATRON)
        },
    }
}

fn over_cap(words: String) -> (r: AppError)
    ensures
        r.is_payment_required(words@, UPGRADE_URL_PRO@),
{
    AppError::PaymentRequired { message: words, upgrade_url: String::from_str(UPGRADE_URL_PRO) }
}

/// What is said where no other product may be made.
pub open spec fn product_cap_words(name: Seq<char>, count: int) -> Seq<char> {
    "Your "@ + name + " tier allows up to "@ + int_text(CREATOR_PRODUCT_CAP as int)
        + " products. You're at "@ + int_text(count) + ". Upgrade to Pro for unlimited products."@
}

/// Whether another product may be made.
pub fn enforce_product_cap(tier: &TierInfo, count: i64) -> (r: Result<(), AppError>)
    ensures
        match r {
            Ok(_) => tier.holds("unlimited_products"@) || count < CREATOR_PRODUCT_CAP,
            Err(e) => {
                &&& !tier.holds("unlimited_products"@)
                &&& count >= CREATOR_PRODUCT_CAP
                &&& e.is_payment_required(
                    product_cap_words(tier.display_name@, count as int),
                    UPGRADE_URL_PRO@,
                )
            },
        },
{
    if tier.has("unlimited_products") || count < CREATOR_PRODUCT_CAP {
        Ok(())
    } else {
        Err(
            over_cap(
                cat7(
                    "Your ",
                    tier.display_name,
                    " tier allows up to ",
                    int_to_text(CREATOR_PRODUCT_CAP).as_str(),
                    " products. You're at ",
                    int_to_text(count).as_str(),
                    ". Upgrade to Pro for unlimited products.",
                ),
            ),
        )
    }
}

/// What is said where a product has as many policies as it may.
pub open spec fn policy_cap_words(name: Seq<char>, count: int) -> Seq<char> {
    "Your "@ + name + " tier allows up to "@ + int_text(CREATOR_POLICY_CAP_PER_PRODUCT as int)
        + " policies per product. You're at "@ + int_text(count)
        + ". Upgrade to Pro for unlimited."@
}

/// Whether another policy may be made for a product that has `count`.
pub fn enforce_policy_cap(tier: &TierInfo, count: i64) -> (r: Result<(), AppError>)
    ensures
        match r {
            Ok(_) => tier.holds("unlimited_policies"@) || count < CREATOR_POLICY_CAP_PER_PRODUCT,
            Err(e) => {
                &&& !tier.holds("unlimited_policies"@)
                &&& count >= CREATOR_POLICY_CAP_PER_PRODUCT
                &&& e.is_payment_required(
                    policy_cap_words(tier.display_name@, count as int),
                    UPGRADE_URL_PRO@,
                )
            },
        },
{
    if tier.has("unlimited_policies") || count < CREATOR_POLICY_CAP_PER_PRODUCT {
        Ok(())
    } else {
        Err(
            over_cap(
                cat7(
                    "Your ",
                    tier.display_name,
                    " tier allows up to ",
                    int_to_text(CREATOR_POLICY_CAP_PER_PRODUCT).as_str(),
                    " policies per product. You're at ",
                    int_to_text(count).as_str(),
                    ". Upgrade to Pro for unlimited.",
                ),
            ),
        )
    }
}

/// Does `r` say whether another merchant profile may be made?
pub open spec fn is_profile_verdict(tier: TierInfo, count: i64, r: Result<(), AppError>) -> bool {
    match r {
        Ok(_) => tier.holds("unlimited_merchant_profiles"@) || count < 1,
        Err(e) => {
            &&& !tier.holds("unlimited_merchant_profiles"@)
            &&& count >= 1
            &&& e.is_payment_required(
                "Your "@ + tier.display_name@
                    + " tier allows a single merchant profile (the default). You're at "@
                    + int_text(count as int)
                    + ". Upgrade to Pro to run multiple businesses from one Keysat instance."@,
                UPGRADE_URL_PRO@,
            )
        },
    }
}

/// Whether another merchant profile may be made; the Creator tier has only the
/// default one.
pub fn enforce_merchant_profile_cap(tier: &TierInfo, count: i64) -> (r: Result<(), AppError>)
    ensures
        is_profile_verdict(*tier, count, r),
{
    if tier.has("unlimited_merchant_profiles") || count < 1 {
        Ok(())
    } else {
        let mut words: String = cat3(
            "Your ",
            tier.display_name,
            " tier allows a single merchant profile (the default). You're at ",
        );
        words.append(int_to_text(count).as_str());
        words.append(". Upgrade to Pro to run multiple businesses from one Keysat instance.");
        Err(over_cap(words))
    }
}

/// What is said where recurring billing is not part of the tier.
pub open spec fn recurring_words(name: Seq<char>) -> Seq<char> {
    "Recurring subscriptions require Pro or Patron. You're on "@ + name
        + ". Upgrade to enable monthly/annual billing."@
}

/// Whether policies may be recurring.
pub fn enforce_recurring_feature(tier: &TierInfo) -> (r: Result<(), AppError>)
    ensures
        match r {
            Ok(_) => tier.holds("recurring_billing"@),
            Err(e) => !tier.holds("recurring_billing"@) && e.is_payment_required(
                recurring_words(tier.display_name@),
                UPGRADE_URL_PRO@,
            ),
        },
{
    if tier.has("recurring_billing") {
        Ok(())
    } else {
        Err(
            over_cap(
                cat3(
                    "Recurring subscriptions require Pro or Patron. You're on ",
                    tier.display_name,
                    ". Upgrade to enable monthly/annual billing.",
                ),
            ),
        )
    }
}

/// What is said where Zaprite is not part of the tier.
pub open spec fn zaprite_words(name: Seq<char>) -> Seq<char> {
    "Zaprite payment gateway (cards, Apple Pay, bank transfers, and more) requires Pro or Patron. You're on "@
        + name + ". BTCPay (Bitcoin / Lightning) remains available on every tier."@
}

/// Whether Zaprite may be connected.
pub fn enforce_zaprite_feature(tier: &TierInfo) -> (r: Result<(), AppError>)
    ensures
        match r {
            Ok(_) => tier.holds("zaprite_payments"@),
            Err(e) => !tier.holds("zaprite_payments"@) && e.is_payment_required(
                zaprite_words(tier.display_name@),
                UPGRADE_URL_PRO@,
            ),
        },
{
    if tier.has("zaprite_payments") {
        Ok(())
    } else {
        Err(
            over_cap(
                cat3(
                    "Zaprite payment gateway (cards, Apple Pay, bank transfers, and more) requires Pro or Patron. You're on ",
                    tier.display_name,
                    ". BTCPay (Bitcoin / Lightning) remains available on every tier.",
                ),
            ),
        )
    }
}

/// What is said where no other code may be made.
pub open spec fn code_cap_words(name: Seq<char>, active: int) -> Seq<char> {
    "Your "@ + name + " tier allows up to "@ + int_text(CREATOR_CODE_CAP as int)
        + " active discount codes. You're at "@ + int_text(active)
        + ". Disable an old code to free up a slot, or upgrade to Pro for unlimited."@
}

/// Whether another discount code may be made; only active ones count.
pub fn enforce_code_cap(tier: &TierInfo, active: i64) -> (r: Result<(), AppError>)
    ensures
        match r {
            Ok(_) => tier.holds("unlimited_codes"@) || active < CREATOR_CODE_CAP,
            Err(e) => {
                &&& !tier.holds("unlimited_codes"@)
                &&& active >= CREATOR_CODE_CAP
                &&& e.is_payment_required(
                    code_cap_words(tier.display_name@, active as int),
                    UPGRADE_URL_PRO@,
                )
            },
        },
{
    if tier.has("unlimited_codes") || active < CREATOR_CODE_CAP {
        Ok(())
    } else {
        Err(
            over_cap(
                cat7(
                    "Your ",
                    tier.display_name,
                    " tier allows up to ",
                    int_to_text(CREATOR_CODE_CAP).as_str(),
                    " active discount codes. You're at ",
                    int_to_text(active).as_str(),
                    ". Disable an old code to free up a slot, or upgrade to Pro for unlimited.",
                ),
            ),
        )
    }
}

} // verus!
