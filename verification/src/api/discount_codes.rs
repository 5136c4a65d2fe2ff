//! Discount and referral codes: making, changing and previewing them.

use crate::api::currency::{
    is_accepted_currency, normalize_currency, unsupported_currency,
};
use crate::api::purchase::{
    compute_discount, discount_for, discount_stays_within_price, max_of, price_after,
    price_of_tier, tier_price, wanted_policy, wanted_slug,
};
use crate::api::tier::{
    code_cap_words, enforce_code_cap, TierInfo, CREATOR_CODE_CAP, UPGRADE_URL_PRO,
};
use crate::clock::Moment;
use crate::error::{bad_request, not_found_with, AppError};
use crate::models::{DiscountCode, Policy, Product};
use crate::text::{
    cat2, cat3, cat5, copy_of, copy_opt, int_text, int_to_text, is_blank, nat_text, nat_to_text, same, trim, trimmed, unicode_upper,
};
use vstd::prelude::*;

verus! {

/// A request to make a code.
#[derive(Clone, Debug)]
pub struct CreateDiscountCodeReq {
    pub code: String,
    /// `percent`, `fixed_sats`, `set_price` or `free_license`.
    pub kind: String,
    /// Basis points for `percent`, else an amount of `discount_currency`.
    pub amount: i64,
    /// `SAT` where it is omitted or empty.
    pub discount_currency: Option<String>,
    pub max_uses: Option<i64>,
    pub expires_at: Option<String>,
    /// Restricts the code to one product.
    pub product_slug: Option<String>,
    /// Restricts the code to one policy of the product.
    pub policy_slug: Option<String>,
    /// Restricts the code to several policies; takes precedence over
    /// `policy_slug`.
    pub policy_slugs: Option<Vec<String>>,
    pub referrer_label: Option<String>,
    pub description: String,
    /// Shown to every buyer and applied where no other code is typed.
    pub featured: bool,
}

/// Which codes to list.
#[derive(Clone, Debug)]
pub struct ListQuery {
    pub include_inactive: bool,
}

/// Changes to a code. A doubly optional field can be left alone, cleared or set.
#[derive(Clone, Debug)]
pub struct UpdateDiscountCodeReq {
    pub amount: Option<i64>,
    pub max_uses: Option<Option<i64>>,
    pub expires_at: Option<Option<String>>,
    pub description: Option<String>,
    pub referrer_label: Option<Option<String>>,
    pub featured: Option<bool>,
    /// Replaces the policies that the code is restricted to.
    pub policy_slugs: Option<Vec<String>>,
}

/// Switches a code on or off.
#[derive(Clone, Copy, Debug)]
pub struct SetActiveReq {
    pub active: bool,
}

/// A question what a code does to a price.
#[derive(Clone, Debug)]
pub struct PreviewQuery {
    pub code: String,
    pub product: String,
    /// Slug of the chosen tier.
    pub policy_slug: Option<String>,
}

// ---------- what a code is restricted to ----------

/// The first slug without a policy.
pub open spec fn first_missing(found: Seq<Option<String>>) -> int
    decreases found.len(),
{
    if found.len() == 0 || found[0] is None {
        0
    } else {
        1 + first_missing(found.subrange(1, found.len() as int))
    }
}

proof fn lemma_first_missing(found: Seq<Option<String>>, k: int)
    requires
        0 <= k <= found.len(),
        forall|j: int| 0 <= j < k ==> (#[trigger] found[j]) is Some,
        k < found.len() ==> found[k] is None,
    ensures
        first_missing(found) == k,
    decreases found.len(),
{
    if found.len() > 0 && found[0] is Some {
        let rest = found.subrange(1, found.len() as int);
        assert forall|j: int| 0 <= j < k - 1 implies (#[trigger] rest[j]) is Some by {
            assert(rest[j] == found[j + 1]);
        }
        lemma_first_missing(rest, k - 1);
    }
}

/// The policies behind a list of slugs, as they were found, each by its
/// identifier. The first slug without a policy is reported.
fn resolve_policies(slugs: &Vec<String>, found: &Vec<Option<String>>, product: &str) -> (r:
    Result<Vec<String>, AppError>)
    requires
        slugs@.len() == found@.len(),
    ensures
        match r {
            Ok(ids) => {
                &&& first_missing(found@) == found@.len()
                &&& ids@.len() == found@.len()
                &&& forall|i: int| 0 <= i < found@.len() ==> (#[trigger] found@[i]) == Some(ids@[i])
            },
            Err(e) => {
                &&& 0 <= first_missing(found@) < found@.len()
                &&& found@[first_missing(found@)] is None
                &&& e.is_not_found(
                    "policy '"@ + slugs@[first_missing(found@)]@ + "' for product '"@ + product@
                        + "'"@,
                )
            },
        },
{
    let mut ids: Vec<String> = Vec::new();
    for i in 0..slugs.len()
        invariant
            slugs@.len() == found@.len(),
            ids@.len() == i,
            forall|j: int| 0 <= j < i ==> (#[trigger] found@[j]) == Some(ids@[j]),
    {
        match &found[i] {
            Some(id) => {
                ids.push(id.clone());
            },
            None => {
                proof {
                    lemma_first_missing(found@, i as int);
                }
                return Err(
                    AppError::NotFound(
                        cat5("policy '", slugs[i].as_str(), "' for product '", product, "'"),
                    ),
                );
            },
        }
    }
    proof {
        lemma_first_missing(found@, found@.len() as int);
    }
    Ok(ids)
}

/// The policies that a request restricts its code to, by their slugs: the list
/// takes precedence over the single slug.
pub open spec fn slugs_asked(req: CreateDiscountCodeReq) -> Seq<String> {
    match (req.policy_slugs, req.policy_slug) {
        (Some(slugs), _) => slugs@,
        (None, Some(slug)) => seq![slug],
        (None, None) => seq![],
    }
}

fn asked_slugs(req: &CreateDiscountCodeReq) -> (r: Vec<String>)
    ensures
        r@ == slugs_asked(*req),
{
    match &req.policy_slugs {
        Some(slugs) => copy_of(slugs),
        None => {
            let mut out: Vec<String> = Vec::new();
            if let Some(slug) = &req.policy_slug {
                out.push(slug.clone());
            }
            assert(out@ =~= slugs_asked(*req));
            out
        },
    }
}

/// What was found of the policies that were asked for; `None` where they still
/// have to be looked up. Nothing has to be looked up for an empty list.
pub open spec fn found_of(looked_up: Option<Vec<Option<String>>>, asked: Seq<String>) -> Option<
    Seq<Option<String>>,
> {
    if asked.len() == 0 {
        Some(seq![])
    } else {
        match looked_up {
            Some(found) => if found@.len() == asked.len() {
                Some(found@)
            } else {
                None
            },
            None => None,
        }
    }
}

fn take_found(looked_up: &Option<Vec<Option<String>>>, asked: &Vec<String>) -> (r: Option<
    Vec<Option<String>>,
>)
    ensures
        match r {
            Some(found) => found_of(*looked_up, asked@) == Some(found@) && found@.len()
                == asked@.len(),
            None => found_of(*looked_up, asked@) is None,
        },
{
    if asked.len() == 0 {
        let none: Vec<Option<String>> = Vec::new();
        assert(none@ =~= seq![]);
        return Some(none);
    }
    match looked_up {
        Some(found) => if found.len() == asked.len() {
            let mut out: Vec<Option<String>> = Vec::new();
            for i in 0..found.len()
                invariant
                    out@ == found@.take(i as int),
            {
                out.push(copy_opt(&found[i]));
                assert(found@.take(i + 1) =~= found@.take(i as int).push(found@[i as int]));
            }
            assert(found@.take(found@.len() as int) =~= found@);
            Some(out)
        } else {
            None
        },
        None => None,
    }
}

/// How a code's restriction is stored: the single policy, and the list.
#[derive(Clone, Debug)]
pub struct StoredScope {
    pub policy_id: Option<String>,
    pub policy_ids: Option<Vec<String>>,
}

/// Is this how a new code's restriction to the policies that were found is
/// stored? A list is stored where a list was given; a single policy is stored
/// as such either way.
pub open spec fn is_stored_scope(
    as_list: bool,
    found: Seq<Option<String>>,
    scope: StoredScope,
) -> bool {
    &&& forall|i: int| 0 <= i < found.len() ==> (#[trigger] found[i]) is Some
    &&& scope.policy_id == if found.len() == 1 {
        found[0]
    } else {
        None
    }
    &&& match scope.policy_ids {
        Some(ids) => as_list && ids@.len() == found.len() && forall|i: int|
            0 <= i < found.len() ==> (#[trigger] found[i]) == Some(ids@[i]),
        None => !as_list,
    }
}

/// A change of a code's restriction: what to store as the single policy, and
/// what to store as the list.
#[derive(Clone, Debug)]
pub struct ScopeUpdate {
    pub policy_id: Option<Option<String>>,
    pub policy_ids: Option<Vec<String>>,
}

/// Is this what is stored to restrict a code to the policies that were found?
pub open spec fn is_replaced_scope(found: Seq<Option<String>>, u: ScopeUpdate) -> bool {
    &&& forall|i: int| 0 <= i < found.len() ==> (#[trigger] found[i]) is Some
    &&& u.policy_id == Some(
        if found.len() == 1 {
            found[0]
        } else {
            None
        },
    )
    &&& u.policy_ids matches Some(ids) && if found.len() <= 1 {
        ids@.len() == 0
    } else {
        ids@.len() == found.len() && forall|i: int|
            0 <= i < found.len() ==> (#[trigger] found[i]) == Some(ids@[i])
    }
}

/// A change of a code's restriction takes effect exactly: afterwards the code
/// is restricted to the policies that were listed, and to no others.
pub proof fn scope_update_takes_effect(
    found: Seq<Option<String>>,
    update: ScopeUpdate,
    changed: DiscountCode,
)
    requires
        is_replaced_scope(found, update),
        changed.applies_to_policy_id == update.policy_id->0,
        changed.applies_to_policy_ids == update.policy_ids->0,
    ensures
        changed.allowed() == found.map_values(|id: Option<String>| id->0@),
{
    assert(changed.allowed() =~= found.map_values(|id: Option<String>| id->0@));
}

/// The currency of a new code's amount: `SAT` where none is given.
pub fn code_currency(given: &Option<String>) -> (r: Result<String, AppError>)
    ensures
        match (currency_of(*given), r) {
            (Ok(currency), Ok(code)) => code@ == currency,
            (Err(words), Err(e)) => e.is_bad_request(words),
            _ => false,
        },
{
    match given {
        Some(c) => if c.as_str().is_empty() {
            Ok(String::from_str("SAT"))
        } else {
            normalize_currency("discount_currency", c.as_str())
        },
        None => Ok(String::from_str("SAT")),
    }
}

// ---------- making and changing ----------

/// What has been looked up for a new code so far.
#[derive(Clone, Debug)]
pub struct CreateFacts {
    /// How many codes are active.
    pub active_codes: i64,
    pub product: Option<Option<Product>>,
    /// The identifiers of the policies that were asked for, in their order.
    pub policies: Option<Vec<Option<String>>>,
}

/// What a new code is stored with, beside what the request says as it is.
#[derive(Clone, Debug)]
pub struct NewCode {
    pub product_id: Option<String>,
    pub scope: StoredScope,
    pub discount_currency: String,
}

/// What a new code needs next.
#[derive(Clone, Debug)]
pub enum CreateStep {
    FindProduct { slug: String },
    FindPolicies { product_id: String, slugs: Vec<String> },
    Refuse { error: AppError },
    Create { code: NewCode },
}

/// The currency of a new code's amount, or what is wrong with it.
pub open spec fn currency_of(given: Option<String>) -> Result<Seq<char>, Seq<char>> {
    match given {
        Some(c) if c@.len() > 0 => if is_accepted_currency(unicode_upper(c@)) {
            Ok(unicode_upper(c@))
        } else {
            Err(unsupported_currency("discount_currency"@, unicode_upper(c@)))
        },
        _ => Ok("SAT"@),
    }
}

/// The identifier of the product that a new code is restricted to.
pub open spec fn product_of(req: CreateDiscountCodeReq, facts: CreateFacts) -> Option<String> {
    match (req.product_slug, facts.product) {
        (Some(_), Some(Some(product))) => Some(product.id),
        _ => None,
    }
}

/// What a request to restrict a code to policies is told where it names no
/// product.
pub open spec fn product_wanted(req: CreateDiscountCodeReq) -> Seq<char> {
    if req.policy_slugs is Some {
        "policy_slugs requires product_slug"@
    } else {
        "policy_slug requires product_slug"@
    }
}

/// What is said of a policy that a product does not have.
pub open spec fn no_policy_words(slug: Seq<char>, product: Seq<char>) -> Seq<char> {
    "policy '"@ + slug + "' for product '"@ + product + "'"@
}

/// Is `step` what a new code needs next?
pub open spec fn is_create_step(
    req: CreateDiscountCodeReq,
    tier: TierInfo,
    facts: CreateFacts,
    step: CreateStep,
) -> bool {
    let asked = slugs_asked(req);
    let found = found_of(facts.policies, asked);
    if !tier.holds("unlimited_codes"@) && facts.active_codes >= CREATOR_CODE_CAP {
        step matches CreateStep::Refuse { error } && error.is_payment_required(
            code_cap_words(tier.display_name@, facts.active_codes as int),
            UPGRADE_URL_PRO@,
        )
    } else if req.product_slug is Some && facts.product is None {
        step == (CreateStep::FindProduct { slug: req.product_slug->0 })
    } else if req.product_slug is Some && facts.product->0 is None {
        step matches CreateStep::Refuse { error } && error.is_not_found(
            "product '"@ + req.product_slug->0@ + "'"@,
        )
    } else if asked.len() > 0 && req.product_slug is None {
        step matches CreateStep::Refuse { error } && error.is_bad_request(product_wanted(req))
    } else if found is None {
        step matches CreateStep::FindPolicies { product_id, slugs } && Some(product_id)
            == product_of(req, facts) && slugs@ == asked
    } else if first_missing(found->0) < found->0.len() {
        step matches CreateStep::Refuse { error } && error.is_not_found(
            no_policy_words(asked[first_missing(found->0)]@, req.product_slug->0@),
        )
    } else {
        match currency_of(req.discount_currency) {
            Err(words) => step matches CreateStep::Refuse { error } && error.is_bad_request(words),
            Ok(currency) => {
                &&& step matches CreateStep::Create { code }
                &&& code.product_id == product_of(req, facts)
                &&& is_stored_scope(req.policy_slugs is Some, found->0, code.scope)
                &&& code.discount_currency@ == currency
            },
        }
    }
}

/// What a new code needs next: room under the tier's cap, the product and the
/// policies that it is restricted to, and a currency for its amount.
pub fn create(req: &CreateDiscountCodeReq, tier: &TierInfo, facts: &CreateFacts) -> (r: CreateStep)
    ensures
        is_create_step(*req, *tier, *facts, r),
{
    if let Err(error) = enforce_code_cap(tier, facts.active_codes) {
        return CreateStep::Refuse { error };
    }
    let mut product_id: Option<String> = None;
    let mut product_slug: &str = "";
    if let Some(slug) = &req.product_slug {
        match &facts.product {
            None => {
                return CreateStep::FindProduct { slug: slug.clone() };
            },
            Some(None) => {
                return CreateStep::Refuse {
                    error: not_found_with("product '", slug.as_str(), "'"),
                };
            },
            Some(Some(product)) => {
                product_id = Some(product.id.clone());
                product_slug = slug.as_str();
            },
        }
    }
    let asked: Vec<String> = asked_slugs(req);
    if asked.len() > 0 && product_id.is_none() {
        let error: AppError = if req.policy_slugs.is_some() {
            bad_request("policy_slugs requires product_slug")
        } else {
            bad_request("policy_slug requires product_slug")
        };
        return CreateStep::Refuse { error };
    }
    let found: Vec<Option<String>> = match take_found(&facts.policies, &asked) {
        None => {
            return CreateStep::FindPolicies { product_id: product_id.unwrap(), slugs: asked };
        },
        Some(found) => found,
    };
    let ids: Vec<String> = match resolve_policies(&asked, &found, product_slug) {
        Err(error) => {
            return CreateStep::Refuse { error };
        },
        Ok(ids) => ids,
    };
    let discount_currency: String = match code_currency(&req.discount_currency) {
        Err(error) => {
            return CreateStep::Refuse { error };
        },
        Ok(currency) => currency,
    };
    let policy_id: Option<String> = if ids.len() == 1 {
        assert(found@[0] == Some(ids@[0]));
        Some(ids[0].clone())
    } else {
        None
    };
    let policy_ids: Option<Vec<String>> = if req.policy_slugs.is_some() {
        Some(ids)
    } else {
        None
    };
    CreateStep::Create {
        code: NewCode { product_id, scope: StoredScope { policy_id, policy_ids }, discount_currency },
    }
}

/// A new code is restricted to exactly the policies that were asked for.
pub proof fn new_codes_keep_to_their_policies(
    as_list: bool,
    found: Seq<Option<String>>,
    scope: StoredScope,
    made: DiscountCode,
)
    requires
        is_stored_scope(as_list, found, scope),
        as_list || found.len() <= 1,
        made.applies_to_policy_id == scope.policy_id,
        made.applies_to_policy_ids@ == match scope.policy_ids {
            Some(ids) => ids@,
            None => seq![],
        },
    ensures
        made.allowed() == found.map_values(|id: Option<String>| id->0@),
{
    assert(made.allowed() =~= found.map_values(|id: Option<String>| id->0@));
}

/// What has been looked up for a change of a code so far.
#[derive(Clone, Debug)]
pub struct UpdateFacts {
    pub code: Option<Option<DiscountCode>>,
    /// The identifiers of the policies that were asked for, in their order.
    pub policies: Option<Vec<Option<String>>>,
}

/// What a change of a code needs next.
#[derive(Clone, Debug)]
pub enum UpdateStep {
    FindCode { id: String },
    FindPolicies { product_id: String, slugs: Vec<String> },
    Refuse { error: AppError },
    Update { scope: ScopeUpdate },
}

/// Is `step` what a change of a code needs next?
pub open spec fn is_update_step(
    id: Seq<char>,
    req: UpdateDiscountCodeReq,
    facts: UpdateFacts,
    step: UpdateStep,
) -> bool {
    match (req.policy_slugs, facts.code) {
        (None, _) => step matches UpdateStep::Update { scope } && scope.policy_id is None
            && scope.policy_ids is None,
        (Some(_), None) => step matches UpdateStep::FindCode { id: wanted } && wanted@ == id,
        (Some(_), Some(None)) => step matches UpdateStep::Refuse { error } && error.is_not_found(
            "discount code "@ + id,
        ),
        (Some(slugs), Some(Some(code))) => {
            let found = found_of(facts.policies, slugs@);
            if code.applies_to_product_id is None {
                step matches UpdateStep::Refuse { error } && error.is_bad_request(
                    "this code is not scoped to a product, so policy scope cannot be set"@,
                )
            } else if found is None {
                step matches UpdateStep::FindPolicies { product_id, slugs: s } && Some(product_id)
                    == code.applies_to_product_id && s@ == slugs@
            } else if first_missing(found->0) < found->0.len() {
                step matches UpdateStep::Refuse { error } && error.is_not_found(
                    no_policy_words(
                        slugs@[first_missing(found->0)]@,
                        code.applies_to_product_id->0@,
                    ),
                )
            } else {
                step matches UpdateStep::Update { scope } && is_replaced_scope(found->0, scope)
            }
        },
    }
}

/// What a change of a code needs next. Policies belong to the product that the
/// code is restricted to, so a code without one cannot be restricted further;
/// one policy is stored as the single one, several as the list, and each way
/// empties the other place. An absent list changes nothing.
pub fn update(id: &str, req: &UpdateDiscountCodeReq, facts: &UpdateFacts) -> (r: UpdateStep)
    ensures
        is_update_step(id@, *req, *facts, r),
{
    let slugs: &Vec<String> = match &req.policy_slugs {
        None => {
            return UpdateStep::Update { scope: ScopeUpdate { policy_id: None, policy_ids: None } };
        },
        Some(slugs) => slugs,
    };
    let code: &DiscountCode = match &facts.code {
        None => {
            return UpdateStep::FindCode { id: String::from_str(id) };
        },
        Some(None) => {
            return UpdateStep::Refuse { error: AppError::NotFound(cat2("discount code ", id)) };
        },
        Some(Some(code)) => code,
    };
    let product_id: &String = match &code.applies_to_product_id {
        None => {
            return UpdateStep::Refuse {
                error: bad_request(
                    "this code is not scoped to a product, so policy scope cannot be set",
                ),
            };
        },
        Some(id) => id,
    };
    let found: Vec<Option<String>> = match take_found(&facts.policies, slugs) {
        None => {
            return UpdateStep::FindPolicies {
                product_id: product_id.clone(),
                slugs: copy_of(slugs),
            };
        },
        Some(found) => found,
    };
    let ids: Vec<String> = match resolve_policies(slugs, &found, product_id.as_str()) {
        Err(error) => {
            return UpdateStep::Refuse { error };
        },
        Ok(ids) => ids,
    };
    let scope: ScopeUpdate = if ids.len() == 0 {
        ScopeUpdate { policy_id: Some(None), policy_ids: Some(Vec::new()) }
    } else if ids.len() == 1 {
        assert(found@[0] == Some(ids@[0]));
        ScopeUpdate { policy_id: Some(Some(ids[0].clone())), policy_ids: Some(Vec::new()) }
    } else {
        ScopeUpdate { policy_id: Some(None), policy_ids: Some(ids) }
    };
    UpdateStep::Update { scope }
}

/// How the audit log calls switching a code on or off.
pub fn set_active(req: &SetActiveReq) -> (r: String)
    ensures
        r@ == if req.active {
            "discount_code.enable"@
        } else {
            "discount_code.disable"@
        },
{
    if req.active {
        String::from_str("discount_code.enable")
    } else {
        String::from_str("discount_code.disable")
    }
}

/// Does `r` say whether a code can be deleted?
pub open spec fn is_code_deletion(
    id: Seq<char>,
    found: Option<DiscountCode>,
    redemptions: i64,
    r: Result<(), AppError>,
) -> bool {
    match (found, r) {
        (None, Err(e)) => e.is_not_found("discount code '"@ + id + "'"@),
        (Some(_), Ok(_)) => redemptions <= 0,
        (Some(code), Err(e)) => redemptions > 0 && e.is_conflict(
            "cannot delete code '"@ + code.code@ + "' — it has "@ + int_text(redemptions as int)
                + " redemption(s) on the audit trail. Disable it instead (it stops accepting new uses, but the history is kept)."@,
        ),
        (None, Ok(_)) => false,
    }
}

/// Whether a code can be deleted: only one that was never used.
pub fn delete(id: &str, found: &Option<DiscountCode>, redemptions: i64) -> (r: Result<
    (),
    AppError,
>)
    ensures
        is_code_deletion(id@, *found, redemptions, r),
{
    match found {
        None => Err(not_found_with("discount code '", id, "'")),
        Some(code) => if redemptions > 0 {
            Err(
                AppError::Conflict(
                    cat5(
                        "cannot delete code '",
                        code.code.as_str(),
                        "' — it has ",
                        int_to_text(redemptions).as_str(),
                        " redemption(s) on the audit trail. Disable it instead (it stops accepting new uses, but the history is kept).",
                    ),
                ),
            )
        } else {
            Ok(())
        },
    }
}

// ---------- preview ----------

/// What a code does to a price.
#[derive(Clone, Debug)]
pub enum Preview {
    Invalid { reason: String, message: String, base_price_sats: i64 },
    Valid {
        code: String,
        kind: String,
        is_free: bool,
        base_price_sats: i64,
        discount_applied_sats: i64,
        final_price_sats: i64,
        message: String,
    },
}

/// What has been looked up for a preview so far.
#[derive(Clone, Debug)]
pub struct PreviewFacts {
    pub product: Option<Option<Product>>,
    pub policy: Option<Option<Policy>>,
    pub code: Option<Option<DiscountCode>>,
}

/// What a preview needs next, or what it says.
#[derive(Clone, Debug)]
pub enum PreviewStep {
    FindProduct { slug: String },
    FindPolicy { product_id: String, slug: String },
    FindCode { code: String },
    Refuse { error: AppError },
    Show { preview: Preview },
}

/// Why a code does not apply: a name for the reason, and words for the buyer.
pub open spec fn preview_refusal(
    found: Option<DiscountCode>,
    product: Product,
    policy: Option<Policy>,
    now: Moment,
) -> Option<(Seq<char>, Seq<char>)> {
    match found {
        None => Some(("unknown_code"@, "Code not found."@)),
        Some(code) => if !code.active {
            Some(("disabled"@, "This code has been disabled."@))
        } else if code.is_expired(now) {
            Some(("expired"@, "This code has expired."@))
        } else if code.misses_product(product.id@) {
            Some(("wrong_product"@, "This code does not apply to this product."@))
        } else if code.misses_policy(policy) {
            Some(("wrong_tier"@, "This code does not apply to the selected tier."@))
        } else if code.is_exhausted() {
            Some(("exhausted"@, "This code has reached its use limit."@))
        } else {
            None
        },
    }
}

/// What is left to pay with a code, as it is shown before the purchase.
pub open spec fn shown_price(kind: Seq<char>, amount: int, base: int) -> int {
    if kind == "free_license"@ {
        0
    } else if kind == "percent"@ || kind == "fixed_sats"@ {
        price_after(base, discount_for(kind, amount, base))
    } else if kind == "set_price"@ {
        if max_of(amount, 0) >= base {
            base
        } else {
            max_of(max_of(amount, 0), 1)
        }
    } else {
        base
    }
}

/// What a code takes off, as it is shown before the purchase.
pub open spec fn shown_discount(kind: Seq<char>, amount: int, base: int) -> int {
    if kind == "free_license"@ {
        base
    } else {
        discount_for(kind, amount, base)
    }
}

/// A number below a hundred as the decimals of a percentage: none where it is
/// zero, and no zero at the end.
pub open spec fn decimals(n: nat) -> Seq<char> {
    if n == 0 {
        ""@
    } else if n % 10 == 0 {
        "."@ + nat_text(n / 10)
    } else if n < 10 {
        ".0"@ + nat_text(n)
    } else {
        "."@ + nat_text(n)
    }
}

/// Basis points as a percentage.
pub open spec fn percent_text(bps: int) -> Seq<char> {
    let size = if bps < 0 {
        (-bps) as nat
    } else {
        bps as nat
    };
    (if bps < 0 {
        "-"@
    } else {
        ""@
    }) + nat_text(size / 100) + decimals(size % 100)
}

/// Basis points as a percentage.
pub fn format_percent(bps: i64) -> (r: String)
    ensures
        r@ == percent_text(bps as int),
{
    let size: u64 = if bps < 0 {
        (-(bps as i128)) as u64
    } else {
        bps as u64
    };
    let rest: u64 = size % 100;
    let whole: String = nat_to_text(size / 100);
    let tail: String = if rest == 0 {
        String::from_str("")
    } else if rest % 10 == 0 {
        cat2(".", nat_to_text(rest / 10).as_str())
    } else if rest < 10 {
        cat2(".0", nat_to_text(rest).as_str())
    } else {
        cat2(".", nat_to_text(rest).as_str())
    };
    let sign: &str = if bps < 0 {
        "-"
    } else {
        ""
    };
    cat3(sign, whole.as_str(), tail.as_str())
}

/// What the buyer is told about a code.
pub open spec fn shown_message(kind: Seq<char>, amount: int, base: int) -> Seq<char> {
    if kind == "free_license"@ {
        "Free license — no payment required."@
    } else if kind == "percent"@ {
        percent_text(amount) + "% off applied."@
    } else if kind == "fixed_sats"@ {
        int_text(amount) + " sats off applied."@
    } else if kind == "set_price"@ {
        if amount >= base {
            "Code applied — but it doesn't lower the price for this product."@
        } else {
            "Flat price applied: "@ + int_text(amount) + " sats."@
        }
    } else {
        "Code applied."@
    }
}

/// What is shown is what is charged: wherever the base price is at least a sat
/// and the code asks for payment, the purchase comes to the price and discount
/// that the preview showed.
pub proof fn preview_agrees_with_purchase(kind: Seq<char>, amount: int, base: int)
    requires
        base >= 1,
        kind != "free_license"@,
    ensures
        shown_price(kind, amount, base) == price_after(base, discount_for(kind, amount, base)),
        shown_discount(kind, amount, base) == discount_for(kind, amount, base),
{
    discount_stays_within_price(kind, amount, base);
}

/// Does `preview` say what the code does to the price?
pub open spec fn shows_code(code: DiscountCode, base: i64, preview: Preview) -> bool {
    preview matches Preview::Valid {
        code: c,
        kind,
        is_free,
        base_price_sats,
        discount_applied_sats,
        final_price_sats,
        message,
    } && {
        &&& c == code.code
        &&& kind == code.kind
        &&& is_free == (code.kind@ == "free_license"@)
        &&& base_price_sats == base
        &&& discount_applied_sats == shown_discount(code.kind@, code.amount as int, base as int)
        &&& final_price_sats == shown_price(code.kind@, code.amount as int, base as int)
        &&& message@ == shown_message(code.kind@, code.amount as int, base as int)
    }
}

/// Is `step` what a preview shows once everything is looked up?
pub open spec fn is_shown(
    found: Option<DiscountCode>,
    product: Product,
    policy: Option<Policy>,
    now: Moment,
    step: PreviewStep,
) -> bool {
    match preview_refusal(found, product, policy, now) {
        Some(why) => step matches PreviewStep::Show {
            preview: Preview::Invalid { reason, message, base_price_sats },
        } && reason@ == why.0 && message@ == why.1 && base_price_sats == if why.0
            == "wrong_tier"@ {
            tier_price(policy, product.price_sats)
        } else {
            product.price_sats
        },
        None => step matches PreviewStep::Show { preview } && shows_code(
            found->0,
            tier_price(policy, product.price_sats),
            preview,
        ),
    }
}

/// Is `step` what a preview needs next?
pub open spec fn is_preview_step(
    q: PreviewQuery,
    facts: PreviewFacts,
    now: Moment,
    step: PreviewStep,
) -> bool {
    if is_blank(q.code@) {
        step matches PreviewStep::Refuse { error } && error.is_bad_request("code is required"@)
    } else {
        match facts.product {
            None => step == (PreviewStep::FindProduct { slug: q.product }),
            Some(None) => step matches PreviewStep::Refuse { error } && error.is_not_found(
                "product '"@ + q.product@ + "'"@,
            ),
            Some(Some(product)) => if wanted_slug(q.policy_slug) is Some && facts.policy is None {
                step == (PreviewStep::FindPolicy {
                    product_id: product.id,
                    slug: wanted_slug(q.policy_slug)->0,
                })
            } else {
                match facts.code {
                    None => step matches PreviewStep::FindCode { code } && code@ == trimmed(q.code@),
                    Some(code) => is_shown(code, product, chosen_tier(q, facts), now, step),
                }
            },
        }
    }
}

/// The tier that a preview is about: the one asked for, where it exists.
pub open spec fn chosen_tier(q: PreviewQuery, facts: PreviewFacts) -> Option<Policy> {
    if wanted_slug(q.policy_slug) is Some && facts.policy is Some {
        facts.policy->0
    } else {
        None
    }
}

fn invalid(reason: &str, message: &str, base_price_sats: i64) -> (r: PreviewStep)
    ensures
        r matches PreviewStep::Show {
            preview: Preview::Invalid { reason: w, message: m, base_price_sats: b },
        } && w@ == reason@ && m@ == message@ && b == base_price_sats,
{
    PreviewStep::Show {
        preview: Preview::Invalid {
            reason: String::from_str(reason),
            message: String::from_str(message),
            base_price_sats,
        },
    }
}

/// What a code that applies does to a base price.
pub fn preview_code(code: &DiscountCode, base: i64) -> (r: Preview)
    ensures
        shows_code(*code, base, r),
{
    let kind: &str = code.kind.as_str();
    let free: bool = same(kind, "free_license");
    let off: i64 = compute_discount(kind, code.amount, base);
    proof {
        if base >= 0 {
            discount_stays_within_price(code.kind@, code.amount as int, base as int);
        }
    }
    let discount_applied_sats: i64 = if free {
        base
    } else {
        off
    };
    let final_price_sats: i64 = if free {
        0
    } else if same(kind, "percent") || same(kind, "fixed_sats") {
        let left: i64 = base - off;
        if left >= 1 {
            left
        } else {
            1
        }
    } else if same(kind, "set_price") {
        let target: i64 = if code.amount < 0 {
            0
        } else {
            code.amount
        };
        if target >= base {
            base
        } else if target >= 1 {
            target
        } else {
            1
        }
    } else {
        base
    };
    let message: String = if free {
        String::from_str("Free license — no payment required.")
    } else if same(kind, "percent") {
        cat2(format_percent(code.amount).as_str(), "% off applied.")
    } else if same(kind, "fixed_sats") {
        cat2(int_to_text(code.amount).as_str(), " sats off applied.")
    } else if same(kind, "set_price") {
        if code.amount >= base {
            String::from_str("Code applied — but it doesn't lower the price for this product.")
        } else {
            cat3("Flat price applied: ", int_to_text(code.amount).as_str(), " sats.")
        }
    } else {
        String::from_str("Code applied.")
    };
    Preview::Valid {
        code: code.code.clone(),
        kind: code.kind.clone(),
        is_free: free,
        base_price_sats: base,
        discount_applied_sats,
        final_price_sats,
        message,
    }
}

fn show(
    found: &Option<DiscountCode>,
    product: &Product,
    policy: &Option<Policy>,
    now: &Moment,
) -> (r: PreviewStep)
    ensures
        is_shown(*found, *product, *policy, *now, r),
{
    proof {
        reveal_strlit("wrong_tier");
        reveal_strlit("unknown_code");
        reveal_strlit("disabled");
        reveal_strlit("expired");
        reveal_strlit("wrong_product");
        reveal_strlit("exhausted");
        assert("wrong_tier"@.len() == 10 && "unknown_code"@.len() == 12 && "disabled"@.len() == 8
            && "expired"@.len() == 7 && "wrong_product"@.len() == 13 && "exhausted"@.len() == 9);
    }
    let code: &DiscountCode = match found {
        None => {
            return invalid("unknown_code", "Code not found.", product.price_sats);
        },
        Some(code) => code,
    };
    let base: i64 = price_of_tier(policy, product.price_sats);
    if !code.active {
        invalid("disabled", "This code has been disabled.", product.price_sats)
    } else if code.expired(now) {
        invalid("expired", "This code has expired.", product.price_sats)
    } else if code.wrong_product(product.id.as_str()) {
        invalid("wrong_product", "This code does not apply to this product.", product.price_sats)
    } else if code.wrong_policy(policy) {
        invalid("wrong_tier", "This code does not apply to the selected tier.", base)
    } else if code.exhausted() {
        invalid("exhausted", "This code has reached its use limit.", product.price_sats)
    } else {
        PreviewStep::Show { preview: preview_code(code, base) }
    }
}

/// What a preview needs next, or what it says. Nothing is reserved.
pub fn preview(q: &PreviewQuery, facts: &PreviewFacts, now: &Moment) -> (r: PreviewStep)
    ensures
        is_preview_step(*q, *facts, *now, r),
{
    let code_text: &str = trim(q.code.as_str());
    if code_text.is_empty() {
        return PreviewStep::Refuse { error: bad_request("code is required") };
    }
    let product: &Product = match &facts.product {
        None => {
            return PreviewStep::FindProduct { slug: q.product.clone() };
        },
        Some(None) => {
            return PreviewStep::Refuse {
                error: not_found_with("product '", q.product.as_str(), "'"),
            };
        },
        Some(Some(product)) => product,
    };
    match wanted_policy(&q.policy_slug) {
        None => match &facts.code {
            None => PreviewStep::FindCode { code: String::from_str(code_text) },
            Some(code) => show(code, product, &None, now),
        },
        Some(slug) => match &facts.policy {
            None => PreviewStep::FindPolicy { product_id: product.id.clone(), slug },
            Some(policy) => match &facts.code {
                None => PreviewStep::FindCode { code: String::from_str(code_text) },
                Some(code) => show(code, product, policy, now),
            },
        },
    }
}

} // verus!
