//! Who may do what.

use crate::api::access::{gate_of, is_admission, Endpoint, Gate, Resource};
use crate::api::admin::bearer_token;
use crate::api::api_keys::{
    asked_scopes, comes_before, create_refusal, is_new_key, is_scope_step, key_grants,
    least_refused, ApiKeyRow, CreateApiKeyReq, NewApiKey, Role, ScopeStep,
};
use crate::codec::{json_strings, sha256_hex};
use crate::error::AppError;
use crate::text::{texts, trimmed};
use vstd::prelude::*;

verus! {

/// Is a scope one to read?
pub open spec fn is_reading(scope: Seq<char>) -> bool {
    scope.len() >= 5 && scope[scope.len() - 5] == ':' && scope[scope.len() - 4] == 'r'
        && scope[scope.len() - 3] == 'e' && scope[scope.len() - 2] == 'a' && scope[scope.len() - 1]
        == 'd'
}

proof fn lemma_reading(scope: Seq<char>)
    ensures
        is_reading(scope) <==> crate::text::finishes_with(scope, ":read"@),
{
    reveal_strlit(":read");
    let end = scope.subrange(scope.len() - 5, scope.len() as int);
    if scope.len() >= 5 {
        assert(end[0] == scope[scope.len() - 5]);
        assert(end[1] == scope[scope.len() - 4]);
        assert(end[2] == scope[scope.len() - 3]);
        assert(end[3] == scope[scope.len() - 2]);
        assert(end[4] == scope[scope.len() - 1]);
        if is_reading(scope) {
            assert(end =~= ":read"@);
        }
    }
}

/// Every role reads. Beyond that an issuer changes licenses and nothing else,
/// support also subscriptions and machines, onboarding also products and
/// policies; the highest role changes all but payments, which no role does.
pub proof fn roles_change_what_they_are_for(scope: Seq<char>)
    requires
        scope != "payment_providers:write"@,
    ensures
        Role::ReadOnly.allows(scope) <==> is_reading(scope),
        Role::LicenseIssuer.allows(scope) <==> is_reading(scope) || scope == "licenses:write"@,
        Role::Support.allows(scope) <==> is_reading(scope) || scope == "licenses:write"@ || scope
            == "subscriptions:write"@ || scope == "machines:write"@,
        Role::MerchantOnboard.allows(scope) <==> is_reading(scope) || scope == "products:write"@
            || scope == "policies:write"@ || scope == "licenses:write"@,
        Role::FullAdmin.allows(scope),
{
    lemma_reading(scope);
}

/// No role connects payments.
pub proof fn no_role_connects_payments(role: Role)
    ensures
        !role.allows("payment_providers:write"@),
{
    crate::api::api_keys::no_role_allows_extra_scopes(role, "payment_providers:write"@);
}

/// A key that was revoked, or whose role is not known, may nothing. Any other may
/// what its role may, and what it was given beside.
pub proof fn keys_may_what_their_role_may(key: ApiKeyRow, scope: Seq<char>, role: Role)
    ensures
        key.revoked_at is Some ==> !key_grants(key, scope),
        key.revoked_at is None && key.role@ == role.name() ==> (key_grants(key, scope) <==> (
        role.allows(scope) || (key.extra_scopes is Some && json_strings(key.extra_scopes->0@)
            is Some && json_strings(key.extra_scopes->0@)->0.contains(scope)))),
        (forall|r: Role| key.role@ != #[trigger] r.name()) ==> !key_grants(key, scope),
{
    if key_grants(key, scope) && key.role@ == role.name() {
        let other = choose|other: Role|
            key.role@ == #[trigger] other.name() && (other.allows(scope)
                || crate::api::api_keys::is_given_extra(
                crate::text::opt_text(key.extra_scopes),
                scope,
            ));
        crate::api::api_keys::role_names_differ(role, other);
    }
}

/// Roles are known by these names.
pub proof fn roles_have_names()
    ensures
        Role::ReadOnly.name() == "read-only"@,
        Role::LicenseIssuer.name() == "license-issuer"@,
        Role::Support.name() == "support"@,
        Role::MerchantOnboard.name() == "merchant-onboard"@,
        Role::FullAdmin.name() == "full-admin"@,
{
}

/// The token of a header is what follows the word `Bearer` and a blank.
pub proof fn tokens_follow_the_word_bearer(token: Seq<char>, header: Seq<char>)
    ensures
        bearer_token(Some("Bearer "@ + token)) == Some(token),
        bearer_token(None) is None,
        bearer_token(Some(header)) matches Some(t) ==> header == "Bearer "@ + t,
{
    reveal_strlit("Bearer ");
    let h = "Bearer "@ + token;
    assert(h.subrange(0, 7) =~= "Bearer "@);
    assert(h.subrange(7, h.len() as int) =~= token);
    if bearer_token(Some(header)) is Some {
        assert(header =~= "Bearer "@ + bearer_token(Some(header))->0);
    }
}

/// Who sends no token is not known; the operator's key may everything; any other
/// token is looked up by its hash, and may what its key may.
pub proof fn tokens_are_looked_up(
    header: Option<Seq<char>>,
    admin_api_key: Seq<char>,
    scope: Seq<char>,
    row: Option<Option<ApiKeyRow>>,
    step: ScopeStep,
)
    requires
        is_scope_step(header, admin_api_key, scope, row, step),
    ensures
        bearer_token(header) is None ==> step is Refuse && (step->error is Unauthorized),
        bearer_token(header) == Some(admin_api_key) ==> step is Grant && step->used_key is None
            && step->actor_hash@ == sha256_hex(admin_api_key),
        bearer_token(header) matches Some(token) ==> (token != admin_api_key ==> match row {
            None => step is FindKey && step->token_hash@ == sha256_hex(token),
            Some(None) => step is Refuse && (step->error is Forbidden),
            Some(Some(key)) => if key_grants(key, scope) {
                step is Grant && step->used_key == Some(key.id) && step->actor_hash@ == sha256_hex(
                    token,
                )
            } else {
                step is Refuse && (step->error is Forbidden)
            },
        }),
{
}

/// What is the operator's alone is refused to every other token.
pub proof fn the_operators_own_is_kept(
    endpoint: Endpoint,
    header: Option<Seq<char>>,
    admin_api_key: Seq<char>,
    row: Option<Option<ApiKeyRow>>,
    step: ScopeStep,
)
    requires
        is_admission(endpoint, header, admin_api_key, row, step),
        endpoint is ImportIssuerKey || endpoint is SetPassword || endpoint is ListApiKeys
            || endpoint is CreateApiKey || endpoint is RevokeApiKey || endpoint is DisconnectBtcpay
            || endpoint is ConnectZaprite || endpoint is DisconnectZaprite || endpoint
            is SetOperatorName || endpoint is SetCommunity || endpoint is ResetCommunity
            || endpoint is ActivateSelfLicense || endpoint is TierStatus || endpoint
            is HealthSummary || endpoint is DbInfo,
    ensures
        bearer_token(header) == Some(admin_api_key) ==> step is Grant,
        bearer_token(header) is None ==> step is Refuse && (step->error is Unauthorized),
        bearer_token(header) is Some && bearer_token(header) != Some(admin_api_key) ==> step
            is Refuse && (step->error is Forbidden),
{
}

/// What changes a kind of record opens to keys that may change that kind, and to
/// no others.
pub proof fn changes_need_the_right_to_change(endpoint: Endpoint)
    ensures
        (endpoint is IssueLicense || endpoint is RevokeLicense || endpoint is SuspendLicense
            || endpoint is UnsuspendLicense) <==> gate_of(endpoint) == (Gate::Writes {
            resource: Resource::Licenses,
        }),
        (endpoint is CreateProduct || endpoint is UpdateProduct || endpoint is DeleteProduct
            || endpoint is SetProductActive) <==> gate_of(endpoint) == (Gate::Writes {
            resource: Resource::Products,
        }),
        (endpoint is CreatePolicy || endpoint is UpdatePolicy || endpoint is DeletePolicy
            || endpoint is SetPolicyActive || endpoint is SetPolicyArchived || endpoint
            is SetPolicyPublic || endpoint is SetPolicyTip) <==> gate_of(endpoint) == (
        Gate::Writes { resource: Resource::Policies }),
        (endpoint is CreateCode || endpoint is UpdateCode || endpoint is SetCodeActive || endpoint
            is DeleteCode) <==> gate_of(endpoint) == (Gate::Writes { resource: Resource::Codes }),
        endpoint is CancelSubscription <==> gate_of(endpoint) == (Gate::Writes {
            resource: Resource::Subscriptions,
        }),
        endpoint is DeactivateMachine <==> gate_of(endpoint) == (Gate::Writes {
            resource: Resource::Machines,
        }),
        (endpoint is CreateWebhookEndpoint || endpoint is SetWebhookEndpointActive || endpoint
            is DeleteWebhookEndpoint || endpoint is RetryWebhookDelivery) <==> gate_of(endpoint)
            == (Gate::Writes { resource: Resource::Webhooks }),
        endpoint is RefreshRates <==> gate_of(endpoint) == (Gate::Writes {
            resource: Resource::Rates,
        }),
        (endpoint is CreateMerchantProfile || endpoint is UpdateMerchantProfile || endpoint
            is DeleteMerchantProfile || endpoint is SetDefaultMerchantProfile || endpoint
            is SetRailPreference || endpoint is ClearRailPreference) <==> gate_of(endpoint) == (
        Gate::Writes { resource: Resource::MerchantProfiles }),
        endpoint is ConnectBtcpay <==> gate_of(endpoint) == (Gate::Writes {
            resource: Resource::PaymentProviders,
        }),
{
}

/// What only shows a kind of record opens to keys that may read it.
pub proof fn showing_needs_the_right_to_read(endpoint: Endpoint)
    ensures
        (endpoint is ListLicenses || endpoint is SearchLicenses || endpoint is LicensesSummary
            || endpoint is LicenseCounts) <==> gate_of(endpoint) == (Gate::Reads {
            resource: Resource::Licenses,
        }),
        endpoint is RevenueSummary <==> gate_of(endpoint) == (Gate::Reads {
            resource: Resource::Revenue,
        }),
        (endpoint is ListPolicies || endpoint is ListTips) <==> gate_of(endpoint) == (Gate::Reads {
            resource: Resource::Policies,
        }),
        (endpoint is ListCodes || endpoint is GetCode) <==> gate_of(endpoint) == (Gate::Reads {
            resource: Resource::Codes,
        }),
        endpoint is ListSubscriptions <==> gate_of(endpoint) == (Gate::Reads {
            resource: Resource::Subscriptions,
        }),
        endpoint is ListMachines <==> gate_of(endpoint) == (Gate::Reads {
            resource: Resource::Machines,
        }),
        (endpoint is ListWebhookEndpoints || endpoint is ListWebhookDeliveries) <==> gate_of(
            endpoint,
        ) == (Gate::Reads { resource: Resource::Webhooks }),
        endpoint is ListAudit <==> gate_of(endpoint) == (Gate::Reads { resource: Resource::Audit }),
        endpoint is ListRates <==> gate_of(endpoint) == (Gate::Reads { resource: Resource::Rates }),
        (endpoint is ListMerchantProfiles || endpoint is GetMerchantProfile) <==> gate_of(endpoint)
            == (Gate::Reads { resource: Resource::MerchantProfiles }),
        (endpoint is BtcpayStatus || endpoint is BtcpayPaymentMethods || endpoint is ZapriteStatus
            || endpoint is PaymentProviderStatus) <==> gate_of(endpoint) == (Gate::Reads {
            resource: Resource::PaymentProviders,
        }),
        (endpoint is GetOperatorName || endpoint is GetCommunity || endpoint is SelfLicenseStatus)
            <==> gate_of(endpoint) == (Gate::Reads { resource: Resource::Settings }),
{
}

/// A key that is let in to change something has the scope to change that very
/// kind of record; one that is let in to read, the scope to read it.
pub proof fn keys_are_let_in_by_their_scopes(
    endpoint: Endpoint,
    header: Option<Seq<char>>,
    admin_api_key: Seq<char>,
    key: ApiKeyRow,
    step: ScopeStep,
    resource: Resource,
)
    requires
        is_admission(endpoint, header, admin_api_key, Some(Some(key)), step),
        bearer_token(header) is Some,
        bearer_token(header) != Some(admin_api_key),
    ensures
        gate_of(endpoint) == (Gate::Writes { resource }) ==> (step is Grant <==> key_grants(
            key,
            resource.name() + ":write"@,
        )),
        gate_of(endpoint) == (Gate::Reads { resource }) ==> (step is Grant <==> key_grants(
            key,
            resource.name() + ":read"@,
        )),
        gate_of(endpoint) is MasterKey ==> step is Refuse,
{
}

/// Kinds of records are known by these names in scopes.
pub proof fn resources_have_names()
    ensures
        Resource::Licenses.name() == "licenses"@,
        Resource::Products.name() == "products"@,
        Resource::Policies.name() == "policies"@,
        Resource::Codes.name() == "codes"@,
        Resource::Subscriptions.name() == "subscriptions"@,
        Resource::Machines.name() == "machines"@,
        Resource::Webhooks.name() == "webhooks"@,
        Resource::Audit.name() == "audit"@,
        Resource::Rates.name() == "rates"@,
        Resource::MerchantProfiles.name() == "merchant_profiles"@,
        Resource::PaymentProviders.name() == "payment_providers"@,
        Resource::Settings.name() == "settings"@,
        Resource::Revenue.name() == "revenue"@,
{
}

proof fn lemma_asked(scopes: Seq<String>)
    ensures
        forall|k: int|
            0 <= k < asked_scopes(scopes).len() ==> (exists|i: int|
                0 <= i < scopes.len() && trimmed((#[trigger] scopes[i])@) == (
                #[trigger] asked_scopes(scopes)[k])),
        forall|i: int|
            0 <= i < scopes.len() && trimmed((#[trigger] scopes[i])@).len() > 0 ==> asked_scopes(
                scopes,
            ).contains(trimmed(scopes[i]@)),
    decreases scopes.len(),
{
    if scopes.len() > 0 {
        let front = scopes.drop_last();
        lemma_asked(front);
        let before = asked_scopes(front);
        let all = asked_scopes(scopes);
        assert forall|k: int| 0 <= k < all.len() implies (exists|i: int|
            0 <= i < scopes.len() && trimmed((#[trigger] scopes[i])@) == (#[trigger] all[k])) by {
            if k < before.len() {
                assert(all[k] == before[k]);
                let i = choose|i: int|
                    0 <= i < front.len() && trimmed((#[trigger] front[i])@) == before[k];
                assert(scopes[i] == front[i]);
            } else {
                assert(scopes[scopes.len() - 1] == scopes.last());
            }
        }
        assert forall|i: int|
            0 <= i < scopes.len() && trimmed((#[trigger] scopes[i])@).len()
                > 0 implies all.contains(trimmed(scopes[i]@)) by {
            if i < scopes.len() - 1 {
                assert(front[i] == scopes[i]);
                assert(before.contains(trimmed(front[i]@)));
                let k = choose|k: int| 0 <= k < before.len() && before[k] == trimmed(front[i]@);
                assert(all[k] == before[k]);
            } else {
                assert(all[all.len() - 1] == trimmed(scopes[i]@));
            }
        }
    }
}

proof fn lemma_refused(asked: Seq<Seq<char>>)
    ensures
        least_refused(asked) is None <==> forall|k: int|
            0 <= k < asked.len() ==> #[trigger] asked[k] == "payment_providers:write"@,
    decreases asked.len(),
{
    if asked.len() > 0 {
        let front = asked.drop_last();
        lemma_refused(front);
        if least_refused(asked) is None {
            assert forall|k: int| 0 <= k < asked.len() implies #[trigger] asked[k]
                == "payment_providers:write"@ by {
                if k < asked.len() - 1 {
                    assert(front[k] == asked[k]);
                }
            }
        }
        if forall|k: int| 0 <= k < asked.len() ==> #[trigger] asked[k]
            == "payment_providers:write"@ {
            assert forall|k: int| 0 <= k < front.len() implies #[trigger] front[k]
                == "payment_providers:write"@ by {
                assert(front[k] == asked[k]);
            }
            assert(asked[asked.len() - 1] == asked.last());
        }
    }
}

/// A key is made only with a label and a role that is known, and is given beside
/// its role at most the right to connect payments.
pub proof fn keys_are_made_with_a_role(req: CreateApiKeyReq)
    ensures
        create_refusal(req) is None ==> {
            &&& trimmed(req.label@).len() > 0
            &&& exists|role: Role| trimmed(req.role@) == #[trigger] role.name()
            &&& forall|i: int|
                0 <= i < req.scopes@.len() && trimmed((#[trigger] req.scopes@[i])@).len() > 0
                    ==> trimmed(req.scopes@[i]@) == "payment_providers:write"@
        },
        create_refusal(req) is Some ==> trimmed(req.label@).len() == 0
            || vstd::utf8::encode_utf8(trimmed(req.label@)).len() > 80 || (forall|role: Role|
            trimmed(req.role@) != #[trigger] role.name()) || exists|i: int|
            0 <= i < req.scopes@.len() && trimmed((#[trigger] req.scopes@[i])@).len() > 0
                && trimmed(req.scopes@[i]@) != "payment_providers:write"@,
{
    let asked = asked_scopes(req.scopes@);
    lemma_asked(req.scopes@);
    lemma_refused(asked);
    lemma_none_blank(req.scopes@);
    if least_refused(asked) is None {
        assert forall|i: int|
            0 <= i < req.scopes@.len() && trimmed((#[trigger] req.scopes@[i])@).len()
                > 0 implies trimmed(req.scopes@[i]@) == "payment_providers:write"@ by {
            assert(asked.contains(trimmed(req.scopes@[i]@)));
            let k = choose|k: int| 0 <= k < asked.len() && asked[k] == trimmed(req.scopes@[i]@);
            assert(asked[k] == "payment_providers:write"@);
        }
    } else {
        let k = choose|k: int| 0 <= k < asked.len() && #[trigger] asked[k]
            != "payment_providers:write"@;
        let i = choose|i: int|
            0 <= i < req.scopes@.len() && trimmed((#[trigger] req.scopes@[i])@) == asked[k];
        assert(trimmed(req.scopes@[i]@).len() > 0);
    }
}

proof fn lemma_none_blank(scopes: Seq<String>)
    ensures
        forall|k: int|
            0 <= k < asked_scopes(scopes).len() ==> (#[trigger] asked_scopes(scopes)[k]).len() > 0,
    decreases scopes.len(),
{
    if scopes.len() > 0 {
        lemma_none_blank(scopes.drop_last());
        let before = asked_scopes(scopes.drop_last());
        let all = asked_scopes(scopes);
        assert forall|k: int| 0 <= k < all.len() implies (#[trigger] all[k]).len() > 0 by {
            if k < before.len() {
                assert(all[k] == before[k]);
            }
        }
    }
}

/// Texts are in the order of the characters in which they first differ; a text
/// comes before those that go on from it.
pub proof fn texts_are_in_order(a: Seq<char>, b: Seq<char>, k: int)
    requires
        0 <= k <= a.len(),
        k <= b.len(),
        forall|j: int| 0 <= j < k ==> #[trigger] a[j] == b[j],
        k < a.len() && k < b.len() ==> a[k] != b[k],
    ensures
        k < a.len() && k < b.len() ==> (comes_before(a, b) <==> a[k] < b[k]),
        k == a.len() && k < b.len() ==> comes_before(a, b),
        k == b.len() ==> !comes_before(a, b),
    decreases k,
{
    if k > 0 {
        assert(a[0] == b[0]);
        let a1 = a.subrange(1, a.len() as int);
        let b1 = b.subrange(1, b.len() as int);
        assert forall|j: int| 0 <= j < k - 1 implies #[trigger] a1[j] == b1[j] by {
            assert(a[j + 1] == b[j + 1]);
        }
        texts_are_in_order(a1, b1, k - 1);
    }
}

proof fn lemma_order(a: Seq<char>, b: Seq<char>, c: Seq<char>)
    ensures
        !comes_before(a, a),
        comes_before(a, b) && comes_before(b, c) ==> comes_before(a, c),
    decreases a.len(),
{
    if a.len() > 0 {
        let a1 = a.subrange(1, a.len() as int);
        lemma_order(a1, b.subrange(1, b.len() as int), c.subrange(1, c.len() as int));
    }
}

/// Where scopes are refused, the one that is named is one of them, and none of the
/// others comes before it.
pub proof fn the_first_refused_scope_is_named(asked: Seq<Seq<char>>, s: Seq<char>)
    requires
        least_refused(asked) == Some(s),
    ensures
        s != "payment_providers:write"@,
        exists|k: int| 0 <= k < asked.len() && #[trigger] asked[k] == s,
        forall|k: int|
            0 <= k < asked.len() && #[trigger] asked[k] != "payment_providers:write"@
                ==> !comes_before(asked[k], s),
    decreases asked.len(),
{
    let front = asked.drop_last();
    let last = asked.last();
    assert(asked[asked.len() - 1] == last);
    lemma_refused(front);
    lemma_order(last, last, last);
    if least_refused(front) is Some {
        let t = least_refused(front)->0;
        the_first_refused_scope_is_named(front, t);
        let k = choose|k: int| 0 <= k < front.len() && #[trigger] front[k] == t;
        assert(asked[k] == t);
        assert forall|k: int|
            0 <= k < asked.len() && #[trigger] asked[k]
                != "payment_providers:write"@ implies !comes_before(asked[k], s) by {
            if k < asked.len() - 1 {
                assert(front[k] == asked[k]);
                lemma_order(asked[k], last, t);
            }
        }
    } else {
        assert forall|k: int|
            0 <= k < asked.len() && #[trigger] asked[k]
                != "payment_providers:write"@ implies !comes_before(asked[k], s) by {
            if k < asked.len() - 1 {
                assert(front[k] == asked[k]);
            }
        }
    }
}

/// A key is stored under its label and role, with the right to connect payments
/// exactly where a scope was asked for; what is stored of its scopes reads back.
pub proof fn keys_are_stored_as_asked(req: CreateApiKeyReq, r: Result<NewApiKey, AppError>)
    requires
        is_new_key(req, r),
    ensures
        r is Err ==> (r->Err_0 is BadRequest),
        r is Err <==> create_refusal(req) is Some,
        r matches Ok(key) ==> {
            &&& key.label@ == trimmed(req.label@)
            &&& key.role.name() == trimmed(req.role@)
            &&& key.scopes@.len() <= 1
            &&& key.scopes@.len() == 1 ==> key.scopes@[0]@ == "payment_providers:write"@
            &&& key.scopes@.len() == 1 <==> exists|i: int|
                0 <= i < req.scopes@.len() && trimmed((#[trigger] req.scopes@[i])@).len() > 0
            &&& key.scopes_json is Some <==> key.scopes@.len() == 1
            &&& key.scopes_json is Some ==> json_strings(key.scopes_json->0@) == Some(
                seq!["payment_providers:write"@],
            )
        },
{
    if r is Ok {
        let key = r->Ok_0;
        let asked = asked_scopes(req.scopes@);
        let mine = texts(key.scopes@);
        lemma_asked(req.scopes@);
        lemma_none_blank(req.scopes@);
        assert(mine.len() == key.scopes@.len());
        if mine.len() == 1 {
            assert(mine[0] == key.scopes@[0]@);
            assert(mine =~= seq!["payment_providers:write"@]);
            let i = choose|i: int|
                0 <= i < req.scopes@.len() && trimmed((#[trigger] req.scopes@[i])@) == asked[0];
            assert(asked[0].len() > 0);
        }
        if exists|i: int|
            0 <= i < req.scopes@.len() && trimmed((#[trigger] req.scopes@[i])@).len() > 0 {
            let i = choose|i: int|
                0 <= i < req.scopes@.len() && trimmed((#[trigger] req.scopes@[i])@).len() > 0;
            assert(asked.contains(trimmed(req.scopes@[i]@)));
        }
    }
}

} // verus!
