//! Who may use which of the operator's endpoints.
//!
//! The operator's own key opens every endpoint. A scoped key opens those whose
//! scope it grants; what is most sensitive (the signing key, the password, keys
//! and settings, most of the payment connections, and what tells about the
//! database) is left to the operator's own key.

use crate::api::admin::{bearer_token, require_admin};
use crate::api::api_keys::{
    is_extra_scope, is_given_extra, is_scope_step, key_grants, no_role_allows_extra_scopes,
    require_scope, role_names_differ, ApiKeyRow, Role, ScopeStep,
};
use crate::codec::sha256_hex;
use crate::text::{cat2, finishes_with, opt_str, opt_text};
use vstd::prelude::*;

verus! {

/// An endpoint of the operator's.
#[derive(Clone, Copy, Debug, PartialEq, Eq, Structural)]
pub enum Endpoint {
    ListLicenses,
    SearchLicenses,
    LicensesSummary,
    LicenseCounts,
    IssueLicense,
    RevokeLicense,
    SuspendLicense,
    UnsuspendLicense,
    RevenueSummary,
    CreateProduct,
    UpdateProduct,
    DeleteProduct,
    SetProductActive,
    ListPolicies,
    ListTips,
    CreatePolicy,
    UpdatePolicy,
    DeletePolicy,
    SetPolicyActive,
    SetPolicyArchived,
    SetPolicyPublic,
    SetPolicyTip,
    ListCodes,
    GetCode,
    CreateCode,
    UpdateCode,
    SetCodeActive,
    DeleteCode,
    ListSubscriptions,
    CancelSubscription,
    ListMachines,
    DeactivateMachine,
    ListWebhookEndpoints,
    CreateWebhookEndpoint,
    SetWebhookEndpointActive,
    DeleteWebhookEndpoint,
    ListWebhookDeliveries,
    RetryWebhookDelivery,
    ListAudit,
    ListRates,
    RefreshRates,
    ListMerchantProfiles,
    GetMerchantProfile,
    CreateMerchantProfile,
    UpdateMerchantProfile,
    DeleteMerchantProfile,
    SetDefaultMerchantProfile,
    SetRailPreference,
    ClearRailPreference,
    BtcpayStatus,
    BtcpayPaymentMethods,
    ZapriteStatus,
    PaymentProviderStatus,
    ConnectBtcpay,
    GetOperatorName,
    GetCommunity,
    SelfLicenseStatus,
    DisconnectBtcpay,
    ConnectZaprite,
    DisconnectZaprite,
    SetOperatorName,
    SetCommunity,
    ResetCommunity,
    ActivateSelfLicense,
    TierStatus,
    HealthSummary,
    DbInfo,
    ImportIssuerKey,
    SetPassword,
    ListApiKeys,
    CreateApiKey,
    RevokeApiKey,
}

/// What a scope is about.
#[derive(Clone, Copy, Debug, PartialEq, Eq, Structural)]
pub enum Resource {
    Licenses,
    Revenue,
    Products,
    Policies,
    Codes,
    Subscriptions,
    Machines,
    Webhooks,
    Audit,
    Rates,
    MerchantProfiles,
    PaymentProviders,
    Settings,
}

/// What opens an endpoint, besides the operator's own key.
#[derive(Clone, Copy, Debug, PartialEq, Eq, Structural)]
pub enum Gate {
    /// Nothing.
    MasterKey,
    /// A scoped key that may read the resource.
    Reads { resource: Resource },
    /// A scoped key that may change the resource.
    Writes { resource: Resource },
}

impl Resource {
    /// The resource's name.
    pub open spec fn name(self) -> Seq<char> {
        match self {
            Resource::Licenses => "licenses"@,
            Resource::Revenue => "revenue"@,
            Resource::Products => "products"@,
            Resource::Policies => "policies"@,
            Resource::Codes => "codes"@,
            Resource::Subscriptions => "subscriptions"@,
            Resource::Machines => "machines"@,
            Resource::Webhooks => "webhooks"@,
            Resource::Audit => "audit"@,
            Resource::Rates => "rates"@,
            Resource::MerchantProfiles => "merchant_profiles"@,
            Resource::PaymentProviders => "payment_providers"@,
            Resource::Settings => "settings"@,
        }
    }

    /// The resource's name.
    pub fn as_str(self) -> (r: &'static str)
        ensures
            r@ == self.name(),
    {
        match self {
            Resource::Licenses => "licenses",
            Resource::Revenue => "revenue",
            Resource::Products => "products",
            Resource::Policies => "policies",
            Resource::Codes => "codes",
            Resource::Subscriptions => "subscriptions",
            Resource::Machines => "machines",
            Resource::Webhooks => "webhooks",
            Resource::Audit => "audit",
            Resource::Rates => "rates",
            Resource::MerchantProfiles => "merchant_profiles",
            Resource::PaymentProviders => "payment_providers",
            Resource::Settings => "settings",
        }
    }
}

/// What opens an endpoint.
pub open spec fn gate_of(endpoint: Endpoint) -> Gate {
    match endpoint {
        Endpoint::ListLicenses
        | Endpoint::SearchLicenses
        | Endpoint::LicensesSummary
        | Endpoint::LicenseCounts => Gate::Reads { resource: Resource::Licenses },
        Endpoint::IssueLicense
        | Endpoint::RevokeLicense
        | Endpoint::SuspendLicense
        | Endpoint::UnsuspendLicense => Gate::Writes { resource: Resource::Licenses },
        Endpoint::RevenueSummary => Gate::Reads { resource: Resource::Revenue },
        Endpoint::CreateProduct
        | Endpoint::UpdateProduct
        | Endpoint::DeleteProduct
        | Endpoint::SetProductActive => Gate::Writes { resource: Resource::Products },
        Endpoint::ListPolicies
        | Endpoint::ListTips => Gate::Reads { resource: Resource::Policies },
        Endpoint::CreatePolicy
        | Endpoint::UpdatePolicy
        | Endpoint::DeletePolicy
        | Endpoint::SetPolicyActive
        | Endpoint::SetPolicyArchived
        | Endpoint::SetPolicyPublic
        | Endpoint::SetPolicyTip => Gate::Writes { resource: Resource::Policies },
        Endpoint::ListCodes
        | Endpoint::GetCode => Gate::Reads { resource: Resource::Codes },
        Endpoint::CreateCode
        | Endpoint::UpdateCode
        | Endpoint::SetCodeActive
        | Endpoint::DeleteCode => Gate::Writes { resource: Resource::Codes },
        Endpoint::ListSubscriptions => Gate::Reads { resource: Resource::Subscriptions },
        Endpoint::CancelSubscription => Gate::Writes { resource: Resource::Subscriptions },
        Endpoint::ListMachines => Gate::Reads { resource: Resource::Machines },
        Endpoint::DeactivateMachine => Gate::Writes { resource: Resource::Machines },
        Endpoint::ListWebhookEndpoints
        | Endpoint::ListWebhookDeliveries => Gate::Reads { resource: Resource::Webhooks },
        Endpoint::CreateWebhookEndpoint
        | Endpoint::SetWebhookEndpointActive
        | Endpoint::DeleteWebhookEndpoint
        | Endpoint::RetryWebhookDelivery => Gate::Writes { resource: Resource::Webhooks },
        Endpoint::ListAudit => Gate::Reads { resource: Resource::Audit },
        Endpoint::ListRates => Gate::Reads { resource: Resource::Rates },
        Endpoint::RefreshRates => Gate::Writes { resource: Resource::Rates },
        Endpoint::ListMerchantProfiles
        | Endpoint::GetMerchantProfile => Gate::Reads { resource: Resource::MerchantProfiles },
        Endpoint::CreateMerchantProfile
        | Endpoint::UpdateMerchantProfile
        | Endpoint::DeleteMerchantProfile
        | Endpoint::SetDefaultMerchantProfile
        | Endpoint::SetRailPreference
        | Endpoint::ClearRailPreference => Gate::Writes { resource: Resource::MerchantProfiles },
        Endpoint::BtcpayStatus
        | Endpoint::BtcpayPaymentMethods
        | Endpoint::ZapriteStatus
        | Endpoint::PaymentProviderStatus => Gate::Reads { resource: Resource::PaymentProviders },
        Endpoint::ConnectBtcpay => Gate::Writes { resource: Resource::PaymentProviders },
        Endpoint::GetOperatorName
        | Endpoint::GetCommunity
        | Endpoint::SelfLicenseStatus => Gate::Reads { resource: Resource::Settings },
        Endpoint::DisconnectBtcpay
        | Endpoint::ConnectZaprite
        | Endpoint::DisconnectZaprite
        | Endpoint::SetOperatorName
        | Endpoint::SetCommunity
        | Endpoint::ResetCommunity
        | Endpoint::ActivateSelfLicense
        | Endpoint::TierStatus
        | Endpoint::HealthSummary
        | Endpoint::DbInfo
        | Endpoint::ImportIssuerKey
        | Endpoint::SetPassword
        | Endpoint::ListApiKeys
        | Endpoint::CreateApiKey
        | Endpoint::RevokeApiKey => Gate::MasterKey,
    }
}

/// What opens an endpoint.
pub fn gate(endpoint: Endpoint) -> (r: Gate)
    ensures
        r == gate_of(endpoint),
{
    match endpoint {
        Endpoint::ListLicenses
        | Endpoint::SearchLicenses
        | Endpoint::LicensesSummary
        | Endpoint::LicenseCounts => Gate::Reads { resource: Resource::Licenses },
        Endpoint::IssueLicense
        | Endpoint::RevokeLicense
        | Endpoint::SuspendLicense
        | Endpoint::UnsuspendLicense => Gate::Writes { resource: Resource::Licenses },
        Endpoint::RevenueSummary => Gate::Reads { resource: Resource::Revenue },
        Endpoint::CreateProduct
        | Endpoint::UpdateProduct
        | Endpoint::DeleteProduct
        | Endpoint::SetProductActive => Gate::Writes { resource: Resource::Products },
        Endpoint::ListPolicies
        | Endpoint::ListTips => Gate::Reads { resource: Resource::Policies },
        Endpoint::CreatePolicy
        | Endpoint::UpdatePolicy
        | Endpoint::DeletePolicy
        | Endpoint::SetPolicyActive
        | Endpoint::SetPolicyArchived
        | Endpoint::SetPolicyPublic
        | Endpoint::SetPolicyTip => Gate::Writes { resource: Resource::Policies },
        Endpoint::ListCodes
        | Endpoint::GetCode => Gate::Reads { resource: Resource::Codes },
        Endpoint::CreateCode
        | Endpoint::UpdateCode
        | Endpoint::SetCodeActive
        | Endpoint::DeleteCode => Gate::Writes { resource: Resource::Codes },
        Endpoint::ListSubscriptions => Gate::Reads { resource: Resource::Subscriptions },
        Endpoint::CancelSubscription => Gate::Writes { resource: Resource::Subscriptions },
        Endpoint::ListMachines => Gate::Reads { resource: Resource::Machines },
        Endpoint::DeactivateMachine => Gate::Writes { resource: Resource::Machines },
        Endpoint::ListWebhookEndpoints
        | Endpoint::ListWebhookDeliveries => Gate::Reads { resource: Resource::Webhooks },
        Endpoint::CreateWebhookEndpoint
        | Endpoint::SetWebhookEndpointActive
        | Endpoint::DeleteWebhookEndpoint
        | Endpoint::RetryWebhookDelivery => Gate::Writes { resource: Resource::Webhooks },
        Endpoint::ListAudit => Gate::Reads { resource: Resource::Audit },
        Endpoint::ListRates => Gate::Reads { resource: Resource::Rates },
        Endpoint::RefreshRates => Gate::Writes { resource: Resource::Rates },
        Endpoint::ListMerchantProfiles
        | Endpoint::GetMerchantProfile => Gate::Reads { resource: Resource::MerchantProfiles },
        Endpoint::CreateMerchantProfile
        | Endpoint::UpdateMerchantProfile
        | Endpoint::DeleteMerchantProfile
        | Endpoint::SetDefaultMerchantProfile
        | Endpoint::SetRailPreference
        | Endpoint::ClearRailPreference => Gate::Writes { resource: Resource::MerchantProfiles },
        Endpoint::BtcpayStatus
        | Endpoint::BtcpayPaymentMethods
        | Endpoint::ZapriteStatus
        | Endpoint::PaymentProviderStatus => Gate::Reads { resource: Resource::PaymentProviders },
        Endpoint::ConnectBtcpay => Gate::Writes { resource: Resource::PaymentProviders },
        Endpoint::GetOperatorName
        | Endpoint::GetCommunity
        | Endpoint::SelfLicenseStatus => Gate::Reads { resource: Resource::Settings },
        Endpoint::DisconnectBtcpay
        | Endpoint::ConnectZaprite
        | Endpoint::DisconnectZaprite
        | Endpoint::SetOperatorName
        | Endpoint::SetCommunity
        | Endpoint::ResetCommunity
        | Endpoint::ActivateSelfLicense
        | Endpoint::TierStatus
        | Endpoint::HealthSummary
        | Endpoint::DbInfo
        | Endpoint::ImportIssuerKey
        | Endpoint::SetPassword
        | Endpoint::ListApiKeys
        | Endpoint::CreateApiKey
        | Endpoint::RevokeApiKey => Gate::MasterKey,
    }
}

/// The scope to read a resource.
pub open spec fn read_scope(resource: Resource) -> Seq<char> {
    resource.name() + ":read"@
}

/// The scope to change a resource.
pub open spec fn write_scope(resource: Resource) -> Seq<char> {
    resource.name() + ":write"@
}

/// Is `step` what a request to an endpoint needs next?
pub open spec fn is_admission(
    endpoint: Endpoint,
    header: Option<Seq<char>>,
    admin_api_key: Seq<char>,
    row: Option<Option<ApiKeyRow>>,
    step: ScopeStep,
) -> bool {
    match gate_of(endpoint) {
        Gate::MasterKey => match bearer_token(header) {
            None => step matches ScopeStep::Refuse { error } && error is Unauthorized,
            Some(token) => if token == admin_api_key {
                step matches ScopeStep::Grant { actor_hash, used_key } && actor_hash@
                    == sha256_hex(token) && used_key is None
            } else {
                step matches ScopeStep::Refuse { error } && error is Forbidden
            },
        },
        Gate::Reads { resource } => is_scope_step(
            header,
            admin_api_key,
            read_scope(resource),
            row,
            step,
        ),
        Gate::Writes { resource } => is_scope_step(
            header,
            admin_api_key,
            write_scope(resource),
            row,
            step,
        ),
    }
}

/// What a request to an endpoint needs next; `row` is the scoped key of its
/// token, once it has been looked for.
pub fn let_in(
    endpoint: Endpoint,
    authorization: Option<&str>,
    admin_api_key: &str,
    row: &Option<Option<ApiKeyRow>>,
) -> (r: ScopeStep)
    ensures
        is_admission(endpoint, opt_str(authorization), admin_api_key@, *row, r),
{
    match gate(endpoint) {
        Gate::MasterKey => match require_admin(authorization, admin_api_key) {
            Err(error) => ScopeStep::Refuse { error },
            Ok(actor_hash) => ScopeStep::Grant { actor_hash, used_key: None },
        },
        Gate::Reads { resource } => {
            let scope: String = cat2(resource.as_str(), ":read");
            require_scope(authorization, admin_api_key, scope.as_str(), row)
        },
        Gate::Writes { resource } => {
            let scope: String = cat2(resource.as_str(), ":write");
            require_scope(authorization, admin_api_key, scope.as_str(), row)
        },
    }
}

/// The operator's own key opens every endpoint.
pub proof fn the_operators_key_opens_everything(
    endpoint: Endpoint,
    header: Option<Seq<char>>,
    admin_api_key: Seq<char>,
    row: Option<Option<ApiKeyRow>>,
    step: ScopeStep,
)
    requires
        is_admission(endpoint, header, admin_api_key, row, step),
        bearer_token(header) == Some(admin_api_key),
    ensures
        step is Grant,
{
}

/// What is left to the operator's own key opens to no scoped key, whatever its
/// role and its extra scopes.
pub proof fn scoped_keys_stay_out_of_what_is_the_operators(
    endpoint: Endpoint,
    header: Option<Seq<char>>,
    admin_api_key: Seq<char>,
    row: Option<Option<ApiKeyRow>>,
    step: ScopeStep,
)
    requires
        is_admission(endpoint, header, admin_api_key, row, step),
        gate_of(endpoint) is MasterKey,
        step is Grant,
    ensures
        bearer_token(header) == Some(admin_api_key),
        step->used_key is None,
{
}

proof fn lemma_write_scope(resource: Resource)
    ensures
        !finishes_with(write_scope(resource), ":read"@),
        finishes_with(read_scope(resource), ":read"@),
{
    reveal_strlit(":read");
    reveal_strlit(":write");
    let w = write_scope(resource);
    assert(w.last() == 'e');
    if finishes_with(w, ":read"@) {
        assert(w.subrange(w.len() - 5, w.len() as int).last() == w.last());
        assert(":read"@.last() == 'd');
    }
    let r = read_scope(resource);
    assert(r.subrange(r.len() - 5, r.len() as int) =~= ":read"@);
}

/// Every role reads what scoped keys can read.
pub proof fn every_role_reads(endpoint: Endpoint, role: Role)
    requires
        gate_of(endpoint) is Reads,
    ensures
        role.allows(read_scope(gate_of(endpoint)->Reads_resource)),
{
    let scope = read_scope(gate_of(endpoint)->Reads_resource);
    lemma_write_scope(gate_of(endpoint)->Reads_resource);
    if is_extra_scope(scope) {
        no_role_allows_extra_scopes(Role::ReadOnly, scope);
    }
}

/// A read-only key without extra scopes opens only endpoints that read.
pub proof fn read_only_keys_change_nothing(
    endpoint: Endpoint,
    header: Option<Seq<char>>,
    admin_api_key: Seq<char>,
    key: ApiKeyRow,
    step: ScopeStep,
)
    requires
        is_admission(endpoint, header, admin_api_key, Some(Some(key)), step),
        bearer_token(header) != Some(admin_api_key),
        key.role@ == Role::ReadOnly.name(),
        key.extra_scopes is None,
        step is Grant,
    ensures
        gate_of(endpoint) is Reads,
{
    if gate_of(endpoint) is Writes {
        let scope = write_scope(gate_of(endpoint)->Writes_resource);
        lemma_write_scope(gate_of(endpoint)->Writes_resource);
        assert(key_grants(key, scope));
        let role = choose|role: Role|
            key.role@ == #[trigger] role.name() && (role.allows(scope) || is_given_extra(
                opt_text(key.extra_scopes),
                scope,
            ));
        role_names_differ(role, Role::ReadOnly);
    }
}

/// Each role opens what it is for: issuing licenses, supporting buyers, and
/// setting a catalog up. Connecting payments is for none of them.
pub proof fn roles_open_what_they_are_for(role: Role)
    ensures
        Role::LicenseIssuer.allows(write_scope(Resource::Licenses)),
        Role::Support.allows(write_scope(Resource::Licenses)),
        Role::Support.allows(write_scope(Resource::Subscriptions)),
        Role::Support.allows(write_scope(Resource::Machines)),
        Role::MerchantOnboard.allows(write_scope(Resource::Products)),
        Role::MerchantOnboard.allows(write_scope(Resource::Policies)),
        Role::MerchantOnboard.allows(write_scope(Resource::Licenses)),
        !role.allows(write_scope(Resource::PaymentProviders)),
{
    reveal_strlit(":write");
    reveal_strlit("licenses");
    reveal_strlit("subscriptions");
    reveal_strlit("machines");
    reveal_strlit("products");
    reveal_strlit("policies");
    reveal_strlit("payment_providers");
    reveal_strlit("licenses:write");
    reveal_strlit("subscriptions:write");
    reveal_strlit("machines:write");
    reveal_strlit("products:write");
    reveal_strlit("policies:write");
    reveal_strlit("payment_providers:write");
    assert(write_scope(Resource::Licenses) =~= "licenses:write"@);
    assert(write_scope(Resource::Subscriptions) =~= "subscriptions:write"@);
    assert(write_scope(Resource::Machines) =~= "machines:write"@);
    assert(write_scope(Resource::Products) =~= "products:write"@);
    assert(write_scope(Resource::Policies) =~= "policies:write"@);
    assert(write_scope(Resource::PaymentProviders) =~= "payment_providers:write"@);
    no_role_allows_extra_scopes(role, write_scope(Resource::PaymentProviders));
}

} // verus!
