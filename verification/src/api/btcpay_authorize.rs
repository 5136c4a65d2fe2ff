//! Connecting a BTCPay store with one click.
//!
//! The operator is sent to BTCPay's consent page and comes back with a key. A
//! token that travels with the operator ties the way back to the way there. A
//! connection that was begun with a key of limited rights may only lead to a
//! store on a network where coins have no value.

use crate::api::payment_provider::{any_of_kind, find_kind, first_of_kind, has_kind};
use crate::btcpay::client::StoreSummary;
use crate::btcpay::config::AuthorizeState;
use crate::btcpay::network::BitcoinNetwork;
use crate::codec::{base32_encode, base32_text, percent_encoded, random_bytes, url_encode};
use crate::error::{bad_request, bad_request_with, AppError};
use crate::html::{escape, escaped};
use crate::models::{MerchantProfile, PaymentProviderRow};
use crate::text::{cat2, cat3, cat5, copy_opt, join, joined, opt_text, texts};
use vstd::prelude::*;
use vstd::utf8::encode_utf8;

verus! {

/// The rights that are asked for on the consent page.
pub const REQUESTED_PERMISSIONS: [&'static str; 5] = [
    "btcpay.store.canviewstoresettings",
    "btcpay.store.canmodifystoresettings",
    "btcpay.store.canviewinvoices",
    "btcpay.store.cancreateinvoice",
    "btcpay.store.canmodifyinvoices",
];

/// Where the operator is sent.
#[derive(Clone, Debug, PartialEq, Eq)]
pub struct ConnectResp {
    pub authorize_url: String,
    /// The token that ties the way back to the way there.
    pub state: String,
    pub merchant_profile_id: String,
}

/// Begins a connection.
#[derive(Clone, Debug)]
pub struct StartConnectReq {
    /// The profile that the store will belong to; none means the default.
    pub merchant_profile_id: Option<String>,
    pub label: Option<String>,
}

impl Default for StartConnectReq {
    fn default() -> (r: StartConnectReq)
        ensures
            r.merchant_profile_id is None,
            r.label is None,
    {
        StartConnectReq { merchant_profile_id: None, label: None }
    }
}

/// What BTCPay sends back.
#[derive(Clone, Debug)]
pub struct CallbackForm {
    pub api_key: String,
    pub user_id: Option<String>,
    pub permissions: Vec<String>,
}

/// The token that comes back with it.
#[derive(Clone, Debug)]
pub struct CallbackQuery {
    pub state: String,
}

/// What some servers send back instead.
#[derive(Clone, Debug)]
pub struct CallbackGetQuery {
    pub state: String,
    pub api_key: Option<String>,
    /// Why the operator's consent was not had.
    pub error: Option<String>,
}

/// Which provider is disconnected; none means that of the default profile.
#[derive(Clone, Debug)]
pub struct DisconnectReq {
    pub provider_id: Option<String>,
}

impl Default for DisconnectReq {
    fn default() -> (r: DisconnectReq)
        ensures
            r.provider_id is None,
    {
        DisconnectReq { provider_id: None }
    }
}

/// A text as it stands in a URL.
pub open spec fn in_url(s: Seq<char>) -> Seq<char> {
    percent_encoded(encode_utf8(s))
}

// ---------- the way there ----------

/// What has been found out about a connection that is to be begun.
#[derive(Clone, Debug)]
pub struct StartFacts {
    /// The profile that was asked for, or else the default one.
    pub profile: Option<Option<MerchantProfile>>,
    /// The profile's providers.
    pub existing: Option<Vec<PaymentProviderRow>>,
}

/// What a connection that is to be begun needs next.
#[derive(Clone, Debug)]
pub enum StartStep {
    FindProfile { id: String },
    FindDefaultProfile,
    ListProviders { profile_id: String },
    Refuse { error: AppError },
    /// Make up a token, and send the operator off.
    Begin { profile_id: String },
}

/// What is said of a profile that has a store already.
pub open spec fn taken_words(name: Seq<char>) -> Seq<char> {
    "merchant profile '"@ + name
        + "' already has a BTCPay provider attached. Disconnect it first if you want to re-authorize, or pick a different profile."@
}

/// Is `step` what a connection that is to be begun needs next?
pub open spec fn is_start_step(req: StartConnectReq, facts: StartFacts, step: StartStep) -> bool {
    match (facts.profile, req.merchant_profile_id) {
        (None, Some(id)) => step == (StartStep::FindProfile { id }),
        (None, None) => step is FindDefaultProfile,
        (Some(None), Some(id)) => step matches StartStep::Refuse { error } && error.is_bad_request(
            "merchant profile "@ + id@ + " not found"@,
        ),
        (Some(None), None) => step is FindDefaultProfile,
        (Some(Some(profile)), _) => match facts.existing {
            None => step == (StartStep::ListProviders { profile_id: profile.id }),
            Some(rows) => if has_kind(rows@, "btcpay"@) {
                step matches StartStep::Refuse { error } && error.is_conflict(
                    taken_words(profile.name@),
                )
            } else {
                step == (StartStep::Begin { profile_id: profile.id })
            },
        },
    }
}

/// What a connection that is to be begun needs next.
pub fn start_connect(req: &StartConnectReq, facts: &StartFacts) -> (r: StartStep)
    ensures
        is_start_step(*req, *facts, r),
{
    let profile: &MerchantProfile = match (&facts.profile, &req.merchant_profile_id) {
        (None, Some(id)) => {
            return StartStep::FindProfile { id: id.clone() };
        },
        (Some(None), Some(id)) => {
            return StartStep::Refuse {
                error: bad_request_with("merchant profile ", id.as_str(), " not found"),
            };
        },
        (None, None) | (Some(None), None) => {
            return StartStep::FindDefaultProfile;
        },
        (Some(Some(profile)), _) => profile,
    };
    match &facts.existing {
        None => StartStep::ListProviders { profile_id: profile.id.clone() },
        Some(rows) => if any_of_kind(rows, "btcpay") {
            StartStep::Refuse {
                error: AppError::Conflict(
                    cat3(
                        "merchant profile '",
                        profile.name.as_str(),
                        "' already has a BTCPay provider attached. Disconnect it first if you want to re-authorize, or pick a different profile.",
                    ),
                ),
            }
        } else {
            StartStep::Begin { profile_id: profile.id.clone() }
        },
    }
}

/// Does `r` say whether a connection is begun with a scoped key, where it may be?
pub open spec fn is_initiator(used_key: Option<String>, sandbox: bool, r: Result<bool, AppError>) -> bool {
    match r {
        Ok(scoped) => scoped == (used_key is Some) && (scoped ==> sandbox),
        Err(e) => used_key is Some && !sandbox && e is Forbidden,
    }
}

/// Whether a connection is begun with a scoped key, where it may be: the
/// operator's own key may anywhere, a scoped one only on a service that runs as
/// a sandbox.
pub fn connect_initiator(used_key: &Option<String>, sandbox: bool) -> (r: Result<bool, AppError>)
    ensures
        is_initiator(*used_key, sandbox, r),
{
    if used_key.is_none() {
        Ok(false)
    } else if sandbox {
        Ok(true)
    } else {
        Err(AppError::Forbidden)
    }
}

/// Is `r` what is stored for the way back?
pub open spec fn is_recorded_state(
    profile_id: Seq<char>,
    scoped: bool,
    actor_hash: Seq<char>,
    r: AuthorizeState,
) -> bool {
    &&& opt_text(r.merchant_profile_id) == Some(profile_id)
    &&& r.scoped_initiator == scoped
    &&& opt_text(r.initiator_actor_hash) == if scoped {
        Some(actor_hash)
    } else {
        None
    }
}

/// What is stored for the way back: the credential only where its rights are
/// limited.
pub fn state_to_record(profile_id: &str, scoped: bool, actor_hash: &str) -> (r: AuthorizeState)
    ensures
        is_recorded_state(profile_id@, scoped, actor_hash@, r),
{
    AuthorizeState {
        merchant_profile_id: Some(String::from_str(profile_id)),
        scoped_initiator: scoped,
        initiator_actor_hash: if scoped {
            Some(String::from_str(actor_hash))
        } else {
            None
        },
    }
}

/// Where the operator comes back to. The token travels inside this URL, since
/// other parameters of the consent page's URL are lost.
pub open spec fn redirect_url(public_base_url: Seq<char>, token: Seq<char>) -> Seq<char> {
    public_base_url + "/v1/btcpay/authorize/callback?state="@ + in_url(token)
}

/// The rights that are asked for, as parameters of a URL.
pub open spec fn permission_params() -> Seq<Seq<char>> {
    REQUESTED_PERMISSIONS@.map_values(|p: &'static str| "permissions="@ + in_url(p@))
}

fn permissions() -> (r: String)
    ensures
        r@ == joined(permission_params(), "&"@),
{
    let mut v: Vec<String> = Vec::new();
    for i in 0..5usize
        invariant
            texts(v@) == permission_params().take(i as int),
    {
        let ghost before = v@;
        let p: &'static str = REQUESTED_PERMISSIONS[i];
        let encoded: String = url_encode(p);
        v.push(cat2("permissions=", encoded.as_str()));
        proof {
            assert(texts(v@) =~= texts(before).push(v@[i as int]@));
            assert(permission_params().take(i + 1) =~= permission_params().take(i as int).push(
                permission_params()[i as int],
            ));
        }
    }
    assert(permission_params().take(5) =~= permission_params());
    join(&v, "&")
}

/// The URL of the consent page.
pub open spec fn consent_url(base: Seq<char>, redirect: Seq<char>) -> Seq<char> {
    base + "/api-keys/authorize?applicationName="@ + in_url("Keysat"@)
        + "&applicationIdentifier="@ + in_url("keysat"@)
        + "&strict=true&selectiveStores=true&redirect="@ + in_url(redirect) + "&"@ + joined(
        permission_params(),
        "&"@,
    )
}

/// Where the operator is sent, with a token made of twenty random bytes.
pub fn begin_connect(
    profile_id: &str,
    public_base_url: &str,
    btcpay_url: &str,
    btcpay_browser_url: &Option<String>,
) -> (r: ConnectResp)
    ensures
        exists|raw: [u8; 20]| r.state@ == #[trigger] base32_text(raw@),
        r.merchant_profile_id@ == profile_id@,
        r.authorize_url@ == consent_url(
            match *btcpay_browser_url {
                Some(url) => url@,
                None => btcpay_url@,
            },
            redirect_url(public_base_url@, r.state@),
        ),
{
    let raw: [u8; 20] = random_bytes();
    connect_with(&raw, profile_id, public_base_url, btcpay_url, btcpay_browser_url)
}

/// Where the operator is sent, with a token made of the given bytes. The browser
/// reaches BTCPay under its own URL where that is set.
pub fn connect_with(
    raw: &[u8; 20],
    profile_id: &str,
    public_base_url: &str,
    btcpay_url: &str,
    btcpay_browser_url: &Option<String>,
) -> (r: ConnectResp)
    ensures
        r.state@ == base32_text(raw@),
        r.merchant_profile_id@ == profile_id@,
        r.authorize_url@ == consent_url(
            match *btcpay_browser_url {
                Some(url) => url@,
                None => btcpay_url@,
            },
            redirect_url(public_base_url@, base32_text(raw@)),
        ),
{
    let state: String = base32_encode(raw.as_slice());
    let token: String = url_encode(state.as_str());
    let redirect: String = cat3(
        public_base_url,
        "/v1/btcpay/authorize/callback?state=",
        token.as_str(),
    );
    let base: &str = match btcpay_browser_url {
        Some(url) => url.as_str(),
        None => btcpay_url,
    };
    let name: String = url_encode("Keysat");
    let identifier: String = url_encode("keysat");
    let target: String = url_encode(redirect.as_str());
    let rights: String = permissions();
    let out: String = cat5(
        base,
        "/api-keys/authorize?applicationName=",
        name.as_str(),
        "&applicationIdentifier=",
        identifier.as_str(),
    );
    let authorize_url: String = cat5(
        out.as_str(),
        "&strict=true&selectiveStores=true&redirect=",
        target.as_str(),
        "&",
        rights.as_str(),
    );
    ConnectResp { authorize_url, state, merchant_profile_id: String::from_str(profile_id) }
}

// ---------- the way back ----------

/// What has been found out about a connection that comes back.
#[derive(Clone, Debug)]
pub struct FinishFacts {
    /// What was stored under the token; none where the token is unknown or too
    /// old.
    pub state: Option<Option<AuthorizeState>>,
    pub profile: Option<Option<MerchantProfile>>,
    pub stores: Option<Vec<StoreSummary>>,
    /// The store's network; none where it could not be told.
    pub network: Option<Option<BitcoinNetwork>>,
}

/// What a connection that comes back needs next.
#[derive(Clone, Debug)]
pub enum FinishStep {
    ConsumeState,
    Refuse { error: AppError },
    FindProfile { id: String },
    FindDefaultProfile,
    ListStores,
    DetectNetwork { store_id: String },
    /// Register a webhook with the store, and keep the provider.
    Register { profile_id: String, store_id: String, network: Option<BitcoinNetwork> },
}

/// What is said where the profile was deleted meanwhile.
pub open spec fn gone_words(id: Seq<char>) -> Seq<char> {
    "merchant profile "@ + id
        + " no longer exists — the operator may have deleted it during the authorize round-trip. Reconnect from a valid profile."@
}

/// What is said of a network that a key of limited rights may not connect.
pub open spec fn network_words(network: BitcoinNetwork) -> Seq<char> {
    "Scoped payment-provider connect is restricted to non-mainnet (regtest/testnet/signet) BTCPay stores; the selected store resolved to '"@
        + network.name() + "'. Use the master admin key to connect a mainnet store."@
}

/// Is `step` what a connection that comes back to a profile needs next? The
/// first store counts. Where rights are limited, a network that cannot be told
/// counts as the main one.
pub open spec fn is_store_step(
    profile: MerchantProfile,
    scoped: bool,
    facts: FinishFacts,
    step: FinishStep,
) -> bool {
    match facts.stores {
        None => step is ListStores,
        Some(stores) => if stores@.len() == 0 {
            step matches FinishStep::Refuse { error } && error.is_bad_request(
                "The authorized API key has access to zero stores. Re-run connect and pick a store."@,
            )
        } else if !scoped {
            step == (FinishStep::Register {
                profile_id: profile.id,
                store_id: stores@[0].id,
                network: None,
            })
        } else {
            match facts.network {
                None => step == (FinishStep::DetectNetwork { store_id: stores@[0].id }),
                Some(found) => {
                    let network = match found {
                        Some(n) => n,
                        None => BitcoinNetwork::Mainnet,
                    };
                    if network is Mainnet {
                        step matches FinishStep::Refuse { error } && error.is_bad_request(
                            network_words(network),
                        )
                    } else {
                        step == (FinishStep::Register {
                            profile_id: profile.id,
                            store_id: stores@[0].id,
                            network: Some(network),
                        })
                    }
                },
            }
        },
    }
}

/// Is `step` what a connection that comes back needs next?
pub open spec fn is_finish_step(facts: FinishFacts, step: FinishStep) -> bool {
    match facts.state {
        None => step is ConsumeState,
        Some(None) => step matches FinishStep::Refuse { error } && error is Unauthorized,
        Some(Some(state)) => match (facts.profile, state.merchant_profile_id) {
            (None, Some(id)) => step == (FinishStep::FindProfile { id }),
            (None, None) => step is FindDefaultProfile,
            (Some(None), Some(id)) => step matches FinishStep::Refuse { error }
                && error.is_bad_request(gone_words(id@)),
            (Some(None), None) => step is FindDefaultProfile,
            (Some(Some(profile)), _) => is_store_step(profile, state.scoped_initiator, facts, step),
        },
    }
}

fn store_step(profile: &MerchantProfile, scoped: bool, facts: &FinishFacts) -> (r: FinishStep)
    ensures
        is_store_step(*profile, scoped, *facts, r),
{
    let stores: &Vec<StoreSummary> = match &facts.stores {
        None => {
            return FinishStep::ListStores;
        },
        Some(stores) => stores,
    };
    if stores.len() == 0 {
        return FinishStep::Refuse {
            error: bad_request(
                "The authorized API key has access to zero stores. Re-run connect and pick a store.",
            ),
        };
    }
    let store_id: String = stores[0].id.clone();
    let profile_id: String = profile.id.clone();
    if !scoped {
        return FinishStep::Register { profile_id, store_id, network: None };
    }
    let network: BitcoinNetwork = match facts.network {
        None => {
            return FinishStep::DetectNetwork { store_id };
        },
        Some(Some(n)) => n,
        Some(None) => BitcoinNetwork::Mainnet,
    };
    if network.is_mainnet() {
        FinishStep::Refuse {
            error: bad_request_with(
                "Scoped payment-provider connect is restricted to non-mainnet (regtest/testnet/signet) BTCPay stores; the selected store resolved to '",
                network.as_str(),
                "'. Use the master admin key to connect a mainnet store.",
            ),
        }
    } else {
        FinishStep::Register { profile_id, store_id, network: Some(network) }
    }
}

/// What a connection that comes back needs next.
pub fn finish_connect(facts: &FinishFacts) -> (r: FinishStep)
    ensures
        is_finish_step(*facts, r),
{
    let state: &AuthorizeState = match &facts.state {
        None => {
            return FinishStep::ConsumeState;
        },
        Some(None) => {
            return FinishStep::Refuse { error: AppError::Unauthorized };
        },
        Some(Some(state)) => state,
    };
    match (&facts.profile, &state.merchant_profile_id) {
        (None, Some(id)) => FinishStep::FindProfile { id: id.clone() },
        (Some(None), Some(id)) => FinishStep::Refuse {
            error: bad_request_with(
                "merchant profile ",
                id.as_str(),
                " no longer exists — the operator may have deleted it during the authorize round-trip. Reconnect from a valid profile.",
            ),
        },
        (None, None) | (Some(None), None) => FinishStep::FindDefaultProfile,
        (Some(Some(profile)), _) => store_step(profile, state.scoped_initiator, facts),
    }
}

/// A key of limited rights connects no store unless the store is known to be on
/// a network other than the main one.
pub proof fn limited_keys_never_connect_the_main_network(facts: FinishFacts, step: FinishStep)
    requires
        is_finish_step(facts, step),
        step is Register,
        facts.state matches Some(Some(state)) && state.scoped_initiator,
    ensures
        facts.network matches Some(Some(network)) && !(network is Mainnet),
{
}

/// Whoever comes back without a token that is known connects nothing.
pub proof fn unknown_tokens_connect_nothing(facts: FinishFacts, step: FinishStep)
    requires
        is_finish_step(facts, step),
        facts.state == Some(None::<AuthorizeState>),
    ensures
        step matches FinishStep::Refuse { error } && error is Unauthorized,
{
}

/// The stores could not be listed.
pub fn stores_failed(detail: &str) -> (r: AppError)
    ensures
        r.is_upstream("BTCPay list-stores: "@ + detail@),
{
    AppError::Upstream(cat2("BTCPay list-stores: ", detail))
}

/// The webhook could not be registered.
pub fn webhook_failed(detail: &str) -> (r: AppError)
    ensures
        r.is_upstream("BTCPay create-webhook: "@ + detail@),
{
    AppError::Upstream(cat2("BTCPay create-webhook: ", detail))
}

/// A secret that a webhook's notices are signed with, made of 32 random bytes.
pub fn webhook_secret() -> (r: String)
    ensures
        exists|raw: [u8; 32]| r@ == #[trigger] base32_text(raw@),
{
    let raw: [u8; 32] = random_bytes();
    webhook_secret_of(&raw)
}

/// The secret that is made of these bytes.
pub fn webhook_secret_of(raw: &[u8; 32]) -> (r: String)
    ensures
        r@ == base32_text(raw@),
{
    base32_encode(raw.as_slice())
}

/// Where a provider's notices are sent to.
pub fn callback_url(public_base_url: &str, provider_id: &str) -> (r: String)
    ensures
        r@ == public_base_url@ + "/v1/btcpay/webhook/"@ + provider_id@,
{
    cat3(public_base_url, "/v1/btcpay/webhook/", provider_id)
}

/// The name that a provider is shown under.
pub fn provider_label(profile_name: &str) -> (r: String)
    ensures
        r@ == "BTCPay — "@ + profile_name@,
{
    cat2("BTCPay — ", profile_name)
}

/// Whether a provider that was just kept also serves the parts that know of only
/// one: it is the only one of the default profile.
pub fn serves_all(profile: &MerchantProfile, providers: &Vec<PaymentProviderRow>) -> (r: bool)
    ensures
        r == (profile.is_default && providers@.len() == 1),
{
    profile.is_default && providers.len() == 1
}

// ---------- pages ----------

/// What is done when a browser comes back.
#[derive(Clone, Debug)]
pub enum CallbackStep {
    Page { html: String },
    RedirectToRoot,
    Finish { api_key: String },
}

/// The page that says why a store was not connected.
pub open spec fn failure_html(detail: Seq<char>) -> Seq<char> {
    "<html><body><h2>BTCPay authorization failed</h2><p>"@ + escaped(detail, false, false)
        + "</p></body></html>"@
}

/// The page that says why a store was not connected.
pub fn failure_page(detail: &str) -> (r: String)
    ensures
        r@ == failure_html(detail@),
{
    let shown: String = escape(detail, false, false);
    cat3(
        "<html><body><h2>BTCPay authorization failed</h2><p>",
        shown.as_str(),
        "</p></body></html>",
    )
}

/// What is done when a browser comes back.
pub fn callback_get(q: &CallbackGetQuery) -> (r: CallbackStep)
    ensures
        match (q.error, q.api_key) {
            (Some(detail), _) => r matches CallbackStep::Page { html } && html@ == failure_html(
                detail@,
            ),
            (None, None) => r is RedirectToRoot,
            (None, Some(key)) => r == (CallbackStep::Finish { api_key: key }),
        },
{
    match (&q.error, &q.api_key) {
        (Some(detail), _) => CallbackStep::Page { html: failure_page(detail.as_str()) },
        (None, None) => CallbackStep::RedirectToRoot,
        (None, Some(key)) => CallbackStep::Finish { api_key: key.clone() },
    }
}

/// The page that says a store was connected, up to its message.
pub const SUCCESS_HEAD: &'static str = "<!doctype html><html><head><meta charset=\"utf-8\"><title>BTCPay connected</title>
<style>body{font-family:system-ui,sans-serif;max-width:480px;margin:4rem auto;padding:1rem;line-height:1.5}
h2{color:#0a7}</style></head>
<body><h2>✓ ";

/// The page that says a store was connected.
pub fn success_page(message: &str) -> (r: String)
    ensures
        r@ == SUCCESS_HEAD@ + escaped(message@, false, false) + "</h2></body></html>"@,
{
    let shown: String = escape(message, false, false);
    cat3(SUCCESS_HEAD, shown.as_str(), "</h2></body></html>")
}

// ---------- the store that is connected ----------

/// What is told about the default profile's store.
#[derive(Clone, Debug, PartialEq, Eq)]
pub struct ConnectedStore {
    pub provider_id: String,
    pub store_id: Option<String>,
    pub webhook_id: Option<String>,
    pub base_url: String,
    pub label: String,
    pub merchant_profile_id: String,
    pub merchant_profile_name: String,
}

/// What is told about the default profile's store, if it has one.
pub fn status(default: &Option<MerchantProfile>, rows: &Vec<PaymentProviderRow>) -> (r: Option<
    ConnectedStore,
>)
    ensures
        match (*default, first_of_kind(rows@, "btcpay"@)) {
            (Some(profile), Some(row)) => r == Some(
                ConnectedStore {
                    provider_id: row.id,
                    store_id: row.store_id,
                    webhook_id: row.webhook_id,
                    base_url: row.base_url,
                    label: row.label,
                    merchant_profile_id: profile.id,
                    merchant_profile_name: profile.name,
                },
            ),
            _ => r is None,
        },
{
    match (default, find_kind(rows, "btcpay")) {
        (Some(profile), Some(row)) => Some(
            ConnectedStore {
                provider_id: row.id.clone(),
                store_id: copy_opt(&row.store_id),
                webhook_id: copy_opt(&row.webhook_id),
                base_url: row.base_url.clone(),
                label: row.label.clone(),
                merchant_profile_id: profile.id.clone(),
                merchant_profile_name: profile.name.clone(),
            },
        ),
        _ => None,
    }
}

/// The store whose payment methods are listed, and its id.
pub fn payment_methods(rows: &Vec<PaymentProviderRow>) -> (r: Result<
    (&PaymentProviderRow, String),
    AppError,
>)
    ensures
        match (first_of_kind(rows@, "btcpay"@), r) {
            (Some(row), Ok((found, store_id))) => *found == row && store_id@ == match row.store_id {
                Some(id) => id@,
                None => ""@,
            },
            (None, Err(e)) => e is BtcpayNotConfigured,
            _ => false,
        },
{
    match find_kind(rows, "btcpay") {
        Some(row) => {
            let store_id: String = match &row.store_id {
                Some(id) => id.clone(),
                None => String::from_str(""),
            };
            Ok((row, store_id))
        },
        None => Err(AppError::BtcpayNotConfigured),
    }
}

/// The payment methods could not be listed.
pub fn methods_failed(detail: &str) -> (r: AppError)
    ensures
        r.is_upstream("BTCPay list-payment-methods: "@ + detail@),
{
    AppError::Upstream(cat2("BTCPay list-payment-methods: ", detail))
}

// ---------- disconnecting ----------

/// A provider to disconnect. The webhook is deleted and the key revoked first;
/// whether or not that works, the provider is forgotten.
#[derive(Clone, Debug, PartialEq, Eq)]
pub struct Disconnection {
    pub provider_id: String,
    pub store_id: String,
    pub webhook_id: Option<String>,
}

/// The provider that a request to disconnect means: the one with the id that was
/// given, if it is a BTCPay store, or else the default profile's.
pub open spec fn provider_meant(
    req: DisconnectReq,
    with_id: Option<PaymentProviderRow>,
    of_default: Seq<PaymentProviderRow>,
) -> Option<PaymentProviderRow> {
    match req.provider_id {
        Some(_) => match with_id {
            Some(row) if row.kind@ == "btcpay"@ => Some(row),
            _ => None,
        },
        None => first_of_kind(of_default, "btcpay"@),
    }
}

/// Is `r` what is disconnected?
pub open spec fn is_disconnection(
    req: DisconnectReq,
    with_id: Option<PaymentProviderRow>,
    of_default: Seq<PaymentProviderRow>,
    r: Option<Disconnection>,
) -> bool {
    match (provider_meant(req, with_id, of_default), r) {
        (Some(row), Some(d)) => d.provider_id == row.id && d.webhook_id == row.webhook_id
            && d.store_id@ == match row.store_id {
            Some(id) => id@,
            None => ""@,
        },
        (None, None) => true,
        _ => false,
    }
}

/// The provider that is disconnected, if there is one.
pub fn disconnect(
    req: &DisconnectReq,
    with_id: &Option<PaymentProviderRow>,
    of_default: &Vec<PaymentProviderRow>,
) -> (r: Option<Disconnection>)
    ensures
        is_disconnection(*req, *with_id, of_default@, r),
{
    let found: Option<&PaymentProviderRow> = match &req.provider_id {
        Some(_) => match with_id {
            Some(row) => if crate::text::same(row.kind.as_str(), "btcpay") {
                Some(row)
            } else {
                None
            },
            None => None,
        },
        None => find_kind(of_default, "btcpay"),
    };
    match found {
        None => None,
        Some(row) => Some(
            Disconnection {
                provider_id: row.id.clone(),
                store_id: match &row.store_id {
                    Some(id) => id.clone(),
                    None => String::from_str(""),
                },
                webhook_id: copy_opt(&row.webhook_id),
            },
        ),
    }
}

/// The warning that a webhook was left behind.
pub fn webhook_left_behind(webhook_id: &str, detail: &str) -> (r: String)
    ensures
        r@ == "Could not delete BTCPay webhook "@ + webhook_id@ + ": "@ + detail@
            + ". You may want to manually delete it in BTCPay's store webhook settings."@,
{
    cat5(
        "Could not delete BTCPay webhook ",
        webhook_id,
        ": ",
        detail,
        ". You may want to manually delete it in BTCPay's store webhook settings.",
    )
}

/// The warning that a key was left behind.
pub fn key_left_behind(detail: &str) -> (r: String)
    ensures
        r@ == "Could not revoke BTCPay API key: "@ + detail@
            + ". You may want to manually revoke it in BTCPay's account API-keys page."@,
{
    cat3(
        "Could not revoke BTCPay API key: ",
        detail,
        ". You may want to manually revoke it in BTCPay's account API-keys page.",
    )
}

} // verus!
