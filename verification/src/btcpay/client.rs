//! What is asked of BTCPay, and how its answers are read.

use crate::btcpay::network::{classify_address_network, network_of, BitcoinNetwork};
use crate::codec::{percent_encoded, url_encode};
use crate::text::{
    cat2, cat3, cat4, cat5, cat6, nat_text, nat_to_text, opt_text, same, to_ascii_upper, trim_end_matches,
    uppercased, without_trailing,
};
use vstd::prelude::*;
use vstd::utf8::encode_utf8;

verus! {

/// A store of a BTCPay server, and the key to it.
#[derive(Clone, Debug, PartialEq, Eq)]
pub struct BtcpayClient {
    base_url: String,
    api_key: String,
    store_id: String,
}

/// What a client is.
pub struct ClientModel {
    pub base_url: Seq<char>,
    pub api_key: Seq<char>,
    pub store_id: Seq<char>,
}

impl View for BtcpayClient {
    type V = ClientModel;

    closed spec fn view(&self) -> ClientModel {
        ClientModel {
            base_url: self.base_url@,
            api_key: self.api_key@,
            store_id: self.store_id@,
        }
    }
}

/// An invoice that BTCPay made.
#[derive(Clone, Debug, PartialEq, Eq)]
pub struct CreatedInvoice {
    pub id: String,
    pub checkout_link: String,
    pub status: String,
}

/// A store that a key gives access to.
#[derive(Clone, Debug, PartialEq, Eq)]
pub struct StoreSummary {
    pub id: String,
    pub name: String,
}

/// A webhook that BTCPay made.
#[derive(Clone, Debug, PartialEq, Eq)]
pub struct CreatedWebhook {
    pub id: String,
    pub secret: Option<String>,
}

/// What an invoice carries so that it is found again.
#[derive(Clone, Debug, PartialEq, Eq)]
pub struct InvoiceMetadata {
    pub order_id: String,
    pub product_id: String,
    pub source: String,
}

/// What is asked of a store under a URL's own path.
#[derive(Clone, Copy, Debug, PartialEq, Eq, Structural)]
pub enum Call {
    CreateInvoice,
    PayLightningInvoice,
    GetInvoice,
    ListStores,
    CreateWebhook,
    DeleteWebhook,
    RevokeApiKey,
    ListPaymentMethods,
}

impl Call {
    /// The call's name in messages.
    pub open spec fn name(self) -> Seq<char> {
        match self {
            Call::CreateInvoice => "create-invoice"@,
            Call::PayLightningInvoice => "pay-lightning-invoice"@,
            Call::GetInvoice => "get-invoice"@,
            Call::ListStores => "list-stores"@,
            Call::CreateWebhook => "create-webhook"@,
            Call::DeleteWebhook => "delete-webhook"@,
            Call::RevokeApiKey => "revoke-api-key"@,
            Call::ListPaymentMethods => "list-payment-methods"@,
        }
    }

    /// The call's name in messages.
    pub fn as_str(self) -> (r: &'static str)
        ensures
            r@ == self.name(),
    {
        match self {
            Call::CreateInvoice => "create-invoice",
            Call::PayLightningInvoice => "pay-lightning-invoice",
            Call::GetInvoice => "get-invoice",
            Call::ListStores => "list-stores",
            Call::CreateWebhook => "create-webhook",
            Call::DeleteWebhook => "delete-webhook",
            Call::RevokeApiKey => "revoke-api-key",
            Call::ListPaymentMethods => "list-payment-methods",
        }
    }

    /// The label under which the call's outcome is counted for the health of the
    /// provider; only calls of a connected store are.
    pub open spec fn label(self) -> Option<Seq<char>> {
        match self {
            Call::CreateInvoice => Some("btcpay.create_invoice"@),
            Call::PayLightningInvoice => Some("btcpay.pay_lightning_invoice"@),
            Call::GetInvoice => Some("btcpay.get_invoice"@),
            _ => None,
        }
    }

    /// The label under which the call's outcome is counted.
    pub fn health_label(self) -> (r: Option<&'static str>)
        ensures
            match r {
                Some(l) => self.label() == Some(l@),
                None => self.label() is None,
            },
    {
        match self {
            Call::CreateInvoice => Some("btcpay.create_invoice"),
            Call::PayLightningInvoice => Some("btcpay.pay_lightning_invoice"),
            Call::GetInvoice => Some("btcpay.get_invoice"),
            _ => None,
        }
    }

    /// What is said where BTCPay could not be reached; of `GetInvoice`, nothing.
    pub fn transport_context(self) -> (r: Option<String>)
        ensures
            opt_text(r) == if self is GetInvoice {
                None
            } else {
                Some("calling BTCPay "@ + self.name())
            },
    {
        if matches!(self, Call::GetInvoice) {
            None
        } else {
            Some(cat2("calling BTCPay ", self.as_str()))
        }
    }
}

/// What a reply's status means for a call.
#[derive(Clone, Copy, Debug, PartialEq, Eq, Structural)]
pub enum ReplyStep {
    /// The call succeeded.
    Accept,
    /// The call failed; the message shows the reply's body.
    FailWithBody,
    /// The call failed; the body is not read.
    FailWithoutBody,
}

/// What a reply's status means: 200 to 299 is success, and where something is
/// to be removed, 404 says that it is gone already.
pub open spec fn reply_step(call: Call, status: u16) -> ReplyStep {
    if 200 <= status < 300 {
        ReplyStep::Accept
    } else if status == 404 && (call is DeleteWebhook || call is RevokeApiKey) {
        ReplyStep::Accept
    } else if call is GetInvoice {
        ReplyStep::FailWithoutBody
    } else {
        ReplyStep::FailWithBody
    }
}

/// What a reply's status means for a call.
pub fn read_reply(call: Call, status: u16) -> (r: ReplyStep)
    ensures
        r == reply_step(call, status),
{
    if 200 <= status && status < 300 {
        return ReplyStep::Accept;
    }
    match call {
        Call::DeleteWebhook | Call::RevokeApiKey => if status == 404 {
            ReplyStep::Accept
        } else {
            ReplyStep::FailWithBody
        },
        Call::GetInvoice => ReplyStep::FailWithoutBody,
        _ => ReplyStep::FailWithBody,
    }
}

/// The message of a call that failed. `status` is the reply's status in words.
pub fn failure_message(call: Call, status: &str, body: &str) -> (r: String)
    ensures
        r@ == if call is GetInvoice {
            "BTCPay "@ + call.name() + " returned "@ + status@
        } else {
            "BTCPay "@ + call.name() + " returned "@ + status@ + ": "@ + body@
        },
{
    let head: String = cat4("BTCPay ", call.as_str(), " returned ", status);
    if matches!(call, Call::GetInvoice) {
        head
    } else {
        cat3(head.as_str(), ": ", body)
    }
}

/// What the health of the provider is told of a call.
#[derive(Clone, Copy, Debug, PartialEq, Eq)]
pub struct Recorded {
    pub label: &'static str,
    pub status: u16,
}

/// Is `r` what the health of the provider is told of a call?
pub open spec fn is_record(call: Call, status: Option<u16>, r: Option<Recorded>) -> bool {
    &&& r is Some <==> status is Some && call.label() is Some
    &&& r matches Some(told) ==> Some(told.status) == status && Some(told.label@) == call.label()
}

/// What the health of the provider is told of a call: the status that came,
/// whatever it is, and nothing where none came. The body has no part in it.
pub fn record(call: Call, status: Option<u16>) -> (r: Option<Recorded>)
    ensures
        is_record(call, status, r),
{
    match (call.health_label(), status) {
        (Some(label), Some(status)) => Some(Recorded { label, status }),
        _ => None,
    }
}

/// A reply that failed, as the health of the provider is told of it.
#[derive(Clone, Debug, PartialEq, Eq)]
pub struct ProviderHttpError {
    pub status: u16,
    pub label: String,
    pub message: String,
}

/// Is `r` what a call of a connected store comes to?
pub open spec fn is_outcome(
    call: Call,
    status: u16,
    status_words: Seq<char>,
    body: Seq<char>,
    r: Result<(), ProviderHttpError>,
) -> bool {
    &&& r is Ok <==> 200 <= status < 300
    &&& r matches Err(e) ==> {
        &&& e.status == status
        &&& Some(e.label@) == call.label()
        &&& e.message@ == if call is GetInvoice {
            "BTCPay "@ + call.name() + " returned "@ + status_words
        } else {
            "BTCPay "@ + call.name() + " returned "@ + status_words + ": "@ + body
        }
    }
}

/// What a call of a connected store comes to, by its reply's status: nothing
/// where it succeeded, or else the error. The body only matters to calls that
/// show it.
pub fn send(call: Call, status: u16, status_words: &str, body: &str) -> (r: Result<
    (),
    ProviderHttpError,
>)
    requires
        call is CreateInvoice || call is PayLightningInvoice || call is GetInvoice,
    ensures
        is_outcome(call, status, status_words@, body@, r),
{
    match read_reply(call, status) {
        ReplyStep::Accept => Ok(()),
        _ => Err(
            ProviderHttpError {
                status,
                label: match call.health_label() {
                    Some(l) => String::from_str(l),
                    None => String::from_str(""),
                },
                message: failure_message(call, status_words, body),
            },
        ),
    }
}

// ---------- amounts ----------

/// A number in decimal, with zeroes in front up to eight digits.
pub open spec fn eight_digits(n: nat) -> Seq<char> {
    Seq::new(
        if nat_text(n).len() < 8 {
            (8 - nat_text(n).len()) as nat
        } else {
            0
        },
        |i: int| '0',
    ) + nat_text(n)
}

/// An amount of satoshis in bitcoin, with eight decimals.
pub open spec fn btc_text(sats: int) -> Seq<char> {
    if sats < 0 {
        "-"@ + btc_text_of((-sats) as nat)
    } else {
        btc_text_of(sats as nat)
    }
}

/// A number of satoshis in bitcoin, with eight decimals.
pub open spec fn btc_text_of(sats: nat) -> Seq<char> {
    nat_text(sats / 100_000_000) + "."@ + eight_digits(sats % 100_000_000)
}

fn padded(n: u64) -> (r: String)
    ensures
        r@ == eight_digits(n as nat),
{
    let digits: String = nat_to_text(n);
    let mut out: String = String::new();
    let len: usize = digits.as_str().unicode_len();
    let zeroes: usize = if len < 8 {
        8 - len
    } else {
        0
    };
    for i in 0..zeroes
        invariant
            out@ == Seq::new(i as nat, |j: int| '0'),
    {
        out.push('0');
        assert(out@ =~= Seq::new((i + 1) as nat, |j: int| '0'));
    }
    out.append(digits.as_str());
    out
}

/// An amount of satoshis in bitcoin, as BTCPay is told it.
pub fn btc_amount(amount_sats: i64) -> (r: String)
    ensures
        r@ == btc_text(amount_sats as int),
{
    let n: u64 = if amount_sats < 0 {
        (-(amount_sats as i128)) as u64
    } else {
        amount_sats as u64
    };
    let whole: String = nat_to_text(n / 100_000_000);
    let rest: String = padded(n % 100_000_000);
    let text: String = cat3(whole.as_str(), ".", rest.as_str());
    if amount_sats < 0 {
        cat2("-", text.as_str())
    } else {
        text
    }
}

// ---------- requests ----------

/// The header that shows a key.
pub fn authorization(api_key: &str) -> (r: String)
    ensures
        r@ == "token "@ + api_key@,
{
    cat2("token ", api_key)
}

/// The events that a webhook is asked to tell of.
pub const WEBHOOK_EVENTS: [&'static str; 3] = ["InvoiceSettled", "InvoiceExpired", "InvoiceInvalid"];

/// The URL that lists the stores a key gives access to.
pub fn stores_url(base_url: &str) -> (r: String)
    ensures
        r@ == without_trailing(base_url@, '/') + "/api/v1/stores"@,
{
    cat2(trim_end_matches(base_url, '/'), "/api/v1/stores")
}

/// The URL of a store's webhooks, where one is made.
pub fn webhooks_url(base_url: &str, store_id: &str) -> (r: String)
    ensures
        r@ == without_trailing(base_url@, '/') + "/api/v1/stores/"@ + store_id@ + "/webhooks"@,
{
    cat4(trim_end_matches(base_url, '/'), "/api/v1/stores/", store_id, "/webhooks")
}

/// The URL of a webhook.
pub fn webhook_url(base_url: &str, store_id: &str, webhook_id: &str) -> (r: String)
    ensures
        r@ == without_trailing(base_url@, '/') + "/api/v1/stores/"@ + store_id@ + "/webhooks/"@
            + webhook_id@,
{
    cat5(trim_end_matches(base_url, '/'), "/api/v1/stores/", store_id, "/webhooks/", webhook_id)
}

/// The URL of the key that is used, where it is revoked.
pub fn current_key_url(base_url: &str) -> (r: String)
    ensures
        r@ == without_trailing(base_url@, '/') + "/api/v1/api-keys/current"@,
{
    cat2(trim_end_matches(base_url, '/'), "/api/v1/api-keys/current")
}

/// The URL that lists a store's payment methods.
pub fn payment_methods_url(base_url: &str, store_id: &str) -> (r: String)
    ensures
        r@ == without_trailing(base_url@, '/') + "/api/v1/stores/"@ + store_id@
            + "/payment-methods"@,
{
    cat4(trim_end_matches(base_url, '/'), "/api/v1/stores/", store_id, "/payment-methods")
}

/// The URL that gives an address to receive with a payment method.
pub fn address_url(base_url: &str, store_id: &str, method: &str) -> (r: String)
    ensures
        r@ == without_trailing(base_url@, '/') + "/api/v1/stores/"@ + store_id@
            + "/payment-methods/"@ + percent_encoded(encode_utf8(method@)) + "/wallet/address"@,
{
    let encoded: String = url_encode(method);
    cat6(
        trim_end_matches(base_url, '/'),
        "/api/v1/stores/",
        store_id,
        "/payment-methods/",
        encoded.as_str(),
        "/wallet/address",
    )
}

impl BtcpayClient {
    /// A client for a store.
    pub fn new(base_url: &str, api_key: &str, store_id: &str) -> (r: BtcpayClient)
        ensures
            r@ == (ClientModel {
                base_url: without_trailing(base_url@, '/'),
                api_key: api_key@,
                store_id: store_id@,
            }),
    {
        BtcpayClient {
            base_url: String::from_str(trim_end_matches(base_url, '/')),
            api_key: String::from_str(api_key),
            store_id: String::from_str(store_id),
        }
    }

    /// The server's URL, without a slash at the end.
    pub fn base_url(&self) -> (r: &str)
        ensures
            r@ == self@.base_url,
    {
        self.base_url.as_str()
    }

    /// The key.
    pub fn api_key(&self) -> (r: &str)
        ensures
            r@ == self@.api_key,
    {
        self.api_key.as_str()
    }

    /// The URL where invoices are made.
    pub fn invoices_url(&self) -> (r: String)
        ensures
            r@ == self@.base_url + "/api/v1/stores/"@ + self@.store_id + "/invoices"@,
    {
        cat4(
            self.base_url.as_str(),
            "/api/v1/stores/",
            self.store_id.as_str(),
            "/invoices",
        )
    }

    /// The URL where Lightning invoices are paid.
    pub fn pay_url(&self) -> (r: String)
        ensures
            r@ == self@.base_url + "/api/v1/stores/"@ + self@.store_id
                + "/lightning/BTC/invoices/pay"@,
    {
        cat4(
            self.base_url.as_str(),
            "/api/v1/stores/",
            self.store_id.as_str(),
            "/lightning/BTC/invoices/pay",
        )
    }

    /// The URL of an invoice.
    pub fn invoice_url(&self, invoice_id: &str) -> (r: String)
        ensures
            r@ == self@.base_url + "/api/v1/stores/"@ + self@.store_id + "/invoices/"@
                + invoice_id@,
    {
        cat5(
            self.base_url.as_str(),
            "/api/v1/stores/",
            self.store_id.as_str(),
            "/invoices/",
            invoice_id,
        )
    }

    /// What an invoice carries so that it is found again.
    pub fn invoice_metadata(product_id: &str, internal_invoice_id: &str) -> (r: InvoiceMetadata)
        ensures
            r.order_id@ == internal_invoice_id@,
            r.product_id@ == product_id@,
            r.source@ == "keysat"@,
    {
        InvoiceMetadata {
            order_id: String::from_str(internal_invoice_id),
            product_id: String::from_str(product_id),
            source: String::from_str("keysat"),
        }
    }
}

// ---------- the network of a store ----------

/// Does a payment method's id name bitcoin on the chain? Lightning has others.
pub open spec fn is_onchain(id: Seq<char>) -> bool {
    uppercased(id) == "BTC-CHAIN"@ || uppercased(id) == "BTC"@
}

/// The first id that names bitcoin on the chain. A method without an id is
/// passed over.
pub open spec fn onchain_id(ids: Seq<Option<String>>) -> Option<String>
    decreases ids.len(),
{
    if ids.len() == 0 {
        None
    } else if ids[0] is Some && is_onchain(ids[0]->0@) {
        ids[0]
    } else {
        onchain_id(ids.drop_first())
    }
}

/// The first id that names bitcoin on the chain.
pub fn onchain_method(ids: &Vec<Option<String>>) -> (r: Option<String>)
    ensures
        r == onchain_id(ids@),
{
    let n: usize = ids.len();
    assert(ids@.subrange(0, n as int) == ids@);
    for i in 0..n
        invariant
            n == ids@.len(),
            onchain_id(ids@) == onchain_id(ids@.subrange(i as int, n as int)),
    {
        assert(ids@.subrange(i as int, n as int).drop_first() == ids@.subrange(i + 1, n as int));
        if let Some(id) = &ids[i] {
            let upper: String = to_ascii_upper(id.as_str());
            if same(upper.as_str(), "BTC-CHAIN") || same(upper.as_str(), "BTC") {
                return Some(id.clone());
            }
        }
    }
    None
}

/// What has been found out about a store's network so far.
#[derive(Clone, Debug)]
pub struct NetworkFacts {
    /// The ids of the store's payment methods; none where they could not be
    /// listed.
    pub methods: Option<Option<Vec<Option<String>>>>,
    /// What came back when an address was asked for.
    pub reply: Option<AddressReply>,
}

/// What came back when an address was asked for.
#[derive(Clone, Debug)]
pub enum AddressReply {
    /// BTCPay could not be reached.
    Unreachable,
    /// The status said no, or the body could not be read.
    Unusable,
    /// A body, and the address in it.
    Body { address: Option<String> },
}

/// What finding a store's network needs next.
#[derive(Clone, Debug)]
pub enum NetworkStep {
    ListMethods,
    GetAddress { method: String },
    /// BTCPay could not be reached for an address.
    Fail,
    Network { network: Option<BitcoinNetwork> },
}

/// Is `step` what finding a store's network needs next? Where the network
/// cannot be told, it is unknown.
pub open spec fn is_network_step(facts: NetworkFacts, step: NetworkStep) -> bool {
    match facts.methods {
        None => step is ListMethods,
        Some(None) => step == (NetworkStep::Network { network: None }),
        Some(Some(ids)) => match onchain_id(ids@) {
            None => step == (NetworkStep::Network { network: None }),
            Some(id) => match facts.reply {
                None => step == (NetworkStep::GetAddress { method: id }),
                Some(AddressReply::Unreachable) => step is Fail,
                Some(AddressReply::Unusable) => step == (NetworkStep::Network { network: None }),
                Some(AddressReply::Body { address }) => step == (NetworkStep::Network {
                    network: match address {
                        Some(a) => network_of(a@),
                        None => None,
                    },
                }),
            },
        },
    }
}

/// What finding a store's network needs next.
pub fn fetch_onchain_network(facts: &NetworkFacts) -> (r: NetworkStep)
    ensures
        is_network_step(*facts, r),
{
    match &facts.methods {
        None => NetworkStep::ListMethods,
        Some(None) => NetworkStep::Network { network: None },
        Some(Some(ids)) => match onchain_method(ids) {
            None => NetworkStep::Network { network: None },
            Some(id) => match &facts.reply {
                None => NetworkStep::GetAddress { method: id },
                Some(AddressReply::Unreachable) => NetworkStep::Fail,
                Some(AddressReply::Unusable) => NetworkStep::Network { network: None },
                Some(AddressReply::Body { address }) => NetworkStep::Network {
                    network: match address {
                        Some(a) => classify_address_network(a.as_str()),
                        None => None,
                    },
                },
            },
        },
    }
}

} // verus!
