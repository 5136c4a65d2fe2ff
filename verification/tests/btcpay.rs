//! BTCPay: networks, requests, replies, notices, and connecting a store.

use hmac::{Hmac, Mac};
use keysat::api::btcpay_authorize::{
    begin_connect, callback_get, callback_url, connect_initiator, connect_with, disconnect, failure_page,
    finish_connect, key_left_behind, payment_methods, provider_label, start_connect, state_to_record, status,
    success_page, webhook_left_behind, webhook_secret, webhook_secret_of, CallbackGetQuery, CallbackStep,
    DisconnectReq, FinishFacts, FinishStep, StartConnectReq, StartFacts, StartStep,
};
use keysat::btcpay::client::{
    address_url, btc_amount, failure_message, fetch_onchain_network, onchain_method, read_reply,
    record, send, webhook_url, AddressReply, BtcpayClient, Call, NetworkFacts, NetworkStep, ReplyStep,
    StoreSummary,
};
use keysat::btcpay::config::{consume_authorize_state, AuthorizeState, StoredState};
use keysat::btcpay::network::{classify_address_network, BitcoinNetwork};
use keysat::btcpay::webhook::{verify_signature, SignatureError, WebhookEvent};
use keysat::clock::Moment;
use keysat::error::AppError;
use keysat::models::{MerchantProfile, PaymentProviderRow};
use sha2::Sha256;

type HmacSha256 = Hmac<Sha256>;

#[test]
fn bech32_prefixes() {
    assert_eq!(
        classify_address_network("bcrt1qwsh9ua5qeutshvrhz474uduwqlw8gfukfpc8vt"),
        Some(BitcoinNetwork::Regtest)
    );
    assert_eq!(
        classify_address_network("tb1qw508d6qejxtdg4y5r3zarvary0c5xw7kxpjzsx"),
        Some(BitcoinNetwork::Testnet)
    );
    assert_eq!(
        classify_address_network("bc1qw508d6qejxtdg4y5r3zarvary0c5xw7kv8f3t4"),
        Some(BitcoinNetwork::Mainnet)
    );
}

#[test]
fn bech32_is_case_insensitive() {
    assert_eq!(
        classify_address_network("BCRT1QWSH9UA5QEUTSHVRHZ474UDUWQLW8GFUKFPC8VT"),
        Some(BitcoinNetwork::Regtest)
    );
    assert_eq!(
        classify_address_network("BC1QW508D6QEJXTDG4Y5R3ZARVARY0C5XW7KV8F3T4"),
        Some(BitcoinNetwork::Mainnet)
    );
}

#[test]
fn legacy_base58() {
    assert_eq!(classify_address_network("1BvBMSEYstWetqTFn5Au4m4GFg7xJaNVN2"), Some(BitcoinNetwork::Mainnet));
    assert_eq!(classify_address_network("3J98t1WpEZ73CNmQviecrnyiWrnqRhWNLy"), Some(BitcoinNetwork::Mainnet));
    assert_eq!(classify_address_network("mipcBbFg9gMiCh81Kj8tqqdgoZub1ZJRfn"), Some(BitcoinNetwork::Testnet));
    assert_eq!(classify_address_network("n2ZNV88uQbede7C5M5jzi6SyG4GVuPpng6"), Some(BitcoinNetwork::Testnet));
    assert_eq!(classify_address_network("2MzQwSSnBHWHqSAqtTVQ6v47XtaisrJa1Vc"), Some(BitcoinNetwork::Testnet));
}

#[test]
fn fail_closed_on_unknown_or_empty() {
    assert_eq!(classify_address_network(""), None);
    assert_eq!(classify_address_network("   "), None);
    assert_eq!(classify_address_network("not-an-address"), None);
    assert_eq!(classify_address_network("ltc1qxyz"), None);
    assert_eq!(classify_address_network("zzz"), None);
    assert_eq!(classify_address_network("bQ8vZ2mN4pR7sT1uW3xY5zA6dE9fG"), None);
}

#[test]
fn is_mainnet_only_true_for_mainnet() {
    assert!(BitcoinNetwork::Mainnet.is_mainnet());
    assert!(!BitcoinNetwork::Testnet.is_mainnet());
    assert!(!BitcoinNetwork::Signet.is_mainnet());
    assert!(!BitcoinNetwork::Regtest.is_mainnet());
}

#[test]
fn networks_have_names() {
    assert_eq!(BitcoinNetwork::Mainnet.as_str(), "mainnet");
    assert_eq!(BitcoinNetwork::Testnet.as_str(), "testnet");
    assert_eq!(BitcoinNetwork::Signet.as_str(), "signet");
    assert_eq!(BitcoinNetwork::Regtest.as_str(), "regtest");
}

#[test]
fn addresses_are_read_without_white_space_around_them() {
    assert_eq!(classify_address_network("  tb1qxyz\n"), Some(BitcoinNetwork::Testnet));
}

// ---------- notices ----------

#[test]
fn verifies_correct_signature() {
    let secret = "super-secret";
    let body = br#"{"type":"InvoiceSettled","invoiceId":"abc"}"#;

    let mut mac = HmacSha256::new_from_slice(secret.as_bytes()).unwrap();
    mac.update(body);
    let sig = hex::encode(mac.finalize().into_bytes());
    let header = format!("sha256={sig}");

    assert!(verify_signature(secret, &header, body).is_ok());
}

#[test]
fn rejects_tampered_body() {
    let secret = "super-secret";
    let body = br#"{"type":"InvoiceSettled","invoiceId":"abc"}"#;
    let tampered = br#"{"type":"InvoiceSettled","invoiceId":"evil"}"#;

    let mut mac = HmacSha256::new_from_slice(secret.as_bytes()).unwrap();
    mac.update(body);
    let sig = hex::encode(mac.finalize().into_bytes());
    let header = format!("sha256={sig}");

    assert!(verify_signature(secret, &header, tampered).is_err());
}

#[test]
fn each_fault_of_a_signature_is_told() {
    assert_eq!(verify_signature("s", "abcd", b"x"), Err(SignatureError::NoPrefix));
    assert_eq!(verify_signature("s", "sha256=zz", b"x"), Err(SignatureError::NotHex));
    assert_eq!(verify_signature("s", "sha256=abc", b"x"), Err(SignatureError::NotHex));
    assert_eq!(verify_signature("s", "sha256=abcd", b"x"), Err(SignatureError::Mismatch));
    assert_eq!(SignatureError::NoPrefix.message(), "BTCPay-Sig header missing 'sha256=' prefix");
    assert_eq!(SignatureError::NotHex.message(), "BTCPay-Sig header is not hex");
    assert_eq!(SignatureError::Mismatch.message(), "BTCPay webhook signature mismatch");
}

#[test]
fn notices_tell_a_status() {
    let status = |t: &str| {
        WebhookEvent { event_type: t.to_string(), invoice_id: "i".to_string() }.to_status()
    };
    assert_eq!(status("InvoiceSettled"), Some("settled"));
    assert_eq!(status("InvoicePaymentSettled"), Some("settled"));
    assert_eq!(status("InvoiceExpired"), Some("expired"));
    assert_eq!(status("InvoiceInvalid"), Some("invalid"));
    assert_eq!(status("InvoiceProcessing"), None);
}

// ---------- requests and replies ----------

#[test]
fn create_invoice_non_success_keeps_message_and_carries_typed_error() {
    let err = send(Call::CreateInvoice, 402, "402 Payment Required", "nope")
        .expect_err("non-2xx must error");
    assert_eq!(err.message, "BTCPay create-invoice returned 402 Payment Required: nope");
    assert_eq!(err.status, 402);
    assert_eq!(err.label, "btcpay.create_invoice");
}

#[test]
fn pay_lightning_invoice_non_success_keeps_message_and_carries_typed_error() {
    let err = send(Call::PayLightningInvoice, 409, "409 Conflict", "insufficient liquidity")
        .expect_err("non-2xx must error");
    assert_eq!(
        err.message,
        "BTCPay pay-lightning-invoice returned 409 Conflict: insufficient liquidity"
    );
    assert_eq!(err.status, 409);
    assert_eq!(err.label, "btcpay.pay_lightning_invoice");
}

#[test]
fn get_invoice_non_success_omits_the_body_and_carries_typed_error() {
    let err = send(Call::GetInvoice, 404, "404 Not Found", "no such invoice")
        .expect_err("non-2xx must error");
    assert_eq!(err.message, "BTCPay get-invoice returned 404 Not Found");
    assert!(
        !err.message.contains("no such invoice"),
        "get-invoice must not interpolate the response body"
    );
    assert_eq!(err.status, 404);
    assert_eq!(err.label, "btcpay.get_invoice");
}

#[test]
fn transport_failures_keep_their_per_site_context() {
    assert_eq!(
        Call::CreateInvoice.transport_context().as_deref(),
        Some("calling BTCPay create-invoice")
    );
    assert_eq!(
        Call::PayLightningInvoice.transport_context().as_deref(),
        Some("calling BTCPay pay-lightning-invoice")
    );
    assert_eq!(Call::GetInvoice.transport_context(), None);
}

#[test]
fn a_success_is_any_status_from_200_to_299() {
    assert!(send(Call::GetInvoice, 200, "200 OK", "").is_ok());
    assert!(send(Call::GetInvoice, 299, "299", "").is_ok());
    assert!(send(Call::GetInvoice, 300, "300", "").is_err());
    assert!(send(Call::GetInvoice, 199, "199", "").is_err());
}

#[test]
fn what_is_gone_already_counts_as_removed() {
    assert_eq!(read_reply(Call::DeleteWebhook, 404), ReplyStep::Accept);
    assert_eq!(read_reply(Call::RevokeApiKey, 404), ReplyStep::Accept);
    assert_eq!(read_reply(Call::DeleteWebhook, 403), ReplyStep::FailWithBody);
    assert_eq!(read_reply(Call::ListStores, 404), ReplyStep::FailWithBody);
    assert_eq!(read_reply(Call::GetInvoice, 500), ReplyStep::FailWithoutBody);
    assert_eq!(
        failure_message(Call::ListStores, "401 Unauthorized", "no"),
        "BTCPay list-stores returned 401 Unauthorized: no"
    );
}

#[test]
fn only_calls_of_a_connected_store_are_counted() {
    assert_eq!(Call::CreateInvoice.health_label(), Some("btcpay.create_invoice"));
    assert_eq!(Call::ListStores.health_label(), None);
}

#[test]
fn a_401_from_a_real_client_reaches_the_sink() {
    let seen = record(Call::CreateInvoice, Some(401)).unwrap();
    assert_eq!((seen.label, seen.status), ("btcpay.create_invoice", 401));
    assert!(send(Call::CreateInvoice, 401, "401 Unauthorized", "revoked").is_err());
}

#[test]
fn every_self_site_reports_to_the_sink() {
    for (call, label) in [
        (Call::CreateInvoice, "btcpay.create_invoice"),
        (Call::PayLightningInvoice, "btcpay.pay_lightning_invoice"),
        (Call::GetInvoice, "btcpay.get_invoice"),
    ] {
        let seen = record(call, Some(401)).unwrap();
        assert_eq!((seen.label, seen.status), (label, 401));
    }
    assert!(record(Call::ListStores, Some(401)).is_none());
}

#[test]
fn a_success_is_recorded_by_its_status() {
    assert_eq!(record(Call::GetInvoice, Some(200)).unwrap().status, 200);
}

#[test]
fn a_transport_failure_records_nothing() {
    assert!(record(Call::CreateInvoice, None).is_none());
    assert!(record(Call::GetInvoice, None).is_none());
}

#[test]
fn amounts_are_told_in_bitcoin() {
    assert_eq!(btc_amount(1), "0.00000001");
    assert_eq!(btc_amount(50_000), "0.00050000");
    assert_eq!(btc_amount(100_000_000), "1.00000000");
    assert_eq!(btc_amount(2_100_000_000_000_000), "21000000.00000000");
    assert_eq!(btc_amount(0), "0.00000000");
    assert_eq!(btc_amount(-150_000_000), "-1.50000000");
}

#[test]
fn clients_build_their_urls() {
    let c = BtcpayClient::new("https://pay.test//", "tok", "store1");
    assert_eq!(c.base_url(), "https://pay.test");
    assert_eq!(c.api_key(), "tok");
    assert_eq!(c.invoices_url(), "https://pay.test/api/v1/stores/store1/invoices");
    assert_eq!(c.pay_url(), "https://pay.test/api/v1/stores/store1/lightning/BTC/invoices/pay");
    assert_eq!(c.invoice_url("i9"), "https://pay.test/api/v1/stores/store1/invoices/i9");
    assert_eq!(
        webhook_url("https://pay.test/", "s", "w"),
        "https://pay.test/api/v1/stores/s/webhooks/w"
    );
    assert_eq!(
        address_url("https://pay.test", "s", "BTC CHAIN"),
        "https://pay.test/api/v1/stores/s/payment-methods/BTC%20CHAIN/wallet/address"
    );
    let m = BtcpayClient::invoice_metadata("p1", "inv-1");
    assert_eq!((m.order_id.as_str(), m.product_id.as_str(), m.source.as_str()), ("inv-1", "p1", "keysat"));
}

#[test]
fn lightning_is_no_way_to_tell_the_network() {
    let id = |s: &str| Some(s.to_string());
    assert_eq!(onchain_method(&vec![id("BTC-LN"), None, id("btc-chain")]), id("btc-chain"));
    assert_eq!(onchain_method(&vec![id("BTC")]), id("BTC"));
    assert_eq!(onchain_method(&vec![id("BTC_LightningLike")]), None);
}

#[test]
fn a_network_that_cannot_be_told_is_unknown() {
    let facts = |methods, reply| NetworkFacts { methods, reply };
    let chain = || Some(Some(vec![Some("BTC-CHAIN".to_string())]));
    assert!(matches!(fetch_onchain_network(&facts(None, None)), NetworkStep::ListMethods));
    assert!(matches!(
        fetch_onchain_network(&facts(Some(None), None)),
        NetworkStep::Network { network: None }
    ));
    assert!(matches!(
        fetch_onchain_network(&facts(chain(), None)),
        NetworkStep::GetAddress { .. }
    ));
    assert!(matches!(
        fetch_onchain_network(&facts(chain(), Some(AddressReply::Unreachable))),
        NetworkStep::Fail
    ));
    assert!(matches!(
        fetch_onchain_network(&facts(chain(), Some(AddressReply::Unusable))),
        NetworkStep::Network { network: None }
    ));
    let address = Some(AddressReply::Body { address: Some("bcrt1qabc".to_string()) });
    assert!(matches!(
        fetch_onchain_network(&facts(chain(), address)),
        NetworkStep::Network { network: Some(BitcoinNetwork::Regtest) }
    ));
    assert!(matches!(
        fetch_onchain_network(&facts(chain(), Some(AddressReply::Body { address: None }))),
        NetworkStep::Network { network: None }
    ));
}

// ---------- connecting ----------

fn profile() -> MerchantProfile {
    MerchantProfile {
        id: "mp1".to_string(),
        name: "Acme".to_string(),
        legal_name: None,
        support_url: None,
        support_email: None,
        brand_color: None,
        post_purchase_redirect_url: None,
        is_default: true,
        smtp_host: None,
        smtp_port: None,
        smtp_username: None,
        smtp_password: None,
        smtp_from_address: None,
        smtp_from_name: None,
        smtp_use_starttls: true,
        created_at: "t".to_string(),
        updated_at: "t".to_string(),
    }
}

fn provider(id: &str, kind: &str) -> PaymentProviderRow {
    PaymentProviderRow {
        id: id.to_string(),
        merchant_profile_id: "mp1".to_string(),
        kind: kind.to_string(),
        label: "Label".to_string(),
        base_url: "https://pay.test".to_string(),
        store_id: Some("s1".to_string()),
        webhook_id: Some("w1".to_string()),
        connected_at: "t".to_string(),
    }
}

#[test]
fn a_connection_needs_a_free_profile() {
    let req = StartConnectReq::default();
    let facts = StartFacts { profile: None, existing: None };
    assert!(matches!(start_connect(&req, &facts), StartStep::FindDefaultProfile));
    let named = StartConnectReq { merchant_profile_id: Some("x".to_string()), label: None };
    assert!(matches!(start_connect(&named, &facts), StartStep::FindProfile { .. }));
    let unknown = StartFacts { profile: Some(None), existing: None };
    match start_connect(&named, &unknown) {
        StartStep::Refuse { error } => {
            assert_eq!(error, AppError::BadRequest("merchant profile x not found".to_string()))
        }
        other => panic!("{other:?}"),
    }
    let taken = StartFacts {
        profile: Some(Some(profile())),
        existing: Some(vec![provider("z", "zaprite"), provider("b", "btcpay")]),
    };
    assert!(matches!(
        start_connect(&req, &taken),
        StartStep::Refuse { error: AppError::Conflict(_) }
    ));
    let free = StartFacts {
        profile: Some(Some(profile())),
        existing: Some(vec![provider("z", "zaprite")]),
    };
    assert!(matches!(start_connect(&req, &free), StartStep::Begin { .. }));
}

#[test]
fn the_consent_page_is_asked_for_by_url() {
    let browser = Some("https://browser.test".to_string());
    let r = connect_with(&[0u8; 20], "mp1", "https://me.test", "http://inner", &browser);
    assert_eq!(r.state, "A".repeat(32));
    assert_eq!(r.merchant_profile_id, "mp1");
    assert_eq!(
        r.authorize_url,
        format!(
            "https://browser.test/api-keys/authorize?applicationName=Keysat&applicationIdentifier=keysat\
             &strict=true&selectiveStores=true&redirect=https%3A%2F%2Fme.test%2Fv1%2Fbtcpay%2Fauthorize\
             %2Fcallback%3Fstate%3D{}&permissions=btcpay.store.canviewstoresettings\
             &permissions=btcpay.store.canmodifystoresettings&permissions=btcpay.store.canviewinvoices\
             &permissions=btcpay.store.cancreateinvoice&permissions=btcpay.store.canmodifyinvoices",
            "A".repeat(32)
        )
    );
    let r = begin_connect("mp1", "https://me.test", "http://inner", &None);
    assert_eq!(r.state.len(), 32);
    assert!(r.authorize_url.contains(&r.state));
    assert!(r.authorize_url.starts_with("http://inner/api-keys/authorize?"));
}

#[test]
fn only_limited_credentials_are_recorded() {
    assert_eq!(state_to_record("mp1", true, "h").initiator_actor_hash.as_deref(), Some("h"));
    assert_eq!(state_to_record("mp1", false, "h").initiator_actor_hash, None);
}

fn finishing(scoped: bool, network: Option<Option<BitcoinNetwork>>) -> FinishFacts {
    FinishFacts {
        state: Some(Some(AuthorizeState {
            merchant_profile_id: None,
            scoped_initiator: scoped,
            initiator_actor_hash: None,
        })),
        profile: Some(Some(profile())),
        stores: Some(vec![
            StoreSummary { id: "s1".to_string(), name: "One".to_string() },
            StoreSummary { id: "s2".to_string(), name: "Two".to_string() },
        ]),
        network,
    }
}

#[test]
fn limited_keys_connect_no_store_on_the_main_network() {
    assert!(matches!(
        finish_connect(&finishing(true, None)),
        FinishStep::DetectNetwork { store_id } if store_id == "s1"
    ));
    for network in [None, Some(BitcoinNetwork::Mainnet)] {
        match finish_connect(&finishing(true, Some(network))) {
            FinishStep::Refuse { error: AppError::BadRequest(words) } => {
                assert!(words.contains("resolved to 'mainnet'"))
            }
            other => panic!("{other:?}"),
        }
    }
    match finish_connect(&finishing(true, Some(Some(BitcoinNetwork::Regtest)))) {
        FinishStep::Register { store_id, network, profile_id } => {
            assert_eq!(store_id, "s1");
            assert_eq!(network, Some(BitcoinNetwork::Regtest));
            assert_eq!(profile_id, "mp1");
        }
        other => panic!("{other:?}"),
    }
}

#[test]
fn the_operator_connects_any_network() {
    assert!(matches!(
        finish_connect(&finishing(false, None)),
        FinishStep::Register { network: None, .. }
    ));
}

#[test]
fn a_connection_that_comes_back_is_checked() {
    let mut f = finishing(false, None);
    f.state = Some(None);
    assert!(matches!(
        finish_connect(&f),
        FinishStep::Refuse { error: AppError::Unauthorized }
    ));
    f.state = None;
    assert!(matches!(finish_connect(&f), FinishStep::ConsumeState));
    let mut f = finishing(false, None);
    f.stores = Some(vec![]);
    assert!(matches!(
        finish_connect(&f),
        FinishStep::Refuse { error: AppError::BadRequest(_) }
    ));
    f.stores = None;
    assert!(matches!(finish_connect(&f), FinishStep::ListStores));
    let mut f = finishing(false, None);
    f.state = Some(Some(AuthorizeState {
        merchant_profile_id: Some("gone".to_string()),
        scoped_initiator: false,
        initiator_actor_hash: None,
    }));
    f.profile = Some(None);
    match finish_connect(&f) {
        FinishStep::Refuse { error: AppError::BadRequest(words) } => {
            assert!(words.starts_with("merchant profile gone no longer exists"))
        }
        other => panic!("{other:?}"),
    }
}

#[test]
fn stored_states_are_read() {
    assert_eq!(consume_authorize_state(&None), Err("unknown or expired authorize state token"));
    let row = |scoped| {
        Some(StoredState { merchant_profile_id: None, scoped, initiator_actor_hash: None })
    };
    assert!(consume_authorize_state(&row(Some(1))).unwrap().scoped_initiator);
    assert_eq!(consume_authorize_state(&row(Some(0))), Ok(AuthorizeState::default()));
    assert_eq!(consume_authorize_state(&row(None)), Ok(AuthorizeState::default()));
}

#[test]
fn half_an_hour_is_left_to_come_back() {
    let now = Moment { secs: 1_700_001_800, nanos: 0 };
    assert_eq!(
        keysat::btcpay::config::authorize_cutoff(&now),
        "2023-11-14T22:13:20+00:00"
    );
}

#[test]
fn pages_show_text_as_text() {
    assert_eq!(
        failure_page("<b>&\"no\"</b>"),
        "<html><body><h2>BTCPay authorization failed</h2><p>&lt;b&gt;&amp;\"no\"&lt;/b&gt;</p></body></html>"
    );
    assert!(success_page("a < b").ends_with("<body><h2>✓ a &lt; b</h2></body></html>"));
    for words in ["", "&amp;", "a < b > c & \"d\" 'e'", "⚡&⚡"] {
        assert!(failure_page(words).contains(&format!("<p>{}</p>", html_escape::encode_text(words))));
    }
}

#[test]
fn browsers_come_back_in_three_ways() {
    let q = |api_key: Option<&str>, error: Option<&str>| CallbackGetQuery {
        state: "s".to_string(),
        api_key: api_key.map(|s| s.to_string()),
        error: error.map(|s| s.to_string()),
    };
    assert!(matches!(callback_get(&q(Some("k"), Some("denied"))), CallbackStep::Page { .. }));
    assert!(matches!(callback_get(&q(None, None)), CallbackStep::RedirectToRoot));
    assert!(matches!(callback_get(&q(Some("k"), None)), CallbackStep::Finish { .. }));
}

#[test]
fn a_new_provider_gets_a_url_a_secret_and_a_name() {
    assert_eq!(callback_url("https://me.test", "p1"), "https://me.test/v1/btcpay/webhook/p1");
    assert_eq!(webhook_secret().len(), 52);
    assert_eq!(
        webhook_secret_of(&[0xff; 32]),
        data_encoding::BASE32_NOPAD.encode(&[0xff; 32])
    );
    assert_eq!(webhook_secret_of(&[0; 32]), "A".repeat(52));
    assert_ne!(webhook_secret(), webhook_secret());
    assert_eq!(provider_label("Acme"), "BTCPay — Acme");
}

#[test]
fn the_default_profiles_store_is_told() {
    let rows = vec![provider("z", "zaprite"), provider("b", "btcpay")];
    let s = status(&Some(profile()), &rows).unwrap();
    assert_eq!(s.provider_id, "b");
    assert_eq!(s.merchant_profile_name, "Acme");
    assert!(status(&None, &rows).is_none());
    assert!(status(&Some(profile()), &vec![]).is_none());
    assert_eq!(payment_methods(&rows).unwrap().1, "s1");
    assert!(matches!(payment_methods(&vec![]), Err(AppError::BtcpayNotConfigured)));
}

#[test]
fn what_is_disconnected_is_a_btcpay_store() {
    let rows = vec![provider("z", "zaprite"), provider("b", "btcpay")];
    let d = disconnect(&DisconnectReq::default(), &None, &rows).unwrap();
    assert_eq!(d.provider_id, "b");
    let by_id = DisconnectReq { provider_id: Some("z".to_string()) };
    assert!(disconnect(&by_id, &Some(provider("z", "zaprite")), &rows).is_none());
    assert!(disconnect(&by_id, &None, &rows).is_none());
    assert!(webhook_left_behind("w1", "boom").starts_with("Could not delete BTCPay webhook w1: boom."));
    assert!(key_left_behind("boom").starts_with("Could not revoke BTCPay API key: boom."));
}

#[test]
fn scoped_keys_begin_connections_only_in_a_sandbox() {
    let key = Some("key-1".to_string());
    assert_eq!(connect_initiator(&None, false), Ok(false));
    assert_eq!(connect_initiator(&None, true), Ok(false));
    assert_eq!(connect_initiator(&key, true), Ok(true));
    assert_eq!(connect_initiator(&key, false), Err(AppError::Forbidden));
}
