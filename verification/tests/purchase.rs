//! Buying a license, redeeming a code, and previewing one.

use keysat::api::checkout::{
    checkout, CheckoutFacts, CheckoutStep, GiftFacts, GiftStep, Order, Slot,
};
use keysat::api::discount_codes::{
    code_currency, create, delete, format_percent, preview, set_active, update,
    CreateDiscountCodeReq, CreateFacts, CreateStep, NewCode, Preview, PreviewFacts, PreviewQuery,
    PreviewStep, ScopeUpdate, SetActiveReq, UpdateDiscountCodeReq, UpdateFacts, UpdateStep,
};
use keysat::api::purchase::{
    apply_code, available_product, charge_failed, charged_response, compute_discount,
    issued_response, list_price, poll_url, purchase_status, rate_unavailable, redemption_for,
    redirect_target, selectable_policy, start, undo_after, wanted_policy, Conversion, ListPrice,
    PurchaseFacts, PurchaseStage, PurchaseStep, Sale, StartPurchaseReq,
};
use keysat::api::records::{FreeInvoiceRow, ProviderInvoice};
use keysat::api::redeem::{
    free_redemption, redeem, redeem_response, redemption_id_of, slot_return, Claim,
    ClaimFacts, ClaimStep, RedeemFacts, RedeemReq, RedeemStage, RedeemStep, SlotReturn,
};
use keysat::api::self_license::Tier;
use keysat::api::tier::{current, TierInfo};
use keysat::clock::Moment;
use keysat::crypto::{parse_key, verify_payload, SigningKey};
use keysat::error::AppError;
use keysat::models::{
    DiscountCode, Invoice, License, Policy, PolicyDisplay, Product, Redemption,
};

fn s(t: &str) -> String {
    t.to_string()
}

const NOW: Moment = Moment { secs: 1_700_000_000, nanos: 0 };

fn product() -> Product {
    Product {
        id: s("11111111-1111-4111-8111-111111111111"),
        slug: s("app"),
        name: s("App"),
        description: s("An app"),
        active: true,
        price_sats: 50_000,
        price_currency: s("SAT"),
        price_value: 50_000,
        entitlements_catalog: None,
    }
}

fn policy(id: &str, slug: &str) -> Policy {
    Policy {
        id: s(id),
        product_id: product().id,
        slug: s(slug),
        name: s("Tier"),
        active: true,
        public: true,
        duration_seconds: 0,
        grace_seconds: 0,
        max_machines: 1,
        is_trial: false,
        price_sats_override: None,
        entitlements: vec![],
        display: PolicyDisplay {
            description: s(""),
            highlight: false,
            marketing_bullets: vec![],
            marketing_bullets_position: None,
            hidden_entitlements: vec![],
        },
        tip_recipient: None,
        tip_pct_bps: 0,
        tip_label: None,
        is_recurring: false,
        renewal_period_days: 0,
        grace_period_days: 0,
        trial_days: 0,
        tier_rank: None,
    }
}

fn code(kind: &str, amount: i64) -> DiscountCode {
    DiscountCode {
        id: s("c1"),
        code: s("SAVE"),
        kind: s(kind),
        amount,
        active: true,
        max_uses: None,
        used_count: 0,
        expires_at: None,
        applies_to_product_id: None,
        applies_to_policy_id: None,
        applies_to_policy_ids: vec![],
        referrer_label: None,
        description: s(""),
        featured: false,
    }
}

fn request() -> StartPurchaseReq {
    StartPurchaseReq {
        product: s("app"),
        buyer_email: None,
        buyer_note: None,
        redirect_url: None,
        code: None,
        policy_slug: None,
    }
}

fn facts() -> PurchaseFacts {
    PurchaseFacts {
        product: Some(Some(product())),
        policy: None,
        conversion: None,
        code: None,
        featured: Some(None),
    }
}

fn refusal(step: PurchaseStep) -> AppError {
    match step {
        PurchaseStep::Refuse { error } => error,
        other => panic!("{other:?}"),
    }
}

#[test]
fn a_purchase_begins_with_the_product() {
    let none = PurchaseFacts { product: None, ..facts() };
    assert!(matches!(
        start(&request(), &none, &NOW),
        PurchaseStep::FindProduct { slug } if slug == "app"
    ));
    let unknown = PurchaseFacts { product: Some(None), ..facts() };
    assert!(matches!(refusal(start(&request(), &unknown, &NOW)), AppError::NotFound(_)));
    let off = PurchaseFacts { product: Some(Some(Product { active: false, ..product() })), ..facts() };
    assert!(matches!(refusal(start(&request(), &off, &NOW)), AppError::BadRequest(_)));
}

#[test]
fn a_price_in_sats_is_charged_as_it_is() {
    match start(&request(), &facts(), &NOW) {
        PurchaseStep::Charge { sale } => {
            assert_eq!((sale.price, sale.base_price, sale.discount), (50_000, 50_000, 0));
            assert_eq!(sale.listed_currency, None);
        }
        other => panic!("{other:?}"),
    }
}

#[test]
fn a_free_tier_is_issued_at_once() {
    let req = StartPurchaseReq { policy_slug: Some(s("free")), ..request() };
    let free = Policy { price_sats_override: Some(0), ..policy("p0", "free") };
    let f = PurchaseFacts { policy: Some(Some(free)), ..facts() };
    assert!(matches!(start(&req, &f, &NOW), PurchaseStep::IssueFree { sale } if sale.price == 0));
}

#[test]
fn a_subscription_with_a_trial_ignores_codes() {
    let req = StartPurchaseReq {
        policy_slug: Some(s("sub")),
        code: Some(s("SAVE")),
        ..request()
    };
    let sub = Policy {
        is_recurring: true,
        renewal_period_days: 30,
        trial_days: 7,
        ..policy("p1", "sub")
    };
    let f = PurchaseFacts { policy: Some(Some(sub)), ..facts() };
    assert!(matches!(start(&req, &f, &NOW), PurchaseStep::StartTrial { .. }));
}

#[test]
fn hidden_and_inactive_tiers_are_refused() {
    let req = StartPurchaseReq { policy_slug: Some(s("pro")), ..request() };
    assert!(matches!(start(&req, &facts(), &NOW), PurchaseStep::FindPolicy { .. }));
    for p in [
        None,
        Some(Policy { active: false, ..policy("p", "pro") }),
        Some(Policy { public: false, ..policy("p", "pro") }),
    ] {
        let f = PurchaseFacts { policy: Some(p), ..facts() };
        refusal(start(&req, &f, &NOW));
    }
    assert!(selectable_policy("pro", "app", &Some(policy("p", "pro"))).is_ok());
    assert_eq!(wanted_policy(&Some(s(""))), None);
    assert_eq!(wanted_policy(&Some(s("pro"))), Some(s("pro")));
    assert!(available_product("app", &None, "purchase").is_err());
}

#[test]
fn prices_in_other_currencies_are_converted() {
    let euro = Product { price_currency: s("EUR"), price_value: 4900, ..product() };
    assert!(matches!(
        list_price(&euro, &None),
        ListPrice::Fiat { currency, value: 4900 } if currency == "EUR"
    ));
    let mut f = PurchaseFacts { product: Some(Some(euro)), ..facts() };
    assert!(matches!(
        start(&request(), &f, &NOW),
        PurchaseStep::Convert { currency, value: 4900 } if currency == "EUR"
    ));
    f.conversion = Some(Err(s("no source")));
    assert_eq!(
        refusal(start(&request(), &f, &NOW)),
        AppError::Upstream(s("rate fetch failed: no source"))
    );
    assert_eq!(rate_unavailable("x"), AppError::Upstream(s("rate fetch failed: x")));
    f.conversion = Some(Ok(Conversion { sats: 77_000, rate_centibps: Some(9), source: s("kraken") }));
    match start(&request(), &f, &NOW) {
        PurchaseStep::Charge { sale } => {
            assert_eq!(sale.price, 77_000);
            assert_eq!(sale.listed_currency.as_deref(), Some("EUR"));
            assert_eq!(sale.listed_value, Some(4900));
            assert_eq!(sale.exchange_rate_source.as_deref(), Some("kraken"));
        }
        other => panic!("{other:?}"),
    }
}

#[test]
fn codes_are_checked_before_a_slot_is_reserved() {
    let req = StartPurchaseReq { code: Some(s("SAVE")), ..request() };
    assert!(matches!(start(&req, &facts(), &NOW), PurchaseStep::FindCode { .. }));
    let with = |c: Option<DiscountCode>| PurchaseFacts { code: Some(c), ..facts() };
    let words = |c: Option<DiscountCode>| match refusal(start(&req, &with(c), &NOW)) {
        AppError::BadRequest(w) => w,
        other => panic!("{other:?}"),
    };
    assert_eq!(words(None), "unknown discount code");
    assert_eq!(
        words(Some(DiscountCode { active: false, ..code("percent", 1000) })),
        "discount code is disabled"
    );
    assert_eq!(
        words(Some(DiscountCode {
            expires_at: Some(s("2020-01-01T00:00:00Z")),
            ..code("percent", 1000)
        })),
        "discount code has expired"
    );
    assert_eq!(
        words(Some(DiscountCode {
            applies_to_product_id: Some(s("other")),
            ..code("percent", 1000)
        })),
        "discount code does not apply to this product"
    );
    let tiered = StartPurchaseReq { policy_slug: Some(s("t")), ..req.clone() };
    let f = PurchaseFacts {
        policy: Some(Some(policy("p1", "t"))),
        code: Some(Some(DiscountCode {
            applies_to_policy_id: Some(s("other")),
            ..code("percent", 1000)
        })),
        ..facts()
    };
    assert_eq!(
        refusal(start(&tiered, &f, &NOW)),
        AppError::BadRequest(s("discount code does not apply to the selected tier"))
    );
    assert!(matches!(
        start(&req, &with(Some(code("percent", 1000))), &NOW),
        PurchaseStep::Reserve { code_id, .. } if code_id == "c1"
    ));
}

#[test]
fn a_code_for_several_tiers_applies_to_each() {
    let several = DiscountCode {
        applies_to_policy_ids: vec![s("p1"), s("p2")],
        ..code("percent", 1000)
    };
    for (id, fits) in [("p1", true), ("p2", true), ("p3", false)] {
        let req = StartPurchaseReq {
            code: Some(s("SAVE")),
            policy_slug: Some(s("t")),
            ..request()
        };
        let f = PurchaseFacts {
            policy: Some(Some(policy(id, "t"))),
            code: Some(Some(several.clone())),
            ..facts()
        };
        let step = start(&req, &f, &NOW);
        assert_eq!(matches!(step, PurchaseStep::Reserve { .. }), fits);
    }
}

#[test]
fn discounts_are_computed() {
    assert_eq!(compute_discount("percent", 2500, 50_000), 12_500);
    assert_eq!(compute_discount("percent", 99_999, 50_000), 50_000);
    assert_eq!(compute_discount("percent", -5, 50_000), 0);
    assert_eq!(compute_discount("percent", 3333, 10), 3);
    assert_eq!(compute_discount("fixed_sats", 60_000, 50_000), 50_000);
    assert_eq!(compute_discount("set_price", 20_000, 50_000), 30_000);
    assert_eq!(compute_discount("set_price", 60_000, 50_000), 0);
    assert_eq!(compute_discount("free_license", 0, 50_000), 0);
}

fn sale() -> Sale {
    match start(&request(), &facts(), &NOW) {
        PurchaseStep::Charge { sale } => sale,
        other => panic!("{other:?}"),
    }
}

#[test]
fn something_is_always_left_to_pay() {
    let all = apply_code(sale(), &code("percent", 10_000));
    assert_eq!((all.discount, all.price), (50_000, 1));
    let set = apply_code(sale(), &code("set_price", 20_000));
    assert_eq!((set.discount, set.price), (30_000, 20_000));
}

#[test]
fn a_purchase_that_fails_gives_its_slot_back() {
    let coded = apply_code(sale(), &code("percent", 1000));
    let undo = undo_after(&coded, PurchaseStage::CreateProviderInvoice);
    assert_eq!(undo.release_code.as_deref(), Some("c1"));
    assert_eq!(undo_after(&sale(), PurchaseStage::CreateProviderInvoice).release_code, None);
    assert!(undo_after(&coded, PurchaseStage::RecordRedemption).invalidate_invoice);
    assert_eq!(
        charge_failed("x"),
        AppError::Upstream(s("payment provider create-invoice failed: x"))
    );
}

#[test]
fn buyers_return_to_where_they_asked() {
    assert_eq!(redirect_target(&Some(s("https://me")), "https://k", "i1"), "https://me");
    assert_eq!(redirect_target(&Some(s("")), "https://k", "i1"), "https://k/thank-you?invoice_id=i1");
    assert_eq!(redirect_target(&None, "https://k", "i1"), "https://k/thank-you?invoice_id=i1");
    assert_eq!(poll_url("https://k", "i1"), "https://k/v1/purchase/i1");
}

#[test]
fn a_charged_purchase_is_answered() {
    let coded = apply_code(sale(), &code("percent", 1000));
    let r = charged_response(&coded, s("i1"), s("b1"), s("https://pay"), "https://k");
    assert_eq!((r.amount_sats, r.base_price_sats, r.discount_applied_sats), (45_000, 50_000, 5_000));
    assert_eq!(r.license_key, None);
    let red = redemption_for(&coded, "i1", 45_000).unwrap();
    assert_eq!((red.base_price_sats, red.final_price_sats), (50_000, 45_000));
    assert!(redemption_for(&sale(), "i1", 50_000).is_none());
}

fn license() -> License {
    License {
        id: s("22222222-2222-4222-8222-222222222222"),
        product_id: product().id,
        invoice_id: Some(s("i1")),
        policy_id: None,
        status: s("active"),
        issued_at: s("2023-11-14T22:13:20Z"),
        expires_at: None,
        grace_seconds: 0,
        max_machines: 1,
        is_trial: false,
        entitlements: vec![s("pro")],
        fingerprint: None,
        revoked_at: None,
        revocation_reason: None,
        suspended_at: None,
        suspension_reason: None,
        buyer_email: None,
    }
}

fn invoice(status: &str) -> Invoice {
    Invoice {
        id: s("i1"),
        btcpay_invoice_id: s("b1"),
        product_id: product().id,
        policy_id: None,
        amount_sats: 50_000,
        status: s(status),
        buyer_email: None,
        listed_currency: None,
        listed_value: None,
        payment_provider_id: None,
    }
}

fn signing() -> SigningKey {
    SigningKey::from_bytes([9u8; 32])
}

#[test]
fn a_settled_purchase_tells_a_key_that_verifies_offline() {
    let st = purchase_status("i1", Some(invoice("settled")), &Some(license()), &signing()).unwrap();
    let key = st.license_key.unwrap();
    let (payload, sig, signed) = parse_key(&key).unwrap();
    verify_payload(&signing().verifying_key(), &signed, &sig).unwrap();
    assert_eq!(payload.issued_at, 1_700_000_000);
    assert!(payload.has_entitlement("pro"));
    assert_eq!(payload.license_id.to_text(), license().id);
}

#[test]
fn a_purchase_without_an_active_license_tells_no_key() {
    let st = purchase_status("i1", Some(invoice("pending")), &None, &signing()).unwrap();
    assert_eq!((st.license_key, st.license_id), (None, None));
    let revoked = License { status: s("revoked"), ..license() };
    let st = purchase_status("i1", Some(invoice("settled")), &Some(revoked), &signing()).unwrap();
    assert_eq!(st.license_key, None);
    assert_eq!(
        purchase_status("i9", None, &None, &signing()).unwrap_err(),
        AppError::NotFound(s("invoice 'i9'"))
    );
    let broken = License { id: s("no uuid"), ..license() };
    assert!(matches!(
        purchase_status("i1", Some(invoice("settled")), &Some(broken), &signing()),
        Err(AppError::Internal(_))
    ));
}

#[test]
fn a_free_purchase_is_answered_with_its_key() {
    let r = issued_response(
        &sale(),
        &invoice("settled"),
        license().id,
        &license(),
        &signing(),
        "https://k",
    )
    .unwrap();
    assert!(parse_key(&r.license_key.unwrap()).is_ok());
    assert_eq!(r.btcpay_invoice_id, "b1");
}

// ---------- checking out ----------

fn order(code: Option<DiscountCode>, typed: bool) -> Order {
    Order { invoice_id: s("i1"), sale: sale(), code, typed }
}

fn next(order: &Order, facts: &CheckoutFacts) -> CheckoutStep {
    let buyer = StartPurchaseReq {
        buyer_email: Some(s("a@b.c")),
        buyer_note: Some(s("hello")),
        ..request()
    };
    checkout(order, &buyer, "https://k", facts)
}

fn taken() -> AppError {
    AppError::Conflict(s("code has no uses left"))
}

fn down() -> AppError {
    AppError::Internal(s("database is down"))
}

fn refused(step: CheckoutStep) -> AppError {
    match step {
        CheckoutStep::Refuse { error } => error,
        other => panic!("{other:?}"),
    }
}

#[test]
fn an_order_with_a_code_is_charged_step_by_step() {
    let order = order(Some(code("percent", 1000)), true);
    let mut f = CheckoutFacts::new();
    assert!(matches!(next(&order, &f), CheckoutStep::ReserveSlot { code_id } if code_id == "c1"));
    f.slot = Some(Slot::Reserved);
    assert!(matches!(next(&order, &f), CheckoutStep::FindProvider));
    f.provider = Some(Ok(()));
    match next(&order, &f) {
        CheckoutStep::CreateInvoice { charge } => {
            assert_eq!((charge.amount_sats, charge.order_id.as_str()), (45_000, "i1"));
            assert_eq!(charge.redirect_url, "https://k/thank-you?invoice_id=i1");
            assert_eq!(charge.buyer_email.as_deref(), Some("a@b.c"));
            assert_eq!(charge.metadata(), vec![("productId", Some(sale().product_id))]);
        }
        other => panic!("{other:?}"),
    }
    f.charged = Some(Ok(ProviderInvoice { id: s("b1"), checkout_url: s("https://pay") }));
    match next(&order, &f) {
        CheckoutStep::StoreInvoice { row } => {
            assert_eq!((row.id.as_str(), row.provider_invoice_id.as_str()), ("i1", "b1"));
            assert_eq!((row.amount_sats, row.checkout_url.as_str()), (45_000, "https://pay"));
            assert_eq!(row.buyer_email.as_deref(), Some("a@b.c"));
            assert_eq!(row.buyer_note.as_deref(), Some("hello"));
            assert_eq!(row.product_id, sale().product_id);
        }
        other => panic!("{other:?}"),
    }
    f.stored = Some(Ok(s("i1")));
    match next(&order, &f) {
        CheckoutStep::RecordRedemption { redemption } => {
            assert_eq!((redemption.code_id.as_str(), redemption.invoice_id.as_str()), ("c1", "i1"));
            assert_eq!(redemption.final_price_sats, 45_000);
        }
        other => panic!("{other:?}"),
    }
    f.recorded = Some(Ok(()));
    match next(&order, &f) {
        CheckoutStep::Answer { resp } => {
            assert_eq!((resp.invoice_id.as_str(), resp.btcpay_invoice_id.as_str()), ("i1", "b1"));
            assert_eq!(resp.checkout_url, "https://pay");
            assert_eq!(resp.amount_sats, 45_000);
        }
        other => panic!("{other:?}"),
    }
}

#[test]
fn an_order_without_a_code_reserves_and_records_nothing() {
    let order = order(None, false);
    let mut f = CheckoutFacts::new();
    assert!(matches!(next(&order, &f), CheckoutStep::FindProvider));
    f.provider = Some(Ok(()));
    f.charged = Some(Ok(ProviderInvoice { id: s("b1"), checkout_url: s("https://pay") }));
    f.stored = Some(Ok(s("i1")));
    assert!(matches!(
        next(&order, &f),
        CheckoutStep::Answer { resp } if resp.amount_sats == 50_000
    ));
    f.stored = Some(Err(down()));
    assert_eq!(refused(next(&order, &f)), down());
}

#[test]
fn a_featured_code_without_a_slot_is_let_go() {
    let mut f = CheckoutFacts::new();
    f.slot = Some(Slot::NoneLeft { error: taken() });
    let typed = order(Some(code("percent", 1000)), true);
    assert_eq!(refused(next(&typed, &f)), taken());
    let featured = order(Some(code("percent", 1000)), false);
    f.provider = Some(Ok(()));
    assert!(matches!(
        next(&featured, &f),
        CheckoutStep::CreateInvoice { charge } if charge.amount_sats == 50_000
    ));
}

#[test]
fn a_slot_that_cannot_be_asked_for_fails_the_order() {
    let mut f = CheckoutFacts::new();
    f.slot = Some(Slot::Failed { error: down() });
    for typed in [true, false] {
        assert_eq!(refused(next(&order(Some(code("percent", 1000)), typed), &f)), down());
    }
}

#[test]
fn an_order_that_fails_undoes_what_was_done() {
    let order = order(Some(code("percent", 1000)), true);
    let mut f = CheckoutFacts::new();
    f.slot = Some(Slot::Reserved);
    f.provider = Some(Err(AppError::BtcpayNotConfigured));
    assert!(matches!(next(&order, &f), CheckoutStep::ReleaseSlot { code_id } if code_id == "c1"));
    let back = CheckoutFacts { released: true, ..f.clone() };
    assert_eq!(refused(next(&order, &back)), AppError::BtcpayNotConfigured);

    f.provider = Some(Ok(()));
    f.charged = Some(Err(s("timed out")));
    assert!(matches!(next(&order, &f), CheckoutStep::ReleaseSlot { .. }));
    let back = CheckoutFacts { released: true, ..f.clone() };
    assert_eq!(
        refused(next(&order, &back)),
        AppError::Upstream(s("payment provider create-invoice failed: timed out"))
    );

    f.charged = Some(Ok(ProviderInvoice { id: s("b1"), checkout_url: s("https://pay") }));
    f.stored = Some(Err(down()));
    assert!(matches!(next(&order, &f), CheckoutStep::ReleaseSlot { .. }));

    f.stored = Some(Ok(s("i1")));
    f.recorded = Some(Err(down()));
    assert!(matches!(next(&order, &f), CheckoutStep::ReleaseSlot { .. }));
    f.released = true;
    assert!(matches!(
        next(&order, &f),
        CheckoutStep::InvalidateInvoice { provider_invoice_id } if provider_invoice_id == "b1"
    ));
    f.invalidated = true;
    assert_eq!(refused(next(&order, &f)), down());
}

#[test]
fn a_free_purchase_is_issued_without_a_provider() {
    let free = Sale { price: 0, base_price: 0, ..sale() };
    let give = |f: &GiftFacts| {
        keysat::api::checkout::give(&free, &request(), &signing(), "https://k", f)
    };
    let mut f = GiftFacts { invoice: None, issued: None, license: None };
    assert!(matches!(
        give(&f),
        GiftStep::CreateInvoice { row } if row == FreeInvoiceRow {
            product_id: free.product_id.clone(),
            policy_id: free.policy_id.clone(),
            buyer_email: None,
            buyer_note: None,
        }
    ));
    f.invoice = Some(Err(down()));
    assert!(matches!(give(&f), GiftStep::Refuse { error } if error == down()));
    f.invoice = Some(Ok(invoice("settled")));
    assert!(matches!(give(&f), GiftStep::IssueLicense { invoice_id } if invoice_id == "i1"));
    f.issued = Some(Ok(license().id));
    assert!(matches!(give(&f), GiftStep::FindLicense { invoice_id } if invoice_id == "i1"));
    f.license = Some(None);
    assert!(matches!(
        give(&f),
        GiftStep::Refuse { error } if error == AppError::Internal(s("license vanished after issue"))
    ));
    f.license = Some(Some(license()));
    match give(&f) {
        GiftStep::Answer { resp } => {
            assert!(parse_key(&resp.license_key.unwrap()).is_ok());
            assert_eq!((resp.btcpay_invoice_id.as_str(), resp.checkout_url.as_str()), ("", ""));
        }
        other => panic!("{other:?}"),
    }
}

// ---------- redeeming ----------

fn redeem_req() -> RedeemReq {
    RedeemReq {
        product: s("app"),
        code: s("FREE"),
        buyer_email: None,
        buyer_note: None,
        policy_slug: None,
    }
}

#[test]
fn only_codes_that_give_a_license_away_are_redeemed() {
    let f = |c: Option<DiscountCode>| RedeemFacts {
        product: Some(Some(product())),
        code: Some(c),
        policy: None,
    };
    assert!(matches!(
        redeem(&redeem_req(), &f(Some(code("free_license", 0))), &NOW),
        RedeemStep::Reserve { code_id, policy_id: None, .. } if code_id == "c1"
    ));
    let words = |c: Option<DiscountCode>| match redeem(&redeem_req(), &f(c), &NOW) {
        RedeemStep::Refuse { error: AppError::BadRequest(w) } => w,
        other => panic!("{other:?}"),
    };
    assert_eq!(words(None), "unknown code");
    assert!(words(Some(code("percent", 1000))).starts_with("this code requires payment"));
    assert_eq!(
        words(Some(DiscountCode { active: false, ..code("free_license", 0) })),
        "code is disabled"
    );
    assert_eq!(
        words(Some(DiscountCode {
            expires_at: Some(s("2023-11-14T22:13:19Z")),
            ..code("free_license", 0)
        })),
        "code has expired"
    );
    assert_eq!(
        words(Some(DiscountCode {
            applies_to_product_id: Some(s("x")),
            ..code("free_license", 0)
        })),
        "code does not apply to this product"
    );
    let tiered = RedeemReq { policy_slug: Some(s("t")), ..redeem_req() };
    let several = RedeemFacts {
        policy: Some(Some(policy("p9", "t"))),
        ..f(Some(DiscountCode {
            applies_to_policy_ids: vec![s("a"), s("b")],
            ..code("free_license", 0)
        }))
    };
    match redeem(&tiered, &several, &NOW) {
        RedeemStep::Refuse { error } => {
            assert_eq!(error, AppError::BadRequest(s("code does not apply to the selected tier")))
        }
        other => panic!("{other:?}"),
    }
}

#[test]
fn a_blank_code_is_required() {
    let req = RedeemReq { code: s("  "), ..redeem_req() };
    let f = RedeemFacts { product: Some(Some(product())), code: None, policy: None };
    match redeem(&req, &f, &NOW) {
        RedeemStep::Refuse { error } => {
            assert_eq!(error, AppError::BadRequest(s("code is required")))
        }
        other => panic!("{other:?}"),
    }
}

#[test]
fn a_redemption_that_fails_gives_its_slot_back() {
    assert!(matches!(slot_return(RedeemStage::CreateInvoice), SlotReturn::Release));
    assert!(matches!(slot_return(RedeemStage::IssueLicense), SlotReturn::CancelRedemption));
    let r = free_redemption("c1", "i1");
    assert_eq!((r.code_id.as_str(), r.invoice_id.as_str(), r.final_price_sats), ("c1", "i1", 0));
}

#[test]
fn a_redemption_is_answered_with_its_key() {
    let rows = vec![
        Redemption {
            id: s("r0"),
            code_id: s("c1"),
            invoice_id: s("i0"),
            discount_applied_sats: 0,
            base_price_sats: 0,
            final_price_sats: 0,
        },
        Redemption {
            id: s("r1"),
            code_id: s("c1"),
            invoice_id: s("i1"),
            discount_applied_sats: 0,
            base_price_sats: 0,
            final_price_sats: 0,
        },
    ];
    assert_eq!(redemption_id_of(&rows, "i1"), "r1");
    assert_eq!(redemption_id_of(&rows, "i9"), "");
    let r = redeem_response(license().id, &license(), s("i1"), &rows, &signing()).unwrap();
    assert_eq!(r.redemption_id, "r1");
    assert!(parse_key(&r.license_key).is_ok());
}

#[test]
fn a_claim_is_given_its_license_step_by_step() {
    let claim = Claim { code_id: s("c1"), product_id: s("prod"), policy_id: Some(s("p1")) };
    let give = |f: &ClaimFacts| keysat::api::redeem::give(&claim, &redeem_req(), &signing(), f);
    let mut f = ClaimFacts::new();
    assert!(matches!(give(&f), ClaimStep::ReserveSlot { code_id } if code_id == "c1"));
    f.slot = Some(Slot::NoneLeft { error: taken() });
    assert!(matches!(give(&f), ClaimStep::Refuse { error } if error == taken()));
    f.slot = Some(Slot::Failed { error: down() });
    assert!(matches!(give(&f), ClaimStep::Refuse { error } if error == down()));
    f.slot = Some(Slot::Reserved);
    assert!(matches!(
        give(&f),
        ClaimStep::CreateInvoice { row } if row == FreeInvoiceRow {
            product_id: s("prod"),
            policy_id: Some(s("p1")),
            buyer_email: redeem_req().buyer_email,
            buyer_note: redeem_req().buyer_note,
        }
    ));
    f.invoice = Some(Ok(s("i1")));
    assert!(matches!(
        give(&f),
        ClaimStep::RecordRedemption { redemption }
            if redemption.code_id == "c1" && redemption.invoice_id == "i1"
    ));
    f.recorded = Some(Ok(()));
    assert!(matches!(give(&f), ClaimStep::IssueLicense { invoice_id } if invoice_id == "i1"));
    f.issued = Some(Ok(license().id));
    assert!(matches!(give(&f), ClaimStep::FindLicense { invoice_id } if invoice_id == "i1"));
    f.license = Some(Some(license()));
    assert!(matches!(give(&f), ClaimStep::ListRedemptions { code_id } if code_id == "c1"));
    f.rows = Some(vec![]);
    match give(&f) {
        ClaimStep::Answer { resp } => {
            assert_eq!((resp.invoice_id.as_str(), resp.redemption_id.as_str()), ("i1", ""));
            assert!(parse_key(&resp.license_key).is_ok());
        }
        other => panic!("{other:?}"),
    }
    f.license = Some(None);
    assert!(matches!(
        give(&f),
        ClaimStep::Refuse { error } if error == AppError::Internal(s("license vanished after issue"))
    ));
}

#[test]
fn a_claim_that_fails_undoes_what_was_done() {
    let claim = Claim { code_id: s("c1"), product_id: s("prod"), policy_id: None };
    let give = |f: &ClaimFacts| keysat::api::redeem::give(&claim, &redeem_req(), &signing(), f);
    let mut f = ClaimFacts::new();
    f.slot = Some(Slot::Reserved);
    f.invoice = Some(Err(down()));
    assert!(matches!(give(&f), ClaimStep::ReleaseSlot { code_id } if code_id == "c1"));
    let back = ClaimFacts { returned: true, ..f.clone() };
    assert!(matches!(give(&back), ClaimStep::Refuse { error } if error == down()));

    f.invoice = Some(Ok(s("i1")));
    f.recorded = Some(Err(down()));
    assert!(matches!(give(&f), ClaimStep::ReleaseSlot { .. }));

    f.recorded = Some(Ok(()));
    f.issued = Some(Err(down()));
    assert!(matches!(give(&f), ClaimStep::FindRedemption { invoice_id } if invoice_id == "i1"));
    f.pending = Some(Some(Redemption {
        id: s("r1"),
        code_id: s("c1"),
        invoice_id: s("i1"),
        discount_applied_sats: 0,
        base_price_sats: 0,
        final_price_sats: 0,
    }));
    assert!(matches!(
        give(&f),
        ClaimStep::CancelRedemption { redemption_id } if redemption_id == "r1"
    ));
    f.returned = true;
    assert!(matches!(give(&f), ClaimStep::Refuse { error } if error == down()));
    let gone = ClaimFacts { pending: Some(None), returned: false, ..f };
    assert!(matches!(give(&gone), ClaimStep::Refuse { error } if error == down()));
}

// ---------- codes ----------

fn previewed(c: Option<DiscountCode>, p: Option<Policy>) -> Preview {
    let q = PreviewQuery {
        code: s(" SAVE "),
        product: s("app"),
        policy_slug: p.as_ref().map(|p| p.slug.clone()),
    };
    let f = PreviewFacts {
        product: Some(Some(product())),
        policy: Some(p),
        code: Some(c),
    };
    match preview(&q, &f, &NOW) {
        PreviewStep::Show { preview } => preview,
        other => panic!("{other:?}"),
    }
}

#[test]
fn previews_show_what_is_charged() {
    match previewed(Some(code("percent", 1250)), None) {
        Preview::Valid { final_price_sats, discount_applied_sats, message, .. } => {
            assert_eq!((final_price_sats, discount_applied_sats), (43_750, 6_250));
            assert_eq!(message, "12.5% off applied.");
        }
        other => panic!("{other:?}"),
    }
    match previewed(Some(code("free_license", 0)), None) {
        Preview::Valid { final_price_sats, is_free, discount_applied_sats, .. } => {
            assert_eq!((final_price_sats, is_free, discount_applied_sats), (0, true, 50_000));
        }
        other => panic!("{other:?}"),
    }
    match previewed(Some(code("set_price", 60_000)), None) {
        Preview::Valid { final_price_sats, message, .. } => {
            assert_eq!(final_price_sats, 50_000);
            assert!(message.contains("doesn't lower the price"));
        }
        other => panic!("{other:?}"),
    }
    match previewed(Some(code("fixed_sats", 100)), None) {
        Preview::Valid { message, .. } => assert_eq!(message, "100 sats off applied."),
        other => panic!("{other:?}"),
    }
}

#[test]
fn previews_say_why_a_code_does_not_apply() {
    let reason = |c, p| match previewed(c, p) {
        Preview::Invalid { reason, .. } => reason,
        other => panic!("{other:?}"),
    };
    assert_eq!(reason(None, None), "unknown_code");
    assert_eq!(
        reason(Some(DiscountCode { active: false, ..code("percent", 1) }), None),
        "disabled"
    );
    assert_eq!(
        reason(
            Some(DiscountCode { expires_at: Some(s("2020-01-01T00:00:00Z")), ..code("percent", 1) }),
            None
        ),
        "expired"
    );
    assert_eq!(
        reason(
            Some(DiscountCode { applies_to_product_id: Some(s("x")), ..code("percent", 1) }),
            None
        ),
        "wrong_product"
    );
    assert_eq!(
        reason(
            Some(DiscountCode { applies_to_policy_id: Some(s("x")), ..code("percent", 1) }),
            Some(policy("p1", "t"))
        ),
        "wrong_tier"
    );
    assert_eq!(
        reason(
            Some(DiscountCode { max_uses: Some(3), used_count: 3, ..code("percent", 1) }),
            None
        ),
        "exhausted"
    );
}

#[test]
fn percentages_are_written_without_zeroes_at_the_end() {
    assert_eq!(format_percent(2500), "25");
    assert_eq!(format_percent(1250), "12.5");
    assert_eq!(format_percent(1234), "12.34");
    assert_eq!(format_percent(5), "0.05");
    assert_eq!(format_percent(-50), "-0.5");
    assert_eq!(format_percent(0), "0");
    for bps in [1i64, 7, 10, 99, 100, 101, 3333, 9999, 10_000] {
        assert_eq!(format_percent(bps), format!("{}", bps as f64 / 100.0));
    }
}

fn creator() -> TierInfo {
    current(&Tier::Unlicensed { reason: s("none") })
}

fn new_code() -> CreateDiscountCodeReq {
    CreateDiscountCodeReq {
        code: s("SAVE"),
        kind: s("percent"),
        amount: 1000,
        discount_currency: None,
        max_uses: None,
        expires_at: None,
        product_slug: None,
        policy_slug: None,
        policy_slugs: None,
        referrer_label: None,
        description: s(""),
        featured: false,
    }
}

fn made(req: &CreateDiscountCodeReq, policies: Option<Vec<Option<String>>>) -> NewCode {
    let f = CreateFacts { active_codes: 0, product: Some(Some(product())), policies };
    match create(req, &creator(), &f) {
        CreateStep::Create { code } => code,
        other => panic!("{other:?}"),
    }
}

fn not_made(req: &CreateDiscountCodeReq, f: &CreateFacts) -> AppError {
    match create(req, &creator(), f) {
        CreateStep::Refuse { error } => error,
        other => panic!("{other:?}"),
    }
}

#[test]
fn new_codes_are_checked_in_order() {
    let none = CreateFacts { active_codes: 0, product: None, policies: None };
    let full = CreateFacts { active_codes: 10, ..none.clone() };
    assert!(matches!(not_made(&new_code(), &full), AppError::PaymentRequired { .. }));
    let of_app = CreateDiscountCodeReq { product_slug: Some(s("app")), ..new_code() };
    assert!(matches!(
        create(&of_app, &creator(), &none),
        CreateStep::FindProduct { slug } if slug == "app"
    ));
    let unknown = CreateFacts { product: Some(None), ..none.clone() };
    assert_eq!(not_made(&of_app, &unknown), AppError::NotFound(s("product 'app'")));
    let doge = CreateDiscountCodeReq { discount_currency: Some(s("doge")), ..new_code() };
    assert_eq!(
        not_made(&doge, &none),
        AppError::BadRequest(s("unsupported discount_currency 'DOGE'; accepted: SAT, USD, EUR"))
    );
    assert_eq!(made(&new_code(), None).discount_currency, "SAT");
    assert_eq!(made(&new_code(), None).product_id, None);
    assert_eq!(made(&of_app, None).product_id, Some(product().id));
}

#[test]
fn a_restriction_needs_a_product() {
    let none = CreateFacts { active_codes: 0, product: None, policies: None };
    let many = CreateDiscountCodeReq {
        policy_slugs: Some(vec![s("a"), s("b")]),
        policy_slug: Some(s("c")),
        ..new_code()
    };
    assert_eq!(
        not_made(&many, &none),
        AppError::BadRequest(s("policy_slugs requires product_slug"))
    );
    let one = CreateDiscountCodeReq { policy_slug: Some(s("c")), ..new_code() };
    assert_eq!(
        not_made(&one, &none),
        AppError::BadRequest(s("policy_slug requires product_slug"))
    );
    let many = CreateDiscountCodeReq { product_slug: Some(s("app")), ..many };
    let f = CreateFacts { product: Some(Some(product())), ..none };
    assert!(matches!(
        create(&many, &creator(), &f),
        CreateStep::FindPolicies { slugs, .. } if slugs == vec![s("a"), s("b")]
    ));
    let code = made(&many, Some(vec![Some(s("1")), Some(s("2"))]));
    assert_eq!(code.scope.policy_id, None);
    assert_eq!(code.scope.policy_ids, Some(vec![s("1"), s("2")]));
    let f = CreateFacts { policies: Some(vec![Some(s("1")), None]), ..f };
    assert_eq!(not_made(&many, &f), AppError::NotFound(s("policy 'b' for product 'app'")));
    let one = CreateDiscountCodeReq { product_slug: Some(s("app")), ..one };
    let code = made(&one, Some(vec![Some(s("3"))]));
    assert_eq!((code.scope.policy_id, code.scope.policy_ids), (Some(s("3")), None));
    let cleared = CreateDiscountCodeReq { policy_slugs: Some(vec![]), ..new_code() };
    let code = made(&cleared, None);
    assert_eq!((code.scope.policy_id, code.scope.policy_ids), (None, Some(vec![])));
}

#[test]
fn a_changed_restriction_replaces_the_old_one() {
    let old = DiscountCode {
        applies_to_product_id: Some(s("pid")),
        applies_to_policy_id: Some(s("p0")),
        ..code("percent", 1)
    };
    let req = |slugs: Option<Vec<String>>| UpdateDiscountCodeReq {
        amount: None,
        max_uses: None,
        expires_at: None,
        description: None,
        referrer_label: None,
        featured: None,
        policy_slugs: slugs,
    };
    let updated = |slugs: Option<Vec<String>>, found: Option<Vec<Option<String>>>| -> ScopeUpdate {
        let f = UpdateFacts { code: Some(Some(old.clone())), policies: found };
        match update("c1", &req(slugs), &f) {
            UpdateStep::Update { scope } => scope,
            other => panic!("{other:?}"),
        }
    };
    let none = updated(None, None);
    assert_eq!((none.policy_id, none.policy_ids), (None, None));
    let cleared = updated(Some(vec![]), None);
    assert_eq!((cleared.policy_id, cleared.policy_ids), (Some(None), Some(vec![])));
    let one = updated(Some(vec![s("a")]), Some(vec![Some(s("1"))]));
    assert_eq!((one.policy_id, one.policy_ids), (Some(Some(s("1"))), Some(vec![])));
    let two = updated(Some(vec![s("a"), s("b")]), Some(vec![Some(s("1")), Some(s("2"))]));
    let changed = DiscountCode {
        applies_to_policy_id: two.policy_id.unwrap(),
        applies_to_policy_ids: two.policy_ids.unwrap(),
        ..old.clone()
    };
    assert_eq!(changed.allowed_policy_ids(), vec![s("1"), s("2")]);
    let step = |code: Option<Option<DiscountCode>>, found: Option<Vec<Option<String>>>| {
        update("c1", &req(Some(vec![s("a")])), &UpdateFacts { code, policies: found })
    };
    assert!(matches!(step(None, None), UpdateStep::FindCode { id } if id == "c1"));
    assert!(matches!(
        step(Some(None), None),
        UpdateStep::Refuse { error: AppError::NotFound(w) } if w == "discount code c1"
    ));
    assert!(matches!(
        step(Some(Some(code("percent", 1))), None),
        UpdateStep::Refuse { error: AppError::BadRequest(_) }
    ));
    assert!(matches!(
        step(Some(Some(old.clone())), None),
        UpdateStep::FindPolicies { product_id, .. } if product_id == "pid"
    ));
    assert!(matches!(
        step(Some(Some(old.clone())), Some(vec![None])),
        UpdateStep::Refuse { error: AppError::NotFound(w) } if w == "policy 'a' for product 'pid'"
    ));
}

#[test]
fn featured_codes_apply_to_buyers_who_type_none() {
    let featured = DiscountCode { featured: true, ..code("percent", 2000) };
    let req = StartPurchaseReq { policy_slug: Some(s("t")), ..request() };
    let f = PurchaseFacts {
        policy: Some(Some(policy("p1", "t"))),
        featured: None,
        ..facts()
    };
    assert!(matches!(
        start(&req, &f, &NOW),
        PurchaseStep::FindFeatured { policy_id: Some(id), .. } if id == "p1"
    ));
    let with = |c: DiscountCode| PurchaseFacts { featured: Some(Some(c)), ..f.clone() };
    match start(&req, &with(featured.clone()), &NOW) {
        PurchaseStep::Reserve { sale, code_id, typed } => {
            assert_eq!((code_id.as_str(), typed), ("c1", false));
            assert_eq!(apply_code(sale, &featured).price, 40_000);
        }
        other => panic!("{other:?}"),
    }
    for unfit in [
        DiscountCode { featured: false, ..featured.clone() },
        DiscountCode { active: false, ..featured.clone() },
        DiscountCode { kind: s("free_license"), amount: 0, ..featured.clone() },
        DiscountCode { max_uses: Some(1), used_count: 1, ..featured.clone() },
        DiscountCode { applies_to_policy_id: Some(s("other")), ..featured.clone() },
    ] {
        assert!(matches!(start(&req, &with(unfit), &NOW), PurchaseStep::Charge { .. }));
    }
    let typed = StartPurchaseReq { code: Some(s("MINE")), ..req };
    let own = PurchaseFacts {
        code: Some(Some(DiscountCode { id: s("c2"), ..code("fixed_sats", 1) })),
        ..with(featured)
    };
    assert!(matches!(
        start(&typed, &own, &NOW),
        PurchaseStep::Reserve { code_id, typed: true, .. } if code_id == "c2"
    ));
}

#[test]
fn codes_that_were_used_are_kept() {
    assert!(delete("c1", &Some(code("percent", 1)), 0).is_ok());
    assert!(matches!(
        delete("c1", &Some(code("percent", 1)), 2),
        Err(AppError::Conflict(_))
    ));
    assert!(matches!(delete("c1", &None, 0), Err(AppError::NotFound(_))));
    assert_eq!(set_active(&SetActiveReq { active: true }), "discount_code.enable");
    assert_eq!(set_active(&SetActiveReq { active: false }), "discount_code.disable");
    assert_eq!(code_currency(&Some(s("usd"))).unwrap(), "USD");
    assert_eq!(code_currency(&None).unwrap(), "SAT");
    assert!(code_currency(&Some(s("doge"))).is_err());
}
