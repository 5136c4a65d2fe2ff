//! Notices of payment, validating keys, and machines.

use keysat::api::machines::{
    activate, admin_deactivate, admin_list, deactivate, heartbeat, ActivateFacts, ActivateReq,
    ActivateStep, AdminDeactivateReq, AdminListQuery, AdminListStep, DeactivateFacts,
    DeactivateReq, DeactivateStep, HeartbeatFacts, HeartbeatReq, HeartbeatStep,
};
use keysat::api::validate::{
    validation_row,
    client_ip, rate_bucket, reject, standing, validate, SeatFacts, Standing, ValidateFacts,
    ValidateReq, ValidateResp, ValidateStep,
};
use keysat::api::webhook::{
    after_issuing, apply_tier_change_on_settle, audit_settle_amount, can_issue, first_renewal,
    handle, issue_license_for_invoice, purchased_row, Confirmation, EventKind, IssuedFacts, IssuedStep,
    ProviderWebhookEvent, TierChangeFacts, TierChangeRow, TierChangeStep, WebhookFacts,
    WebhookStep,
};
use keysat::clock::Moment;
use keysat::codec::{hex_sha256, Uuid};
use keysat::crypto::payload::{LicensePayload, FLAG_FINGERPRINT_BOUND, KEY_VERSION_V2};
use keysat::crypto::{hash_fingerprint, issue_key, SigningKey, VerifyingKey};
use keysat::error::AppError;
use keysat::models::{Invoice, License, Machine, Money, Policy, PolicyDisplay, Product, Redemption};

fn s(t: &str) -> String {
    t.to_string()
}

const NOW: Moment = Moment { secs: 1_700_000_000, nanos: 0 };

const PRODUCT_ID: &str = "11111111-1111-4111-8111-111111111111";
const LICENSE_ID: &str = "22222222-2222-4222-8222-222222222222";

fn signing() -> SigningKey {
    SigningKey::from_bytes([9u8; 32])
}

fn public() -> VerifyingKey {
    signing().verifying_key()
}

fn payload() -> LicensePayload {
    LicensePayload {
        version: KEY_VERSION_V2,
        flags: 0,
        product_id: Uuid::parse_str(PRODUCT_ID).unwrap(),
        license_id: Uuid::parse_str(LICENSE_ID).unwrap(),
        issued_at: 1_700_000_000,
        expires_at: 0,
        fingerprint_hash: [0u8; 32],
        entitlements: vec![],
    }
}

fn key() -> String {
    issue_key(&signing(), &payload())
}

fn license(max_machines: i64) -> License {
    License {
        id: s(LICENSE_ID),
        product_id: s(PRODUCT_ID),
        invoice_id: None,
        policy_id: None,
        status: s("active"),
        issued_at: s("2023-11-14T22:13:20Z"),
        expires_at: None,
        grace_seconds: 0,
        max_machines,
        is_trial: false,
        entitlements: vec![s("pro")],
        fingerprint: None,
        revoked_at: None,
        revocation_reason: None,
        suspended_at: None,
        suspension_reason: None,
        buyer_email: None,
    }
}

fn product() -> Product {
    Product {
        id: s(PRODUCT_ID),
        slug: s("app"),
        name: s("App"),
        description: s(""),
        active: true,
        price_sats: 1,
        price_currency: s("SAT"),
        price_value: 1,
        entitlements_catalog: None,
    }
}

fn no_seat() -> SeatFacts {
    SeatFacts { machine: None, heartbeat_sent: false, active_machines: None, activated: None }
}

fn facts(l: License) -> ValidateFacts {
    ValidateFacts {
        admitted: Some(true),
        license: Some(Some(l)),
        product: Some(Some(product())),
        seat: no_seat(),
    }
}

fn req(fingerprint: Option<&str>) -> ValidateReq {
    ValidateReq {
        key: key(),
        product_slug: Some(s("app")),
        fingerprint: fingerprint.map(|f| f.to_string()),
        hostname: None,
        platform: None,
    }
}

fn answer(step: ValidateStep) -> ValidateResp {
    match step {
        ValidateStep::Answer { resp, .. } => resp,
        other => panic!("{other:?}"),
    }
}

fn validated(r: &ValidateReq, f: &ValidateFacts) -> ValidateStep {
    validate(r, &None, &public(), f, &NOW)
}

#[test]
fn a_genuine_key_is_approved() {
    let r = answer(validated(&req(None), &facts(license(1))));
    assert!(r.ok);
    assert_eq!(r.license_id.as_deref(), Some(LICENSE_ID));
    assert_eq!(r.product_slug.as_deref(), Some("app"));
    assert_eq!(r.entitlements, vec![s("pro")]);
    assert_eq!(r.status.as_deref(), Some("active"));
}

#[test]
fn each_reason_to_refuse_a_key_is_told() {
    let why = |r: &ValidateReq, f: &ValidateFacts| {
        let a = answer(validated(r, f));
        assert!(!a.ok);
        a.reason.unwrap()
    };
    let mut f = facts(license(1));
    f.admitted = Some(false);
    assert_eq!(why(&req(None), &f), "rate_limited");
    let bad = ValidateReq { key: s("junk"), ..req(None) };
    assert_eq!(why(&bad, &facts(license(1))), "bad_format");
    let forged = ValidateReq {
        key: issue_key(&SigningKey::from_bytes([1u8; 32]), &payload()),
        ..req(None)
    };
    assert_eq!(why(&forged, &facts(license(1))), "bad_signature");
    let mut f = facts(license(1));
    f.license = Some(None);
    assert_eq!(why(&req(None), &f), "not_found");
    for (status, reason) in
        [("revoked", "revoked"), ("suspended", "suspended"), ("odd", "invalid_state")]
    {
        let l = License { status: s(status), ..license(1) };
        assert_eq!(why(&req(None), &facts(l)), reason);
    }
    let other = ValidateReq { product_slug: Some(s("other")), ..req(None) };
    assert_eq!(why(&other, &facts(license(1))), "product_mismatch");
    let expired = License { expires_at: Some(s("2023-11-14T22:13:20Z")), ..license(1) };
    assert_eq!(why(&req(None), &facts(expired)), "expired");
    let bound = License { fingerprint: Some(s("a")), ..license(1) };
    assert_eq!(why(&req(Some("b")), &facts(bound)), "fingerprint_mismatch");
    let mut full = facts(license(2));
    full.seat.machine = Some(None);
    full.seat.active_machines = Some(2);
    assert_eq!(why(&req(Some("b")), &full), "too_many_machines");
    assert_eq!(reject("x").reason.as_deref(), Some("x"));
}

#[test]
fn a_license_past_its_expiry_is_kept_alive_by_its_grace() {
    let l = License {
        expires_at: Some(s("2023-11-14T22:13:19Z")),
        grace_seconds: 60,
        ..license(1)
    };
    let r = answer(validated(&req(None), &facts(l)));
    assert!(r.ok);
    assert_eq!(r.in_grace_period, Some(true));
    assert_eq!(r.grace_until.as_deref(), Some("2023-11-14T22:14:19+00:00"));
    assert_eq!(standing(&NOW, 10, &NOW), Standing::InGrace { until: Moment { secs: NOW.secs + 10, nanos: 0 } });
    assert_eq!(standing(&NOW, 0, &NOW), Standing::Expired);
    let before = Moment { secs: NOW.secs - 1, nanos: 0 };
    assert_eq!(standing(&NOW, 0, &before), Standing::Current);
}

#[test]
fn an_expired_license_tells_when_its_grace_ended() {
    let expired = License {
        expires_at: Some(s("2023-11-14T22:12:20Z")),
        grace_seconds: 30,
        ..license(1)
    };
    let r = answer(validated(&req(None), &facts(expired)));
    assert!(!r.ok);
    assert_eq!(r.reason.as_deref(), Some("expired"));
    assert_eq!(r.grace_until.as_deref(), Some("2023-11-14T22:12:50+00:00"));
    let without = License {
        expires_at: Some(s("2023-11-14T22:12:20Z")),
        grace_seconds: 0,
        ..license(1)
    };
    let r = answer(validated(&req(None), &facts(without)));
    assert_eq!(r.reason.as_deref(), Some("expired"));
    assert_eq!(r.grace_until.as_deref(), Some("2023-11-14T22:12:20Z"));
}

#[test]
fn a_single_seat_binds_the_first_machine() {
    let named = ValidateReq {
        hostname: Some(s("desk")),
        platform: Some(s("linux")),
        ..req(Some("a"))
    };
    match validated(&named, &facts(license(1))) {
        ValidateStep::Activate {
            bind,
            fingerprint,
            fingerprint_hash,
            hostname,
            platform,
            ..
        } => {
            assert_eq!((hostname, platform), (Some(s("desk")), Some(s("linux"))));
            assert!(bind);
            assert_eq!(fingerprint, "a");
            assert_eq!(fingerprint_hash, hex_sha256("a"));
        }
        other => panic!("{other:?}"),
    }
    let mut f = facts(license(1));
    f.seat.activated = Some(s("m1"));
    assert_eq!(answer(validated(&req(Some("a")), &f)).machine_id.as_deref(), Some("m1"));
    match validated(&req(Some("a")), &f) {
        ValidateStep::Answer { log: Some(line), .. } => {
            let row = validation_row(line, &named, &Some(s("::1")), &Some(s("curl")));
            assert_eq!((row.line.result.as_str(), row.fingerprint.as_deref()), ("ok", Some("a")));
            assert_eq!((row.ip.as_deref(), row.user_agent.as_deref()), (Some("::1"), Some("curl")));
        }
        other => panic!("{other:?}"),
    }
}

#[test]
fn several_seats_are_filled_up_to_the_cap() {
    let mut f = facts(license(2));
    assert!(matches!(validated(&req(Some("a")), &f), ValidateStep::FindMachine { .. }));
    f.seat.machine = Some(None);
    assert!(matches!(validated(&req(Some("a")), &f), ValidateStep::CountMachines { .. }));
    f.seat.active_machines = Some(1);
    assert!(matches!(
        validated(&req(Some("a")), &f),
        ValidateStep::Activate { bind: false, .. }
    ));
    let mut known = facts(license(2));
    known.seat.machine = Some(Some(Machine { id: s("m1"), license_id: s(LICENSE_ID) }));
    assert!(matches!(validated(&req(Some("a")), &known), ValidateStep::Heartbeat { .. }));
    known.seat.heartbeat_sent = true;
    assert!(answer(validated(&req(Some("a")), &known)).ok);
    let mut unlimited = facts(license(0));
    unlimited.seat.machine = Some(None);
    unlimited.seat.active_machines = Some(1_000_000);
    assert!(matches!(validated(&req(Some("a")), &unlimited), ValidateStep::Activate { .. }));
}

#[test]
fn a_key_that_is_bound_itself_holds_to_its_machine() {
    let bound = LicensePayload {
        flags: FLAG_FINGERPRINT_BOUND,
        fingerprint_hash: hash_fingerprint("a"),
        ..payload()
    };
    let mut f = facts(license(1));
    f.seat.activated = Some(s("m1"));
    let r = ValidateReq { key: issue_key(&signing(), &bound), ..req(Some("b")) };
    assert_eq!(answer(validated(&r, &f)).reason.as_deref(), Some("fingerprint_mismatch"));
    let r = ValidateReq { key: issue_key(&signing(), &bound), ..req(Some("a")) };
    assert!(answer(validated(&r, &f)).ok);
}

#[test]
fn requests_are_counted_by_client_or_by_key() {
    assert_eq!(client_ip(&Some(s(" 1.2.3.4 , 5.6.7.8"))).as_deref(), Some("1.2.3.4"));
    assert_eq!(client_ip(&None), None);
    assert_eq!(rate_bucket(&Some(s("ip")), "k"), "ip");
    assert_eq!(rate_bucket(&None, "LIC1-ABCDEFGHIJKLMNOPQRSTUVWXYZ"), "LIC1-ABCDEFGHIJKLMNOPQRS");
    assert_eq!(rate_bucket(&None, "short"), "short");
    let f = ValidateFacts { admitted: None, license: None, product: None, seat: no_seat() };
    assert!(matches!(validated(&req(None), &f), ValidateStep::ConsumeToken { .. }));
}

// ---------- machines ----------

fn activate_req() -> ActivateReq {
    ActivateReq { key: key(), fingerprint: s("a"), hostname: None, platform: None }
}

fn activate_facts(l: License) -> ActivateFacts {
    ActivateFacts { license: Some(Some(l)), seat: no_seat(), active_count: None }
}

#[test]
fn activation_decides_as_validation_does() {
    assert!(matches!(
        activate(&activate_req(), &public(), &activate_facts(license(1))),
        ActivateStep::Activate { bind: true, .. }
    ));
    let mut f = activate_facts(License { fingerprint: Some(s("z")), ..license(1) });
    assert!(matches!(
        activate(&activate_req(), &public(), &f),
        ActivateStep::CountInTheEnd { .. }
    ));
    f.active_count = Some(1);
    match activate(&activate_req(), &public(), &f) {
        ActivateStep::Answer { resp } => {
            assert!(!resp.ok);
            assert_eq!(resp.reason.as_deref(), Some("fingerprint_mismatch"));
            assert_eq!(resp.active_count, 1);
        }
        other => panic!("{other:?}"),
    }
}

#[test]
fn activation_stops_at_the_cap() {
    let mut f = activate_facts(license(2));
    f.seat.machine = Some(None);
    f.seat.active_machines = Some(2);
    match activate(&activate_req(), &public(), &f) {
        ActivateStep::Answer { resp } => {
            assert_eq!(resp.reason.as_deref(), Some("too_many_machines"));
            assert_eq!((resp.active_count, resp.max_machines), (2, 2));
        }
        other => panic!("{other:?}"),
    }
    f.seat.active_machines = Some(1);
    f.seat.activated = Some(s("m9"));
    f.active_count = Some(2);
    match activate(&activate_req(), &public(), &f) {
        ActivateStep::Answer { resp } => {
            assert!(resp.ok);
            assert_eq!(resp.machine_id.as_deref(), Some("m9"));
        }
        other => panic!("{other:?}"),
    }
}

#[test]
fn activation_needs_a_genuine_key_and_an_active_license() {
    let bad = ActivateReq { key: s("junk"), ..activate_req() };
    match activate(&bad, &public(), &activate_facts(license(1))) {
        ActivateStep::Refuse { error: AppError::BadRequest(w) } => assert!(w.starts_with("bad key: ")),
        other => panic!("{other:?}"),
    }
    let forged = ActivateReq {
        key: issue_key(&SigningKey::from_bytes([1u8; 32]), &payload()),
        ..activate_req()
    };
    match activate(&forged, &public(), &activate_facts(license(1))) {
        ActivateStep::Refuse { error } => {
            assert_eq!(error, AppError::BadRequest(s("signature verification failed")))
        }
        other => panic!("{other:?}"),
    }
    let f = ActivateFacts { license: Some(None), seat: no_seat(), active_count: None };
    match activate(&activate_req(), &public(), &f) {
        ActivateStep::Refuse { error } => {
            assert_eq!(error, AppError::NotFound(format!("license {LICENSE_ID}")))
        }
        other => panic!("{other:?}"),
    }
    let off = License { status: s("suspended"), ..license(3) };
    match activate(&activate_req(), &public(), &activate_facts(off)) {
        ActivateStep::Answer { resp } => {
            assert_eq!(resp.reason.as_deref(), Some("suspended"));
            assert_eq!((resp.ok, resp.active_count, resp.max_machines), (false, 0, 3));
        }
        other => panic!("{other:?}"),
    }
}

#[test]
fn signs_of_life_are_recorded() {
    let r = HeartbeatReq { key: key(), fingerprint: s("a") };
    let mut f = HeartbeatFacts { admitted: None, machine: None, recorded: false };
    assert!(matches!(
        heartbeat(&r, &public(), &f),
        HeartbeatStep::ConsumeToken { bucket } if bucket == LICENSE_ID
    ));
    f.admitted = Some(false);
    match heartbeat(&r, &public(), &f) {
        HeartbeatStep::Answer { resp } => assert_eq!(resp.reason.as_deref(), Some("rate_limited")),
        other => panic!("{other:?}"),
    }
    f.admitted = Some(true);
    f.machine = Some(None);
    match heartbeat(&r, &public(), &f) {
        HeartbeatStep::Answer { resp } => assert_eq!(resp.reason.as_deref(), Some("not_activated")),
        other => panic!("{other:?}"),
    }
    f.machine = Some(Some(Machine { id: s("m1"), license_id: s(LICENSE_ID) }));
    assert!(matches!(heartbeat(&r, &public(), &f), HeartbeatStep::Record { .. }));
    f.recorded = true;
    match heartbeat(&r, &public(), &f) {
        HeartbeatStep::Answer { resp } => {
            assert!(resp.ok);
            assert_eq!(resp.machine_id.as_deref(), Some("m1"));
        }
        other => panic!("{other:?}"),
    }
}

#[test]
fn a_freed_single_seat_can_be_bound_again() {
    let r = DeactivateReq { key: key(), fingerprint: s("a"), reason: None };
    let mut f = DeactivateFacts {
        machine: Some(Some(Machine { id: s("m1"), license_id: s(LICENSE_ID) })),
        deactivated: false,
        license: None,
        unbound: false,
    };
    match deactivate(&r, &public(), &f) {
        DeactivateStep::Deactivate { reason, machine_id, .. } => {
            assert_eq!((reason.as_str(), machine_id.as_str()), ("client_requested", "m1"));
        }
        other => panic!("{other:?}"),
    }
    f.deactivated = true;
    assert!(matches!(deactivate(&r, &public(), &f), DeactivateStep::FindLicense { .. }));
    f.license = Some(Some(License { fingerprint: Some(s("a")), ..license(1) }));
    assert!(matches!(deactivate(&r, &public(), &f), DeactivateStep::Unbind { .. }));
    f.unbound = true;
    assert!(matches!(
        deactivate(&r, &public(), &f),
        DeactivateStep::Answer { resp } if resp.ok
    ));
    f.license = Some(Some(license(3)));
    f.unbound = false;
    assert!(matches!(deactivate(&r, &public(), &f), DeactivateStep::Answer { .. }));
    f.machine = Some(None);
    match deactivate(&r, &public(), &f) {
        DeactivateStep::Answer { resp } => assert_eq!(resp.reason.as_deref(), Some("not_found")),
        other => panic!("{other:?}"),
    }
    assert!(matches!(
        activate(&ActivateReq { fingerprint: s("new"), ..activate_req() }, &public(), &activate_facts(license(1))),
        ActivateStep::Activate { bind: true, .. }
    ));
}

#[test]
fn machines_are_listed_for_the_operator() {
    let q = |id: Option<&str>, slug: Option<&str>, limit| AdminListQuery {
        license_id: None,
        product_id: id.map(|x| x.to_string()),
        product_slug: slug.map(|x| x.to_string()),
        include_inactive: false,
        limit,
    };
    let shown = |q: AdminListQuery| match admin_list(&q, &None) {
        AdminListStep::List { product_id, limit } => (product_id, limit),
        other => panic!("{other:?}"),
    };
    assert_eq!(shown(q(None, None, None)), (None, 500));
    assert_eq!(shown(q(None, None, Some(0))), (None, 1));
    assert_eq!(shown(q(None, None, Some(9999))), (None, 5000));
    assert_eq!(shown(q(Some("p"), Some("app"), None)), (Some(s("p")), 500));
    let by_slug = q(None, Some("app"), None);
    assert!(matches!(admin_list(&by_slug, &None), AdminListStep::FindProduct { .. }));
    assert!(matches!(
        admin_list(&by_slug, &Some(None)),
        AdminListStep::Refuse { error: AppError::NotFound(w) } if w == "product 'app'"
    ));
    assert!(matches!(
        admin_list(&by_slug, &Some(Some(product()))),
        AdminListStep::List { product_id: Some(id), .. } if id == PRODUCT_ID
    ));
}

#[test]
fn the_operator_frees_a_seat() {
    let m = Some(Machine { id: s("m1"), license_id: s("l1") });
    let why = AdminDeactivateReq { reason: s("") };
    let d = admin_deactivate("m1", &why, &m, &Some(license(1))).unwrap();
    assert_eq!((d.reason.as_str(), d.license_id.as_str()), ("admin deactivate", "l1"));
    assert!(d.unbind);
    assert!(!admin_deactivate("m1", &why, &m, &Some(license(3))).unwrap().unbind);
    assert_eq!(
        admin_deactivate("m1", &AdminDeactivateReq { reason: s("x") }, &None, &None).unwrap_err(),
        AppError::NotFound(s("machine m1"))
    );
}

// ---------- notices of payment ----------

fn event(kind: EventKind) -> Option<ProviderWebhookEvent> {
    Some(ProviderWebhookEvent { kind, provider_invoice_id: Some(s("b1")) })
}

fn nothing_known() -> WebhookFacts {
    WebhookFacts {
        confirmation: None,
        status_stored: false,
        invoice: None,
        redemption: None,
        redemption_cancelled: false,
        amount_audited: false,
        tier_change: None,
        subscription_renewed: false,
        license_exists: None,
    }
}

fn invoice() -> Invoice {
    Invoice {
        id: s("i1"),
        btcpay_invoice_id: s("b1"),
        product_id: s(PRODUCT_ID),
        policy_id: Some(s("p1")),
        amount_sats: 50_000,
        status: s("settled"),
        buyer_email: Some(s("a@b.c")),
        listed_currency: None,
        listed_value: None,
        payment_provider_id: None,
    }
}

fn settled() -> WebhookFacts {
    WebhookFacts {
        confirmation: Some(Confirmation::Settled { amount: None }),
        status_stored: true,
        invoice: Some(Some(invoice())),
        amount_audited: true,
        tier_change: Some(None),
        subscription_renewed: true,
        license_exists: Some(false),
        ..nothing_known()
    }
}

#[test]
fn a_payment_is_confirmed_with_the_provider_first() {
    let e = event(EventKind::InvoiceSettled);
    assert!(matches!(handle(&e, &nothing_known()), WebhookStep::Confirm { .. }));
    for c in [Confirmation::NotSettled, Confirmation::Unreachable] {
        let f = WebhookFacts { confirmation: Some(c), ..nothing_known() };
        let step = handle(&e, &f);
        assert!(!matches!(
            step,
            WebhookStep::IssueLicense { .. } | WebhookStep::StoreStatus { .. }
        ));
    }
}

#[test]
fn a_settled_invoice_gets_one_license() {
    let e = event(EventKind::InvoiceSettled);
    let first = WebhookFacts { subscription_renewed: false, ..settled() };
    assert!(matches!(handle(&e, &first), WebhookStep::RenewSubscription { .. }));
    assert!(matches!(handle(&e, &settled()), WebhookStep::IssueLicense { invoice_id } if invoice_id == "i1"));
    let again = WebhookFacts { license_exists: Some(true), ..settled() };
    assert!(matches!(handle(&e, &again), WebhookStep::Acknowledge));
}

#[test]
fn an_invoice_that_expired_frees_its_code() {
    let e = event(EventKind::InvoiceExpired);
    let f = WebhookFacts {
        status_stored: true,
        invoice: Some(Some(invoice())),
        redemption: Some(Some(Redemption {
            id: s("r1"),
            code_id: s("c1"),
            invoice_id: s("i1"),
            discount_applied_sats: 0,
            base_price_sats: 0,
            final_price_sats: 0,
        })),
        ..nothing_known()
    };
    assert!(matches!(
        handle(&e, &f),
        WebhookStep::CancelRedemption { redemption_id } if redemption_id == "r1"
    ));
    let done = WebhookFacts { redemption_cancelled: true, ..f };
    assert!(matches!(handle(&e, &done), WebhookStep::Acknowledge));
}

#[test]
fn other_notices_are_acknowledged() {
    assert!(matches!(handle(&event(EventKind::Other), &nothing_known()), WebhookStep::Acknowledge));
    assert!(matches!(handle(&None, &nothing_known()), WebhookStep::Reject { .. }));
}

#[test]
fn amounts_that_differ_are_noted() {
    let sats = |n| Some(Money { currency: s("SAT"), amount: n });
    assert!(audit_settle_amount(&invoice(), &sats(50_000)).is_none());
    let m = audit_settle_amount(&invoice(), &sats(49_999)).unwrap();
    assert_eq!((m.expected_amount_sats, m.provider_amount), (50_000, 49_999));
    let cents = Some(Money { currency: s("USD"), amount: 50_000 });
    assert_eq!(audit_settle_amount(&invoice(), &cents).unwrap().provider_currency, "USD");
    assert!(audit_settle_amount(&invoice(), &None).is_none());
}

fn policy() -> Policy {
    Policy {
        id: s("p1"),
        product_id: s(PRODUCT_ID),
        slug: s("pro"),
        name: s("Pro"),
        active: true,
        public: true,
        duration_seconds: 3600,
        grace_seconds: 7,
        max_machines: 3,
        is_trial: false,
        price_sats_override: None,
        entitlements: vec![s("pro")],
        display: PolicyDisplay {
            description: s(""),
            highlight: false,
            marketing_bullets: vec![],
            marketing_bullets_position: None,
            hidden_entitlements: vec![],
        },
        tip_recipient: None,
        tip_pct_bps: 0,
        tip_label: None,
        is_recurring: false,
        renewal_period_days: 0,
        grace_period_days: 0,
        trial_days: 0,
        tier_rank: None,
    }
}

#[test]
fn a_license_is_issued_on_its_policys_terms() {
    let i = issue_license_for_invoice(&invoice(), &Some(policy()), &vec![], &NOW);
    assert_eq!(i.terms.expires_at.as_deref(), Some("2023-11-14T23:13:20+00:00"));
    assert_eq!((i.terms.grace_seconds, i.terms.max_machines), (7, 3));
    assert_eq!(i.terms.entitlements, vec![s("pro")]);
    assert!(i.subscription.is_none());
    assert!(!i.tip);
    let row = purchased_row(&invoice(), &i, LICENSE_ID);
    assert_eq!((row.id.as_str(), &row.invoice_id), (LICENSE_ID, &Some(invoice().id)));
    assert_eq!(row.terms.entitlements, vec![s("pro")]);
    assert_eq!(row.buyer_email, invoice().buyer_email);
    assert_eq!(
        row.metadata(),
        vec![("source", Some(s("purchase"))), ("btcpay_invoice_id", Some(s("b1")))]
    );
}

#[test]
fn a_recurring_policy_begins_a_subscription() {
    let p = Policy { is_recurring: true, renewal_period_days: 30, trial_days: 7, ..policy() };
    assert!(can_issue(&invoice(), &Some(p.clone()), &vec![], &NOW));
    let i = issue_license_for_invoice(&invoice(), &Some(p.clone()), &vec![], &NOW);
    assert_eq!(i.next_renewal_at.as_deref(), Some("2023-11-21T22:13:20+00:00"));
    let endless = Policy { trial_days: i64::MAX, ..p };
    assert!(!can_issue(&invoice(), &Some(endless), &vec![], &NOW));
    let sub = i.subscription.unwrap();
    assert_eq!((sub.period_days, sub.first_cycle_days), (30, 7));
    assert_eq!(first_renewal(&sub, &NOW).as_deref(), Some("2023-11-21T22:13:20+00:00"));
}

#[test]
fn a_tier_change_is_applied_once_it_is_paid() {
    let change = TierChangeRow {
        id: s("t1"),
        license_id: s(LICENSE_ID),
        from_policy_id: s("p0"),
        to_policy_id: s("p1"),
        direction: s("upgrade"),
        actor: s("buyer"),
    };
    let mut f = TierChangeFacts {
        license: Some(Some(License { policy_id: Some(s("p0")), ..license(1) })),
        target_policy: Some(Some(policy())),
        product: Some(Some(product())),
    };
    match apply_tier_change_on_settle("i1", &change, &f) {
        TierChangeStep::Apply { event } => {
            assert_eq!((event.to_policy_id.as_str(), event.to_policy_slug.as_str()), ("p1", "pro"));
            assert_eq!((event.invoice_id.as_str(), event.actor.as_str()), ("i1", "buyer"));
            assert_eq!(event.tier_change_id, "t1");
        }
        other => panic!("{other:?}"),
    }
    f.license = Some(Some(License { policy_id: Some(s("p1")), ..license(1) }));
    assert!(matches!(apply_tier_change_on_settle("i1", &change, &f), TierChangeStep::AlreadyApplied));
    f.license = Some(None);
    assert!(matches!(apply_tier_change_on_settle("i1", &change, &f), TierChangeStep::Fail { .. }));
}

#[test]
fn issuing_a_license_is_seen_through() {
    let p = Policy {
        is_recurring: true,
        renewal_period_days: 30,
        tip_recipient: Some(s("a@b.c")),
        tip_pct_bps: 100,
        ..policy()
    };
    let i = issue_license_for_invoice(&invoice(), &Some(p), &vec![], &NOW);
    let mut f = IssuedFacts {
        subscription_exists: None,
        profile_id: None,
        subscription_opened: false,
        tip_started: false,
        license_announced: false,
        redemption: None,
        redemption_marked: false,
        code: None,
        redemption_announced: false,
    };
    let next = |f: &IssuedFacts| after_issuing(&i, "l1", f);
    assert!(matches!(next(&f), IssuedStep::FindSubscription { .. }));
    f.subscription_exists = Some(false);
    assert!(matches!(next(&f), IssuedStep::FindProfile { .. }));
    f.profile_id = Some(Some(s("mp")));
    assert!(matches!(
        next(&f),
        IssuedStep::OpenSubscription { profile_id: Some(id), .. } if id == "mp"
    ));
    f.subscription_opened = true;
    assert!(matches!(next(&f), IssuedStep::StartTip { amount_sats: 50_000, .. }));
    f.tip_started = true;
    match next(&f) {
        IssuedStep::AnnounceLicense { event } => {
            assert_eq!((event.license_id.as_str(), event.invoice_id.as_str()), ("l1", "i1"));
            assert_eq!(event.entitlements, vec![s("pro")]);
        }
        other => panic!("{other:?}"),
    }
    f.license_announced = true;
    assert!(matches!(next(&f), IssuedStep::FindRedemption { .. }));
    let none = IssuedFacts { redemption: Some(None), ..f.clone() };
    assert!(matches!(next(&none), IssuedStep::Done));
    f.redemption = Some(Some(Redemption {
        id: s("r1"),
        code_id: s("c1"),
        invoice_id: s("i1"),
        discount_applied_sats: 10,
        base_price_sats: 110,
        final_price_sats: 100,
    }));
    assert!(matches!(next(&f), IssuedStep::MarkRedeemed { .. }));
    f.redemption_marked = true;
    assert!(matches!(next(&f), IssuedStep::FindCode { code_id } if code_id == "c1"));
    f.code = Some(Some(s("SAVE")));
    match next(&f) {
        IssuedStep::AnnounceRedemption { event } => {
            assert_eq!(event.code.as_deref(), Some("SAVE"));
            assert_eq!((event.discount_applied_sats, event.final_price_sats), (10, 100));
        }
        other => panic!("{other:?}"),
    }
    f.redemption_announced = true;
    assert!(matches!(next(&f), IssuedStep::Done));
}
