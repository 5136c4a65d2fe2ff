//! Pages, and text inside them.

use keysat::api::buy_page::{
    build_tiers_json, format_cents, format_thousands, html_escape, initial_policy, not_found_html,
    render, render_tier_picker, BuyPageQuery,
};
use keysat::api::openapi::SPEC_JSON;
use keysat::api::thank_you::thank_you;
use keysat::html::escape;
use keysat::models::{CatalogEntry, DiscountCode, Policy, PolicyDisplay, Product};

fn s(t: &str) -> String {
    t.to_string()
}

#[test]
fn spec_json_parses() {
    let v: serde_json::Value = serde_json::from_str(SPEC_JSON).expect("spec parses as JSON");
    assert_eq!(v.get("openapi").and_then(|x| x.as_str()), Some("3.1.0"));
    assert!(v.get("paths").and_then(|p| p.as_object()).map(|m| !m.is_empty()).unwrap_or(false));
    assert!(v.pointer("/components/schemas/License").is_some());
}

fn product() -> Product {
    Product {
        id: s("prod"),
        slug: s("app"),
        name: s("App & <Co>"),
        description: s("\"Fine\""),
        active: true,
        price_sats: 50_000,
        price_currency: s("SAT"),
        price_value: 4900,
        entitlements_catalog: Some(vec![CatalogEntry {
            slug: s("sync"),
            name: s("Cloud sync"),
            description: s("Keeps \"all\""),
        }]),
    }
}

fn policy(slug: &str) -> Policy {
    Policy {
        id: format!("id-{slug}"),
        product_id: s("prod"),
        slug: s(slug),
        name: format!("Tier {slug}"),
        active: true,
        public: true,
        duration_seconds: 0,
        grace_seconds: 0,
        max_machines: 1,
        is_trial: false,
        price_sats_override: None,
        entitlements: vec![s("sync"), s("secret"), s("raw")],
        display: PolicyDisplay {
            description: s(""),
            highlight: false,
            marketing_bullets: vec![s(" Fast "), s("  ")],
            marketing_bullets_position: None,
            hidden_entitlements: vec![s("secret")],
        },
        tip_recipient: None,
        tip_pct_bps: 0,
        tip_label: None,
        is_recurring: false,
        renewal_period_days: 0,
        grace_period_days: 0,
        trial_days: 0,
        tier_rank: None,
    }
}

fn code(kind: &str, amount: i64) -> DiscountCode {
    DiscountCode {
        id: s("c1"),
        code: s("LAUNCH"),
        kind: s(kind),
        amount,
        active: true,
        max_uses: Some(10),
        used_count: 4,
        expires_at: None,
        applies_to_product_id: None,
        applies_to_policy_id: None,
        applies_to_policy_ids: vec![],
        referrer_label: None,
        description: s(""),
        featured: true,
    }
}

#[test]
fn text_is_escaped() {
    assert_eq!(html_escape("<a href=\"x\">'&'</a>"), "&lt;a href=&quot;x&quot;&gt;'&amp;'&lt;/a&gt;");
    assert_eq!(escape("'&\"", true, true), "&#39;&amp;&quot;");
    assert_eq!(escape("'\"", false, false), "'\"");
}

#[test]
fn numbers_are_easy_to_read() {
    assert_eq!(format_thousands(0), "0");
    assert_eq!(format_thousands(999), "999");
    assert_eq!(format_thousands(50_000), "50,000");
    assert_eq!(format_thousands(1_234_567), "1,234,567");
    assert_eq!(format_cents(4900), "49.00");
    assert_eq!(format_cents(5), "0.05");
    assert_eq!(format_cents(-150), "-1.50");
}

#[test]
fn one_tier_needs_no_cards() {
    let p = vec![policy("a")];
    assert_eq!(render_tier_picker(&p, Some(&p[0]), &product(), &vec![None]), "");
}

#[test]
fn a_card_shows_what_its_tier_offers() {
    let p = vec![policy("a"), policy("b")];
    let html = render_tier_picker(&p, Some(&p[0]), &product(), &vec![None, None]);
    assert_eq!(
        html,
        format!(
            "<div class=\"tiers tiers-2\">{}{}</div>",
            card("tier selected", "a"),
            card("tier", "b")
        )
    );
}

fn card(classes: &str, slug: &str) -> String {
    format!(
        "<div class=\"{classes}\" data-policy-slug=\"{slug}\"><div class=\"tier-name\">Tier {slug}</div>\
         <div class=\"tier-price\">50,000<span class=\"tier-price-unit\">sats</span></div>\
         <div class=\"tier-meta\">Perpetual</div>\
         <ul class=\"tier-bullets\"><li>Fast</li></ul>\
         <ul class=\"tier-entitlements\"><li title=\"Keeps &quot;all&quot;\">Cloud sync</li><li>raw</li></ul>\
         <button type=\"button\" class=\"tier-select-btn\">Select</button></div>"
    )
}

#[test]
fn hidden_features_stay_hidden() {
    let p = vec![policy("a"), policy("b")];
    let html = render_tier_picker(&p, None, &product(), &vec![None, None]);
    assert!(!html.contains("secret"));
}

#[test]
fn a_featured_code_lowers_the_price_on_the_card() {
    let p = vec![policy("a"), policy("b")];
    let html =
        render_tier_picker(&p, None, &product(), &vec![Some(code("percent", 2000)), None]);
    assert!(html.contains("tier has-launch"));
    assert!(html.contains("<div class=\"tier-launch-ribbon\">20% OFF</div>"));
    assert!(html.contains("Limited: 6 of 10 remaining"));
    assert!(html.contains(
        "<div class=\"tier-price-original\">50,000<span class=\"tier-price-original-unit\">sats</span></div>"
    ));
    assert!(html.contains("<div class=\"tier-price\">40,000<span"));
    for (kind, words) in
        [("free_license", "FREE"), ("set_price", "LIMITED PRICE"), ("fixed_sats", "LAUNCH SPECIAL")]
    {
        let html = render_tier_picker(&p, None, &product(), &vec![Some(code(kind, 1)), None]);
        assert!(html.contains(&format!("<div class=\"tier-launch-ribbon\">{words}</div>")));
    }
}

#[test]
fn subscriptions_show_their_rhythm() {
    let month = Policy {
        is_recurring: true,
        renewal_period_days: 30,
        trial_days: 7,
        duration_seconds: 5400,
        is_trial: true,
        ..policy("a")
    };
    let odd = Policy {
        is_recurring: true,
        renewal_period_days: 45,
        duration_seconds: 172_800,
        ..policy("b")
    };
    let html = render_tier_picker(&vec![month, odd], None, &product(), &vec![None, None]);
    assert!(html.contains("sats/mo</span>"));
    assert!(html.contains("Renews monthly"));
    assert!(html.contains("7 day free trial"));
    assert!(html.contains("<div class=\"tier-meta\">1 hours</div>"));
    assert!(html.contains(">Trial</div>"));
    assert!(html.contains("Renews every 45 days"));
    assert!(html.contains("<div class=\"tier-meta\">2 days</div>"));
}

#[test]
fn points_can_stand_below_the_features() {
    let mut below = policy("a");
    below.display.marketing_bullets_position = Some(s("below"));
    below.display.description = s("Best & <b>");
    below.display.highlight = true;
    let html = render_tier_picker(&vec![below, policy("b")], None, &product(), &vec![None, None]);
    let first = &html[..html.find("Tier b").unwrap()];
    assert!(first.find("tier-entitlements").unwrap() < first.find("tier-bullets").unwrap());
    assert!(first.contains("<p class=\"tier-description\">Best &amp; &lt;b&gt;</p>"));
    assert!(first.contains("Most popular"));
}

#[test]
fn other_currencies_are_shown_with_decimals() {
    let euro = Product { price_currency: s("EUR"), ..product() };
    let html = render_tier_picker(&vec![policy("a"), policy("b")], None, &euro, &vec![None, None]);
    assert!(html.contains("49.00<span class=\"tier-price-unit\">EUR</span>"));
}

#[test]
fn the_tier_at_first_is_the_one_asked_for() {
    let mut tiers = vec![policy("a"), policy("b"), policy("c")];
    assert_eq!(initial_policy(&tiers, &None).unwrap().slug, "a");
    tiers[1].display.highlight = true;
    assert_eq!(initial_policy(&tiers, &None).unwrap().slug, "b");
    assert_eq!(initial_policy(&tiers, &Some(s("c"))).unwrap().slug, "c");
    assert_eq!(initial_policy(&tiers, &Some(s("zzz"))).unwrap().slug, "b");
    assert!(initial_policy(&vec![], &None).is_none());
}

#[test]
fn the_script_gets_the_tiers() {
    let json = build_tiers_json(&vec![policy("a")], &product());
    let v: serde_json::Value = serde_json::from_str(&json).unwrap();
    assert_eq!(v["a"]["name"], "Tier a");
    assert_eq!(v["a"]["price_sats"], 50_000);
    assert_eq!(v["a"]["price_value"], 4900);
    assert_eq!(v["a"]["price_currency"], "SAT");
    assert_eq!(v["a"]["is_recurring"], false);
    assert_eq!(v["a"]["trial_days"], 0);
    assert_eq!(build_tiers_json(&vec![], &product()), "{}");
}

#[test]
fn a_product_on_sale_has_a_page() {
    let q = BuyPageQuery { policy: None };
    let html = render(
        "app",
        &q,
        &Some(product()),
        &None,
        &Some(s("Acme")),
        &vec![policy("a"), policy("b")],
        &vec![None, None],
    )
    .unwrap();
    assert!(html.contains("<title>Buy App &amp; &lt;Co&gt; — Acme</title>"));
    assert!(html.contains("<span id=\"price-current\">50,000</span><span class=\"unit\">sats</span>"));
    assert!(html.contains("const PRODUCT_SLUG = \"app\";"));
    assert!(html.contains("let selectedPolicy = \"a\" || null;"));
    assert!(html.contains("&quot;Fine&quot;"));
    assert!(html.ends_with("</html>\n"));
}

#[test]
fn a_product_off_sale_has_none() {
    let q = BuyPageQuery { policy: None };
    let off = Some(Product { active: false, ..product() });
    let nothing = |found: &Option<Product>| {
        render("a<b", &q, found, &None, &None, &vec![], &vec![]).unwrap_err()
    };
    assert_eq!(nothing(&off), nothing(&None));
    assert_eq!(nothing(&None), not_found_html("a<b"));
    assert!(nothing(&None).contains("<code>a&lt;b</code>"));
}

#[test]
fn buyers_wait_for_their_license() {
    let html = thank_you(&Some(s("inv\"1")), &None, &None);
    assert!(html.contains("<title>Payment received — Keysat</title>"));
    assert!(html.contains("const INVOICE_ID = \"inv\\\"1\";"));
    let odd = thank_you(&Some(s("\u{1f}\n\t\r\u{8}\u{c}\\/⚡\u{7f}")), &None, &None);
    assert!(odd.contains(
        "const INVOICE_ID = \"\\u001f\\n\\t\\r\\b\\f\\\\/⚡\u{7f}\";"
    ));
    let named = thank_you(&None, &Some(s("A'B")), &Some(s("Env")));
    assert!(named.contains("Sold by A&#39;B"));
    assert!(named.contains("const INVOICE_ID = \"\";"));
}

#[test]
fn escaped_text_joins_and_is_read_back() {
    let (a, b) = ("a<'", "&amp;\">");
    let joined = format!("{a}{b}");
    for (quotes, apostrophes) in [(false, false), (true, false), (true, true)] {
        let text = escape(&joined, quotes, apostrophes);
        assert_eq!(
            text,
            format!("{}{}", escape(a, quotes, apostrophes), escape(b, quotes, apostrophes))
        );
        assert_eq!(html_escape::decode_html_entities(&text), joined);
    }
    assert_eq!(escape("a<'&\"", true, true), "a&lt;&#39;&amp;&quot;");
}
