//! The page where a license is bought.
//!
//! A product with two public tiers or more shows a card for each; the one that
//! is chosen at first is the one that a link asked for, or else the recommended
//! one, or else the cheapest.

use crate::api::buy_template::{
    BUY_DESCRIPTION, BUY_FORM, BUY_HEAD, BUY_HEADING, BUY_INITIAL_TIER, BUY_PRICE, BUY_SCRIPT,
    BUY_SLUG, BUY_STYLE, BUY_TIERS, BUY_TIER_MAP, BUY_TITLE_OPERATOR, BUY_UNIT, NOT_FOUND_HEAD,
    NOT_FOUND_REST,
};
use crate::api::purchase::{
    compute_discount, discount_for, discount_stays_within_price, is_purchase_step, max_of,
    price_after, typed_code, wanted_slug, PurchaseFacts, PurchaseStep, StartPurchaseReq,
};
use crate::api::thank_you::{operator_shown, shown_operator};
use crate::clock::Moment;
use crate::codec::{
    fields_of, json_objects, json_string, members_of, objects_to_json, string_to_json, JsonMember,
    JsonScalar, ScalarModel,
};
use crate::html::{escape, escaped};
use crate::models::{CatalogEntry, DiscountCode, Policy, Product};
use crate::text::{
    cat2, cat3, cat4, cat5, chars_of, int_text, int_to_text, is_blank, is_one_of, nat_text,
    nat_to_text, same, text_between, texts, trim, trimmed,
};
use vstd::prelude::*;

verus! {

/// Which tier a link asks for.
#[derive(Clone, Debug)]
pub struct BuyPageQuery {
    pub policy: Option<String>,
}

/// A text as it stands on the page.
pub open spec fn html_text(s: Seq<char>) -> Seq<char> {
    escaped(s, true, false)
}

/// A text as it stands on the page.
pub fn html_escape(s: &str) -> (r: String)
    ensures
        r@ == html_text(s@),
{
    escape(s, true, false)
}

// ---------- numbers ----------

/// A number in decimal with a comma before every three characters, counted from
/// the end.
pub open spec fn grouped(digits: Seq<char>) -> Seq<char>
    decreases digits.len(),
{
    if digits.len() <= 3 {
        digits
    } else {
        grouped(digits.take(digits.len() - 3)) + ","@ + digits.skip(digits.len() - 3)
    }
}

fn group(v: &Vec<char>, n: usize) -> (r: String)
    requires
        n <= v@.len(),
    ensures
        r@ == grouped(v@.take(n as int)),
    decreases n,
{
    let ghost digits = v@.take(n as int);
    if n <= 3 {
        let out: String = text_between(v, 0, n);
        assert(v@.subrange(0, n as int) =~= digits);
        return out;
    }
    let head: String = group(v, n - 3);
    let tail: String = text_between(v, n - 3, n);
    assert(digits.take(n - 3) =~= v@.take(n - 3));
    assert(digits.skip(n - 3) =~= v@.subrange(n - 3, n as int));
    cat3(head.as_str(), ",", tail.as_str())
}

/// A number with commas, so that it is easy to read.
pub fn format_thousands(n: i64) -> (r: String)
    ensures
        r@ == grouped(int_text(n as int)),
{
    let digits: String = int_to_text(n);
    let v: Vec<char> = chars_of(digits.as_str());
    assert(v@.take(v@.len() as int) =~= v@);
    group(&v, v.len())
}

/// A quotient rounded towards zero.
pub open spec fn towards_zero(n: int, d: int) -> int {
    if n < 0 {
        -((-n) / d)
    } else {
        n / d
    }
}

/// A number below a hundred, as two digits.
pub open spec fn two_digits(n: nat) -> Seq<char> {
    if n < 10 {
        "0"@ + nat_text(n)
    } else {
        nat_text(n)
    }
}

/// A size without its sign.
pub open spec fn size_of(n: int) -> nat {
    if n < 0 {
        (-n) as nat
    } else {
        n as nat
    }
}

/// An amount in hundredths, with two decimals.
pub open spec fn decimal_text(cents: int) -> Seq<char> {
    int_text(towards_zero(cents, 100)) + "."@ + two_digits(size_of(cents) % 100)
}

fn size(n: i64) -> (r: u64)
    ensures
        r == size_of(n as int),
{
    if n < 0 {
        (-(n as i128)) as u64
    } else {
        n as u64
    }
}

fn hundredth(n: i64) -> (r: i64)
    ensures
        r == towards_zero(n as int, 100),
{
    let whole: u64 = size(n) / 100;
    if n < 0 {
        -(whole as i64)
    } else {
        whole as i64
    }
}

/// An amount in hundredths, with two decimals.
pub fn format_cents(cents: i64) -> (r: String)
    ensures
        r@ == decimal_text(cents as int),
{
    let rest: u64 = size(cents) % 100;
    let main: String = int_to_text(hundredth(cents));
    let digits: String = nat_to_text(rest);
    if rest < 10 {
        let padded: String = cat2("0", digits.as_str());
        cat3(main.as_str(), ".", padded.as_str())
    } else {
        cat3(main.as_str(), ".", digits.as_str())
    }
}

/// An amount of a currency as it is shown.
pub open spec fn amount_text(currency: Seq<char>, amount: int) -> Seq<char> {
    if currency == "SAT"@ {
        grouped(int_text(amount))
    } else {
        decimal_text(amount)
    }
}

/// The unit of a currency as it is shown.
pub open spec fn unit_text(currency: Seq<char>) -> Seq<char> {
    if currency == "SAT"@ {
        "sats"@
    } else {
        currency
    }
}

fn format_amount(currency: &str, amount: i64) -> (r: String)
    ensures
        r@ == amount_text(currency@, amount as int),
{
    if same(currency, "SAT") {
        format_thousands(amount)
    } else {
        format_cents(amount)
    }
}

fn unit_of(currency: &str) -> (r: String)
    ensures
        r@ == unit_text(currency@),
{
    if same(currency, "SAT") {
        String::from_str("sats")
    } else {
        String::from_str(currency)
    }
}

// ---------- the price of a tier ----------

/// A tier's price in the smallest unit of the product's currency.
pub open spec fn base_units(p: Policy, product: Product) -> i64 {
    match p.price_sats_override {
        Some(n) => n,
        None => if product.price_currency@ == "SAT"@ {
            product.price_sats
        } else {
            product.price_value
        },
    }
}

fn base_of(p: &Policy, product: &Product) -> (r: i64)
    ensures
        r == base_units(*p, *product),
{
    match p.price_sats_override {
        Some(n) => n,
        None => if same(product.price_currency.as_str(), "SAT") {
            product.price_sats
        } else {
            product.price_value
        },
    }
}

/// A tier's price with its featured code taken off.
pub open spec fn shown_units(p: Policy, product: Product, featured: Option<DiscountCode>) -> int {
    let base = base_units(p, product) as int;
    match featured {
        Some(code) => max_of(base - discount_for(code.kind@, code.amount as int, base), 0),
        None => max_of(base, 0),
    }
}

fn shown_price(p: &Policy, product: &Product, featured: &Option<DiscountCode>) -> (r: i64)
    ensures
        r == shown_units(*p, *product, *featured),
{
    let base: i64 = base_of(p, product);
    let discount: i64 = match featured {
        Some(code) => compute_discount(code.kind.as_str(), code.amount, base),
        None => 0,
    };
    if base < 0 {
        return 0;
    }
    proof {
        if let Some(code) = featured {
            discount_stays_within_price(code.kind@, code.amount as int, base as int);
        }
    }
    base - discount
}

/// The price in sats that a tier's card shows is what a buyer who types no code
/// is charged: with the featured code where one is applied, unless nothing is
/// left of the price (then it is one sat), and without it where none is.
pub proof fn shown_price_is_charged(
    req: StartPurchaseReq,
    facts: PurchaseFacts,
    now: Moment,
    step: PurchaseStep,
    product: Product,
    p: Policy,
)
    requires
        is_purchase_step(req, facts, now, step),
        facts.product == Some(Some(product)),
        wanted_slug(req.policy_slug) is Some,
        facts.policy == Some(Some(p)),
        typed_code(req.code) is None,
        product.price_currency@ == "SAT"@,
    ensures
        step matches PurchaseStep::Charge { sale } ==> sale.price == shown_units(p, product, None),
        step matches PurchaseStep::Reserve { sale, .. } ==> {
            let code = facts.featured->0->0;
            let off = discount_for(code.kind@, code.amount as int, sale.base_price as int);
            let shown = shown_units(p, product, Some(code));
            price_after(sale.base_price as int, off) == max_of(shown, 1)
        },
{
    if step is Reserve {
        let code = facts.featured->0->0;
        discount_stays_within_price(
            code.kind@,
            code.amount as int,
            base_units(p, product) as int,
        );
    }
}

// ---------- a featured code ----------

/// What a featured code's ribbon says.
pub open spec fn tagline(code: DiscountCode) -> Seq<char> {
    if code.kind@ == "percent"@ {
        int_text(towards_zero(code.amount as int, 100)) + "% OFF"@
    } else if code.kind@ == "free_license"@ {
        "FREE"@
    } else if code.kind@ == "set_price"@ {
        "LIMITED PRICE"@
    } else {
        "LAUNCH SPECIAL"@
    }
}

fn tagline_of(code: &DiscountCode) -> (r: String)
    ensures
        r@ == tagline(*code),
{
    let kind: &str = code.kind.as_str();
    if same(kind, "percent") {
        let percent: String = int_to_text(hundredth(code.amount));
        cat2(percent.as_str(), "% OFF")
    } else if same(kind, "free_license") {
        String::from_str("FREE")
    } else if same(kind, "set_price") {
        String::from_str("LIMITED PRICE")
    } else {
        String::from_str("LAUNCH SPECIAL")
    }
}

/// How many uses of a featured code are left, where that is limited and some
/// are.
pub open spec fn remaining_html(code: DiscountCode) -> Seq<char> {
    match code.max_uses {
        Some(m) if m - code.used_count > 0 => "<div class=\"tier-launch-meta\">Limited: "@
            + nat_text((m - code.used_count) as nat) + " of "@ + int_text(m as int)
            + " remaining</div>"@,
        _ => ""@,
    }
}

fn remaining_of(code: &DiscountCode) -> (r: String)
    ensures
        r@ == remaining_html(*code),
{
    if let Some(m) = code.max_uses {
        let left: i128 = m as i128 - code.used_count as i128;
        if left > 0 {
            let left: String = nat_to_text(left as u64);
            let all: String = int_to_text(m);
            return cat5(
                "<div class=\"tier-launch-meta\">Limited: ",
                left.as_str(),
                " of ",
                all.as_str(),
                " remaining</div>",
            );
        }
    }
    String::from_str("")
}

/// A featured code's ribbon.
pub open spec fn ribbon_html(featured: Option<DiscountCode>) -> Seq<char> {
    match featured {
        Some(code) => "<div class=\"tier-launch-ribbon\">"@ + html_text(tagline(code)) + "</div>"@
            + remaining_html(code),
        None => ""@,
    }
}

fn ribbon(featured: &Option<DiscountCode>) -> (r: String)
    ensures
        r@ == ribbon_html(*featured),
{
    match featured {
        Some(code) => {
            let words: String = html_escape(tagline_of(code).as_str());
            cat4(
                "<div class=\"tier-launch-ribbon\">",
                words.as_str(),
                "</div>",
                remaining_of(code).as_str(),
            )
        },
        None => String::from_str(""),
    }
}

/// The price before a featured code was taken off.
pub open spec fn original_html(p: Policy, product: Product, featured: Option<DiscountCode>) -> Seq<
    char,
> {
    match featured {
        Some(_) => "<div class=\"tier-price-original\">"@ + amount_text(
            product.price_currency@,
            base_units(p, product) as int,
        ) + "<span class=\"tier-price-original-unit\">"@ + unit_text(product.price_currency@)
            + "</span></div>"@,
        None => ""@,
    }
}

fn original(p: &Policy, product: &Product, featured: &Option<DiscountCode>) -> (r: String)
    ensures
        r@ == original_html(*p, *product, *featured),
{
    match featured {
        Some(_) => {
            let currency: &str = product.price_currency.as_str();
            let price: String = format_amount(currency, base_of(p, product));
            let unit: String = unit_of(currency);
            cat5(
                "<div class=\"tier-price-original\">",
                price.as_str(),
                "<span class=\"tier-price-original-unit\">",
                unit.as_str(),
                "</span></div>",
            )
        },
        None => String::from_str(""),
    }
}

// ---------- what a tier offers ----------

/// The points that a tier is advertised with, those that are blank left out.
pub open spec fn bullet_items(v: Seq<String>) -> Seq<char>
    decreases v.len(),
{
    if v.len() == 0 {
        ""@
    } else {
        let before = bullet_items(v.drop_last());
        let point = trimmed(v.last()@);
        if point.len() == 0 {
            before
        } else {
            before + "<li>"@ + html_text(point) + "</li>"@
        }
    }
}

/// The list of the points that a tier is advertised with.
pub open spec fn bullets_html(v: Seq<String>) -> Seq<char> {
    if bullet_items(v).len() == 0 {
        ""@
    } else {
        "<ul class=\"tier-bullets\">"@ + bullet_items(v) + "</ul>"@
    }
}

fn bullets(v: &Vec<String>) -> (r: String)
    ensures
        r@ == bullets_html(v@),
{
    let mut items: String = String::from_str("");
    for i in 0..v.len()
        invariant
            items@ == bullet_items(v@.take(i as int)),
    {
        proof {
            assert(v@.take(i + 1).drop_last() == v@.take(i as int));
        }
        let point: &str = trim(v[i].as_str());
        if point.unicode_len() > 0 {
            let shown: String = html_escape(point);
            items = cat4(items.as_str(), "<li>", shown.as_str(), "</li>");
        }
    }
    assert(v@.take(v@.len() as int) == v@);
    if items.as_str().unicode_len() == 0 {
        String::from_str("")
    } else {
        cat3("<ul class=\"tier-bullets\">", items.as_str(), "</ul>")
    }
}

/// The first entry of a catalog with a slug.
pub open spec fn entry_of(catalog: Seq<CatalogEntry>, slug: Seq<char>) -> Option<CatalogEntry>
    decreases catalog.len(),
{
    if catalog.len() == 0 {
        None
    } else if catalog[0].slug@ == slug {
        Some(catalog[0])
    } else {
        entry_of(catalog.drop_first(), slug)
    }
}

fn find_entry<'a>(catalog: &'a Vec<CatalogEntry>, slug: &str) -> (r: Option<&'a CatalogEntry>)
    ensures
        match r {
            Some(e) => entry_of(catalog@, slug@) == Some(*e),
            None => entry_of(catalog@, slug@) is None,
        },
{
    let n: usize = catalog.len();
    assert(catalog@.subrange(0, n as int) == catalog@);
    for i in 0..n
        invariant
            n == catalog@.len(),
            entry_of(catalog@, slug@) == entry_of(catalog@.subrange(i as int, n as int), slug@),
    {
        assert(catalog@.subrange(i as int, n as int).drop_first() == catalog@.subrange(
            i + 1,
            n as int,
        ));
        if same(catalog[i].slug.as_str(), slug) {
            return Some(&catalog[i]);
        }
    }
    None
}

/// The entries of a product's catalog.
pub open spec fn catalog_of(product: Product) -> Seq<CatalogEntry> {
    match product.entitlements_catalog {
        Some(v) => v@,
        None => seq![],
    }
}

/// A feature as it is listed: under its name in the catalog, with the
/// description as a tooltip, or else under its slug.
pub open spec fn feature_item(slug: Seq<char>, catalog: Seq<CatalogEntry>) -> Seq<char> {
    match entry_of(catalog, slug) {
        Some(e) => {
            let name = if is_blank(e.name@) {
                e.slug@
            } else {
                e.name@
            };
            let title = if e.description@.len() == 0 {
                ""@
            } else {
                " title=\""@ + html_text(e.description@) + "\""@
            };
            "<li"@ + title + ">"@ + html_text(name) + "</li>"@
        },
        None => "<li"@ + ""@ + ">"@ + html_text(slug) + "</li>"@,
    }
}

fn feature(slug: &str, catalog: &Vec<CatalogEntry>) -> (r: String)
    ensures
        r@ == feature_item(slug@, catalog@),
{
    match find_entry(catalog, slug) {
        Some(e) => {
            let name: String = if trim(e.name.as_str()).unicode_len() == 0 {
                html_escape(e.slug.as_str())
            } else {
                html_escape(e.name.as_str())
            };
            let title: String = if e.description.as_str().unicode_len() == 0 {
                String::from_str("")
            } else {
                let words: String = html_escape(e.description.as_str());
                cat3(" title=\"", words.as_str(), "\"")
            };
            cat5("<li", title.as_str(), ">", name.as_str(), "</li>")
        },
        None => {
            let name: String = html_escape(slug);
            cat5("<li", "", ">", name.as_str(), "</li>")
        },
    }
}

/// The features that a tier grants, those that are hidden left out.
pub open spec fn feature_items(
    slugs: Seq<Seq<char>>,
    hidden: Seq<Seq<char>>,
    catalog: Seq<CatalogEntry>,
) -> Seq<char>
    decreases slugs.len(),
{
    if slugs.len() == 0 {
        ""@
    } else {
        let before = feature_items(slugs.drop_last(), hidden, catalog);
        if hidden.contains(slugs.last()) {
            before
        } else {
            before + feature_item(slugs.last(), catalog)
        }
    }
}

/// The list of the features that a tier grants.
pub open spec fn features_html(p: Policy, product: Product) -> Seq<char> {
    let items = feature_items(
        texts(p.entitlements@),
        texts(p.display.hidden_entitlements@),
        catalog_of(product),
    );
    if items.len() == 0 {
        ""@
    } else {
        "<ul class=\"tier-entitlements\">"@ + items + "</ul>"@
    }
}

fn features(p: &Policy, product: &Product) -> (r: String)
    ensures
        r@ == features_html(*p, *product),
{
    let none: Vec<CatalogEntry> = Vec::new();
    let catalog: &Vec<CatalogEntry> = match &product.entitlements_catalog {
        Some(v) => v,
        None => &none,
    };
    assert(catalog@ =~= catalog_of(*product));
    let slugs: &Vec<String> = &p.entitlements;
    let hidden: &Vec<String> = &p.display.hidden_entitlements;
    let mut items: String = String::from_str("");
    assert(texts(slugs@).take(0) =~= seq![]);
    for i in 0..slugs.len()
        invariant
            items@ == feature_items(texts(slugs@).take(i as int), texts(hidden@), catalog@),
    {
        proof {
            assert(texts(slugs@).take(i + 1).drop_last() == texts(slugs@).take(i as int));
            assert(texts(slugs@).take(i + 1).last() == slugs@[i as int]@);
        }
        if !is_one_of(hidden, slugs[i].as_str()) {
            let item: String = feature(slugs[i].as_str(), catalog);
            items = cat2(items.as_str(), item.as_str());
        }
    }
    assert(texts(slugs@).take(slugs@.len() as int) == texts(slugs@));
    if items.as_str().unicode_len() == 0 {
        String::from_str("")
    } else {
        cat3("<ul class=\"tier-entitlements\">", items.as_str(), "</ul>")
    }
}

/// What a tier grants and hides leaves no trace on the page: the list is the
/// one of a tier that does not grant it.
pub proof fn hidden_features_are_not_shown(
    slugs: Seq<Seq<char>>,
    hidden: Seq<Seq<char>>,
    catalog: Seq<CatalogEntry>,
)
    ensures
        feature_items(slugs, hidden, catalog) == feature_items(
            slugs.filter(|s: Seq<char>| !hidden.contains(s)),
            seq![],
            catalog,
        ),
    decreases slugs.len(),
{
    let shown = |s: Seq<char>| !hidden.contains(s);
    reveal(Seq::filter);
    if slugs.len() > 0 {
        hidden_features_are_not_shown(slugs.drop_last(), hidden, catalog);
        let before = slugs.drop_last().filter(shown);
        if shown(slugs.last()) {
            assert(slugs.filter(shown) == before.push(slugs.last()));
            assert(before.push(slugs.last()).drop_last() == before);
        }
    }
}

/// How long a license of a tier lasts.
pub open spec fn duration_html(p: Policy) -> Seq<char> {
    let days = p.duration_seconds as int / 86_400;
    let hours = p.duration_seconds as int / 3600;
    if p.duration_seconds <= 0 {
        "<div class=\"tier-meta\">Perpetual</div>"@
    } else if days > 0 {
        "<div class=\"tier-meta\">"@ + int_text(days) + " days</div>"@
    } else {
        "<div class=\"tier-meta\">"@ + int_text(max_of(hours, 1)) + " hours</div>"@
    }
}

fn duration(p: &Policy) -> (r: String)
    ensures
        r@ == duration_html(*p),
{
    if p.duration_seconds <= 0 {
        return String::from_str("<div class=\"tier-meta\">Perpetual</div>");
    }
    let days: i64 = p.duration_seconds / 86_400;
    if days > 0 {
        let days: String = int_to_text(days);
        cat3("<div class=\"tier-meta\">", days.as_str(), " days</div>")
    } else {
        let hours: i64 = p.duration_seconds / 3600;
        let hours: String = int_to_text(
            if hours < 1 {
                1
            } else {
                hours
            },
        );
        cat3("<div class=\"tier-meta\">", hours.as_str(), " hours</div>")
    }
}

/// What stands behind the unit of a price that is paid again and again.
pub open spec fn cadence_suffix(p: Policy) -> Seq<char> {
    if !p.is_recurring {
        ""@
    } else if p.renewal_period_days == 7 {
        "/wk"@
    } else if p.renewal_period_days == 30 {
        "/mo"@
    } else if p.renewal_period_days == 90 {
        "/qtr"@
    } else if p.renewal_period_days == 180 {
        "/6mo"@
    } else if p.renewal_period_days == 365 {
        "/yr"@
    } else {
        ""@
    }
}

fn suffix(p: &Policy) -> (r: &'static str)
    ensures
        r@ == cadence_suffix(*p),
{
    if !p.is_recurring {
        ""
    } else if p.renewal_period_days == 7 {
        "/wk"
    } else if p.renewal_period_days == 30 {
        "/mo"
    } else if p.renewal_period_days == 90 {
        "/qtr"
    } else if p.renewal_period_days == 180 {
        "/6mo"
    } else if p.renewal_period_days == 365 {
        "/yr"
    } else {
        ""
    }
}

/// How often a tier is paid for.
pub open spec fn cadence_words(days: int) -> Seq<char> {
    if days == 7 {
        "Renews weekly"@
    } else if days == 30 {
        "Renews monthly"@
    } else if days == 90 {
        "Renews quarterly"@
    } else if days == 180 {
        "Renews semi-annually"@
    } else if days == 365 {
        "Renews annually"@
    } else {
        "Renews every "@ + int_text(max_of(days, 0)) + " days"@
    }
}

fn cadence(days: i64) -> (r: String)
    ensures
        r@ == cadence_words(days as int),
{
    if days == 7 {
        String::from_str("Renews weekly")
    } else if days == 30 {
        String::from_str("Renews monthly")
    } else if days == 90 {
        String::from_str("Renews quarterly")
    } else if days == 180 {
        String::from_str("Renews semi-annually")
    } else if days == 365 {
        String::from_str("Renews annually")
    } else {
        let days: String = int_to_text(
            if days < 0 {
                0
            } else {
                days
            },
        );
        cat3("Renews every ", days.as_str(), " days")
    }
}

/// How often a tier is paid for, where it is paid for again and again.
pub open spec fn recurring_html(p: Policy) -> Seq<char> {
    if p.is_recurring {
        "<div class=\"tier-meta\">"@ + html_text(cadence_words(p.renewal_period_days as int))
            + "</div>"@
    } else {
        ""@
    }
}

fn recurring(p: &Policy) -> (r: String)
    ensures
        r@ == recurring_html(*p),
{
    if p.is_recurring {
        let words: String = html_escape(cadence(p.renewal_period_days).as_str());
        cat3("<div class=\"tier-meta\">", words.as_str(), "</div>")
    } else {
        String::from_str("")
    }
}

/// The free days that a subscription begins with.
pub open spec fn free_days_html(p: Policy) -> Seq<char> {
    if p.is_recurring && p.trial_days > 0 {
        "<div class=\"tier-meta\" style=\"color:var(--gold-700); font-weight:600\">"@ + int_text(
            p.trial_days as int,
        ) + " day free trial</div>"@
    } else {
        ""@
    }
}

fn free_days(p: &Policy) -> (r: String)
    ensures
        r@ == free_days_html(*p),
{
    if p.is_recurring && p.trial_days > 0 {
        let days: String = int_to_text(p.trial_days);
        cat3(
            "<div class=\"tier-meta\" style=\"color:var(--gold-700); font-weight:600\">",
            days.as_str(),
            " day free trial</div>",
        )
    } else {
        String::from_str("")
    }
}

/// The mark of a trial.
pub open spec fn trial_html(p: Policy) -> Seq<char> {
    if p.is_trial {
        "<div class=\"tier-meta\" style=\"color:var(--gold-700); font-weight:600\">Trial</div>"@
    } else {
        ""@
    }
}

/// A tier's description.
pub open spec fn description_html(p: Policy) -> Seq<char> {
    if p.display.description@.len() == 0 {
        ""@
    } else {
        "<p class=\"tier-description\">"@ + html_text(p.display.description@) + "</p>"@
    }
}

fn description(p: &Policy) -> (r: String)
    ensures
        r@ == description_html(*p),
{
    if p.display.description.as_str().unicode_len() == 0 {
        String::from_str("")
    } else {
        let words: String = html_escape(p.display.description.as_str());
        cat3("<p class=\"tier-description\">", words.as_str(), "</p>")
    }
}

// ---------- the card of a tier ----------

/// Is a tier the one that is chosen at first?
pub open spec fn is_chosen(p: Policy, initial: Option<Policy>) -> bool {
    initial matches Some(i) && i.slug@ == p.slug@
}

/// How a tier's card looks.
pub open spec fn card_classes(p: Policy, chosen: bool, featured: bool) -> Seq<char> {
    "tier"@ + (if chosen {
        " selected"@
    } else {
        ""@
    }) + (if p.display.highlight {
        " highlighted"@
    } else {
        ""@
    }) + (if featured {
        " has-launch"@
    } else {
        ""@
    })
}

fn classes(p: &Policy, chosen: bool, featured: bool) -> (r: String)
    ensures
        r@ == card_classes(*p, chosen, featured),
{
    cat4(
        "tier",
        if chosen {
            " selected"
        } else {
            ""
        },
        if p.display.highlight {
            " highlighted"
        } else {
            ""
        },
        if featured {
            " has-launch"
        } else {
            ""
        },
    )
}

/// The mark of the tier that is recommended.
pub open spec fn popular_html(p: Policy) -> Seq<char> {
    if p.display.highlight {
        "<div class=\"tier-popular\">Most popular</div>"@
    } else {
        ""@
    }
}

/// Do the points of a tier stand below its features?
pub open spec fn bullets_below(p: Policy) -> bool {
    p.display.marketing_bullets_position matches Some(place) && place@ == "below"@
}

/// The points and the features of a tier, in its order.
pub open spec fn offers_html(p: Policy, product: Product) -> (Seq<char>, Seq<char>) {
    let points = bullets_html(p.display.marketing_bullets@);
    let features = features_html(p, product);
    if bullets_below(p) {
        (features, points)
    } else {
        (points, features)
    }
}

/// The card of a tier.
pub open spec fn card_html(
    p: Policy,
    chosen: bool,
    product: Product,
    featured: Option<DiscountCode>,
) -> Seq<char> {
    let currency = product.price_currency@;
    "<div class=\""@ + card_classes(p, chosen, featured is Some) + "\" data-policy-slug=\""@
        + html_text(p.slug@) + "\">"@ + popular_html(p) + ribbon_html(featured)
        + "<div class=\"tier-name\">"@ + html_text(p.name@) + "</div>"@ + original_html(
        p,
        product,
        featured,
    ) + "<div class=\"tier-price\">"@ + amount_text(currency, shown_units(p, product, featured))
        + "<span class=\"tier-price-unit\">"@ + unit_text(currency) + cadence_suffix(p)
        + "</span></div>"@ + duration_html(p) + recurring_html(p) + free_days_html(p) + trial_html(
        p,
    ) + description_html(p) + offers_html(p, product).0 + offers_html(p, product).1
        + "<button type=\"button\" class=\"tier-select-btn\">Select</button></div>"@
}

fn card(p: &Policy, chosen: bool, product: &Product, featured: &Option<DiscountCode>) -> (r: String)
    ensures
        r@ == card_html(*p, chosen, *product, *featured),
{
    let currency: &str = product.price_currency.as_str();
    let look: String = classes(p, chosen, featured.is_some());
    let slug: String = html_escape(p.slug.as_str());
    let name: String = html_escape(p.name.as_str());
    let price: String = format_amount(currency, shown_price(p, product, featured));
    let unit: String = unit_of(currency);
    let points: String = bullets(&p.display.marketing_bullets);
    let granted: String = features(p, product);
    let below: bool = match &p.display.marketing_bullets_position {
        Some(place) => same(place.as_str(), "below"),
        None => false,
    };
    let (first, second) = if below {
        (granted, points)
    } else {
        (points, granted)
    };
    let out: String = cat5(
        "<div class=\"",
        look.as_str(),
        "\" data-policy-slug=\"",
        slug.as_str(),
        "\">",
    );
    let out: String = cat5(
        out.as_str(),
        if p.display.highlight {
            "<div class=\"tier-popular\">Most popular</div>"
        } else {
            ""
        },
        ribbon(featured).as_str(),
        "<div class=\"tier-name\">",
        name.as_str(),
    );
    let out: String = cat5(
        out.as_str(),
        "</div>",
        original(p, product, featured).as_str(),
        "<div class=\"tier-price\">",
        price.as_str(),
    );
    let out: String = cat5(
        out.as_str(),
        "<span class=\"tier-price-unit\">",
        unit.as_str(),
        suffix(p),
        "</span></div>",
    );
    let out: String = cat5(
        out.as_str(),
        duration(p).as_str(),
        recurring(p).as_str(),
        free_days(p).as_str(),
        if p.is_trial {
            "<div class=\"tier-meta\" style=\"color:var(--gold-700); font-weight:600\">Trial</div>"
        } else {
            ""
        },
    );
    cat5(
        out.as_str(),
        description(p).as_str(),
        first.as_str(),
        second.as_str(),
        "<button type=\"button\" class=\"tier-select-btn\">Select</button></div>",
    )
}

/// The cards of the first `n` tiers.
pub open spec fn cards_html(
    policies: Seq<Policy>,
    initial: Option<Policy>,
    product: Product,
    featured: Seq<Option<DiscountCode>>,
    n: int,
) -> Seq<char>
    decreases n,
{
    if n <= 0 {
        ""@
    } else {
        cards_html(policies, initial, product, featured, n - 1) + card_html(
            policies[n - 1],
            is_chosen(policies[n - 1], initial),
            product,
            featured[n - 1],
        )
    }
}

/// The grid that a number of tiers is laid out in.
pub open spec fn grid_class(n: int) -> Seq<char> {
    if n == 2 {
        "tiers-2"@
    } else if n == 3 {
        "tiers-3"@
    } else {
        "tiers-4"@
    }
}

/// The cards of a product's tiers; none where there are fewer than two.
pub open spec fn picker_html(
    policies: Seq<Policy>,
    initial: Option<Policy>,
    product: Product,
    featured: Seq<Option<DiscountCode>>,
) -> Seq<char> {
    if policies.len() < 2 {
        ""@
    } else {
        "<div class=\"tiers "@ + grid_class(policies.len() as int) + "\">"@ + cards_html(
            policies,
            initial,
            product,
            featured,
            policies.len() as int,
        ) + "</div>"@
    }
}

/// The cards of a product's tiers; `featured` holds the code that is featured
/// for each.
pub fn render_tier_picker(
    policies: &Vec<Policy>,
    initial: Option<&Policy>,
    product: &Product,
    featured: &Vec<Option<DiscountCode>>,
) -> (r: String)
    requires
        featured@.len() == policies@.len(),
    ensures
        r@ == picker_html(policies@, opt_policy(initial), *product, featured@),
{
    if policies.len() < 2 {
        return String::from_str("");
    }
    let grid: &str = if policies.len() == 2 {
        "tiers-2"
    } else if policies.len() == 3 {
        "tiers-3"
    } else {
        "tiers-4"
    };
    let mut cards: String = String::from_str("");
    for i in 0..policies.len()
        invariant
            featured@.len() == policies@.len(),
            cards@ == cards_html(policies@, opt_policy(initial), *product, featured@, i as int),
    {
        let p: &Policy = &policies[i];
        let chosen: bool = match initial {
            Some(first) => same(first.slug.as_str(), p.slug.as_str()),
            None => false,
        };
        let next: String = card(p, chosen, product, &featured[i]);
        cards = cat2(cards.as_str(), next.as_str());
    }
    cat5("<div class=\"tiers ", grid, "\">", cards.as_str(), "</div>")
}

/// The tier behind a reference.
pub open spec fn opt_policy(o: Option<&Policy>) -> Option<Policy> {
    match o {
        Some(p) => Some(*p),
        None => None,
    }
}

// ---------- the tiers for the script ----------

/// What the script is told about a tier.
pub open spec fn tier_fields(p: Policy, product: Product) -> Seq<(Seq<char>, ScalarModel)> {
    seq![
        ("name"@, ScalarModel::Text { text: p.name@ }),
        (
            "price_sats"@,
            ScalarModel::Number {
                number: match p.price_sats_override {
                    Some(n) => n,
                    None => product.price_sats,
                },
            },
        ),
        ("price_currency"@, ScalarModel::Text { text: product.price_currency@ }),
        (
            "price_value"@,
            ScalarModel::Number {
                number: match p.price_sats_override {
                    Some(n) => n,
                    None => product.price_value,
                },
            },
        ),
        ("is_recurring"@, ScalarModel::Flag { flag: p.is_recurring }),
        ("renewal_period_days"@, ScalarModel::Number { number: p.renewal_period_days }),
        ("trial_days"@, ScalarModel::Number { number: p.trial_days }),
    ]
}

/// What the script is told about the tiers.
pub open spec fn tier_members(policies: Seq<Policy>, product: Product) -> Seq<
    (Seq<char>, Seq<(Seq<char>, ScalarModel)>),
> {
    policies.map_values(|p: Policy| (p.slug@, tier_fields(p, product)))
}

fn fields_for(p: &Policy, product: &Product) -> (r: Vec<(&'static str, JsonScalar)>)
    ensures
        fields_of(r@) == tier_fields(*p, *product),
{
    let price_sats: i64 = match p.price_sats_override {
        Some(n) => n,
        None => product.price_sats,
    };
    let price_value: i64 = match p.price_sats_override {
        Some(n) => n,
        None => product.price_value,
    };
    let mut out: Vec<(&'static str, JsonScalar)> = Vec::new();
    out.push(("name", JsonScalar::Text { text: p.name.clone() }));
    out.push(("price_sats", JsonScalar::Number { number: price_sats }));
    out.push(("price_currency", JsonScalar::Text { text: product.price_currency.clone() }));
    out.push(("price_value", JsonScalar::Number { number: price_value }));
    out.push(("is_recurring", JsonScalar::Flag { flag: p.is_recurring }));
    out.push(("renewal_period_days", JsonScalar::Number { number: p.renewal_period_days }));
    out.push(("trial_days", JsonScalar::Number { number: p.trial_days }));
    assert(fields_of(out@) =~= tier_fields(*p, *product));
    out
}

/// The tiers as the script gets them.
pub fn tiers_for_script(policies: &Vec<Policy>, product: &Product) -> (r: Vec<JsonMember>)
    ensures
        members_of(r@) == tier_members(policies@, *product),
{
    let mut out: Vec<JsonMember> = Vec::new();
    for i in 0..policies.len()
        invariant
            members_of(out@) == tier_members(policies@.take(i as int), *product),
    {
        let p: &Policy = &policies[i];
        let ghost before = out@;
        let m: JsonMember = JsonMember { key: p.slug.clone(), fields: fields_for(p, product) };
        out.push(m);
        proof {
            assert(policies@.take(i + 1) == policies@.take(i as int).push(*p));
            assert(members_of(out@) =~= members_of(before).push((m.key@, fields_of(m.fields@))));
            assert(tier_members(policies@.take(i + 1), *product) =~= tier_members(
                policies@.take(i as int),
                *product,
            ).push((p.slug@, tier_fields(*p, *product))));
        }
    }
    assert(policies@.take(policies@.len() as int) == policies@);
    out
}

/// The tiers as the script gets them, in JSON.
pub fn build_tiers_json(policies: &Vec<Policy>, product: &Product) -> (r: String)
    ensures
        r@ == json_objects(tier_members(policies@, *product)),
{
    objects_to_json(&tiers_for_script(policies, product))
}

// ---------- the page ----------

/// The page that says there is no such product.
pub open spec fn not_found_page(slug: Seq<char>) -> Seq<char> {
    NOT_FOUND_HEAD@ + html_text(slug) + NOT_FOUND_REST@
}

/// The page that says there is no such product.
pub fn not_found_html(slug: &str) -> (r: String)
    ensures
        r@ == not_found_page(slug@),
{
    let shown: String = html_escape(slug);
    cat3(NOT_FOUND_HEAD, shown.as_str(), NOT_FOUND_REST)
}

/// The first tier with a slug.
pub open spec fn tier_named(policies: Seq<Policy>, slug: Seq<char>) -> Option<Policy>
    decreases policies.len(),
{
    if policies.len() == 0 {
        None
    } else if policies[0].slug@ == slug {
        Some(policies[0])
    } else {
        tier_named(policies.drop_first(), slug)
    }
}

/// The first tier that is recommended.
pub open spec fn recommended_tier(policies: Seq<Policy>) -> Option<Policy>
    decreases policies.len(),
{
    if policies.len() == 0 {
        None
    } else if policies[0].display.highlight {
        Some(policies[0])
    } else {
        recommended_tier(policies.drop_first())
    }
}

/// The tier that is chosen at first: the one a link asks for, or else the one
/// that is recommended, or else the first.
pub open spec fn initial_tier(policies: Seq<Policy>, wanted: Option<String>) -> Option<Policy> {
    let named = match wanted {
        Some(slug) => tier_named(policies, slug@),
        None => None,
    };
    if named is Some {
        named
    } else if recommended_tier(policies) is Some {
        recommended_tier(policies)
    } else if policies.len() > 0 {
        Some(policies[0])
    } else {
        None
    }
}

/// The tier that is chosen at first.
pub fn initial_policy<'a>(policies: &'a Vec<Policy>, wanted: &Option<String>) -> (r: Option<
    &'a Policy,
>)
    ensures
        opt_policy(r) == initial_tier(policies@, *wanted),
{
    let n: usize = policies.len();
    assert(policies@.subrange(0, n as int) == policies@);
    if let Some(slug) = wanted {
        for i in 0..n
            invariant
                n == policies@.len(),
                *wanted == Some(*slug),
                tier_named(policies@, slug@) == tier_named(
                    policies@.subrange(i as int, n as int),
                    slug@,
                ),
        {
            assert(policies@.subrange(i as int, n as int).drop_first() == policies@.subrange(
                i + 1,
                n as int,
            ));
            if same(policies[i].slug.as_str(), slug.as_str()) {
                return Some(&policies[i]);
            }
        }
    }
    for i in 0..n
        invariant
            n == policies@.len(),
            *wanted is Some ==> tier_named(policies@, wanted->0@) is None,
            recommended_tier(policies@) == recommended_tier(
                policies@.subrange(i as int, n as int),
            ),
    {
        assert(policies@.subrange(i as int, n as int).drop_first() == policies@.subrange(
            i + 1,
            n as int,
        ));
        if policies[i].display.highlight {
            return Some(&policies[i]);
        }
    }
    if n > 0 {
        Some(&policies[0])
    } else {
        None
    }
}

/// The price that the page shows at first.
pub open spec fn first_price(product: Product, initial: Option<Policy>) -> Seq<char> {
    if product.price_currency@ == "SAT"@ {
        let sats = match initial {
            Some(p) if p.price_sats_override is Some => p.price_sats_override->0,
            _ => product.price_sats,
        };
        grouped(int_text(sats as int))
    } else {
        decimal_text(product.price_value as int)
    }
}

fn price_at_first(product: &Product, initial: Option<&Policy>) -> (r: String)
    ensures
        r@ == first_price(*product, opt_policy(initial)),
{
    if same(product.price_currency.as_str(), "SAT") {
        let sats: i64 = match initial {
            Some(p) => match p.price_sats_override {
                Some(n) => n,
                None => product.price_sats,
            },
            None => product.price_sats,
        };
        format_thousands(sats)
    } else {
        format_cents(product.price_value)
    }
}

/// The page where a product is bought.
pub open spec fn buy_html(
    product: Product,
    operator: Seq<char>,
    policies: Seq<Policy>,
    initial: Option<Policy>,
    featured: Seq<Option<DiscountCode>>,
) -> Seq<char> {
    BUY_HEAD@ + html_text(product.name@) + BUY_TITLE_OPERATOR@ + html_text(operator) + BUY_STYLE@
        + html_text(operator) + BUY_HEADING@ + html_text(product.name@) + BUY_SLUG@ + html_text(
        product.slug@,
    ) + BUY_DESCRIPTION@ + html_text(product.description@) + BUY_TIERS@ + picker_html(
        policies,
        initial,
        product,
        featured,
    ) + BUY_PRICE@ + first_price(product, initial) + BUY_UNIT@ + unit_text(product.price_currency@)
        + BUY_FORM@ + json_string(product.slug@) + BUY_TIER_MAP@ + json_objects(
        tier_members(policies, product),
    ) + BUY_INITIAL_TIER@ + json_string(
        match initial {
            Some(p) => p.slug@,
            None => ""@,
        },
    ) + BUY_SCRIPT@
}

/// Is `r` the page where a product is bought, or else the page that says there
/// is no such product?
pub open spec fn is_page(
    slug: Seq<char>,
    q: BuyPageQuery,
    found: Option<Product>,
    operator: Seq<char>,
    policies: Seq<Policy>,
    featured: Seq<Option<DiscountCode>>,
    r: Result<String, String>,
) -> bool {
    match (found, r) {
        (Some(product), Ok(page)) => product.active && page@ == buy_html(
            product,
            operator,
            policies,
            initial_tier(policies, q.policy),
            featured,
        ),
        (Some(product), Err(page)) => !product.active && page@ == not_found_page(slug),
        (None, r) => r matches Err(page) && page@ == not_found_page(slug),
    }
}

/// The page where a product is bought, or else the page that says there is no
/// such product. `policies` are the product's public tiers, cheapest first, and
/// `featured` holds the code that is featured for each.
pub fn render(
    slug: &str,
    q: &BuyPageQuery,
    found: &Option<Product>,
    stored_operator: &Option<String>,
    configured_operator: &Option<String>,
    policies: &Vec<Policy>,
    featured: &Vec<Option<DiscountCode>>,
) -> (r: Result<String, String>)
    requires
        featured@.len() == policies@.len(),
    ensures
        is_page(
            slug@,
            *q,
            *found,
            shown_operator(*stored_operator, *configured_operator),
            policies@,
            featured@,
            r,
        ),
{
    let product: &Product = match found {
        Some(product) => product,
        None => {
            return Err(not_found_html(slug));
        },
    };
    if !product.active {
        return Err(not_found_html(slug));
    }
    let initial: Option<&Policy> = initial_policy(policies, &q.policy);
    let operator: String = html_escape(
        operator_shown(stored_operator, configured_operator).as_str(),
    );
    let name: String = html_escape(product.name.as_str());
    let product_slug: String = html_escape(product.slug.as_str());
    let words: String = html_escape(product.description.as_str());
    let tiers: String = render_tier_picker(policies, initial, product, featured);
    let price: String = price_at_first(product, initial);
    let unit: String = unit_of(product.price_currency.as_str());
    let slug_json: String = string_to_json(product.slug.as_str());
    let tiers_json: String = build_tiers_json(policies, product);
    let initial_json: String = match initial {
        Some(p) => string_to_json(p.slug.as_str()),
        None => string_to_json(""),
    };
    let out: String = cat5(
        BUY_HEAD,
        name.as_str(),
        BUY_TITLE_OPERATOR,
        operator.as_str(),
        BUY_STYLE,
    );
    let out: String = cat5(
        out.as_str(),
        operator.as_str(),
        BUY_HEADING,
        name.as_str(),
        BUY_SLUG,
    );
    let out: String = cat5(
        out.as_str(),
        product_slug.as_str(),
        BUY_DESCRIPTION,
        words.as_str(),
        BUY_TIERS,
    );
    let out: String = cat5(out.as_str(), tiers.as_str(), BUY_PRICE, price.as_str(), BUY_UNIT);
    let out: String = cat5(
        out.as_str(),
        unit.as_str(),
        BUY_FORM,
        slug_json.as_str(),
        BUY_TIER_MAP,
    );
    Ok(
        cat5(
            out.as_str(),
            tiers_json.as_str(),
            BUY_INITIAL_TIER,
            initial_json.as_str(),
            BUY_SCRIPT,
        ),
    )
}

/// A link that asks for a tier chooses it, whichever is recommended.
pub proof fn deep_links_choose_their_tier(policies: Seq<Policy>, k: int)
    requires
        0 <= k < policies.len(),
        forall|i: int| 0 <= i < k ==> (#[trigger] policies[i]).slug@ != policies[k].slug@,
    ensures
        initial_tier(policies, Some(policies[k].slug)) == Some(policies[k]),
{
    lemma_tier_named(policies, k);
}

proof fn lemma_tier_named(policies: Seq<Policy>, k: int)
    requires
        0 <= k < policies.len(),
        forall|i: int| 0 <= i < k ==> (#[trigger] policies[i]).slug@ != policies[k].slug@,
    ensures
        tier_named(policies, policies[k].slug@) == Some(policies[k]),
    decreases k,
{
    if k > 0 {
        let rest = policies.drop_first();
        assert(rest[k - 1] == policies[k]);
        assert forall|i: int| 0 <= i < k - 1 implies (#[trigger] rest[i]).slug@
            != rest[k - 1].slug@ by {
            assert(rest[i] == policies[i + 1]);
        }
        lemma_tier_named(rest, k - 1);
    }
}

} // verus!
