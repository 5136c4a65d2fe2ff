//! What buyers see.

use crate::api::buy_page::{
    amount_text, base_units, bullet_items, bullets_html, buy_html, cadence_suffix, cadence_words,
    card_classes, card_html, cards_html, decimal_text, description_html, duration_html,
    feature_item, feature_items, features_html, free_days_html, grouped, html_text, initial_tier,
    is_chosen, is_page, offers_html, original_html, picker_html, popular_html, recommended_tier,
    recurring_html, remaining_html, ribbon_html, shown_units, tagline, tier_fields, tier_named,
    trial_html, two_digits, unit_text, BuyPageQuery,
};
use crate::codec::ScalarModel;
use crate::laws::texts::{numbers_read_back, value_of};
use crate::models::{CatalogEntry, DiscountCode, Policy, Product};
use crate::text::{int_text, nat_text, trimmed};
use vstd::prelude::*;

verus! {

/// Does a text hold a part?
pub open spec fn has(text: Seq<char>, part: Seq<char>) -> bool {
    exists|i: int|
        0 <= i && i + part.len() <= text.len() && #[trigger] text.subrange(i, i + part.len())
            == part
}

proof fn lemma_has()
    ensures
        forall|a: Seq<char>, b: Seq<char>| #[trigger] has(a + b, b),
        forall|a: Seq<char>, b: Seq<char>, part: Seq<char>|
            has(a, part) ==> #[trigger] has(a + b, part),
{
    assert forall|a: Seq<char>, b: Seq<char>| #[trigger] has(a + b, b) by {
        let n = a.len() as int;
        assert((a + b).subrange(n, n + b.len()) =~= b);
    }
    assert forall|a: Seq<char>, b: Seq<char>, part: Seq<char>| has(a, part) implies #[trigger] has(
        a + b,
        part,
    ) by {
        let i = choose|i: int|
            0 <= i && i + part.len() <= a.len() && #[trigger] a.subrange(i, i + part.len()) == part;
        assert((a + b).subrange(i, i + part.len()) =~= part);
    }
}

proof fn lemma_has_within(text: Seq<char>, middle: Seq<char>, part: Seq<char>)
    requires
        has(text, middle),
        has(middle, part),
    ensures
        has(text, part),
{
    let i = choose|i: int|
        0 <= i && i + middle.len() <= text.len() && #[trigger] text.subrange(i, i + middle.len())
            == middle;
    let j = choose|j: int|
        0 <= j && j + part.len() <= middle.len() && #[trigger] middle.subrange(j, j + part.len())
            == part;
    assert(text.subrange(i + j, i + j + part.len()) =~= text.subrange(
        i,
        i + middle.len(),
    ).subrange(j, j + part.len()));
}

// ---------- amounts ----------

/// Sats are written with a comma before every three digits from the end; any other
/// currency with its hundredths behind a point.
pub proof fn thousands_are_set_apart(digits: Seq<char>, three: Seq<char>)
    requires
        three.len() == 3,
    ensures
        digits.len() == 0 ==> grouped(digits + three) == three,
        digits.len() > 0 ==> grouped(digits + three) == grouped(digits) + ","@ + three,
        digits.len() <= 3 ==> grouped(digits) == digits,
{
    let all = digits + three;
    if digits.len() == 0 {
        assert(all =~= three);
    } else {
        assert(all.take(all.len() - 3) =~= digits);
        assert(all.skip(all.len() - 3) =~= three);
    }
}

/// An amount in hundredths is written as its whole part, a point and two digits:
/// together they are the amount again.
pub proof fn hundredths_are_written_out(cents: nat)
    ensures
        decimal_text(cents as int) == nat_text(cents / 100) + "."@ + two_digits(cents % 100),
        two_digits(cents % 100).len() == 2,
        value_of(nat_text(cents / 100)) * 100 + value_of(two_digits(cents % 100)) == cents,
{
    reveal_strlit("0");
    let rest = cents % 100;
    numbers_read_back(cents / 100);
    numbers_read_back(rest);
    let d = two_digits(rest);
    if rest < 10 {
        assert(nat_text(rest).len() == 1);
        assert(d.drop_last() =~= "0"@);
        assert(d.last() == nat_text(rest).last());
        assert("0"@.drop_last() =~= Seq::<char>::empty());
        assert(value_of("0"@) == 0) by {
            reveal_with_fuel(value_of, 2);
            assert("0"@.last() == '0');
        }
        assert(nat_text(rest).drop_last() =~= Seq::<char>::empty());
        reveal_with_fuel(value_of, 2);
    } else {
        assert(nat_text(rest / 10).len() == 1);
        assert(nat_text(rest).len() == 2);
    }
}

/// Sats are shown as sats, and another currency under its own name.
pub proof fn amounts_are_shown_in_their_unit(currency: Seq<char>, amount: int)
    ensures
        currency == "SAT"@ ==> amount_text(currency, amount) == grouped(int_text(amount))
            && unit_text(currency) == "sats"@,
        currency != "SAT"@ ==> amount_text(currency, amount) == decimal_text(amount) && unit_text(
            currency,
        ) == currency,
{
}

/// A tier is shown at its own price or else the product's, less what a featured
/// code takes off.
pub proof fn tiers_are_shown_at_their_price(
    p: Policy,
    product: Product,
    featured: Option<DiscountCode>,
)
    ensures
        p.price_sats_override is Some ==> base_units(p, product) == p.price_sats_override->0,
        p.price_sats_override is None && product.price_currency@ == "SAT"@ ==> base_units(p, product)
            == product.price_sats,
        p.price_sats_override is None && product.price_currency@ != "SAT"@ ==> base_units(p, product)
            == product.price_value,
        featured is None && base_units(p, product) >= 0 ==> shown_units(p, product, featured)
            == base_units(p, product),
        featured matches Some(code) ==> {
            let base = base_units(p, product);
            &&& code.kind@ == "fixed_sats"@ && 0 <= code.amount <= base ==> shown_units(
                p,
                product,
                featured,
            ) == base - code.amount
            &&& code.kind@ == "set_price"@ && 0 <= code.amount <= base ==> shown_units(
                p,
                product,
                featured,
            ) == code.amount
            &&& code.kind@ == "percent"@ && 0 <= code.amount <= 10_000 && base >= 0 ==> {
                let off = base - shown_units(p, product, featured);
                off * 10_000 <= base * code.amount < (off + 1) * 10_000
            }
        },
{
    reveal_strlit("percent");
    reveal_strlit("fixed_sats");
    reveal_strlit("set_price");
    assert("percent"@.len() == 7 && "fixed_sats"@.len() == 10 && "set_price"@.len() == 9);
    if featured is Some {
        let code = featured->0;
        let base = base_units(p, product) as int;
        let bps = code.amount as int;
        if code.kind@ == "percent"@ && 0 <= bps <= 10_000 && base >= 0 {
            let off = base * bps / 10_000;
            assert(0 <= off <= base && off * 10_000 <= base * bps < (off + 1) * 10_000)
                by (nonlinear_arith)
                requires
                    base >= 0,
                    0 <= bps <= 10_000,
                    off == base * bps / 10_000,
            ;
        }
    }
}

// ---------- the card of a tier ----------

/// How long a license lasts is shown in days, or in hours where it is less than a
/// day; a license without end is shown as that.
pub proof fn durations_are_shown(p: Policy)
    ensures
        p.duration_seconds <= 0 ==> has(duration_html(p), "<div class=\"tier-meta\">Perpetual</div>"@),
        p.duration_seconds >= 86_400 ==> has(
            duration_html(p),
            int_text(p.duration_seconds as int / 86_400),
        ) && has(duration_html(p), " days</div>"@),
        3600 <= p.duration_seconds < 86_400 ==> has(
            duration_html(p),
            int_text(p.duration_seconds as int / 3600),
        ) && has(duration_html(p), " hours</div>"@),
        0 < p.duration_seconds < 3600 ==> has(duration_html(p), int_text(1)) && has(
            duration_html(p),
            " hours</div>"@,
        ),
{
    lemma_has();
    if p.duration_seconds <= 0 {
        let t = duration_html(p);
        assert(Seq::<char>::empty() + t =~= t);
        assert(has(Seq::<char>::empty() + t, t));
    }
}

/// How often a tier is paid for is shown in words, and behind its price.
pub proof fn cadences_are_shown(p: Policy)
    ensures
        !p.is_recurring ==> cadence_suffix(p).len() == 0,
        p.is_recurring && p.renewal_period_days == 7 ==> cadence_suffix(p) == "/wk"@
            && cadence_words(7) == "Renews weekly"@,
        p.is_recurring && p.renewal_period_days == 30 ==> cadence_suffix(p) == "/mo"@
            && cadence_words(30) == "Renews monthly"@,
        p.is_recurring && p.renewal_period_days == 90 ==> cadence_suffix(p) == "/qtr"@
            && cadence_words(90) == "Renews quarterly"@,
        p.is_recurring && p.renewal_period_days == 365 ==> cadence_suffix(p) == "/yr"@
            && cadence_words(365) == "Renews annually"@,
        p.is_recurring && p.trial_days > 0 ==> has(free_days_html(p), int_text(p.trial_days as int)),
        !p.is_recurring || p.trial_days <= 0 ==> free_days_html(p).len() == 0,
{
    reveal_strlit("");
    lemma_has();
}

/// How many uses of a code are left is shown where it is limited and some are.
pub proof fn remaining_uses_are_shown(code: DiscountCode)
    ensures
        code.max_uses is None ==> remaining_html(code).len() == 0,
        code.max_uses is Some && code.used_count >= code.max_uses->0 ==> remaining_html(code).len()
            == 0,
        code.max_uses is Some && code.used_count < code.max_uses->0 ==> has(
            remaining_html(code),
            nat_text((code.max_uses->0 - code.used_count) as nat),
        ) && has(remaining_html(code), int_text(code.max_uses->0 as int)),
{
    reveal_strlit("");
    lemma_has();
}

/// A card shows the tier's name, its price in its unit, how long it lasts, how
/// often it is paid for, and what it offers; the price before a featured code is
/// shown only where there is one.
pub proof fn cards_show_their_tier(
    p: Policy,
    chosen: bool,
    product: Product,
    featured: Option<DiscountCode>,
)
    ensures
        ({
            let card = card_html(p, chosen, product, featured);
            let currency = product.price_currency@;
            &&& has(card, html_text(p.name@))
            &&& has(card, html_text(p.slug@))
            &&& has(card, amount_text(currency, shown_units(p, product, featured)))
            &&& has(card, unit_text(currency))
            &&& has(card, cadence_suffix(p))
            &&& has(card, duration_html(p))
            &&& has(card, free_days_html(p))
            &&& has(card, popular_html(p))
            &&& has(card, original_html(p, product, featured))
            &&& has(card, recurring_html(p))
            &&& has(card, trial_html(p))
            &&& has(card, description_html(p))
            &&& has(card, features_html(p, product))
            &&& has(card, bullets_html(p.display.marketing_bullets@))
            &&& has(card, ribbon_html(featured))
            &&& has(card, card_classes(p, chosen, featured is Some))
            &&& featured is None ==> original_html(p, product, featured).len() == 0
            &&& featured is Some ==> has(
                original_html(p, product, featured),
                amount_text(currency, base_units(p, product) as int),
            )
        }),
{
    reveal_strlit("");
    lemma_has();
}

/// The card of the tier that is chosen is marked, and so is that of the one that
/// is recommended.
pub proof fn chosen_cards_are_marked(p: Policy, initial: Option<Policy>, featured: bool)
    ensures
        is_chosen(p, initial) <==> initial is Some && initial->0.slug@ == p.slug@,
        has(card_classes(p, true, featured), " selected"@),
        p.display.highlight ==> has(card_classes(p, false, featured), " highlighted"@),
        !p.display.highlight && !featured ==> card_classes(p, false, featured) == "tier"@,
{
    reveal_strlit("");
    reveal_strlit("tier");
    lemma_has();
    assert("tier"@ + ""@ + ""@ + ""@ =~= "tier"@);
}

/// A tier is told to be the most popular exactly where it is recommended, and to
/// be a trial exactly where it is one; its description is shown where it has one.
pub proof fn tiers_are_marked_as_they_are(p: Policy)
    ensures
        p.display.highlight ==> has(popular_html(p), "Most popular"@),
        !p.display.highlight ==> popular_html(p).len() == 0,
        p.is_trial ==> has(trial_html(p), "Trial"@),
        !p.is_trial ==> trial_html(p).len() == 0,
        p.is_recurring ==> has(
            recurring_html(p),
            html_text(cadence_words(p.renewal_period_days as int)),
        ),
        !p.is_recurring ==> recurring_html(p).len() == 0,
        p.display.description@.len() > 0 ==> has(
            description_html(p),
            html_text(p.display.description@),
        ),
        p.display.description@.len() == 0 ==> description_html(p).len() == 0,
{
    reveal_strlit("");
    reveal_strlit("Most popular");
    reveal_strlit("Trial");
    reveal_strlit("<div class=\"tier-popular\">Most popular</div>");
    reveal_strlit(
        "<div class=\"tier-meta\" style=\"color:var(--gold-700); font-weight:600\">Trial</div>",
    );
    lemma_has();
    let popular = "<div class=\"tier-popular\">Most popular</div>"@;
    assert(popular.subrange(26, 26int + "Most popular"@.len()) =~= "Most popular"@);
    let trial =
        "<div class=\"tier-meta\" style=\"color:var(--gold-700); font-weight:600\">Trial</div>"@;
    assert(trial.subrange(70, 70int + "Trial"@.len()) =~= "Trial"@);
}

/// The points that a tier is advertised with are all listed, but for blank ones;
/// a tier with none has no list.
pub proof fn points_are_listed(points: Seq<String>, i: int)
    requires
        0 <= i < points.len(),
        trimmed(points[i]@).len() > 0,
    ensures
        has(bullets_html(points), "<li>"@ + html_text(trimmed(points[i]@)) + "</li>"@),
    decreases points.len(),
{
    lemma_points(points, i);
    let item = "<li>"@ + html_text(trimmed(points[i]@)) + "</li>"@;
    reveal_strlit("<li>");
    assert(item.len() >= 4);
    lemma_has();
    assert(has(bullets_html(points), bullet_items(points)));
    lemma_has_within(bullets_html(points), bullet_items(points), item);
}

proof fn lemma_points(points: Seq<String>, i: int)
    requires
        0 <= i < points.len(),
        trimmed(points[i]@).len() > 0,
    ensures
        has(
            bullet_items(points),
            "<li>"@ + html_text(trimmed(points[i]@)) + "</li>"@,
        ),
        bullet_items(points).len() > 0,
    decreases points.len(),
{
    reveal_strlit("<li>");
    lemma_has();
    if i < points.len() - 1 {
        assert(points.drop_last()[i] == points[i]);
        lemma_points(points.drop_last(), i);
    } else {
        let before = bullet_items(points.drop_last());
        let point = html_text(trimmed(points[i]@));
        assert(bullet_items(points) =~= before + ("<li>"@ + point + "</li>"@));
    }
}

/// A tier whose points are all blank, or that has none, has no list of them.
pub proof fn blank_points_are_not_listed(points: Seq<String>)
    requires
        forall|i: int| 0 <= i < points.len() ==> trimmed((#[trigger] points[i])@).len() == 0,
    ensures
        bullets_html(points).len() == 0,
    decreases points.len(),
{
    reveal_strlit("");
    if points.len() > 0 {
        let front = points.drop_last();
        assert forall|i: int| 0 <= i < front.len() implies trimmed((#[trigger] front[i])@).len()
            == 0 by {
            assert(front[i] == points[i]);
        }
        blank_points_are_not_listed(front);
        assert(trimmed(points[points.len() - 1]@).len() == 0);
    }
}

/// The points stand above what is granted, or below it where the tier says so.
pub proof fn points_stand_where_the_tier_says(p: Policy, product: Product)
    ensures
        p.display.marketing_bullets_position is Some
            && p.display.marketing_bullets_position->0@ == "below"@ ==> offers_html(p, product) == (
            features_html(p, product),
            bullets_html(p.display.marketing_bullets@),
        ),
        p.display.marketing_bullets_position is None
            || p.display.marketing_bullets_position->0@ != "below"@ ==> offers_html(p, product) == (
            bullets_html(p.display.marketing_bullets@),
            features_html(p, product),
        ),
{
}

/// A ribbon says what kind of code is featured.
pub proof fn ribbons_say_what_is_featured(code: DiscountCode)
    ensures
        code.kind@ == "percent"@ && code.amount >= 0 ==> tagline(code) == int_text(
            code.amount as int / 100,
        ) + "% OFF"@,
        code.kind@ == "free_license"@ ==> tagline(code) == "FREE"@,
        code.kind@ == "set_price"@ ==> tagline(code) == "LIMITED PRICE"@,
        code.kind@ == "fixed_sats"@ ==> tagline(code) == "LAUNCH SPECIAL"@,
{
    reveal_strlit("percent");
    reveal_strlit("fixed_sats");
    reveal_strlit("set_price");
    reveal_strlit("free_license");
    assert("percent"@.len() == 7 && "fixed_sats"@.len() == 10 && "set_price"@.len() == 9
        && "free_license"@.len() == 12);
}

// ---------- what a tier grants ----------

/// What a tier grants and does not hide is listed.
pub proof fn granted_features_are_listed(
    slugs: Seq<Seq<char>>,
    hidden: Seq<Seq<char>>,
    catalog: Seq<CatalogEntry>,
    i: int,
)
    requires
        0 <= i < slugs.len(),
        !hidden.contains(slugs[i]),
    ensures
        has(feature_items(slugs, hidden, catalog), feature_item(slugs[i], catalog)),
    decreases slugs.len(),
{
    lemma_has();
    if i < slugs.len() - 1 {
        let front = slugs.drop_last();
        assert(front[i] == slugs[i]);
        granted_features_are_listed(front, hidden, catalog, i);
    }
}

/// Where everything that a tier grants is hidden, nothing is listed.
pub proof fn hidden_features_are_not_listed(
    slugs: Seq<Seq<char>>,
    hidden: Seq<Seq<char>>,
    catalog: Seq<CatalogEntry>,
)
    requires
        forall|i: int| 0 <= i < slugs.len() ==> hidden.contains(#[trigger] slugs[i]),
    ensures
        feature_items(slugs, hidden, catalog).len() == 0,
    decreases slugs.len(),
{
    reveal_strlit("");
    if slugs.len() > 0 {
        let front = slugs.drop_last();
        assert forall|i: int| 0 <= i < front.len() implies hidden.contains(#[trigger] front[i]) by {
            assert(front[i] == slugs[i]);
        }
        assert(hidden.contains(slugs[slugs.len() - 1]));
        hidden_features_are_not_listed(front, hidden, catalog);
    }
}

/// A feature is listed under its name in the catalog, and under its slug where it
/// is not in the catalog.
pub proof fn features_are_listed_by_name(slug: Seq<char>, catalog: Seq<CatalogEntry>, name: Seq<char>)
    ensures
        catalog.len() == 0 ==> has(feature_item(slug, catalog), html_text(slug)),
        catalog.len() > 0 && catalog[0].slug@ == slug && catalog[0].name@ == name
            && !crate::text::is_blank(name) ==> has(feature_item(slug, catalog), html_text(name)),
{
    lemma_has();
}

// ---------- the page ----------

/// Every tier's card is shown where there are at least two; where there are fewer
/// there is nothing to choose.
pub proof fn every_tier_has_its_card(
    policies: Seq<Policy>,
    initial: Option<Policy>,
    product: Product,
    featured: Seq<Option<DiscountCode>>,
    i: int,
)
    requires
        0 <= i < policies.len(),
        featured.len() == policies.len(),
    ensures
        policies.len() >= 2 ==> has(
            picker_html(policies, initial, product, featured),
            card_html(policies[i], is_chosen(policies[i], initial), product, featured[i]),
        ),
        policies.len() < 2 ==> picker_html(policies, initial, product, featured).len() == 0,
{
    reveal_strlit("");
    lemma_has();
    lemma_cards(policies, initial, product, featured, policies.len() as int, i);
    let cards = cards_html(policies, initial, product, featured, policies.len() as int);
    let card = card_html(policies[i], is_chosen(policies[i], initial), product, featured[i]);
    if policies.len() >= 2 {
        assert(has(picker_html(policies, initial, product, featured), cards));
        lemma_has_within(picker_html(policies, initial, product, featured), cards, card);
    }
}

proof fn lemma_cards(
    policies: Seq<Policy>,
    initial: Option<Policy>,
    product: Product,
    featured: Seq<Option<DiscountCode>>,
    n: int,
    i: int,
)
    requires
        0 <= i < n <= policies.len(),
        featured.len() == policies.len(),
    ensures
        has(
            cards_html(policies, initial, product, featured, n),
            card_html(policies[i], is_chosen(policies[i], initial), product, featured[i]),
        ),
    decreases n,
{
    lemma_has();
    if i < n - 1 {
        lemma_cards(policies, initial, product, featured, n - 1, i);
    }
}

/// The tier that is chosen at first is the one that a link asks for, or else the
/// first that is recommended, or else the first.
pub proof fn the_recommended_tier_is_chosen_first(
    policies: Seq<Policy>,
    wanted: Option<String>,
    k: int,
)
    requires
        wanted is Some ==> forall|i: int|
            0 <= i < policies.len() ==> (#[trigger] policies[i]).slug@ != wanted->0@,
    ensures
        0 <= k < policies.len() && policies[k].display.highlight && (forall|i: int|
            0 <= i < k ==> !(#[trigger] policies[i]).display.highlight) ==> initial_tier(
            policies,
            wanted,
        ) == Some(policies[k]),
        policies.len() > 0 && (forall|i: int|
            0 <= i < policies.len() ==> !(#[trigger] policies[i]).display.highlight)
            ==> initial_tier(policies, wanted) == Some(policies[0]),
        policies.len() == 0 ==> initial_tier(policies, wanted) is None,
{
    if wanted is Some {
        lemma_no_tier(policies, wanted->0@);
    }
    lemma_recommended(policies, k);
}

proof fn lemma_no_tier(policies: Seq<Policy>, slug: Seq<char>)
    requires
        forall|i: int| 0 <= i < policies.len() ==> (#[trigger] policies[i]).slug@ != slug,
    ensures
        tier_named(policies, slug) is None,
    decreases policies.len(),
{
    if policies.len() > 0 {
        let rest = policies.drop_first();
        assert(policies[0].slug@ != slug);
        assert forall|i: int| 0 <= i < rest.len() implies (#[trigger] rest[i]).slug@ != slug by {
            assert(rest[i] == policies[i + 1]);
        }
        lemma_no_tier(rest, slug);
    }
}

proof fn lemma_recommended(policies: Seq<Policy>, k: int)
    ensures
        0 <= k < policies.len() && policies[k].display.highlight && (forall|i: int|
            0 <= i < k ==> !(#[trigger] policies[i]).display.highlight) ==> recommended_tier(
            policies,
        ) == Some(policies[k]),
        (forall|i: int| 0 <= i < policies.len() ==> !(#[trigger] policies[i]).display.highlight)
            ==> recommended_tier(policies) is None,
    decreases policies.len(),
{
    if policies.len() > 0 {
        let rest = policies.drop_first();
        lemma_recommended(rest, k - 1);
        if forall|i: int| 0 <= i < policies.len() ==> !(#[trigger] policies[i]).display.highlight {
            assert(!policies[0].display.highlight);
            assert forall|i: int| 0 <= i < rest.len() implies !(
            #[trigger] rest[i]).display.highlight by {
                assert(rest[i] == policies[i + 1]);
            }
        }
        if 0 < k < policies.len() && policies[k].display.highlight && (forall|i: int|
            0 <= i < k ==> !(#[trigger] policies[i]).display.highlight) {
            assert(!policies[0].display.highlight);
            assert(rest[k - 1] == policies[k]);
            assert forall|i: int| 0 <= i < k - 1 implies !(
            #[trigger] rest[i]).display.highlight by {
                assert(rest[i] == policies[i + 1]);
            }
        }
    }
}

/// A product that is on sale has its page, with its name, its description, its
/// tiers and the name of who sells it; any other has none.
pub proof fn products_on_sale_have_a_page(
    slug: Seq<char>,
    q: BuyPageQuery,
    found: Option<Product>,
    operator: Seq<char>,
    policies: Seq<Policy>,
    featured: Seq<Option<DiscountCode>>,
    r: Result<String, String>,
)
    requires
        is_page(slug, q, found, operator, policies, featured, r),
    ensures
        r is Ok <==> found is Some && found->0.active,
        r matches Ok(page) ==> {
            &&& has(page@, html_text(found->0.name@))
            &&& has(page@, html_text(found->0.description@))
            &&& has(page@, html_text(operator))
            &&& has(
                page@,
                picker_html(policies, initial_tier(policies, q.policy), found->0, featured),
            )
            &&& has(page@, unit_text(found->0.price_currency@))
        },
        r matches Err(page) ==> has(page@, html_text(slug)),
{
    lemma_has();
}

/// The page shows at first the price of the tier that is chosen, or else the
/// product's.
pub proof fn the_first_price_is_the_chosen_tiers(
    product: Product,
    operator: Seq<char>,
    policies: Seq<Policy>,
    initial: Option<Policy>,
    featured: Seq<Option<DiscountCode>>,
)
    ensures
        product.price_currency@ == "SAT"@ && initial is Some && initial->0.price_sats_override
            is Some ==> has(
            buy_html(product, operator, policies, initial, featured),
            grouped(int_text(initial->0.price_sats_override->0 as int)),
        ),
        product.price_currency@ == "SAT"@ && (initial is None || initial->0.price_sats_override
            is None) ==> has(
            buy_html(product, operator, policies, initial, featured),
            grouped(int_text(product.price_sats as int)),
        ),
        product.price_currency@ != "SAT"@ ==> has(
            buy_html(product, operator, policies, initial, featured),
            decimal_text(product.price_value as int),
        ),
{
    lemma_has();
}

/// The page's script is told each tier's price: its own, or else the product's.
pub proof fn scripts_are_told_the_price(p: Policy, product: Product)
    ensures
        tier_fields(p, product)[0] == ("name"@, ScalarModel::Text { text: p.name@ }),
        tier_fields(p, product)[1].0 == "price_sats"@,
        p.price_sats_override is Some ==> tier_fields(p, product)[1].1 == (ScalarModel::Number {
            number: p.price_sats_override->0,
        }),
        p.price_sats_override is None ==> tier_fields(p, product)[1].1 == (ScalarModel::Number {
            number: product.price_sats,
        }),
        tier_fields(p, product)[3].0 == "price_value"@,
        p.price_sats_override is None ==> tier_fields(p, product)[3].1 == (ScalarModel::Number {
            number: product.price_value,
        }),
        tier_fields(p, product)[4] == ("is_recurring"@, ScalarModel::Flag { flag: p.is_recurring }),
        tier_fields(p, product)[6] == ("trial_days"@, ScalarModel::Number {
            number: p.trial_days,
        }),
{
}

} // verus!
