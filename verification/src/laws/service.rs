//! What the service tells of itself, and how it is set up.

use crate::analytics::{destination, floored, is_heartbeat, Heartbeat, HeartbeatCounts};
use crate::api::admin::{clamped, is_named, of_policies, reason_or, row_with, LicenseNames, NamedRow};
use crate::api::community::{is_sharing_change, SetReq, SharingChange};
use crate::api::health_summary::{
    alarms, health_of, is_connected, is_provider_report, is_summary, window_start_text,
    DeadLetters, HealthSummary, Observation, ProviderAuthHealth, ProviderReport,
};
use crate::api::recover::recover_bucket;
use crate::api::self_license::{shows_tier, Mode, Tier, TierStatus};
use crate::api::thank_you::shown_operator;
use crate::api::validate::{first_client, is_rate_bucket};
use crate::api::webhook_deliveries::{is_delivery_list, DeliveryStatusFilter, ListDeliveriesQuery};
use crate::clock::{rfc3339_text, Moment};
use crate::codec::{ed25519_public, pem_public, pem_secret, uuid_text};
use crate::config::{env_refusal, is_configured, Config, Environment};
use crate::crypto::keys::{is_server_keypair, KeypairError, ServerKeypair, StoredKeys};
use crate::error::AppError;
use crate::models::{License, PaymentProviderRow};
use crate::text::{begins_with, trimmed, without_trailing};
use vstd::prelude::*;
use vstd::utf8::encode_utf8;

verus! {

// ---------- health ----------

/// What was observed of a provider is the first that is kept under its
/// identifier; of one that is not kept, nothing was.
pub proof fn observations_are_kept_by_provider(all: Seq<Observation>, id: Seq<char>, k: int)
    ensures
        0 <= k < all.len() && all[k].provider_id@ == id && (forall|j: int|
            0 <= j < k ==> (#[trigger] all[j]).provider_id@ != id) ==> health_of(all, id)
            == all[k].health,
        (forall|j: int| 0 <= j < all.len() ==> (#[trigger] all[j]).provider_id@ != id) ==> {
            let h = health_of(all, id);
            &&& !h.auth_dead.alerting && !h.cannot_sell.alerting
            &&& h.auth_dead.consecutive == 0 && h.cannot_sell.consecutive == 0
            &&& h.last_success_at is None && h.last_status is None
            &&& h.probe_403_since is None && h.last_probe_at is None
        },
    decreases all.len(),
{
    if all.len() > 0 {
        let rest = all.drop_first();
        observations_are_kept_by_provider(rest, id, k - 1);
        if forall|j: int| 0 <= j < all.len() ==> (#[trigger] all[j]).provider_id@ != id {
            assert(all[0].provider_id@ != id);
            assert forall|j: int| 0 <= j < rest.len() implies (#[trigger] rest[j]).provider_id@
                != id by {
                assert(rest[j] == all[j + 1]);
            }
        }
        if 0 < k < all.len() && all[k].provider_id@ == id && (forall|j: int|
            0 <= j < k ==> (#[trigger] all[j]).provider_id@ != id) {
            assert(all[0].provider_id@ != id);
            assert(rest[k - 1] == all[k]);
            assert forall|j: int| 0 <= j < k - 1 implies (#[trigger] rest[j]).provider_id@
                != id by {
                assert(rest[j] == all[j + 1]);
            }
        }
    }
}

/// A provider whose key is dead or that cannot sell is critical; what else was
/// observed of it is told as it is.
pub proof fn providers_in_alarm_are_critical(
    r: ProviderReport,
    row: PaymentProviderRow,
    h: ProviderAuthHealth,
)
    requires
        is_provider_report(r, row, h),
    ensures
        r.id == row.id,
        r.kind == row.kind,
        r.label == row.label,
        r.status is Critical <==> h.auth_dead.alerting || h.cannot_sell.alerting,
        r.status is Fine <==> !h.auth_dead.alerting && !h.cannot_sell.alerting,
        r.auth_dead.alerting == h.auth_dead.alerting,
        r.auth_dead.consecutive == h.auth_dead.consecutive,
        r.auth_dead.message is Some <==> h.auth_dead.alerting,
        r.auth_dead.exact,
        r.cannot_sell.alerting == h.cannot_sell.alerting,
        r.cannot_sell.consecutive == h.cannot_sell.consecutive,
        r.cannot_sell.message is Some <==> h.cannot_sell.alerting,
        !r.cannot_sell.exact,
        r.last_status == h.last_status,
        r.last_success_at is Some <==> h.last_success_at is Some,
        h.last_success_at matches Some(t) ==> r.last_success_at->0@ == rfc3339_text(
            t.secs,
            t.nanos,
        ),
        r.permissions_limited <==> h.probe_403_since is Some,
        r.permissions_since is Some <==> h.probe_403_since is Some,
        h.probe_403_since matches Some(t) ==> r.permissions_since->0@ == rfc3339_text(
            t.secs,
            t.nanos,
        ),
        r.last_probe_at is Some <==> h.last_probe_at is Some,
        h.last_probe_at matches Some(t) ==> r.last_probe_at->0@ == rfc3339_text(t.secs, t.nanos),
        r.auth_dead.first_failure_at is Some <==> h.auth_dead.first_failure_at is Some,
        h.auth_dead.first_failure_at matches Some(t) ==> r.auth_dead.first_failure_at->0@
            == rfc3339_text(t.secs, t.nanos),
        r.cannot_sell.first_failure_at is Some <==> h.cannot_sell.first_failure_at is Some,
        h.cannot_sell.first_failure_at matches Some(t) ==> r.cannot_sell.first_failure_at->0@
            == rfc3339_text(t.secs, t.nanos),
        r.stale <==> h.last_status is None && h.last_success_at is None,
{
}

proof fn lemma_alarms(rows: Seq<PaymentProviderRow>, all: Seq<Observation>)
    ensures
        0 <= alarms(rows, all) <= rows.len(),
        alarms(rows, all) > 0 <==> exists|i: int|
            0 <= i < rows.len() && is_in_alarm(all, #[trigger] rows[i]),
    decreases rows.len(),
{
    if rows.len() > 0 {
        let front = rows.drop_last();
        lemma_alarms(front, all);
        if alarms(front, all) > 0 {
            let i = choose|i: int| 0 <= i < front.len() && is_in_alarm(all, #[trigger] front[i]);
            assert(is_in_alarm(all, rows[i]));
        }
        if is_in_alarm(all, rows.last()) {
            assert(is_in_alarm(all, rows[rows.len() - 1]));
        }
        if exists|i: int| 0 <= i < rows.len() && is_in_alarm(all, #[trigger] rows[i]) {
            let i = choose|i: int| 0 <= i < rows.len() && is_in_alarm(all, #[trigger] rows[i]);
            if i < rows.len() - 1 {
                assert(is_in_alarm(all, front[i]));
            }
        }
    }
}

/// Is a provider in alarm?
pub open spec fn is_in_alarm(all: Seq<Observation>, row: PaymentProviderRow) -> bool {
    health_of(all, row.id@).auth_dead.alerting || health_of(all, row.id@).cannot_sell.alerting
}

/// The whole is critical exactly where a provider is in alarm, and otherwise a
/// warning exactly where notices were given up of late.
pub proof fn the_whole_is_as_bad_as_its_worst_part(
    letters: DeadLetters,
    rows: Seq<PaymentProviderRow>,
    observed: Seq<Observation>,
    now: Moment,
    r: HealthSummary,
)
    requires
        is_summary(letters, rows, observed, now, r),
    ensures
        r.generated_at@ == rfc3339_text(now.secs, now.nanos),
        r.status is Critical <==> exists|i: int|
            0 <= i < rows.len() && is_in_alarm(observed, #[trigger] rows[i]),
        r.provider_status is Critical <==> r.status is Critical,
        r.alerting_providers > 0 <==> r.status is Critical,
        0 <= r.alerting_providers <= rows.len(),
        r.dead_letter_status is Warn <==> letters.alerting_count > 0,
        !(r.status is Critical) ==> (r.status is Warn <==> letters.alerting_count > 0),
        r.dead_letter_message is Some <==> letters.alerting_count > 0,
        r.provider_message is Some <==> r.status is Critical,
        r.providers@.len() == rows.len(),
        forall|i: int|
            0 <= i < rows.len() ==> (#[trigger] r.providers@[i]).id == rows[i].id && (
            r.providers@[i].status is Critical <==> is_in_alarm(observed, rows[i])),
{
    lemma_alarms(rows, observed);
}

/// Notices that were given up count for a week.
pub proof fn given_up_notices_count_for_a_week(now: Moment)
    requires
        now.nanos < 1_000_000_000,
        i64::MIN + 604_800 <= now.secs,
    ensures
        window_start_text(now) == rfc3339_text((now.secs - 604_800) as i64, now.nanos),
{
}

/// What was observed is kept of the providers that are connected, and of no
/// others.
pub proof fn only_connected_providers_are_observed(rows: Seq<PaymentProviderRow>, id: Seq<char>)
    ensures
        is_connected(rows, id) <==> exists|i: int|
            0 <= i < rows.len() && (#[trigger] rows[i]).id@ == id,
{
}

// ---------- what is shared ----------

/// Counts are shared as the next lower multiple of five, and the time since the
/// start roughly; nothing else of the figures is.
pub proof fn figures_are_shared_roughly(
    install: Seq<char>,
    counts: HeartbeatCounts,
    tier: &'static str,
    version: &'static str,
    now: Option<u64>,
    started_at: u64,
    r: Heartbeat,
)
    requires
        is_heartbeat(install, counts, tier, version, now, started_at, r),
        counts.products >= 0,
        counts.active_licenses >= 0,
        counts.settled_invoices >= 0,
    ensures
        r.install_uuid@ == install,
        r.tier@ == tier@,
        r.daemon_version@ == version@,
        r.schema_version == 1,
        r.counts.products % 5 == 0 && r.counts.products <= counts.products < r.counts.products + 5,
        r.counts.active_licenses % 5 == 0 && r.counts.active_licenses <= counts.active_licenses
            < r.counts.active_licenses + 5,
        r.counts.settled_invoices % 5 == 0 && r.counts.settled_invoices <= counts.settled_invoices
            < r.counts.settled_invoices + 5,
        now is None || now->0 <= started_at ==> r.uptime_bucket@ == "<1d"@,
        now is Some && now->0 > started_at ==> {
            let secs = now->0 - started_at;
            &&& secs < 86_400 ==> r.uptime_bucket@ == "<1d"@
            &&& 86_400 <= secs < 7 * 86_400 ==> r.uptime_bucket@ == "1-7d"@
            &&& 7 * 86_400 <= secs < 28 * 86_400 ==> r.uptime_bucket@ == "1-4w"@
            &&& 28 * 86_400 <= secs ==> r.uptime_bucket@ == ">4w"@
        },
{
}

/// Rounding goes down to a multiple of the step, by less than the step; without a
/// step nothing is rounded.
pub proof fn rounding_goes_down(value: int, step: int)
    ensures
        step <= 0 ==> floored(value, step) == value,
        step > 0 && value - value % step >= i64::MIN ==> {
            &&& floored(value, step) % step == 0
            &&& floored(value, step) <= value
            &&& value < floored(value, step) + step
        },
{
    if step > 0 && value - value % step >= i64::MIN {
        crate::analytics::rounded_counts_look_alike(value, value, step);
    }
}

/// Figures go to the address that is set, where sharing is on and there is one.
pub proof fn figures_go_where_they_are_meant_to(enabled: Option<Seq<char>>, url: Option<Seq<char>>)
    ensures
        enabled is None ==> destination(enabled, url) is None,
        url is None || url->0.len() == 0 ==> destination(enabled, url) is None,
        enabled == Some("1"@) && url is Some && url->0.len() > 0 ==> destination(enabled, url)
            == url,
        enabled == Some("true"@) && url is Some && url->0.len() > 0 ==> destination(enabled, url)
            == url,
        enabled == Some("0"@) ==> destination(enabled, url) is None,
        destination(enabled, url) is Some ==> destination(enabled, url) == url,
{
    reveal_strlit("1");
    reveal_strlit("0");
    reveal_strlit("true");
    assert("0"@[0] == '0' && "1"@[0] == '1' && "true"@.len() == 4);
    assert(crate::text::lowercased("true"@) =~= "true"@);
    assert(crate::text::lowercased("0"@).len() == 1);
}

/// What is stored switches sharing on or off as was asked, with the address
/// without white space; an address that is no web address is refused.
pub proof fn sharing_is_switched_as_asked(req: SetReq, r: Result<SharingChange, AppError>)
    requires
        is_sharing_change(req, r),
    ensures
        req.collector_url is None || trimmed(req.collector_url->0@).len() == 0 ==> r is Ok
            && r->Ok_0.collector_url is None,
        req.collector_url is Some && trimmed(req.collector_url->0@).len() > 0 ==> {
            let url = trimmed(req.collector_url->0@);
            &&& r is Ok <==> begins_with(url, "http://"@) || begins_with(url, "https://"@)
            &&& r is Ok ==> r->Ok_0.collector_url is Some && r->Ok_0.collector_url->0@ == url
        },
        r matches Ok(c) ==> {
            &&& req.enabled ==> c.enabled@ == "1"@ && c.needs_install_uuid
            &&& !req.enabled ==> c.enabled@ == "0"@ && !c.needs_install_uuid
        },
        r is Err ==> (r->Err_0 is BadRequest),
{
}

// ---------- how it is set up ----------

/// Is a variable set to something?
pub open spec fn is_set(v: Option<String>) -> bool {
    v is Some && v->0@.len() > 0
}

/// The service starts where its environment names a long enough key, the
/// provider's address and its own; a newer name goes before an older one.
pub proof fn the_environment_has_to_be_complete(env: Environment)
    ensures
        env_refusal(env) is None <==> {
            &&& is_set(env.keysat_admin_api_key) || is_set(env.licensing_admin_api_key)
            &&& is_set(env.keysat_admin_api_key) ==> encode_utf8(env.keysat_admin_api_key->0@).len()
                >= 32
            &&& !is_set(env.keysat_admin_api_key) ==> encode_utf8(
                env.licensing_admin_api_key->0@,
            ).len() >= 32
            &&& env.btcpay_url is Some
            &&& is_set(env.keysat_public_url) || is_set(env.licensing_public_url)
        },
{
}

/// The service is set up as its environment says, with addresses without slashes
/// at their end.
pub proof fn the_environment_is_followed(env: Environment, c: Config)
    requires
        is_configured(env, c),
    ensures
        is_set(env.keysat_bind) ==> c.bind@ == env.keysat_bind->0@,
        !is_set(env.keysat_bind) && is_set(env.licensing_bind) ==> c.bind@
            == env.licensing_bind->0@,
        !is_set(env.keysat_bind) && !is_set(env.licensing_bind) ==> c.bind@ == "0.0.0.0:8080"@,
        is_set(env.keysat_db_path) ==> c.db_path@ == env.keysat_db_path->0@,
        !is_set(env.keysat_db_path) && is_set(env.licensing_db_path) ==> c.db_path@
            == env.licensing_db_path->0@,
        !is_set(env.keysat_db_path) && !is_set(env.licensing_db_path) ==> c.db_path@
            == "./data/keysat.db"@,
        is_set(env.keysat_admin_api_key) ==> c.admin_api_key@ == env.keysat_admin_api_key->0@,
        !is_set(env.keysat_admin_api_key) && is_set(env.licensing_admin_api_key)
            ==> c.admin_api_key@ == env.licensing_admin_api_key->0@,
        env.btcpay_url is Some ==> c.btcpay_url@ == without_trailing(env.btcpay_url->0@, '/'),
        is_set(env.keysat_public_url) ==> c.public_base_url@ == without_trailing(
            env.keysat_public_url->0@,
            '/',
        ),
        !is_set(env.keysat_public_url) && is_set(env.licensing_public_url) ==> c.public_base_url@
            == without_trailing(env.licensing_public_url->0@, '/'),
        is_set(env.btcpay_browser_url) ==> c.btcpay_browser_url is Some
            && c.btcpay_browser_url->0@ == without_trailing(env.btcpay_browser_url->0@, '/'),
        !is_set(env.btcpay_browser_url) ==> c.btcpay_browser_url is None,
        is_set(env.btcpay_public_url) ==> c.btcpay_public_url is Some && c.btcpay_public_url->0@
            == without_trailing(env.btcpay_public_url->0@, '/'),
        !is_set(env.btcpay_public_url) && is_set(env.btcpay_browser_url) ==> c.btcpay_public_url
            is Some && c.btcpay_public_url->0@ == without_trailing(
            env.btcpay_browser_url->0@,
            '/',
        ),
        !is_set(env.btcpay_public_url) && !is_set(env.btcpay_browser_url) ==> c.btcpay_public_url
            is None,
        is_set(env.btcpay_api_key) <==> c.btcpay_api_key is Some,
        is_set(env.btcpay_api_key) ==> c.btcpay_api_key->0@ == env.btcpay_api_key->0@,
        is_set(env.btcpay_store_id) <==> c.btcpay_store_id is Some,
        is_set(env.btcpay_store_id) ==> c.btcpay_store_id->0@ == env.btcpay_store_id->0@,
        is_set(env.btcpay_webhook_secret) <==> c.btcpay_webhook_secret is Some,
        is_set(env.btcpay_webhook_secret) ==> c.btcpay_webhook_secret->0@
            == env.btcpay_webhook_secret->0@,
        is_set(env.keysat_operator_name) ==> c.operator_name is Some && c.operator_name->0@
            == env.keysat_operator_name->0@,
        !is_set(env.keysat_operator_name) && is_set(env.licensing_operator_name)
            ==> c.operator_name is Some && c.operator_name->0@
            == env.licensing_operator_name->0@,
        !is_set(env.keysat_operator_name) && !is_set(env.licensing_operator_name)
            ==> c.operator_name is None,
{
}

/// The server keeps the keypair that is stored; a new one is stored so that it is
/// the same the next time.
pub proof fn the_server_keeps_its_key(
    stored: Option<StoredKeys>,
    k: ServerKeypair,
    new: Option<StoredKeys>,
)
    requires
        is_server_keypair(stored, Ok::<(ServerKeypair, Option<StoredKeys>), KeypairError>((k, new))),
    ensures
        stored is Some <==> new is None,
        stored matches Some(row) ==> pem_secret(row.private_key_pem@) == Ok::<Seq<u8>, Seq<char>>(
            k.signing.secret@,
        ) && pem_public(row.public_key_pem@) == Ok::<Seq<u8>, Seq<char>>(k.verifying.bytes@),
        new matches Some(row) ==> {
            &&& k.verifying.bytes@ == ed25519_public(k.signing.secret@)
            &&& pem_secret(row.private_key_pem@) == Ok::<Seq<u8>, Seq<char>>(k.signing.secret@)
            &&& pem_public(row.public_key_pem@) == Ok::<Seq<u8>, Seq<char>>(k.verifying.bytes@)
        },
{
}

// ---------- what the operator sees ----------

/// The service's own license is shown as it is.
pub proof fn the_own_license_is_shown(tier: Tier, mode: Mode, status: TierStatus)
    requires
        shows_tier(tier, mode, status),
    ensures
        tier is Unlicensed <==> status is Unlicensed,
        tier matches Tier::Unlicensed { reason } ==> (status matches TierStatus::Unlicensed {
            reason: told,
            ..
        } && told@ == reason@),
        tier matches Tier::Licensed { license_id, product_id, expires_at, entitlements } ==> (
        status matches TierStatus::Licensed {
            license_id: l,
            product_id: p,
            expires_at: x,
            entitlements: e,
            mode: m,
        } && l@ == uuid_text(license_id@) && p@ == uuid_text(product_id@) && x == expires_at && e@
            == entitlements@ && (mode is Enforce ==> m@ == "enforce"@) && (mode is Permissive
            ==> m@ == "permissive"@)),
{
}

/// A number that is brought into a range is itself where it lies in it, and else
/// the end of the range that is nearer.
pub proof fn numbers_are_brought_into_range(n: int, least: int, most: int)
    requires
        least <= most,
    ensures
        least <= clamped(n, least, most) <= most,
        least <= n <= most ==> clamped(n, least, most) == n,
        n < least ==> clamped(n, least, most) == least,
        n > most ==> clamped(n, least, most) == most,
{
}

/// Deliveries are listed by the state that was asked for, or all, and at most so
/// many as were asked for, up to five hundred.
pub proof fn deliveries_are_listed_by_state(
    q: ListDeliveriesQuery,
    r: Result<(DeliveryStatusFilter, i64), AppError>,
)
    requires
        is_delivery_list(q, r),
    ensures
        q.status is None ==> r is Ok && (r->Ok_0.0 is All),
        q.status is Some && q.status->0@ == "pending"@ ==> r is Ok && (r->Ok_0.0 is Pending),
        q.status is Some && q.status->0@ == "delivered"@ ==> r is Ok && (r->Ok_0.0 is Delivered),
        q.status is Some && q.status->0@ == "failed"@ ==> r is Ok && (r->Ok_0.0 is Failed),
        q.status is Some && q.status->0@ == "all"@ ==> r is Ok && (r->Ok_0.0 is All),
        q.status is Some && q.status->0@ != "pending"@ && q.status->0@ != "delivered"@
            && q.status->0@ != "failed"@ && q.status->0@ != "all"@ ==> r is Err && (r->Err_0
            is BadRequest),
        r is Ok && q.limit is None ==> r->Ok_0.1 == 100,
        r is Ok && q.limit is Some && 1 <= q.limit->0 <= 500 ==> r->Ok_0.1 == q.limit->0,
        r is Ok ==> 1 <= r->Ok_0.1 <= 500,
{
    reveal_strlit("pending");
    reveal_strlit("delivered");
    reveal_strlit("failed");
    reveal_strlit("all");
    assert("pending"@.len() == 7 && "delivered"@.len() == 9 && "failed"@.len() == 6 && "all"@.len()
        == 3);
}

proof fn lemma_row(rows: Seq<NamedRow>, id: Seq<char>)
    ensures
        match row_with(rows, id) {
            Some(row) => row.id@ == id && exists|i: int|
                0 <= i < rows.len() && #[trigger] rows[i] == row,
            None => forall|i: int| 0 <= i < rows.len() ==> (#[trigger] rows[i]).id@ != id,
        },
    decreases rows.len(),
{
    if rows.len() > 0 {
        let front = rows.drop_last();
        lemma_row(front, id);
        if rows.last().id@ == id {
            assert(rows[rows.len() - 1] == rows.last());
        } else {
            match row_with(front, id) {
                Some(row) => {
                    let i = choose|i: int| 0 <= i < front.len() && #[trigger] front[i] == row;
                    assert(rows[i] == row);
                },
                None => {
                    assert forall|i: int| 0 <= i < rows.len() implies (#[trigger] rows[i]).id@
                        != id by {
                        if i < rows.len() - 1 {
                            assert(front[i] == rows[i]);
                        }
                    }
                },
            }
        }
    }
}

/// A license is shown with the names of its own policy and product, where these
/// are known.
pub proof fn licenses_are_shown_with_their_names(
    license: License,
    policies: Seq<NamedRow>,
    products: Seq<NamedRow>,
    names: LicenseNames,
)
    requires
        is_named(license, policies, products, names),
    ensures
        license.policy_id is None ==> names.policy_slug is None && names.policy_name is None,
        names.policy_slug is Some ==> license.policy_id is Some && exists|i: int|
            0 <= i < policies.len() && (#[trigger] policies[i]).id@ == license.policy_id->0@
                && policies[i].slug == names.policy_slug->0 && names.policy_name == Some(
                policies[i].name,
            ),
        license.policy_id is Some && names.policy_slug is None ==> forall|i: int|
            0 <= i < policies.len() ==> (#[trigger] policies[i]).id@ != license.policy_id->0@,
        names.product_slug is Some ==> exists|i: int|
            0 <= i < products.len() && (#[trigger] products[i]).id@ == license.product_id@
                && products[i].slug == names.product_slug->0,
        names.product_slug is None ==> forall|i: int|
            0 <= i < products.len() ==> (#[trigger] products[i]).id@ != license.product_id@,
{
    if license.policy_id is Some {
        lemma_row(policies, license.policy_id->0@);
    }
    lemma_row(products, license.product_id@);
}

/// Licenses are counted for each policy; those without a policy are left out.
pub proof fn licenses_are_counted_by_policy(rows: Seq<(Option<String>, i64)>, last: (Option<String>, i64))
    ensures
        of_policies(Seq::<(Option<String>, i64)>::empty()).len() == 0,
        last.0 is Some ==> of_policies(rows.push(last)) == of_policies(rows).push(
            (last.0->0, last.1),
        ),
        last.0 is None ==> of_policies(rows.push(last)) == of_policies(rows),
{
    assert(rows.push(last).drop_last() =~= rows);
}

/// A reason that is given is kept; where none is, the words stand for it.
pub proof fn reasons_that_are_given_are_kept(reason: Seq<char>, words: Seq<char>)
    ensures
        reason.len() > 0 ==> reason_or(reason, words) == reason,
        reason.len() == 0 ==> reason_or(reason, words) == words,
{
}

/// The name that is shown is the stored one, or else the one that was set up, or
/// else the service's own.
pub proof fn stored_names_are_shown_first(stored: Option<String>, configured: Option<String>)
    ensures
        stored is Some ==> shown_operator(stored, configured) == stored->0@,
        stored is None && configured is Some ==> shown_operator(stored, configured)
            == configured->0@,
        stored is None && configured is None ==> shown_operator(stored, configured) == "Keysat"@,
{
}

/// The client that a request names is the first of those in its header, without
/// white space around it.
pub proof fn the_first_client_counts(header: Seq<char>, rest: Seq<char>)
    requires
        !header.contains(','),
    ensures
        first_client(header) == trimmed(header),
        first_client(header.push(',') + rest) == trimmed(header),
{
    assert forall|j: int| 0 <= j < header.len() implies header[j] != ',' by {
        assert(header.contains(header[j]));
    }
    crate::text::lemma_place_unique(header, ',', header.len() as int);
    assert(header.subrange(0, header.len() as int) =~= header);
    let all = header.push(',') + rest;
    assert forall|j: int| 0 <= j < header.len() implies all[j] != ',' by {
        assert(all[j] == header[j]);
    }
    assert(all[header.len() as int] == ',');
    crate::text::lemma_place_unique(all, ',', header.len() as int);
    assert(all.subrange(0, header.len() as int) =~= header);
}

/// Requests are counted by their client; where that is not known, by the first 24
/// characters of the key, or the whole of a shorter one.
pub proof fn requests_are_counted_by_client(client: Option<String>, key: Seq<char>, r: String)
    requires
        is_rate_bucket(client, key, r),
    ensures
        client is Some ==> r == client->0,
        client is None && key.len() <= 24 ==> r@ == key,
        client is None && key.len() > 24 ==> r@.len() == 24 && forall|i: int|
            0 <= i < 24 ==> #[trigger] r@[i] == key[i],
{
}

/// Requests for a lost key are counted by the first client that was forwarded;
/// those that name none are counted together.
pub proof fn lost_keys_are_asked_for_by_client(header: Seq<char>, rest: Seq<char>)
    requires
        forall|i: int| 0 <= i < header.len() ==> header[i] != ',',
    ensures
        recover_bucket(None) == "_lan_"@,
        trimmed(header).len() == 0 ==> recover_bucket(Some(header)) == "_lan_"@,
        trimmed(header).len() > 0 ==> recover_bucket(Some(header)) == trimmed(header),
        trimmed(header).len() > 0 ==> recover_bucket(Some(header.push(',') + rest)) == trimmed(
            header,
        ),
{
    the_first_client_counts(header, rest);
}

} // verus!
