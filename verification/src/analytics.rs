//! Anonymous figures that an operator may agree to share. Off unless switched
//! on, and even then nothing is sent without an address to send it to.

use crate::codec::{is_v4, uuid_text, Uuid};
use crate::text::{lowercased, opt_text, same, to_ascii_lower};
use vstd::prelude::*;

verus! {

/// The setting that switches sharing on.
pub const SETTING_ENABLED: &'static str = "community_analytics_enabled";

/// The setting that holds the installation's random name.
pub const SETTING_INSTALL_UUID: &'static str = "community_install_uuid";

/// The setting that holds the address figures are sent to.
pub const SETTING_COLLECTOR_URL: &'static str = "community_collector_url";

/// The version of a heartbeat's form.
pub const HEARTBEAT_SCHEMA_VERSION: u32 = 1;

/// What is shared.
#[derive(Clone, Debug, PartialEq, Eq)]
pub struct Heartbeat {
    pub install_uuid: String,
    pub daemon_version: &'static str,
    pub tier: &'static str,
    pub counts: HeartbeatCounts,
    pub uptime_bucket: &'static str,
    pub schema_version: u32,
}

/// How much there is, rounded.
#[derive(Clone, Copy, Debug, PartialEq, Eq, Structural)]
pub struct HeartbeatCounts {
    pub products: i64,
    pub active_licenses: i64,
    pub settled_invoices: i64,
}

/// A number rounded down to a multiple of `step`. Where that lies below the least
/// number that fits, it is the least multiple that does fit.
pub open spec fn floored(value: int, step: int) -> int {
    if step <= 0 {
        value
    } else if value - value % step < i64::MIN {
        value - value % step + step
    } else {
        value - value % step
    }
}

/// A number rounded down to a multiple of `step`.
pub fn floor_to(value: i64, step: i64) -> (r: i64)
    ensures
        r == floored(value as int, step as int),
        step > 0 ==> r as int % step as int == 0 && value < r + step,
        step > 0 && value - value as int % step as int >= i64::MIN ==> r <= value,
{
    if step <= 0 {
        return value;
    }
    let down: i128 = if value >= 0 {
        let rest: u64 = value as u64 % step as u64;
        value as i128 - rest as i128
    } else {
        let size: u64 = (-(value as i128)) as u64;
        let rest: u64 = size % step as u64;
        proof {
            lemma_rest_below_zero(size as int, step as int);
        }
        if rest == 0 {
            value as i128
        } else {
            value as i128 - (step as i128 - rest as i128)
        }
    };
    proof {
        lemma_floored(value as int, step as int);
    }
    if down < i64::MIN as i128 {
        (down + step as i128) as i64
    } else {
        down as i64
    }
}

/// How far a number below zero lies above the multiple of `step` below it.
proof fn lemma_rest_below_zero(size: int, step: int)
    requires
        size >= 0,
        step > 0,
    ensures
        0 <= size % step < step,
        (-size) % step == if size % step == 0 {
            0
        } else {
            step - size % step
        },
{
    vstd::arithmetic::div_mod::lemma_fundamental_div_mod(size, step);
    vstd::arithmetic::div_mod::lemma_mod_bound(size, step);
    let q = size / step;
    let rest = size % step;
    if rest == 0 {
        assert(-size == (-q) * step) by (nonlinear_arith)
            requires
                size == step * q,
        ;
        vstd::arithmetic::div_mod::lemma_fundamental_div_mod_converse(-size, step, -q, 0);
    } else {
        assert(-size == (-q - 1) * step + (step - rest)) by (nonlinear_arith)
            requires
                size == step * q + rest,
        ;
        vstd::arithmetic::div_mod::lemma_fundamental_div_mod_converse(
            -size,
            step,
            -q - 1,
            step - rest,
        );
    }
}

proof fn lemma_floored(value: int, step: int)
    requires
        step > 0,
    ensures
        0 <= value % step < step,
        (value - value % step) % step == 0,
        (value - value % step + step) % step == 0,
{
    vstd::arithmetic::div_mod::lemma_mod_bound(value, step);
    vstd::arithmetic::div_mod::lemma_fundamental_div_mod(value, step);
    let q = value / step;
    assert(value - value % step == q * step + 0) by (nonlinear_arith)
        requires
            value == step * q + value % step,
    ;
    assert(value - value % step + step == (q + 1) * step + 0) by (nonlinear_arith)
        requires
            value == step * q + value % step,
    ;
    vstd::arithmetic::div_mod::lemma_fundamental_div_mod_converse(
        value - value % step,
        step,
        q,
        0,
    );
    vstd::arithmetic::div_mod::lemma_fundamental_div_mod_converse(
        value - value % step + step,
        step,
        q + 1,
        0,
    );
}

/// A rounded count does not give the exact one away: all counts between two
/// multiples of the step look alike. No count is rounded up.
pub proof fn rounded_counts_look_alike(a: int, b: int, step: int)
    requires
        step > 0,
        a / step == b / step,
        a - a % step >= i64::MIN,
    ensures
        floored(a, step) == floored(b, step),
        floored(a, step) % step == 0,
        floored(a, step) <= a,
        a < floored(a, step) + step,
{
    vstd::arithmetic::div_mod::lemma_fundamental_div_mod(a, step);
    vstd::arithmetic::div_mod::lemma_fundamental_div_mod(b, step);
    lemma_floored(a, step);
}

/// How long the service has been running, roughly.
pub open spec fn uptime_words(secs: u64) -> Seq<char> {
    if secs < 86_400 {
        "<1d"@
    } else if secs < 604_800 {
        "1-7d"@
    } else if secs < 2_419_200 {
        "1-4w"@
    } else {
        ">4w"@
    }
}

/// How long the service has been running, roughly.
pub fn uptime_bucket(secs: u64) -> (r: &'static str)
    ensures
        r@ == uptime_words(secs),
{
    let day: u64 = 86_400;
    let week: u64 = 7 * day;
    let four_weeks: u64 = 4 * week;
    if secs < day {
        "<1d"
    } else if secs < week {
        "1-7d"
    } else if secs < four_weeks {
        "1-4w"
    } else {
        ">4w"
    }
}

/// Is `r` what is shared?
pub open spec fn is_heartbeat(
    install_uuid: Seq<char>,
    counts: HeartbeatCounts,
    tier: &'static str,
    daemon_version: &'static str,
    now: Option<u64>,
    started_at: u64,
    r: Heartbeat,
) -> bool {
    &&& r.install_uuid@ == install_uuid
    &&& r.daemon_version == daemon_version
    &&& r.tier == tier
    &&& r.counts == (HeartbeatCounts {
        products: floored(counts.products as int, 5) as i64,
        active_licenses: floored(counts.active_licenses as int, 5) as i64,
        settled_invoices: floored(counts.settled_invoices as int, 5) as i64,
    })
    &&& r.uptime_bucket@ == uptime_words(
        match now {
            Some(t) if t > started_at => (t - started_at) as u64,
            _ => 0,
        },
    )
    &&& r.schema_version == HEARTBEAT_SCHEMA_VERSION
}

/// What is shared. `counts` are the exact figures. `now` is none where the clock
/// cannot be read; the service then counts as just started.
pub fn build_heartbeat(
    install_uuid: &str,
    counts: &HeartbeatCounts,
    tier: &'static str,
    daemon_version: &'static str,
    now: Option<u64>,
    started_at: u64,
) -> (r: Heartbeat)
    ensures
        is_heartbeat(install_uuid@, *counts, tier, daemon_version, now, started_at, r),
{
    let now: u64 = match now {
        Some(t) => t,
        None => started_at,
    };
    let uptime: u64 = if now > started_at {
        now - started_at
    } else {
        0
    };
    Heartbeat {
        install_uuid: String::from_str(install_uuid),
        daemon_version,
        tier,
        counts: HeartbeatCounts {
            products: floor_to(counts.products, 5),
            active_licenses: floor_to(counts.active_licenses, 5),
            settled_invoices: floor_to(counts.settled_invoices, 5),
        },
        uptime_bucket: uptime_bucket(uptime),
        schema_version: HEARTBEAT_SCHEMA_VERSION,
    }
}

/// Does the stored setting switch sharing on?
pub open spec fn switched_on(stored: Option<Seq<char>>) -> bool {
    stored matches Some(v) && (v == "1"@ || lowercased(v) == "true"@)
}

/// Whether sharing is switched on. Where the setting is not there, or could not
/// be read, it is off.
pub fn is_enabled(stored: &Option<String>) -> (r: bool)
    ensures
        r == switched_on(opt_text(*stored)),
{
    match stored {
        Some(v) => {
            let lower: String = to_ascii_lower(v.as_str());
            same(v.as_str(), "1") || same(lower.as_str(), "true")
        },
        None => false,
    }
}

/// The installation's name, and whether it is new and has to be stored. A new
/// one is made up at random, and says nothing about the operator.
pub fn ensure_install_uuid(stored: &Option<String>) -> (r: (String, bool))
    ensures
        match *stored {
            Some(name) if name@.len() > 0 => r.0 == name && !r.1,
            _ => r.1 && exists|fresh: Uuid| is_v4(fresh.bytes@) && r.0@ == #[trigger] uuid_text(fresh.bytes@),
        },
{
    if let Some(name) = stored {
        if name.as_str().unicode_len() > 0 {
            return (name.clone(), false);
        }
    }
    let fresh: Uuid = Uuid::new_v4();
    (fresh.to_text(), true)
}

/// Where figures are sent to now, if anywhere.
pub open spec fn destination(enabled: Option<Seq<char>>, url: Option<Seq<char>>) -> Option<
    Seq<char>,
> {
    match url {
        Some(u) if switched_on(enabled) && u.len() > 0 => Some(u),
        _ => None,
    }
}

/// Where figures are sent to now, if anywhere.
pub fn tick(enabled: &Option<String>, collector_url: &Option<String>) -> (r: Option<String>)
    ensures
        opt_text(r) == destination(opt_text(*enabled), opt_text(*collector_url)),
{
    if !is_enabled(enabled) {
        return None;
    }
    match collector_url {
        Some(u) => if u.as_str().unicode_len() > 0 {
            Some(u.clone())
        } else {
            None
        },
        None => None,
    }
}

/// Nothing is sent unless sharing is switched on and there is an address.
pub proof fn nothing_is_sent_unasked(enabled: Option<Seq<char>>, url: Option<Seq<char>>)
    requires
        !switched_on(enabled) || url is None || url->0.len() == 0,
    ensures
        destination(enabled, url) is None,
{
}

} // verus!
