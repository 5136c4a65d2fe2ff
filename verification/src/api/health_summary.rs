//! Whether something is quietly broken.
//!
//! Notices that were given up and payment providers that turn the service down
//! are told to the operator, and how bad each is: fine, a warning, or critical.

use crate::clock::{rfc3339_text, to_rfc3339, Moment};
use crate::models::PaymentProviderRow;
use crate::text::{cat2, cat3, int_text, int_to_text, opt_text, same};
use vstd::prelude::*;

verus! {

/// How far back a notice that was given up still counts, in days.
pub const DEAD_LETTER_WINDOW_DAYS: i64 = 7;

/// What is said where a provider keeps turning the key down.
pub const AUTH_DEAD_MESSAGE: &'static str = "authentication failing (key may be revoked)";

/// What is said where a provider keeps saying that the key may not do something.
pub const CANNOT_SELL_MESSAGE: &'static str = "cannot create invoices (insufficient permissions)";

/// What the first of these rests on.
pub const AUTH_DEAD_NOTE: &'static str = "Counted from HTTP 401s on any provider call, and cleared by any success. A 401 is the confirmed revocation signal on both providers, but a mistyped or half-rotated key produces exactly the same 401, so this can only report that the key may have been revoked. Alerts only after 3 consecutive failures spanning at least 10 minutes, which is what keeps a key rotation from paging you for your own maintenance.";

/// What the second rests on. It has to be shown with the message.
pub const CANNOT_SELL_NOTE: &'static str = "Counted from HTTP 403s on any non-probe call, and cleared only by a call that actually created an invoice. Only 3 of the 9 calls Keysat makes create one, so a key that sells perfectly but is missing a read permission can raise this — check the key's permissions rather than assuming checkout is broken. Because only a real sale clears it, read first_failure_at and last_success_at together: on a quiet store this can mean no sale has been attempted since that time, not that anything failed just now.";

/// What a probe that was turned down means.
pub const PERMISSIONS_NOTE: &'static str = "The liveness probe deliberately asks for a broader permission than selling needs (BTCPay's canviewstoresettings, versus the cancreateinvoice a checkout uses), so a key that sells perfectly well can be denied here forever. Recorded as an observation and never alerts.";

/// What the figures on lost notices count.
pub const DEAD_LETTER_NOTE: &'static str = "Counts webhook deliveries that exhausted their retries and will not be tried again, by the date they were enqueued. alerting_count covers the window named by window_days; alerting_total, oldest_at, disabled_endpoint_total and bad_hmac_key_total are all LIFETIME figures and are not windowed, so oldest_at can name a very old delivery while status is ok. Two causes are excluded from the alerting set because they are the operator's own configuration rather than a receiver failing: an endpoint that was deleted or disabled (counted in disabled_endpoint_total) and an endpoint whose stored secret is unusable as an HMAC key (counted in bad_hmac_key_total). Not exact: last_error is last-write-wins, so disabling an endpoint part-way through a delivery's retry ladder reclassifies a genuinely failing delivery as informational. It can only shrink the alerting set, never grow it, which is why this set is deliberately narrower than the admin delivery list's status=failed filter.";

/// A verdict.
#[derive(Clone, Copy, Debug, PartialEq, Eq, PartialOrd, Ord, Structural)]
pub enum Status {
    Fine,
    Warn,
    Critical,
}

impl Status {
    /// How bad a verdict is.
    pub open spec fn rank(self) -> int {
        match self {
            Status::Fine => 0,
            Status::Warn => 1,
            Status::Critical => 2,
        }
    }

    /// The verdict's name.
    pub fn as_str(self) -> (r: &'static str)
        ensures
            r@ == match self {
                Status::Fine => "ok"@,
                Status::Warn => "warn"@,
                Status::Critical => "critical"@,
            },
    {
        match self {
            Status::Fine => "ok",
            Status::Warn => "warn",
            Status::Critical => "critical",
        }
    }

    /// The worse of two verdicts.
    pub open spec fn worse_of(a: Status, b: Status) -> Status {
        if a.rank() >= b.rank() {
            a
        } else {
            b
        }
    }

    /// The worse of two verdicts.
    pub fn worse(self, other: Status) -> (r: Status)
        ensures
            r == Status::worse_of(self, other),
    {
        match (self, other) {
            (Status::Critical, _) | (_, Status::Critical) => Status::Critical,
            (Status::Warn, _) | (_, Status::Warn) => Status::Warn,
            _ => Status::Fine,
        }
    }
}

/// A row of failures of one kind.
#[derive(Clone, Debug, PartialEq, Eq)]
pub struct FailureStreak {
    pub consecutive: u32,
    pub first_failure_at: Option<Moment>,
    /// Whether it has gone on long enough to be worth an alarm.
    pub alerting: bool,
}

/// What was observed of a provider.
#[derive(Clone, Debug, PartialEq, Eq)]
pub struct ProviderAuthHealth {
    pub auth_dead: FailureStreak,
    pub cannot_sell: FailureStreak,
    pub last_success_at: Option<Moment>,
    pub last_status: Option<u16>,
    /// Since when the probe has been turned down.
    pub probe_403_since: Option<Moment>,
    pub last_probe_at: Option<Moment>,
}

impl Default for ProviderAuthHealth {
    /// Nothing was observed.
    fn default() -> (r: ProviderAuthHealth)
        ensures
            r == unobserved(),
    {
        ProviderAuthHealth {
            auth_dead: FailureStreak { consecutive: 0, first_failure_at: None, alerting: false },
            cannot_sell: FailureStreak { consecutive: 0, first_failure_at: None, alerting: false },
            last_success_at: None,
            last_status: None,
            probe_403_since: None,
            last_probe_at: None,
        }
    }
}

/// Nothing was observed.
pub open spec fn unobserved() -> ProviderAuthHealth {
    ProviderAuthHealth {
        auth_dead: FailureStreak { consecutive: 0, first_failure_at: None, alerting: false },
        cannot_sell: FailureStreak { consecutive: 0, first_failure_at: None, alerting: false },
        last_success_at: None,
        last_status: None,
        probe_403_since: None,
        last_probe_at: None,
    }
}

/// What was observed lies within the calendar.
pub open spec fn is_dated(h: ProviderAuthHealth) -> bool {
    &&& h.auth_dead.first_failure_at matches Some(t) ==> t.in_calendar()
    &&& h.cannot_sell.first_failure_at matches Some(t) ==> t.in_calendar()
    &&& h.last_success_at matches Some(t) ==> t.in_calendar()
    &&& h.probe_403_since matches Some(t) ==> t.in_calendar()
    &&& h.last_probe_at matches Some(t) ==> t.in_calendar()
}

/// A time as it is reported.
pub open spec fn time_text(t: Option<Moment>) -> Option<Seq<char>> {
    match t {
        Some(t) => Some(rfc3339_text(t.secs, t.nanos)),
        None => None,
    }
}

fn ts(t: &Option<Moment>) -> (r: Option<String>)
    requires
        *t matches Some(t) ==> t.in_calendar(),
    ensures
        opt_text(r) == time_text(*t),
{
    match t {
        Some(t) => Some(to_rfc3339(t)),
        None => None,
    }
}

/// What is reported of a row of failures.
#[derive(Clone, Debug, PartialEq, Eq)]
pub struct StreakReport {
    pub alerting: bool,
    pub consecutive: u32,
    pub first_failure_at: Option<String>,
    /// Said only where there is an alarm.
    pub message: Option<&'static str>,
    /// Where not, the note has to be shown with the message.
    pub exact: bool,
    pub note: &'static str,
}

/// Is this what is reported of a row of failures?
pub open spec fn is_streak_report(
    r: StreakReport,
    streak: FailureStreak,
    message: &'static str,
    note: &'static str,
    exact: bool,
) -> bool {
    &&& r.alerting == streak.alerting
    &&& r.consecutive == streak.consecutive
    &&& opt_text(r.first_failure_at) == time_text(streak.first_failure_at)
    &&& r.message == if streak.alerting {
        Some(message)
    } else {
        None
    }
    &&& r.exact == exact
    &&& r.note == note
}

/// What is reported of a row of failures.
pub fn streak_report(
    streak: &FailureStreak,
    message: &'static str,
    note: &'static str,
    exact: bool,
) -> (r: StreakReport)
    requires
        streak.first_failure_at matches Some(t) ==> t.in_calendar(),
    ensures
        is_streak_report(r, *streak, message, note, exact),
{
    StreakReport {
        alerting: streak.alerting,
        consecutive: streak.consecutive,
        first_failure_at: ts(&streak.first_failure_at),
        message: if streak.alerting {
            Some(message)
        } else {
            None
        },
        exact,
        note,
    }
}

/// What is reported of a provider.
#[derive(Clone, Debug, PartialEq, Eq)]
pub struct ProviderReport {
    pub id: String,
    pub kind: String,
    pub label: String,
    pub status: Status,
    pub auth_dead: StreakReport,
    pub cannot_sell: StreakReport,
    pub last_success_at: Option<String>,
    pub last_status: Option<u16>,
    /// Whether the probe is turned down; that is never worth an alarm.
    pub permissions_limited: bool,
    pub permissions_since: Option<String>,
    pub permissions_note: &'static str,
    pub last_probe_at: Option<String>,
    /// Whether nothing was observed yet.
    pub stale: bool,
}

/// The verdict on a provider.
pub open spec fn provider_status(h: ProviderAuthHealth) -> Status {
    if h.auth_dead.alerting || h.cannot_sell.alerting {
        Status::Critical
    } else {
        Status::Fine
    }
}

/// Is this what is reported of a provider?
pub open spec fn is_provider_report(
    r: ProviderReport,
    row: PaymentProviderRow,
    h: ProviderAuthHealth,
) -> bool {
    &&& r.id == row.id
    &&& r.kind == row.kind
    &&& r.label == row.label
    &&& r.status == provider_status(h)
    &&& is_streak_report(r.auth_dead, h.auth_dead, AUTH_DEAD_MESSAGE, AUTH_DEAD_NOTE, true)
    &&& is_streak_report(
        r.cannot_sell,
        h.cannot_sell,
        CANNOT_SELL_MESSAGE,
        CANNOT_SELL_NOTE,
        false,
    )
    &&& opt_text(r.last_success_at) == time_text(h.last_success_at)
    &&& r.last_status == h.last_status
    &&& r.permissions_limited == h.probe_403_since is Some
    &&& opt_text(r.permissions_since) == time_text(h.probe_403_since)
    &&& r.permissions_note == PERMISSIONS_NOTE
    &&& opt_text(r.last_probe_at) == time_text(h.last_probe_at)
    &&& r.stale == (h.last_status is None && h.last_success_at is None)
}

/// What is reported of a provider.
pub fn provider_report(row: &PaymentProviderRow, h: &ProviderAuthHealth) -> (r: ProviderReport)
    requires
        is_dated(*h),
    ensures
        is_provider_report(r, *row, *h),
{
    let status: Status = if h.auth_dead.alerting || h.cannot_sell.alerting {
        Status::Critical
    } else {
        Status::Fine
    };
    ProviderReport {
        id: row.id.clone(),
        kind: row.kind.clone(),
        label: row.label.clone(),
        status,
        auth_dead: streak_report(&h.auth_dead, AUTH_DEAD_MESSAGE, AUTH_DEAD_NOTE, true),
        cannot_sell: streak_report(
            &h.cannot_sell,
            CANNOT_SELL_MESSAGE,
            CANNOT_SELL_NOTE,
            false,
        ),
        last_success_at: ts(&h.last_success_at),
        last_status: h.last_status,
        permissions_limited: h.probe_403_since.is_some(),
        permissions_since: ts(&h.probe_403_since),
        permissions_note: PERMISSIONS_NOTE,
        last_probe_at: ts(&h.last_probe_at),
        stale: h.last_status.is_none() && h.last_success_at.is_none(),
    }
}

/// What was observed of a provider under its id.
#[derive(Clone, Debug)]
pub struct Observation {
    pub provider_id: String,
    pub health: ProviderAuthHealth,
}

/// What was observed of the provider with an id.
pub open spec fn health_of(all: Seq<Observation>, id: Seq<char>) -> ProviderAuthHealth
    decreases all.len(),
{
    if all.len() == 0 {
        unobserved()
    } else if all[0].provider_id@ == id {
        all[0].health
    } else {
        health_of(all.drop_first(), id)
    }
}

fn find_health<'a>(all: &'a Vec<Observation>, id: &str) -> (r: Option<&'a ProviderAuthHealth>)
    requires
        forall|i: int| 0 <= i < all@.len() ==> is_dated((#[trigger] all@[i]).health),
    ensures
        match r {
            Some(h) => health_of(all@, id@) == *h && is_dated(*h),
            None => health_of(all@, id@) == unobserved(),
        },
{
    let n: usize = all.len();
    assert(all@.subrange(0, n as int) == all@);
    for i in 0..n
        invariant
            n == all@.len(),
            forall|i: int| 0 <= i < all@.len() ==> is_dated((#[trigger] all@[i]).health),
            health_of(all@, id@) == health_of(all@.subrange(i as int, n as int), id@),
    {
        assert(all@.subrange(i as int, n as int).drop_first() == all@.subrange(i + 1, n as int));
        if same(all[i].provider_id.as_str(), id) {
            return Some(&all[i].health);
        }
    }
    None
}

/// Is a provider with this id connected?
pub open spec fn is_connected(rows: Seq<PaymentProviderRow>, id: Seq<char>) -> bool {
    exists|i: int| 0 <= i < rows.len() && (#[trigger] rows[i]).id@ == id
}

/// Whether what was observed under an id is kept: only of providers that are
/// still connected.
pub fn keeps_observation(rows: &Vec<PaymentProviderRow>, id: &str) -> (r: bool)
    ensures
        r == is_connected(rows@, id@),
{
    for i in 0..rows.len()
        invariant
            forall|j: int| 0 <= j < i ==> (#[trigger] rows@[j]).id@ != id@,
    {
        if same(rows[i].id.as_str(), id) {
            assert(rows@[i as int].id@ == id@);
            return true;
        }
    }
    false
}

/// How many of the providers are in alarm.
pub open spec fn alarms(rows: Seq<PaymentProviderRow>, all: Seq<Observation>) -> int
    decreases rows.len(),
{
    if rows.len() == 0 {
        0
    } else {
        alarms(rows.drop_last(), all) + if provider_status(
            health_of(all, rows.last().id@),
        ) is Critical {
            1int
        } else {
            0
        }
    }
}

/// The figures on notices that were given up.
#[derive(Clone, Debug, PartialEq, Eq)]
pub struct DeadLetters {
    /// Those that count, of the last days.
    pub alerting_count: i64,
    /// Those that count, of all time.
    pub alerting_total: i64,
    pub oldest_at: Option<String>,
    /// Those of an endpoint that was deleted or switched off.
    pub disabled_endpoint_total: i64,
    /// Those of an endpoint whose secret cannot be used.
    pub bad_hmac_key_total: i64,
}

/// The report.
#[derive(Clone, Debug, PartialEq, Eq)]
pub struct HealthSummary {
    pub status: Status,
    pub generated_at: String,
    pub dead_letter_status: Status,
    pub dead_letter_message: Option<String>,
    pub provider_status: Status,
    pub provider_message: Option<String>,
    pub alerting_providers: i64,
    pub providers: Vec<ProviderReport>,
}

/// What is said of notices that were given up.
pub open spec fn dead_letter_words(n: int) -> Option<Seq<char>> {
    if n <= 0 {
        None
    } else {
        Some(
            int_text(n) + " webhook "@ + (if n == 1 {
                "delivery"@
            } else {
                "deliveries"@
            }) + " enqueued in the last "@ + int_text(DEAD_LETTER_WINDOW_DAYS as int)
                + " days gave up and will not be retried"@,
        )
    }
}

fn dead_letter_message(n: i64) -> (r: Option<String>)
    ensures
        opt_text(r) == dead_letter_words(n as int),
{
    if n <= 0 {
        return None;
    }
    let count: String = int_to_text(n);
    let days: String = int_to_text(DEAD_LETTER_WINDOW_DAYS);
    let head: String = cat3(
        count.as_str(),
        " webhook ",
        if n == 1 {
            "delivery"
        } else {
            "deliveries"
        },
    );
    let out: String = cat3(head.as_str(), " enqueued in the last ", days.as_str());
    Some(cat2(out.as_str(), " days gave up and will not be retried"))
}

/// What is said of providers in alarm.
pub open spec fn provider_words(n: int) -> Option<Seq<char>> {
    if n <= 0 {
        None
    } else {
        Some(
            int_text(n) + " payment "@ + (if n == 1 {
                "provider needs"@
            } else {
                "providers need"@
            }) + " attention — see the per-provider detail"@,
        )
    }
}

fn provider_message(n: i64) -> (r: Option<String>)
    ensures
        opt_text(r) == provider_words(n as int),
{
    if n <= 0 {
        return None;
    }
    let count: String = int_to_text(n);
    let out: String = cat3(
        count.as_str(),
        " payment ",
        if n == 1 {
            "provider needs"
        } else {
            "providers need"
        },
    );
    Some(cat2(out.as_str(), " attention — see the per-provider detail"))
}

/// The time from when on notices that were given up count.
pub open spec fn window_start_text(now: Moment) -> Seq<char> {
    let start = now.later(-(DEAD_LETTER_WINDOW_DAYS * 86_400));
    rfc3339_text(start.secs, start.nanos)
}

/// From when on notices that were given up count.
pub fn window_start(now: &Moment) -> (r: String)
    requires
        now.can_add(-(DEAD_LETTER_WINDOW_DAYS * 86_400)),
    ensures
        r@ == window_start_text(*now),
{
    let start: Moment = now.plus(-(DEAD_LETTER_WINDOW_DAYS * 86_400));
    to_rfc3339(&start)
}

/// Is `r` the report?
pub open spec fn is_summary(
    letters: DeadLetters,
    rows: Seq<PaymentProviderRow>,
    observed: Seq<Observation>,
    now: Moment,
    r: HealthSummary,
) -> bool {
    &&& r.generated_at@ == rfc3339_text(now.secs, now.nanos)
    &&& r.dead_letter_status == if letters.alerting_count > 0 {
        Status::Warn
    } else {
        Status::Fine
    }
    &&& opt_text(r.dead_letter_message) == dead_letter_words(letters.alerting_count as int)
    &&& r.alerting_providers == alarms(rows, observed)
    &&& r.provider_status == if r.alerting_providers > 0 {
        Status::Critical
    } else {
        Status::Fine
    }
    &&& opt_text(r.provider_message) == provider_words(r.alerting_providers as int)
    &&& r.status == Status::worse_of(r.dead_letter_status, r.provider_status)
    &&& r.providers@.len() == rows.len()
    &&& forall|i: int|
        0 <= i < rows.len() ==> is_provider_report(
            #[trigger] r.providers@[i],
            rows[i],
            health_of(observed, rows[i].id@),
        )
}

/// The report: notices that were given up are a warning, providers in alarm are
/// critical, and the whole is as bad as the worst of it.
pub fn get(
    letters: &DeadLetters,
    rows: &Vec<PaymentProviderRow>,
    observed: &Vec<Observation>,
    now: &Moment,
) -> (r: HealthSummary)
    requires
        now.in_calendar(),
        rows@.len() <= i64::MAX,
        forall|i: int| 0 <= i < observed@.len() ==> is_dated((#[trigger] observed@[i]).health),
    ensures
        is_summary(*letters, rows@, observed@, *now, r),
{
    let dead_letter_status: Status = if letters.alerting_count > 0 {
        Status::Warn
    } else {
        Status::Fine
    };
    let nothing: ProviderAuthHealth = ProviderAuthHealth::default();
    let mut providers: Vec<ProviderReport> = Vec::new();
    let mut alerting_providers: i64 = 0;
    let mut provider_status: Status = Status::Fine;
    for i in 0..rows.len()
        invariant
            rows@.len() <= i64::MAX,
            nothing == unobserved(),
            forall|i: int| 0 <= i < observed@.len() ==> is_dated((#[trigger] observed@[i]).health),
            providers@.len() == i,
            alerting_providers == alarms(rows@.take(i as int), observed@),
            0 <= alerting_providers <= i,
            provider_status == if alerting_providers > 0 {
                Status::Critical
            } else {
                Status::Fine
            },
            forall|j: int|
                0 <= j < i ==> is_provider_report(
                    #[trigger] providers@[j],
                    rows@[j],
                    health_of(observed@, rows@[j].id@),
                ),
    {
        let row: &PaymentProviderRow = &rows[i];
        let h: &ProviderAuthHealth = match find_health(observed, row.id.as_str()) {
            Some(h) => h,
            None => &nothing,
        };
        let report: ProviderReport = provider_report(row, h);
        proof {
            assert(rows@.take(i + 1).drop_last() == rows@.take(i as int));
            assert(rows@.take(i + 1).last() == *row);
        }
        if report.status == Status::Critical {
            alerting_providers = alerting_providers + 1;
        }
        provider_status = provider_status.worse(report.status);
        providers.push(report);
    }
    assert(rows@.take(rows@.len() as int) == rows@);
    HealthSummary {
        status: dead_letter_status.worse(provider_status),
        generated_at: to_rfc3339(now),
        dead_letter_status,
        dead_letter_message: dead_letter_message(letters.alerting_count),
        provider_status,
        provider_message: provider_message(alerting_providers),
        alerting_providers,
        providers,
    }
}

/// The whole is never better than any part of it.
pub proof fn the_worst_verdict_counts(a: Status, b: Status)
    ensures
        Status::worse_of(a, b).rank() >= a.rank(),
        Status::worse_of(a, b).rank() >= b.rank(),
        Status::worse_of(a, b) == a || Status::worse_of(a, b) == b,
{
}

/// Notices that were given up never make the whole critical; a provider in alarm
/// always does.
pub proof fn only_providers_are_critical(letters: Status, providers: Status)
    requires
        !(letters is Critical),
    ensures
        Status::worse_of(letters, providers) is Critical <==> providers is Critical,
{
}

} // verus!
