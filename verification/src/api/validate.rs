//! Validating a license key.
//!
//! A key is parsed and its signature checked first; then the license row
//! decides: its state, its product, its expiry and grace period, and the
//! machine that asks. A single-seat license binds to the first machine that
//! validates it; any other activates machines up to its cap, 0 meaning none.

use crate::clock::{parse_rfc3339, rfc3339_moment, rfc3339_text, to_rfc3339, Moment};
use crate::codec::{hex_sha256, sha256, sha256_hex, uuid_text};
use crate::crypto::payload::{LicensePayload, PayloadModel, FLAG_FINGERPRINT_BOUND};
use crate::crypto::{
    hash_fingerprint, is_verified, parse_key, read_key, verify_payload, KeyModel, VerifyingKey,
};
use crate::models::{License, Machine, Product};
use crate::text::{
    before_char, cat2, cat3, chars_of, copy_of, copy_opt, cut, int_text, int_to_text, opt_text,
    same, text_between, texts, trim, trimmed,
};
use vstd::prelude::*;
use vstd::utf8::encode_utf8;

verus! {

/// A request to validate a key.
#[derive(Clone, Debug)]
pub struct ValidateReq {
    pub key: String,
    /// The product that the caller expects the key to cover.
    pub product_slug: Option<String>,
    /// The machine that asks.
    pub fingerprint: Option<String>,
    pub hostname: Option<String>,
    pub platform: Option<String>,
}

/// The answer to a request to validate a key.
#[derive(Clone, Debug, PartialEq, Eq)]
pub struct ValidateResp {
    pub ok: bool,
    pub reason: Option<String>,
    pub license_id: Option<String>,
    pub product_id: Option<String>,
    pub product_slug: Option<String>,
    pub issued_at: Option<String>,
    pub expires_at: Option<String>,
    pub grace_until: Option<String>,
    pub in_grace_period: Option<bool>,
    pub is_trial: Option<bool>,
    pub entitlements: Vec<String>,
    pub status: Option<String>,
    pub machine_id: Option<String>,
    pub max_machines: Option<i64>,
}

/// What an answer says.
#[verifier::ext_equal]
pub struct AnswerModel {
    pub ok: bool,
    pub reason: Option<Seq<char>>,
    pub license_id: Option<Seq<char>>,
    pub product_id: Option<Seq<char>>,
    pub product_slug: Option<Seq<char>>,
    pub issued_at: Option<Seq<char>>,
    pub expires_at: Option<Seq<char>>,
    pub grace_until: Option<Seq<char>>,
    pub in_grace_period: Option<bool>,
    pub is_trial: Option<bool>,
    pub entitlements: Seq<Seq<char>>,
    pub status: Option<Seq<char>>,
    pub machine_id: Option<Seq<char>>,
    pub max_machines: Option<i64>,
}

impl View for ValidateResp {
    type V = AnswerModel;

    open spec fn view(&self) -> AnswerModel {
        AnswerModel {
            ok: self.ok,
            reason: opt_text(self.reason),
            license_id: opt_text(self.license_id),
            product_id: opt_text(self.product_id),
            product_slug: opt_text(self.product_slug),
            issued_at: opt_text(self.issued_at),
            expires_at: opt_text(self.expires_at),
            grace_until: opt_text(self.grace_until),
            in_grace_period: self.in_grace_period,
            is_trial: self.is_trial,
            entitlements: texts(self.entitlements@),
            status: opt_text(self.status),
            machine_id: opt_text(self.machine_id),
            max_machines: self.max_machines,
        }
    }
}

/// An answer that says nothing.
pub open spec fn blank_answer() -> AnswerModel {
    AnswerModel {
        ok: false,
        reason: None,
        license_id: None,
        product_id: None,
        product_slug: None,
        issued_at: None,
        expires_at: None,
        grace_until: None,
        in_grace_period: None,
        is_trial: None,
        entitlements: seq![],
        status: None,
        machine_id: None,
        max_machines: None,
    }
}

/// The answer that refuses a key for a reason and says nothing else.
pub open spec fn refusal(reason: Seq<char>) -> AnswerModel {
    AnswerModel { reason: Some(reason), ..blank_answer() }
}

impl Default for ValidateResp {
    fn default() -> (r: ValidateResp)
        ensures
            r@ == blank_answer(),
    {
        let r = ValidateResp {
            ok: false,
            reason: None,
            license_id: None,
            product_id: None,
            product_slug: None,
            issued_at: None,
            expires_at: None,
            grace_until: None,
            in_grace_period: None,
            is_trial: None,
            entitlements: Vec::new(),
            status: None,
            machine_id: None,
            max_machines: None,
        };
        assert(r@ =~= blank_answer());
        r
    }
}

/// The answer that refuses a key for a reason and says nothing else.
pub fn reject(reason: &str) -> (r: ValidateResp)
    ensures
        r@ == refusal(reason@),
{
    let mut r: ValidateResp = ValidateResp::default();
    r.reason = Some(String::from_str(reason));
    assert(r@ =~= refusal(reason@));
    r
}

/// One line of the validation log.
#[derive(Clone, Debug)]
pub struct ValidationLog {
    pub license_id: Option<String>,
    pub product_id: Option<String>,
    pub result: String,
    pub machine_id: Option<String>,
    pub detail: Option<String>,
}

/// What a line of the validation log says.
pub struct LogModel {
    pub license_id: Option<Seq<char>>,
    pub product_id: Option<Seq<char>>,
    pub result: Seq<char>,
    pub machine_id: Option<Seq<char>>,
    pub detail: Option<Seq<char>>,
}

impl View for ValidationLog {
    type V = LogModel;

    open spec fn view(&self) -> LogModel {
        LogModel {
            license_id: opt_text(self.license_id),
            product_id: opt_text(self.product_id),
            result: self.result@,
            machine_id: opt_text(self.machine_id),
            detail: opt_text(self.detail),
        }
    }
}

/// The view of an optional line of the validation log.
pub open spec fn opt_log(log: Option<ValidationLog>) -> Option<LogModel> {
    match log {
        Some(l) => Some(l@),
        None => None,
    }
}

/// What has been found out and done about a request so far. An optional field
/// is `None` until it has been found out.
#[derive(Clone, Debug)]
pub struct ValidateFacts {
    /// Whether the rate limit lets the request through.
    pub admitted: Option<bool>,
    pub license: Option<Option<License>>,
    pub product: Option<Option<Product>>,
    pub seat: SeatFacts,
}

/// What has been found out and done about the machine that asks.
#[derive(Clone, Debug)]
pub struct SeatFacts {
    /// The active machine with the request's fingerprint.
    pub machine: Option<Option<Machine>>,
    pub heartbeat_sent: bool,
    /// How many machines are active on the license.
    pub active_machines: Option<i64>,
    /// The machine that was activated for this request.
    pub activated: Option<String>,
}

/// What a request needs next.
#[derive(Clone, Debug)]
pub enum ValidateStep {
    ConsumeToken { bucket: String },
    FindLicense { license_id: String },
    FindProduct { product_id: String },
    FindMachine { license_id: String, fingerprint_hash: String },
    Heartbeat { machine_id: String },
    CountMachines { license_id: String },
    /// Activate a machine; `bind` also binds the license to its fingerprint.
    Activate {
        license_id: String,
        fingerprint: String,
        fingerprint_hash: String,
        hostname: Option<String>,
        platform: Option<String>,
        bind: bool,
    },
    Answer { resp: ValidateResp, log: Option<ValidationLog> },
    /// The end of the license's grace period is past the end of the calendar.
    OutOfCalendar,
}

// ---------- who asks ----------

/// The client named first in a forwarding header.
pub open spec fn first_client(header: Seq<char>) -> Seq<char> {
    trimmed(before_char(header, ','))
}

/// The client named first in a forwarding header.
pub fn client_ip(forwarded_for: &Option<String>) -> (r: Option<String>)
    ensures
        opt_text(r) == match *forwarded_for {
            Some(h) => Some(first_client(h@)),
            None => None,
        },
{
    match forwarded_for {
        Some(h) => {
            let (first, _rest) = cut(h.as_str(), ',');
            Some(String::from_str(trim(first)))
        },
        None => None,
    }
}

/// The first characters of a text, at most `n` of them.
pub open spec fn first_chars(s: Seq<char>, n: int) -> Seq<char> {
    if s.len() <= n {
        s
    } else {
        s.subrange(0, n)
    }
}

/// Is `r` the bucket that a request is counted in?
pub open spec fn is_rate_bucket(client: Option<String>, key: Seq<char>, r: String) -> bool {
    match client {
        Some(ip) => r == ip,
        None => r@ == first_chars(key, 24),
    }
}

/// The bucket that a request is counted in: its client, or else the beginning
/// of its key.
pub fn rate_bucket(client: &Option<String>, key: &str) -> (r: String)
    ensures
        is_rate_bucket(*client, key@, r),
{
    match client {
        Some(ip) => ip.clone(),
        None => {
            let v: Vec<char> = chars_of(key);
            let n: usize = if v.len() <= 24 {
                v.len()
            } else {
                24
            };
            assert(v@.subrange(0, v@.len() as int) == v@);
            text_between(&v, 0, n)
        },
    }
}

// ---------- expiry ----------

/// Where a license stands in time.
#[derive(Clone, Copy, Debug, PartialEq, Eq)]
pub enum Standing {
    Current,
    /// Past its expiry and before the end of its grace period.
    InGrace { until: Moment },
    Expired,
}

/// Where a license stands that expires at `end`, with `grace` seconds of grace.
pub open spec fn standing_at(end: Moment, grace: int, now: Moment) -> Standing {
    let cutoff = end.later(grace);
    if !now.is_before(cutoff) {
        Standing::Expired
    } else if !now.is_before(end) {
        Standing::InGrace { until: cutoff }
    } else {
        Standing::Current
    }
}

/// Where a license stands that expires at `end`, with `grace` seconds of grace.
pub fn standing(end: &Moment, grace: i64, now: &Moment) -> (r: Standing)
    requires
        end.can_add(grace as int),
    ensures
        r == standing_at(*end, grace as int, *now),
        r matches Standing::InGrace { until } ==> until.in_calendar(),
{
    let cutoff: Moment = end.plus(grace);
    if !now.before(&cutoff) {
        Standing::Expired
    } else if !now.before(end) {
        Standing::InGrace { until: cutoff }
    } else {
        Standing::Current
    }
}

/// When a license expires; none where it never does or the date is unreadable.
pub open spec fn expiry_of(license: License) -> Option<Moment> {
    match license.expires_at {
        Some(text) => rfc3339_moment(text@),
        None => None,
    }
}

/// When a license's grace period ends; where it has none, that is its expiry, as
/// it is stored.
pub open spec fn end_of_grace(license: License) -> Option<Seq<char>> {
    match expiry_of(license) {
        Some(end) => if license.grace_seconds == 0 {
            opt_text(license.expires_at)
        } else {
            let cutoff = end.later(license.grace_seconds as int);
            Some(rfc3339_text(cutoff.secs, cutoff.nanos))
        },
        None => None,
    }
}

/// Does the license's grace period end within the calendar?
pub open spec fn window_in_calendar(license: License) -> bool {
    expiry_of(license) matches Some(end) ==> end.can_add(license.grace_seconds as int)
}

/// Where a license stands now.
pub open spec fn standing_of(license: License, now: Moment) -> Standing {
    match expiry_of(license) {
        Some(end) => standing_at(end, license.grace_seconds as int, now),
        None => Standing::Current,
    }
}

// ---------- the machine that asks ----------

/// What the machine that asks needs next, or which machine it is.
#[derive(Clone, Debug)]
pub enum SeatStep {
    /// The license is bound to another machine.
    WrongMachine,
    FindMachine,
    Heartbeat { machine_id: String },
    CountMachines,
    /// Every seat of the license is taken.
    NoSeat,
    Activate { bind: bool },
    /// The seat is settled; there may be no record of the machine.
    Seated { machine: Option<String> },
}

/// What the machine with fingerprint `fp` needs next on a license.
pub open spec fn seat_step(license: License, fp: Seq<char>, facts: SeatFacts) -> SeatStep {
    let found = match facts.machine {
        None => SeatStep::FindMachine,
        Some(Some(m)) => if facts.heartbeat_sent {
            SeatStep::Seated { machine: Some(m.id) }
        } else {
            SeatStep::Heartbeat { machine_id: m.id }
        },
        Some(None) => SeatStep::Seated { machine: None },
    };
    let activate = |bind: bool|
        match facts.activated {
            None => SeatStep::Activate { bind },
            Some(id) => SeatStep::Seated { machine: Some(id) },
        };
    if license.max_machines == 1 {
        match license.fingerprint {
            Some(stored) => if stored@ == fp {
                found
            } else {
                SeatStep::WrongMachine
            },
            None => activate(true),
        }
    } else if facts.machine != Some(None::<Machine>) {
        found
    } else {
        match facts.active_machines {
            None => SeatStep::CountMachines,
            Some(n) => if license.max_machines > 0 && n >= license.max_machines {
                SeatStep::NoSeat
            } else {
                activate(false)
            },
        }
    }
}

fn found_machine(facts: &SeatFacts) -> (r: SeatStep)
    ensures
        r == match facts.machine {
            None => SeatStep::FindMachine,
            Some(Some(m)) => if facts.heartbeat_sent {
                SeatStep::Seated { machine: Some(m.id) }
            } else {
                SeatStep::Heartbeat { machine_id: m.id }
            },
            Some(None) => SeatStep::Seated { machine: None },
        },
{
    match &facts.machine {
        None => SeatStep::FindMachine,
        Some(Some(m)) => if facts.heartbeat_sent {
            SeatStep::Seated { machine: Some(m.id.clone()) }
        } else {
            SeatStep::Heartbeat { machine_id: m.id.clone() }
        },
        Some(None) => SeatStep::Seated { machine: None },
    }
}

fn activated_machine(facts: &SeatFacts, bind: bool) -> (r: SeatStep)
    ensures
        r == match facts.activated {
            None => SeatStep::Activate { bind },
            Some(id) => SeatStep::Seated { machine: Some(id) },
        },
{
    match &facts.activated {
        None => SeatStep::Activate { bind },
        Some(id) => SeatStep::Seated { machine: Some(id.clone()) },
    }
}

/// What the machine with fingerprint `fp` needs next on a license.
pub fn next_seat_step(license: &License, fp: &str, facts: &SeatFacts) -> (r: SeatStep)
    ensures
        r == seat_step(*license, fp@, *facts),
{
    if license.max_machines == 1 {
        match &license.fingerprint {
            Some(stored) => if same(stored.as_str(), fp) {
                found_machine(facts)
            } else {
                SeatStep::WrongMachine
            },
            None => activated_machine(facts, true),
        }
    } else {
        match &facts.machine {
            Some(None) => match facts.active_machines {
                None => SeatStep::CountMachines,
                Some(n) => if license.max_machines > 0 && n >= license.max_machines {
                    SeatStep::NoSeat
                } else {
                    activated_machine(facts, false)
                },
            },
            _ => found_machine(facts),
        }
    }
}

/// A machine is activated on a license with several seats only where one is
/// free.
pub proof fn seats_stay_within_the_cap(license: License, fp: Seq<char>, facts: SeatFacts)
    requires
        license.max_machines > 1,
        seat_step(license, fp, facts) is Activate,
    ensures
        facts.active_machines matches Some(n) && n < license.max_machines,
{
}

/// A single-seat license that is bound answers only the machine it is bound to.
pub proof fn bound_licenses_answer_one_machine(
    license: License,
    fp: Seq<char>,
    facts: SeatFacts,
)
    requires
        license.max_machines == 1,
        license.fingerprint is Some,
        license.fingerprint->0@ != fp,
    ensures
        seat_step(license, fp, facts) is WrongMachine,
{
}

/// Is the key itself bound to another fingerprint than `fp`?
pub open spec fn key_rejects_fingerprint(p: PayloadModel, fp: Seq<char>) -> bool {
    p.flags & FLAG_FINGERPRINT_BOUND != 0 && p.fingerprint_hash != sha256(encode_utf8(fp))
}

// ---------- the whole of it ----------

/// The line that the log gets about a license.
pub open spec fn log_line(
    k: KeyModel,
    result: Seq<char>,
    machine_id: Option<Seq<char>>,
    detail: Option<Seq<char>>,
) -> Option<LogModel> {
    Some(
        LogModel {
            license_id: Some(uuid_text(k.payload.license_id)),
            product_id: Some(uuid_text(k.payload.product_id)),
            result,
            machine_id,
            detail,
        },
    )
}

/// Is `step` the answer that says `answer`, with the given line for the log?
pub open spec fn answers(step: ValidateStep, answer: AnswerModel, log: Option<LogModel>) -> bool {
    step matches ValidateStep::Answer { resp, log: l } && resp@ == answer && opt_log(l) == log
}

/// The answer about a license that is fine.
pub open spec fn approval(
    k: KeyModel,
    license: License,
    product: Option<Product>,
    now: Moment,
    machine_id: Option<Seq<char>>,
) -> AnswerModel {
    AnswerModel {
        ok: true,
        reason: None,
        license_id: Some(uuid_text(k.payload.license_id)),
        product_id: Some(uuid_text(k.payload.product_id)),
        product_slug: match product {
            Some(p) => Some(p.slug@),
            None => None,
        },
        issued_at: Some(license.issued_at@),
        expires_at: opt_text(license.expires_at),
        grace_until: match standing_of(license, now) {
            Standing::InGrace { until } => Some(rfc3339_text(until.secs, until.nanos)),
            _ => None,
        },
        in_grace_period: if standing_of(license, now) is InGrace {
            Some(true)
        } else {
            None
        },
        is_trial: if license.is_trial {
            Some(true)
        } else {
            None
        },
        entitlements: texts(license.entitlements@),
        status: Some(license.status@),
        machine_id,
        max_machines: Some(license.max_machines),
    }
}

/// Is `step` the approval of a license, logged as such?
pub open spec fn approves(
    step: ValidateStep,
    k: KeyModel,
    license: License,
    product: Option<Product>,
    now: Moment,
    machine_id: Option<Seq<char>>,
) -> bool {
    answers(
        step,
        approval(k, license, product, now, machine_id),
        log_line(
            k,
            "ok"@,
            machine_id,
            if standing_of(license, now) is InGrace {
                Some("in_grace_period"@)
            } else {
                None
            },
        ),
    )
}

/// Is `step` what a request needs next whose license is active, of the right
/// product, and not expired?
pub open spec fn is_seat_step(
    req: ValidateReq,
    facts: ValidateFacts,
    k: KeyModel,
    license: License,
    product: Option<Product>,
    now: Moment,
    step: ValidateStep,
) -> bool {
    let license_id = uuid_text(k.payload.license_id);
    match req.fingerprint {
        None => approves(step, k, license, product, now, None),
        Some(fp) => match seat_step(license, fp@, facts.seat) {
            SeatStep::WrongMachine => answers(
                step,
                refusal("fingerprint_mismatch"@),
                log_line(k, "fingerprint_mismatch"@, None, None),
            ),
            SeatStep::FindMachine => step matches ValidateStep::FindMachine {
                license_id: l,
                fingerprint_hash,
            } && l@ == license_id && fingerprint_hash@ == sha256_hex(fp@),
            SeatStep::Heartbeat { machine_id } => step == (ValidateStep::Heartbeat { machine_id }),
            SeatStep::CountMachines => step matches ValidateStep::CountMachines { license_id: l }
                && l@ == license_id,
            SeatStep::NoSeat => answers(
                step,
                AnswerModel {
                    license_id: Some(license_id),
                    product_id: Some(uuid_text(k.payload.product_id)),
                    max_machines: Some(license.max_machines),
                    ..refusal("too_many_machines"@)
                },
                log_line(
                    k,
                    "too_many_machines"@,
                    None,
                    Some("cap "@ + int_text(license.max_machines as int) + " already reached"@),
                ),
            ),
            SeatStep::Activate { bind } => step matches ValidateStep::Activate {
                license_id: l,
                fingerprint,
                fingerprint_hash,
                hostname,
                platform,
                bind: b,
            } && l@ == license_id && fingerprint == fp && fingerprint_hash@ == sha256_hex(fp@)
                && hostname == req.hostname && platform == req.platform && b == bind,
            SeatStep::Seated { machine } => if key_rejects_fingerprint(k.payload, fp@) {
                answers(step, refusal("fingerprint_mismatch"@), None)
            } else {
                approves(step, k, license, product, now, opt_text(machine))
            },
        },
    }
}

/// Is `step` what a request needs next whose license was found?
pub open spec fn is_license_step(
    req: ValidateReq,
    facts: ValidateFacts,
    k: KeyModel,
    license: License,
    now: Moment,
    step: ValidateStep,
) -> bool {
    if license.status@ == "revoked"@ {
        answers(
            step,
            refusal("revoked"@),
            log_line(k, "revoked"@, None, opt_text(license.revocation_reason)),
        )
    } else if license.status@ == "suspended"@ {
        answers(
            step,
            refusal("suspended"@),
            log_line(k, "suspended"@, None, opt_text(license.suspension_reason)),
        )
    } else if license.status@ != "active"@ {
        answers(step, refusal("invalid_state"@), None)
    } else {
        match facts.product {
            None => step == (ValidateStep::FindProduct { product_id: license.product_id }),
            Some(product) => if is_other_product(req.product_slug, product) {
                answers(
                    step,
                    refusal("product_mismatch"@),
                    log_line(k, "product_mismatch"@, None, None),
                )
            } else if !window_in_calendar(license) {
                step is OutOfCalendar
            } else if standing_of(license, now) is Expired {
                answers(
                    step,
                    AnswerModel {
                        license_id: Some(uuid_text(k.payload.license_id)),
                        product_id: Some(uuid_text(k.payload.product_id)),
                        expires_at: opt_text(license.expires_at),
                        grace_until: end_of_grace(license),
                        ..refusal("expired"@)
                    },
                    log_line(k, "expired"@, None, Some("expired at "@ + license.expires_at->0@)),
                )
            } else {
                is_seat_step(req, facts, k, license, product, now, step)
            },
        }
    }
}

/// Is the license's product another than the one that the caller expects?
pub open spec fn is_other_product(expected: Option<String>, product: Option<Product>) -> bool {
    expected matches Some(slug) && product matches Some(p) && p.slug@ != slug@
}

/// Is `step` what a request needs next? The rate limit comes first, then the
/// key's form and signature, then the license's row, state, product and expiry,
/// and last the machine.
pub open spec fn is_validate_step(
    req: ValidateReq,
    client: Option<String>,
    public: Seq<u8>,
    facts: ValidateFacts,
    now: Moment,
    step: ValidateStep,
) -> bool {
    match facts.admitted {
        None => step matches ValidateStep::ConsumeToken { bucket } && bucket@ == match client {
            Some(ip) => ip@,
            None => first_chars(req.key@, 24),
        },
        Some(admitted) => if !admitted {
            answers(step, refusal("rate_limited"@), None)
        } else {
            match read_key(req.key@) {
                Err(fault) => answers(
                    step,
                    refusal("bad_format"@),
                    Some(
                        LogModel {
                            license_id: None,
                            product_id: None,
                            result: "bad_format"@,
                            machine_id: None,
                            detail: Some(fault.words()),
                        },
                    ),
                ),
                Ok(k) => if !k.verifies(public) {
                    answers(
                        step,
                        refusal("bad_signature"@),
                        log_line(k, "bad_signature"@, None, None),
                    )
                } else {
                    match facts.license {
                        None => step matches ValidateStep::FindLicense { license_id } && license_id@
                            == uuid_text(k.payload.license_id),
                        Some(None) => answers(
                            step,
                            refusal("not_found"@),
                            log_line(k, "not_found"@, None, None),
                        ),
                        Some(Some(license)) => is_license_step(req, facts, k, license, now, step),
                    }
                },
            }
        },
    }
}

fn line(
    license_id: &String,
    product_id: &String,
    result: &str,
    machine_id: Option<String>,
    detail: Option<String>,
) -> (r: Option<ValidationLog>)
    ensures
        opt_log(r) == Some(
            LogModel {
                license_id: Some(license_id@),
                product_id: Some(product_id@),
                result: result@,
                machine_id: opt_text(machine_id),
                detail: opt_text(detail),
            },
        ),
{
    Some(
        ValidationLog {
            license_id: Some(license_id.clone()),
            product_id: Some(product_id.clone()),
            result: String::from_str(result),
            machine_id,
            detail,
        },
    )
}

fn approve(
    license_id: String,
    product_id: String,
    license: &License,
    product: &Option<Product>,
    state: &Standing,
    now: &Moment,
    machine_id: Option<String>,
    Ghost(k): Ghost<KeyModel>,
) -> (r: ValidateStep)
    requires
        license_id@ == uuid_text(k.payload.license_id),
        product_id@ == uuid_text(k.payload.product_id),
        *state == standing_of(*license, *now),
        *state matches Standing::InGrace { until } ==> until.in_calendar(),
    ensures
        approves(r, k, *license, *product, *now, opt_text(machine_id)),
{
    let mut grace_until: Option<String> = None;
    let mut in_grace_period: Option<bool> = None;
    let mut detail: Option<String> = None;
    if let Standing::InGrace { until } = state {
        grace_until = Some(to_rfc3339(until));
        in_grace_period = Some(true);
        detail = Some(String::from_str("in_grace_period"));
    }
    let log: Option<ValidationLog> = line(
        &license_id,
        &product_id,
        "ok",
        copy_opt(&machine_id),
        detail,
    );
    let resp: ValidateResp = ValidateResp {
        ok: true,
        reason: None,
        license_id: Some(license_id),
        product_id: Some(product_id),
        product_slug: match product {
            Some(p) => Some(p.slug.clone()),
            None => None,
        },
        issued_at: Some(license.issued_at.clone()),
        expires_at: copy_opt(&license.expires_at),
        grace_until,
        in_grace_period,
        is_trial: if license.is_trial {
            Some(true)
        } else {
            None
        },
        entitlements: copy_of(&license.entitlements),
        status: Some(license.status.clone()),
        machine_id,
        max_machines: Some(license.max_machines),
    };
    assert(resp@ =~= approval(k, *license, *product, *now, opt_text(machine_id)));
    ValidateStep::Answer { resp, log }
}

fn answer_seat(
    req: &ValidateReq,
    facts: &ValidateFacts,
    payload: &LicensePayload,
    license_id: String,
    product_id: String,
    license: &License,
    product: &Option<Product>,
    state: &Standing,
    now: &Moment,
    Ghost(k): Ghost<KeyModel>,
) -> (r: ValidateStep)
    requires
        k.payload == payload@,
        license_id@ == uuid_text(k.payload.license_id),
        product_id@ == uuid_text(k.payload.product_id),
        *state == standing_of(*license, *now),
        *state matches Standing::InGrace { until } ==> until.in_calendar(),
    ensures
        is_seat_step(*req, *facts, k, *license, *product, *now, r),
{
    let fp: &String = match &req.fingerprint {
        None => {
            return approve(
                license_id,
                product_id,
                license,
                product,
                state,
                now,
                None,
                Ghost(k),
            );
        },
        Some(fp) => fp,
    };
    let fingerprint_hash: String = hex_sha256(fp.as_str());
    match next_seat_step(license, fp.as_str(), &facts.seat) {
        SeatStep::WrongMachine => ValidateStep::Answer {
            resp: reject("fingerprint_mismatch"),
            log: line(&license_id, &product_id, "fingerprint_mismatch", None, None),
        },
        SeatStep::FindMachine => ValidateStep::FindMachine { license_id, fingerprint_hash },
        SeatStep::Heartbeat { machine_id } => ValidateStep::Heartbeat { machine_id },
        SeatStep::CountMachines => ValidateStep::CountMachines { license_id },
        SeatStep::NoSeat => {
            let cap: String = int_to_text(license.max_machines);
            let log: Option<ValidationLog> = line(
                &license_id,
                &product_id,
                "too_many_machines",
                None,
                Some(cat3("cap ", cap.as_str(), " already reached")),
            );
            let mut resp: ValidateResp = reject("too_many_machines");
            resp.license_id = Some(license_id);
            resp.product_id = Some(product_id);
            resp.max_machines = Some(license.max_machines);
            assert(resp@ =~= (AnswerModel {
                license_id: Some(uuid_text(k.payload.license_id)),
                product_id: Some(uuid_text(k.payload.product_id)),
                max_machines: Some(license.max_machines),
                ..refusal("too_many_machines"@)
            }));
            ValidateStep::Answer { resp, log }
        },
        SeatStep::Activate { bind } => ValidateStep::Activate {
            license_id,
            fingerprint: fp.clone(),
            fingerprint_hash,
            hostname: copy_opt(&req.hostname),
            platform: copy_opt(&req.platform),
            bind,
        },
        SeatStep::Seated { machine } => {
            if payload.is_fingerprint_bound() {
                let hash: [u8; 32] = hash_fingerprint(fp.as_str());
                if !crate::codec::bytes_match(
                    payload.fingerprint_hash.as_slice(),
                    hash.as_slice(),
                ) {
                    return ValidateStep::Answer {
                        resp: reject("fingerprint_mismatch"),
                        log: None,
                    };
                }
            }
            approve(
                license_id,
                product_id,
                license,
                product,
                state,
                now,
                machine,
                Ghost(k),
            )
        },
    }
}

fn answer_license(
    req: &ValidateReq,
    facts: &ValidateFacts,
    payload: &LicensePayload,
    license: &License,
    now: &Moment,
    Ghost(k): Ghost<KeyModel>,
) -> (r: ValidateStep)
    requires
        k.payload == payload@,
    ensures
        is_license_step(*req, *facts, k, *license, *now, r),
{
    let license_id: String = payload.license_id.to_text();
    let product_id: String = payload.product_id.to_text();
    if same(license.status.as_str(), "revoked") {
        return ValidateStep::Answer {
            resp: reject("revoked"),
            log: line(
                &license_id,
                &product_id,
                "revoked",
                None,
                copy_opt(&license.revocation_reason),
            ),
        };
    }
    if same(license.status.as_str(), "suspended") {
        return ValidateStep::Answer {
            resp: reject("suspended"),
            log: line(
                &license_id,
                &product_id,
                "suspended",
                None,
                copy_opt(&license.suspension_reason),
            ),
        };
    }
    if !same(license.status.as_str(), "active") {
        return ValidateStep::Answer { resp: reject("invalid_state"), log: None };
    }
    let product: &Option<Product> = match &facts.product {
        None => {
            return ValidateStep::FindProduct { product_id: license.product_id.clone() };
        },
        Some(product) => product,
    };
    if let Some(expected) = &req.product_slug {
        if let Some(p) = product {
            if !same(p.slug.as_str(), expected.as_str()) {
                return ValidateStep::Answer {
                    resp: reject("product_mismatch"),
                    log: line(&license_id, &product_id, "product_mismatch", None, None),
                };
            }
        }
    }
    let mut state: Standing = Standing::Current;
    if let Some(text) = &license.expires_at {
        if let Some(end) = parse_rfc3339(text.as_str()) {
            if !end.reaches(license.grace_seconds) {
                return ValidateStep::OutOfCalendar;
            }
            state = standing(&end, license.grace_seconds, now);
            if let Standing::Expired = state {
                let log: Option<ValidationLog> = line(
                    &license_id,
                    &product_id,
                    "expired",
                    None,
                    Some(cat2("expired at ", text.as_str())),
                );
                let mut resp: ValidateResp = reject("expired");
                resp.license_id = Some(license_id);
                resp.product_id = Some(product_id);
                resp.expires_at = Some(text.clone());
                if license.grace_seconds == 0 {
                    resp.grace_until = Some(text.clone());
                } else {
                    let cutoff: Moment = end.plus(license.grace_seconds);
                    resp.grace_until = Some(to_rfc3339(&cutoff));
                }
                assert(resp@ =~= (AnswerModel {
                    license_id: Some(uuid_text(k.payload.license_id)),
                    product_id: Some(uuid_text(k.payload.product_id)),
                    expires_at: opt_text(license.expires_at),
                    grace_until: end_of_grace(*license),
                    ..refusal("expired"@)
                }));
                return ValidateStep::Answer { resp, log };
            }
        }
    }
    answer_seat(
        req,
        facts,
        payload,
        license_id,
        product_id,
        license,
        product,
        &state,
        now,
        Ghost(k),
    )
}

/// What a request needs next, given what has been found out so far.
pub fn validate(
    req: &ValidateReq,
    client: &Option<String>,
    verifying_key: &VerifyingKey,
    facts: &ValidateFacts,
    now: &Moment,
) -> (r: ValidateStep)
    ensures
        is_validate_step(*req, *client, verifying_key.bytes@, *facts, *now, r),
{
    match facts.admitted {
        None => {
            return ValidateStep::ConsumeToken { bucket: rate_bucket(client, req.key.as_str()) };
        },
        Some(admitted) => {
            if !admitted {
                return ValidateStep::Answer { resp: reject("rate_limited"), log: None };
            }
        },
    }
    let (payload, signature, signed) = match parse_key(req.key.as_str()) {
        Ok(k) => k,
        Err(e) => {
            let log: ValidationLog = ValidationLog {
                license_id: None,
                product_id: None,
                result: String::from_str("bad_format"),
                machine_id: None,
                detail: Some(e.message()),
            };
            return ValidateStep::Answer { resp: reject("bad_format"), log: Some(log) };
        },
    };
    let ghost k = read_key(req.key@)->Ok_0;
    let license_id: String = payload.license_id.to_text();
    let product_id: String = payload.product_id.to_text();
    if verify_payload(verifying_key, signed.as_slice(), &signature).is_err() {
        return ValidateStep::Answer {
            resp: reject("bad_signature"),
            log: line(&license_id, &product_id, "bad_signature", None, None),
        };
    }
    match &facts.license {
        None => ValidateStep::FindLicense { license_id },
        Some(None) => ValidateStep::Answer {
            resp: reject("not_found"),
            log: line(&license_id, &product_id, "not_found", None, None),
        },
        Some(Some(license)) => answer_license(req, facts, &payload, license, now, Ghost(k)),
    }
}

/// A key is approved only where it was admitted, its signature is the server's,
/// its license is active, of the product that was asked for, and neither
/// expired past its grace period nor bound to another machine.
pub proof fn approval_means_every_check_passed(
    req: ValidateReq,
    client: Option<String>,
    public: Seq<u8>,
    facts: ValidateFacts,
    now: Moment,
    step: ValidateStep,
)
    requires
        is_validate_step(req, client, public, facts, now, step),
        step matches ValidateStep::Answer { resp, .. } && resp.ok,
    ensures
        facts.admitted == Some(true),
        is_verified(req.key@, public),
        facts.license matches Some(Some(license)) && license.status@ == "active"@ && !(standing_of(
            license,
            now,
        ) is Expired) && (req.fingerprint matches Some(fp) ==> {
            &&& !(seat_step(license, fp@, facts.seat) is WrongMachine)
            &&& !(seat_step(license, fp@, facts.seat) is NoSeat)
            &&& !key_rejects_fingerprint(read_key(req.key@)->Ok_0.payload, fp@)
        }),
        facts.product matches Some(product) && !is_other_product(req.product_slug, product),
{
    let resp = step->resp;
    assert(resp@.ok);
}

/// A key that the server signed is approved where its license is active, of the
/// product that was asked for, not expired past its grace period, and where the
/// machine that asks, if one is named, has a seat.
pub proof fn good_keys_are_approved(
    req: ValidateReq,
    client: Option<String>,
    public: Seq<u8>,
    facts: ValidateFacts,
    now: Moment,
    step: ValidateStep,
    license: License,
    product: Option<Product>,
)
    requires
        is_validate_step(req, client, public, facts, now, step),
        facts.admitted == Some(true),
        is_verified(req.key@, public),
        facts.license == Some(Some(license)),
        license.status@ == "active"@,
        facts.product == Some(product),
        !is_other_product(req.product_slug, product),
        window_in_calendar(license),
        !(standing_of(license, now) is Expired),
        req.fingerprint matches Some(fp) ==> seat_step(license, fp@, facts.seat) is Seated
            && !key_rejects_fingerprint(read_key(req.key@)->Ok_0.payload, fp@),
    ensures
        step matches ValidateStep::Answer { resp, .. } && resp.ok,
{
    reveal_strlit("active");
    reveal_strlit("revoked");
    reveal_strlit("suspended");
    assert("active"@.len() == 6 && "revoked"@.len() == 7 && "suspended"@.len() == 9);
    assert(step->resp@.ok);
}

/// A license that has expired past its grace period is refused for that, and the
/// answer says when it expired and when its grace ended.
pub proof fn expired_licenses_are_told_when(
    req: ValidateReq,
    client: Option<String>,
    public: Seq<u8>,
    facts: ValidateFacts,
    now: Moment,
    step: ValidateStep,
    license: License,
    product: Option<Product>,
)
    requires
        is_validate_step(req, client, public, facts, now, step),
        facts.admitted == Some(true),
        is_verified(req.key@, public),
        facts.license == Some(Some(license)),
        license.status@ == "active"@,
        facts.product == Some(product),
        !is_other_product(req.product_slug, product),
        window_in_calendar(license),
        standing_of(license, now) is Expired,
    ensures
        step matches ValidateStep::Answer { resp, .. } && !resp.ok && opt_text(resp.reason) == Some(
            "expired"@,
        ) && resp.expires_at is Some && resp.grace_until is Some,
{
    reveal_strlit("active");
    reveal_strlit("revoked");
    reveal_strlit("suspended");
    assert("active"@.len() == 6 && "revoked"@.len() == 7 && "suspended"@.len() == 9);
    assert(!step->resp@.ok && step->resp@.reason == Some("expired"@));
    assert(step->resp@.expires_at is Some && step->resp@.grace_until is Some);
}

/// A license that was revoked or suspended is refused for that reason, whatever
/// else holds of it: the signature of its key stays good, and does not help.
pub proof fn withdrawn_licenses_are_refused(
    req: ValidateReq,
    client: Option<String>,
    public: Seq<u8>,
    facts: ValidateFacts,
    now: Moment,
    step: ValidateStep,
    license: License,
)
    requires
        is_validate_step(req, client, public, facts, now, step),
        facts.admitted == Some(true),
        is_verified(req.key@, public),
        facts.license == Some(Some(license)),
        license.status@ == "revoked"@ || license.status@ == "suspended"@,
    ensures
        step matches ValidateStep::Answer { resp, .. } && !resp.ok && opt_text(resp.reason) == Some(
            license.status@,
        ),
{
    assert(!step->resp@.ok && step->resp@.reason == Some(license.status@));
}

// ---------- the log ----------

/// A validation as it is kept.
#[derive(Clone, Debug)]
pub struct ValidationRow {
    pub line: ValidationLog,
    pub fingerprint: Option<String>,
    pub ip: Option<String>,
    pub user_agent: Option<String>,
}

/// A validation as it is kept: the line of the log, beside who asked.
pub fn validation_row(
    line: ValidationLog,
    req: &ValidateReq,
    client_ip: &Option<String>,
    user_agent: &Option<String>,
) -> (r: ValidationRow)
    ensures
        r.line == line,
        r.fingerprint == req.fingerprint,
        r.ip == *client_ip,
        r.user_agent == *user_agent,
{
    ValidationRow {
        line,
        fingerprint: copy_opt(&req.fingerprint),
        ip: copy_opt(client_ip),
        user_agent: copy_opt(user_agent),
    }
}

} // verus!
