//! Machines that a license is used on.
//!
//! A client that wants to ask about seats before it starts activates its
//! machine here. Which machine gets a seat is decided as when a key is
//! validated.

use crate::api::admin::{clamp_limit, clamped, reason_or};
use crate::api::validate::{next_seat_step, seat_step, SeatFacts, SeatStep};
use crate::codec::{hex_sha256, sha256_hex, uuid_text};
use crate::crypto::{is_verified, parse_key, read_key, verify_payload, VerifyingKey};
use crate::error::{bad_request, not_found_with, AppError, Refusal};
use crate::models::{License, Machine, Product};
use crate::text::{cat2, copy_opt, opt_text, same};
use vstd::prelude::*;

verus! {

/// A request to activate a machine.
#[derive(Clone, Debug)]
pub struct ActivateReq {
    pub key: String,
    pub fingerprint: String,
    pub hostname: Option<String>,
    pub platform: Option<String>,
}

/// The answer to a request to activate a machine.
#[derive(Clone, Debug, PartialEq, Eq)]
pub struct ActivateResp {
    pub ok: bool,
    pub machine_id: Option<String>,
    pub active_count: i64,
    pub max_machines: i64,
    pub reason: Option<String>,
}

/// A sign of life from a machine.
#[derive(Clone, Debug)]
pub struct HeartbeatReq {
    pub key: String,
    pub fingerprint: String,
}

/// A request to free a machine's seat.
#[derive(Clone, Debug)]
pub struct DeactivateReq {
    pub key: String,
    pub fingerprint: String,
    pub reason: Option<String>,
}

/// Which machines are listed. What is left out does not restrict the list.
#[derive(Clone, Debug)]
pub struct AdminListQuery {
    pub license_id: Option<String>,
    pub product_id: Option<String>,
    pub product_slug: Option<String>,
    pub include_inactive: bool,
    /// 500 where it is left out.
    pub limit: Option<i64>,
}

/// Frees a machine's seat for the operator.
#[derive(Clone, Debug)]
pub struct AdminDeactivateReq {
    pub reason: String,
}

/// What is wrong with a key.
pub open spec fn key_refusal(key: Seq<char>, public: Seq<u8>) -> Option<Refusal> {
    match read_key(key) {
        Err(fault) => Some(Refusal::BadRequest { words: "bad key: "@ + fault.words() }),
        Ok(k) => if k.verifies(public) {
            None
        } else {
            Some(Refusal::BadRequest { words: "signature verification failed"@ })
        },
    }
}

/// The license that a key belongs to.
pub open spec fn license_of_key(key: Seq<char>) -> Seq<char> {
    uuid_text(read_key(key)->Ok_0.payload.license_id)
}

/// The license that a key belongs to, where the key is genuine.
pub fn license_of(key: &str, verifying_key: &VerifyingKey) -> (r: Result<String, AppError>)
    ensures
        match r {
            Ok(id) => key_refusal(key@, verifying_key.bytes@) is None && id@ == license_of_key(
                key@,
            ),
            Err(e) => key_refusal(key@, verifying_key.bytes@) matches Some(refusal)
                && refusal.is(e),
        },
{
    let (payload, signature, signed) = match parse_key(key) {
        Ok(k) => k,
        Err(e) => {
            return Err(AppError::BadRequest(cat2("bad key: ", e.message().as_str())));
        },
    };
    if verify_payload(verifying_key, signed.as_slice(), &signature).is_err() {
        return Err(bad_request("signature verification failed"));
    }
    Ok(payload.license_id.to_text())
}

// ---------- activating ----------

/// What has been found out and done about a request to activate so far.
#[derive(Clone, Debug)]
pub struct ActivateFacts {
    pub license: Option<Option<License>>,
    pub seat: SeatFacts,
    /// How many machines are active in the end.
    pub active_count: Option<i64>,
}

/// What a request to activate needs next.
#[derive(Clone, Debug)]
pub enum ActivateStep {
    Refuse { error: AppError },
    FindLicense { license_id: String },
    FindMachine { license_id: String, fingerprint_hash: String },
    Heartbeat { machine_id: String },
    CountMachines { license_id: String },
    /// Activate the machine; `bind` also binds the license to it.
    Activate {
        license_id: String,
        fingerprint: String,
        fingerprint_hash: String,
        hostname: Option<String>,
        platform: Option<String>,
        bind: bool,
    },
    /// Count the machines that are active in the end.
    CountInTheEnd { license_id: String },
    Answer { resp: ActivateResp },
}

/// Is `step` the answer that gives or refuses a seat, or the count it needs?
pub open spec fn is_final_step(
    step: ActivateStep,
    license_id: Seq<char>,
    license: License,
    active_count: Option<i64>,
    machine: Option<Seq<char>>,
    reason: Option<Seq<char>>,
) -> bool {
    match active_count {
        None => step matches ActivateStep::CountInTheEnd { license_id: l } && l@ == license_id,
        Some(n) => step matches ActivateStep::Answer { resp } && resp.ok == (reason is None)
            && opt_text(resp.machine_id) == machine && resp.active_count == n && resp.max_machines
            == license.max_machines && opt_text(resp.reason) == reason,
    }
}

/// Is `step` what a request to activate needs next?
pub open spec fn is_activate_step(
    req: ActivateReq,
    public: Seq<u8>,
    facts: ActivateFacts,
    step: ActivateStep,
) -> bool {
    let license_id = license_of_key(req.key@);
    match (key_refusal(req.key@, public), facts.license) {
        (Some(refusal), _) => step matches ActivateStep::Refuse { error } && refusal.is(error),
        (None, None) => step matches ActivateStep::FindLicense { license_id: l } && l@
            == license_id,
        (None, Some(None)) => step matches ActivateStep::Refuse { error } && error.is_not_found(
            "license "@ + license_id,
        ),
        (None, Some(Some(license))) => if license.status@ != "active"@ {
            step == (ActivateStep::Answer {
                resp: ActivateResp {
                    ok: false,
                    machine_id: None,
                    active_count: 0,
                    max_machines: license.max_machines,
                    reason: Some(license.status),
                },
            })
        } else {
            match seat_step(license, req.fingerprint@, facts.seat) {
                SeatStep::WrongMachine => is_final_step(
                    step,
                    license_id,
                    license,
                    facts.active_count,
                    None,
                    Some("fingerprint_mismatch"@),
                ),
                SeatStep::NoSeat => is_final_step(
                    step,
                    license_id,
                    license,
                    facts.seat.active_machines,
                    None,
                    Some("too_many_machines"@),
                ),
                SeatStep::FindMachine => step matches ActivateStep::FindMachine {
                    license_id: l,
                    fingerprint_hash,
                } && l@ == license_id && fingerprint_hash@ == sha256_hex(req.fingerprint@),
                SeatStep::Heartbeat { machine_id } => step == (ActivateStep::Heartbeat {
                    machine_id,
                }),
                SeatStep::CountMachines => step matches ActivateStep::CountMachines {
                    license_id: l,
                } && l@ == license_id,
                SeatStep::Activate { bind } => step matches ActivateStep::Activate {
                    license_id: l,
                    fingerprint,
                    fingerprint_hash,
                    hostname,
                    platform,
                    bind: b,
                } && l@ == license_id && fingerprint == req.fingerprint && fingerprint_hash@
                    == sha256_hex(req.fingerprint@) && hostname == req.hostname && platform
                    == req.platform && b == bind,
                SeatStep::Seated { machine } => is_final_step(
                    step,
                    license_id,
                    license,
                    facts.active_count,
                    opt_text(machine),
                    None,
                ),
            }
        },
    }
}

fn last_step(
    license_id: String,
    license: &License,
    active_count: Option<i64>,
    machine: Option<String>,
    reason: Option<String>,
) -> (r: ActivateStep)
    ensures
        is_final_step(
            r,
            license_id@,
            *license,
            active_count,
            opt_text(machine),
            opt_text(reason),
        ),
{
    match active_count {
        None => ActivateStep::CountInTheEnd { license_id },
        Some(n) => ActivateStep::Answer {
            resp: ActivateResp {
                ok: reason.is_none(),
                machine_id: machine,
                active_count: n,
                max_machines: license.max_machines,
                reason,
            },
        },
    }
}

/// What a request to activate needs next.
pub fn activate(req: &ActivateReq, verifying_key: &VerifyingKey, facts: &ActivateFacts) -> (r:
    ActivateStep)
    ensures
        is_activate_step(*req, verifying_key.bytes@, *facts, r),
{
    let license_id: String = match license_of(req.key.as_str(), verifying_key) {
        Ok(id) => id,
        Err(error) => {
            return ActivateStep::Refuse { error };
        },
    };
    let license: &License = match &facts.license {
        None => {
            return ActivateStep::FindLicense { license_id };
        },
        Some(None) => {
            return ActivateStep::Refuse {
                error: AppError::NotFound(cat2("license ", license_id.as_str())),
            };
        },
        Some(Some(license)) => license,
    };
    if !same(license.status.as_str(), "active") {
        return ActivateStep::Answer {
            resp: ActivateResp {
                ok: false,
                machine_id: None,
                active_count: 0,
                max_machines: license.max_machines,
                reason: Some(license.status.clone()),
            },
        };
    }
    match next_seat_step(license, req.fingerprint.as_str(), &facts.seat) {
        SeatStep::WrongMachine => last_step(
            license_id,
            license,
            facts.active_count,
            None,
            Some(String::from_str("fingerprint_mismatch")),
        ),
        SeatStep::NoSeat => last_step(
            license_id,
            license,
            facts.seat.active_machines,
            None,
            Some(String::from_str("too_many_machines")),
        ),
        SeatStep::FindMachine => ActivateStep::FindMachine {
            license_id,
            fingerprint_hash: hex_sha256(req.fingerprint.as_str()),
        },
        SeatStep::Heartbeat { machine_id } => ActivateStep::Heartbeat { machine_id },
        SeatStep::CountMachines => ActivateStep::CountMachines { license_id },
        SeatStep::Activate { bind } => ActivateStep::Activate {
            license_id,
            fingerprint: req.fingerprint.clone(),
            fingerprint_hash: hex_sha256(req.fingerprint.as_str()),
            hostname: copy_opt(&req.hostname),
            platform: copy_opt(&req.platform),
            bind,
        },
        SeatStep::Seated { machine } => last_step(
            license_id,
            license,
            facts.active_count,
            machine,
            None,
        ),
    }
}

/// Only the holder of a genuine key can have a machine activated, and only
/// while the license is active.
pub proof fn only_active_licenses_get_machines(
    req: ActivateReq,
    public: Seq<u8>,
    facts: ActivateFacts,
    step: ActivateStep,
)
    requires
        is_activate_step(req, public, facts, step),
        step is Activate,
    ensures
        is_verified(req.key@, public),
        facts.license matches Some(Some(license)) && license.status@ == "active"@,
{
}

// ---------- signs of life ----------

/// What has been found out and done about a sign of life so far.
#[derive(Clone, Debug)]
pub struct HeartbeatFacts {
    /// Whether the rate limit lets the request through.
    pub admitted: Option<bool>,
    pub machine: Option<Option<Machine>>,
    pub recorded: bool,
}

/// The answer to a sign of life, or to a request to free a seat.
#[derive(Clone, Debug, PartialEq, Eq)]
pub struct MachineAnswer {
    pub ok: bool,
    pub reason: Option<String>,
    pub machine_id: Option<String>,
}

/// What a sign of life needs next.
#[derive(Clone, Debug)]
pub enum HeartbeatStep {
    Refuse { error: AppError },
    ConsumeToken { bucket: String },
    FindMachine { license_id: String, fingerprint_hash: String },
    Record { machine_id: String },
    Answer { resp: MachineAnswer },
}

/// Does an answer say no for a reason?
pub open spec fn denies(resp: MachineAnswer, reason: Seq<char>) -> bool {
    !resp.ok && opt_text(resp.reason) == Some(reason) && resp.machine_id is None
}

fn denial(reason: &str) -> (r: MachineAnswer)
    ensures
        denies(r, reason@),
{
    MachineAnswer { ok: false, reason: Some(String::from_str(reason)), machine_id: None }
}

/// Is `step` what a sign of life needs next?
pub open spec fn is_heartbeat_step(
    req: HeartbeatReq,
    public: Seq<u8>,
    facts: HeartbeatFacts,
    step: HeartbeatStep,
) -> bool {
    let license_id = license_of_key(req.key@);
    match (key_refusal(req.key@, public), facts.admitted) {
        (Some(refusal), _) => step matches HeartbeatStep::Refuse { error } && refusal.is(error),
        (None, None) => step matches HeartbeatStep::ConsumeToken { bucket } && bucket@
            == license_id,
        (None, Some(false)) => step matches HeartbeatStep::Answer { resp } && denies(
            resp,
            "rate_limited"@,
        ),
        (None, Some(true)) => match facts.machine {
            None => step matches HeartbeatStep::FindMachine { license_id: l, fingerprint_hash }
                && l@ == license_id && fingerprint_hash@ == sha256_hex(req.fingerprint@),
            Some(None) => step matches HeartbeatStep::Answer { resp } && denies(
                resp,
                "not_activated"@,
            ),
            Some(Some(m)) => if facts.recorded {
                step == (HeartbeatStep::Answer {
                    resp: MachineAnswer { ok: true, reason: None, machine_id: Some(m.id) },
                })
            } else {
                step == (HeartbeatStep::Record { machine_id: m.id })
            },
        },
    }
}

/// What a sign of life needs next.
pub fn heartbeat(req: &HeartbeatReq, verifying_key: &VerifyingKey, facts: &HeartbeatFacts) -> (r:
    HeartbeatStep)
    ensures
        is_heartbeat_step(*req, verifying_key.bytes@, *facts, r),
{
    let license_id: String = match license_of(req.key.as_str(), verifying_key) {
        Ok(id) => id,
        Err(error) => {
            return HeartbeatStep::Refuse { error };
        },
    };
    match facts.admitted {
        None => {
            return HeartbeatStep::ConsumeToken { bucket: license_id };
        },
        Some(admitted) => {
            if !admitted {
                return HeartbeatStep::Answer { resp: denial("rate_limited") };
            }
        },
    }
    match &facts.machine {
        None => HeartbeatStep::FindMachine {
            license_id,
            fingerprint_hash: hex_sha256(req.fingerprint.as_str()),
        },
        Some(None) => HeartbeatStep::Answer { resp: denial("not_activated") },
        Some(Some(m)) => if facts.recorded {
            HeartbeatStep::Answer {
                resp: MachineAnswer { ok: true, reason: None, machine_id: Some(m.id.clone()) },
            }
        } else {
            HeartbeatStep::Record { machine_id: m.id.clone() }
        },
    }
}

// ---------- freeing a seat ----------

/// What has been found out and done about a request to free a seat so far.
#[derive(Clone, Debug)]
pub struct DeactivateFacts {
    pub machine: Option<Option<Machine>>,
    pub deactivated: bool,
    pub license: Option<Option<License>>,
    pub unbound: bool,
}

/// What a request to free a seat needs next.
#[derive(Clone, Debug)]
pub enum DeactivateStep {
    Refuse { error: AppError },
    FindMachine { license_id: String, fingerprint_hash: String },
    /// Deactivate the machine and tell the endpoints of it.
    Deactivate { license_id: String, machine_id: String, reason: String },
    FindLicense { license_id: String },
    /// Forget the machine that the single-seat license is bound to.
    Unbind { license_id: String },
    Answer { resp: MachineAnswer },
}

/// Is `step` what a request to free a seat needs next? A single-seat license is
/// unbound too, so that the next machine can bind it.
pub open spec fn is_deactivate_step(
    req: DeactivateReq,
    public: Seq<u8>,
    facts: DeactivateFacts,
    step: DeactivateStep,
) -> bool {
    let license_id = license_of_key(req.key@);
    match (key_refusal(req.key@, public), facts.machine) {
        (Some(refusal), _) => step matches DeactivateStep::Refuse { error } && refusal.is(error),
        (None, None) => step matches DeactivateStep::FindMachine {
            license_id: l,
            fingerprint_hash,
        } && l@ == license_id && fingerprint_hash@ == sha256_hex(req.fingerprint@),
        (None, Some(None)) => step matches DeactivateStep::Answer { resp } && denies(
            resp,
            "not_found"@,
        ),
        (None, Some(Some(m))) => if !facts.deactivated {
            step matches DeactivateStep::Deactivate { license_id: l, machine_id, reason } && l@
                == license_id && machine_id == m.id && reason@ == match req.reason {
                Some(words) => words@,
                None => "client_requested"@,
            }
        } else {
            match facts.license {
                None => step matches DeactivateStep::FindLicense { license_id: l } && l@
                    == license_id,
                Some(found) => if found is Some && found->0.max_machines == 1 && !facts.unbound {
                    step matches DeactivateStep::Unbind { license_id: l } && l@ == license_id
                } else {
                    step == (DeactivateStep::Answer {
                        resp: MachineAnswer { ok: true, reason: None, machine_id: None },
                    })
                },
            }
        },
    }
}

/// What a request to free a seat needs next.
pub fn deactivate(req: &DeactivateReq, verifying_key: &VerifyingKey, facts: &DeactivateFacts) -> (r:
    DeactivateStep)
    ensures
        is_deactivate_step(*req, verifying_key.bytes@, *facts, r),
{
    let license_id: String = match license_of(req.key.as_str(), verifying_key) {
        Ok(id) => id,
        Err(error) => {
            return DeactivateStep::Refuse { error };
        },
    };
    let m: &Machine = match &facts.machine {
        None => {
            return DeactivateStep::FindMachine {
                license_id,
                fingerprint_hash: hex_sha256(req.fingerprint.as_str()),
            };
        },
        Some(None) => {
            return DeactivateStep::Answer { resp: denial("not_found") };
        },
        Some(Some(m)) => m,
    };
    if !facts.deactivated {
        return DeactivateStep::Deactivate {
            license_id,
            machine_id: m.id.clone(),
            reason: match &req.reason {
                Some(words) => words.clone(),
                None => String::from_str("client_requested"),
            },
        };
    }
    match &facts.license {
        None => {
            return DeactivateStep::FindLicense { license_id };
        },
        Some(Some(license)) => {
            if license.max_machines == 1 && !facts.unbound {
                return DeactivateStep::Unbind { license_id };
            }
        },
        Some(None) => {},
    }
    DeactivateStep::Answer { resp: MachineAnswer { ok: true, reason: None, machine_id: None } }
}

/// The seat of a single-seat license is free again once its machine has been
/// deactivated: the license that is left behind is not bound, so that any
/// machine is activated next.
pub proof fn a_freed_seat_can_be_taken(license: License, fp: Seq<char>, seat: SeatFacts)
    requires
        license.max_machines == 1,
        license.fingerprint is None,
        seat.activated is None,
    ensures
        seat_step(license, fp, seat) == (SeatStep::Activate { bind: true }),
{
}

// ---------- for the operator ----------

/// What a list of machines needs next.
#[derive(Clone, Debug)]
pub enum AdminListStep {
    FindProduct { slug: String },
    Refuse { error: AppError },
    /// List the machines of the product, or of any, at most so many.
    List { product_id: Option<String>, limit: i64 },
}

/// How many machines are listed at most.
pub open spec fn list_limit(limit: Option<i64>) -> int {
    match limit {
        Some(n) => clamped(n as int, 1, 5000),
        None => 500,
    }
}

/// Is `r` what a list of machines needs next?
pub open spec fn is_machine_list_step(
    q: AdminListQuery,
    found: Option<Option<Product>>,
    r: AdminListStep,
) -> bool {
    match (q.product_id, q.product_slug, found) {
        (None, Some(slug), None) => r == (AdminListStep::FindProduct { slug }),
        (None, Some(slug), Some(None)) => r matches AdminListStep::Refuse { error }
            && error.is_not_found("product '"@ + slug@ + "'"@),
        (None, Some(_), Some(Some(p))) => r matches AdminListStep::List { product_id, limit }
            && product_id == Some(p.id) && limit == list_limit(q.limit),
        (id, _, _) => r matches AdminListStep::List { product_id, limit } && product_id == id
            && limit == list_limit(q.limit),
    }
}

/// What a list of machines needs next; `found` is the product of the slug that
/// was asked for, once it has been looked for. The product's id is taken before
/// its slug.
pub fn admin_list(q: &AdminListQuery, found: &Option<Option<Product>>) -> (r: AdminListStep)
    ensures
        is_machine_list_step(*q, *found, r),
{
    let limit: i64 = match q.limit {
        Some(n) => clamp_limit(n, 1, 5000),
        None => 500,
    };
    match (&q.product_id, &q.product_slug) {
        (None, Some(slug)) => match found {
            None => AdminListStep::FindProduct { slug: slug.clone() },
            Some(None) => AdminListStep::Refuse {
                error: not_found_with("product '", slug.as_str(), "'"),
            },
            Some(Some(p)) => AdminListStep::List { product_id: Some(p.id.clone()), limit },
        },
        _ => AdminListStep::List { product_id: copy_opt(&q.product_id), limit },
    }
}

/// A machine to deactivate for the operator.
#[derive(Clone, Debug, PartialEq, Eq)]
pub struct Deactivation {
    pub machine_id: String,
    pub license_id: String,
    pub reason: String,
    /// Whether the license forgets the machine that it is bound to.
    pub unbind: bool,
}

/// Is `r` what comes of deactivating a machine for the operator?
pub open spec fn is_admin_deactivation(
    id: Seq<char>,
    req: AdminDeactivateReq,
    found: Option<Machine>,
    license: Option<License>,
    r: Result<Deactivation, AppError>,
) -> bool {
    match (found, r) {
        (None, Err(e)) => e.is_not_found("machine "@ + id),
        (Some(m), Ok(d)) => {
            &&& d.machine_id@ == id
            &&& d.license_id == m.license_id
            &&& d.reason@ == reason_or(req.reason@, "admin deactivate"@)
            &&& d.unbind == (license matches Some(l) && l.max_machines == 1)
        },
        _ => false,
    }
}

/// Which machine is deactivated for the operator, and why; `license` is the
/// machine's license. A single-seat license is unbound too, so that its seat is
/// free.
pub fn admin_deactivate(
    id: &str,
    req: &AdminDeactivateReq,
    found: &Option<Machine>,
    license: &Option<License>,
) -> (r: Result<Deactivation, AppError>)
    ensures
        is_admin_deactivation(id@, *req, *found, *license, r),
{
    match found {
        None => Err(AppError::NotFound(cat2("machine ", id))),
        Some(m) => Ok(
            Deactivation {
                machine_id: String::from_str(id),
                license_id: m.license_id.clone(),
                reason: if req.reason.as_str().is_empty() {
                    String::from_str("admin deactivate")
                } else {
                    req.reason.clone()
                },
                unbind: match license {
                    Some(l) => l.max_machines == 1,
                    None => false,
                },
            },
        ),
    }
}

} // verus!
