//! What comes of asking for, keeping and freeing a seat.

use crate::api::machines::{
    is_activate_step, is_admin_deactivation, is_deactivate_step, is_heartbeat_step,
    is_machine_list_step, ActivateFacts, ActivateReq, ActivateStep, AdminDeactivateReq,
    AdminListQuery, AdminListStep, DeactivateFacts, DeactivateReq, DeactivateStep, Deactivation,
    HeartbeatFacts, HeartbeatReq, HeartbeatStep,
};
use crate::codec::{ed25519_accepts, sha256_hex, uuid_text};
use crate::crypto::{read_key, KeyModel};
use crate::error::AppError;
use crate::models::{License, Machine, Product};
use vstd::prelude::*;

verus! {

/// Is a text a key that the server signed?
pub open spec fn is_signed_key(text: Seq<char>, public: Seq<u8>, k: KeyModel) -> bool {
    &&& read_key(text) matches Ok(read) && read == k
    &&& ed25519_accepts(public, k.signed, k.signature)
}

/// Is a text no key that the server signed?
pub open spec fn is_no_key(text: Seq<char>, public: Seq<u8>) -> bool {
    read_key(text) matches Ok(k) ==> !ed25519_accepts(public, k.signed, k.signature)
}

/// What is no key of the server's is refused, whatever is asked with it.
pub proof fn seats_need_a_key(
    a: ActivateReq,
    h: HeartbeatReq,
    d: DeactivateReq,
    public: Seq<u8>,
    af: ActivateFacts,
    hf: HeartbeatFacts,
    df: DeactivateFacts,
    a_step: ActivateStep,
    h_step: HeartbeatStep,
    d_step: DeactivateStep,
)
    ensures
        is_activate_step(a, public, af, a_step) && is_no_key(a.key@, public) ==> a_step is Refuse
            && (a_step->error is BadRequest),
        is_heartbeat_step(h, public, hf, h_step) && is_no_key(h.key@, public) ==> h_step is Refuse
            && (h_step->error is BadRequest),
        is_deactivate_step(d, public, df, d_step) && is_no_key(d.key@, public) ==> d_step is Refuse
            && (d_step->error is BadRequest),
{
}

/// A license that is not known gets no machine, and one that is not active
/// answers with its state.
pub proof fn only_living_licenses_seat_machines(
    req: ActivateReq,
    public: Seq<u8>,
    facts: ActivateFacts,
    step: ActivateStep,
    k: KeyModel,
)
    requires
        is_activate_step(req, public, facts, step),
        is_signed_key(req.key@, public, k),
    ensures
        facts.license is None <==> step is FindLicense,
        step is FindLicense ==> step->FindLicense_license_id@ == uuid_text(k.payload.license_id),
        facts.license matches Some(None) ==> step is Refuse && (step->error is NotFound),
        facts.license matches Some(Some(l)) && l.status@ != "active"@ ==> {
            &&& step is Answer
            &&& !step->resp.ok
            &&& step->resp.reason == Some(facts.license->0->0.status)
            &&& step->resp.machine_id is None
        },
{
}

/// Does an answer give a seat to this machine?
pub open spec fn seats(step: ActivateStep, license: License, machine: Option<Seq<char>>, n: i64) -> bool {
    &&& step is Answer
    &&& step->resp.ok
    &&& step->resp.reason is None
    &&& step->resp.active_count == n
    &&& step->resp.max_machines == license.max_machines
    &&& step->resp.machine_id is Some <==> machine is Some
    &&& machine is Some ==> step->resp.machine_id->0@ == machine->0
}

/// Does an answer refuse a seat for this reason?
pub open spec fn denies_seat(step: ActivateStep, reason: Seq<char>) -> bool {
    &&& step is Answer
    &&& !step->resp.ok
    &&& step->resp.reason is Some
    &&& step->resp.reason->0@ == reason
    &&& step->resp.machine_id is None
}

/// A single-seat license seats the machine that it is bound to, and no other; one
/// that is not bound yet is bound to the machine that asks.
pub proof fn single_seats_go_to_one_machine(
    req: ActivateReq,
    public: Seq<u8>,
    facts: ActivateFacts,
    step: ActivateStep,
    k: KeyModel,
    license: License,
    n: i64,
)
    requires
        is_activate_step(req, public, facts, step),
        is_signed_key(req.key@, public, k),
        facts.license == Some(Some(license)),
        license.status@ == "active"@,
        license.max_machines == 1,
        facts.active_count == Some(n),
    ensures
        license.fingerprint is Some && license.fingerprint->0@ != req.fingerprint@ ==> denies_seat(
            step,
            "fingerprint_mismatch"@,
        ),
        license.fingerprint is Some && license.fingerprint->0@ == req.fingerprint@
            ==> match facts.seat.machine {
            None => step is FindMachine && step->FindMachine_fingerprint_hash@ == sha256_hex(
                req.fingerprint@,
            ),
            Some(Some(m)) => if facts.seat.heartbeat_sent {
                seats(step, license, Some(m.id@), n)
            } else {
                step == (ActivateStep::Heartbeat { machine_id: m.id })
            },
            Some(None) => seats(step, license, None, n),
        },
        license.fingerprint is None ==> if facts.seat.activated is None {
            &&& step is Activate
            &&& step->bind
            &&& step->fingerprint@ == req.fingerprint@
            &&& step->Activate_license_id@ == uuid_text(k.payload.license_id)
            &&& step->hostname == req.hostname
            &&& step->platform == req.platform
        } else {
            seats(step, license, Some(facts.seat.activated->0@), n)
        },
{
}

/// A license with several seats, or without a limit, seats machines as long as one
/// is free, and seats none beyond.
pub proof fn seats_are_given_while_free(
    req: ActivateReq,
    public: Seq<u8>,
    facts: ActivateFacts,
    step: ActivateStep,
    k: KeyModel,
    license: License,
    n: i64,
)
    requires
        is_activate_step(req, public, facts, step),
        is_signed_key(req.key@, public, k),
        facts.license == Some(Some(license)),
        license.status@ == "active"@,
        license.max_machines != 1,
        facts.active_count == Some(n),
    ensures
        match facts.seat.machine {
            None => step is FindMachine,
            Some(Some(m)) => if facts.seat.heartbeat_sent {
                seats(step, license, Some(m.id@), n)
            } else {
                step == (ActivateStep::Heartbeat { machine_id: m.id })
            },
            Some(None) => match facts.seat.active_machines {
                None => step is CountMachines,
                Some(taken) => if 0 < license.max_machines <= taken {
                    denies_seat(step, "too_many_machines"@) && step->resp.active_count == taken
                        && step->resp.max_machines == license.max_machines
                } else if facts.seat.activated is None {
                    step is Activate && !step->bind && step->fingerprint@ == req.fingerprint@
                } else {
                    seats(step, license, Some(facts.seat.activated->0@), n)
                },
            },
        },
{
}

/// A sign of life is counted by the license, and kept for a machine that has a
/// seat; another machine is told that it has none.
pub proof fn signs_of_life_are_kept(
    req: HeartbeatReq,
    public: Seq<u8>,
    facts: HeartbeatFacts,
    step: HeartbeatStep,
    k: KeyModel,
)
    requires
        is_heartbeat_step(req, public, facts, step),
        is_signed_key(req.key@, public, k),
    ensures
        match facts.admitted {
            None => step is ConsumeToken && step->bucket@ == uuid_text(k.payload.license_id),
            Some(false) => step is Answer && !step->resp.ok && step->resp.reason is Some
                && step->resp.reason->0@ == "rate_limited"@,
            Some(true) => match facts.machine {
                None => step is FindMachine && step->license_id@ == uuid_text(k.payload.license_id)
                    && step->fingerprint_hash@ == sha256_hex(req.fingerprint@),
                Some(None) => step is Answer && !step->resp.ok && step->resp.reason is Some
                    && step->resp.reason->0@ == "not_activated"@,
                Some(Some(m)) => if facts.recorded {
                    step is Answer && step->resp.ok && step->resp.machine_id == Some(m.id)
                } else {
                    step == (HeartbeatStep::Record { machine_id: m.id })
                },
            },
        },
{
}

/// A machine that gives its seat up is deactivated, and a single-seat license is
/// unbound with it; a machine that has no seat is told so.
pub proof fn seats_are_given_up(
    req: DeactivateReq,
    public: Seq<u8>,
    facts: DeactivateFacts,
    step: DeactivateStep,
    k: KeyModel,
)
    requires
        is_deactivate_step(req, public, facts, step),
        is_signed_key(req.key@, public, k),
    ensures
        match facts.machine {
            None => step is FindMachine && step->FindMachine_license_id@ == uuid_text(
                k.payload.license_id,
            ) && step->fingerprint_hash@ == sha256_hex(req.fingerprint@),
            Some(None) => step is Answer && !step->resp.ok && step->resp.reason is Some
                && step->resp.reason->0@ == "not_found"@,
            Some(Some(m)) => if !facts.deactivated {
                &&& step is Deactivate
                &&& step->machine_id == m.id
                &&& step->Deactivate_license_id@ == uuid_text(k.payload.license_id)
                &&& req.reason is Some ==> step->reason@ == req.reason->0@
                &&& req.reason is None ==> step->reason@ == "client_requested"@
            } else if facts.license is None {
                step is FindLicense
            } else if facts.license->0 is Some && facts.license->0->0.max_machines == 1
                && !facts.unbound {
                step is Unbind && step->Unbind_license_id@ == uuid_text(k.payload.license_id)
            } else {
                step is Answer && step->resp.ok
            },
        },
{
}

/// The operator frees the seat of a machine that is there; a single-seat license
/// is unbound with it.
pub proof fn the_operator_frees_seats(
    id: Seq<char>,
    req: AdminDeactivateReq,
    found: Option<Machine>,
    license: Option<License>,
    r: Result<Deactivation, AppError>,
)
    requires
        is_admin_deactivation(id, req, found, license, r),
    ensures
        r is Ok <==> found is Some,
        r is Err ==> (r->Err_0 is NotFound),
        r matches Ok(d) ==> {
            &&& d.machine_id@ == id
            &&& d.license_id == found->0.license_id
            &&& req.reason@.len() > 0 ==> d.reason@ == req.reason@
            &&& req.reason@.len() == 0 ==> d.reason@ == "admin deactivate"@
            &&& d.unbind <==> license is Some && license->0.max_machines == 1
        },
{
}

/// Machines are listed for the product that was asked for, by its identifier or
/// else by its slug, and at most so many as were asked for, up to a limit.
pub proof fn machines_are_listed_by_product(
    q: AdminListQuery,
    found: Option<Option<Product>>,
    step: AdminListStep,
)
    requires
        is_machine_list_step(q, found, step),
    ensures
        step matches AdminListStep::List { product_id, limit } ==> {
            &&& 1 <= limit <= 5000
            &&& q.limit is Some && 1 <= q.limit->0 <= 5000 ==> limit == q.limit->0
            &&& q.limit is Some && q.limit->0 > 5000 ==> limit == 5000
            &&& q.limit is Some && q.limit->0 < 1 ==> limit == 1
            &&& q.limit is None ==> limit == 500
            &&& q.product_id is Some ==> product_id == q.product_id
            &&& q.product_id is None && q.product_slug is None ==> product_id is None
            &&& q.product_id is None && q.product_slug is Some ==> (
            found matches Some(Some(p)) && product_id == Some(p.id))
        },
        q.product_id is None && q.product_slug is Some && found is None ==> step == (
        AdminListStep::FindProduct { slug: q.product_slug->0 }),
        q.product_id is None && q.product_slug is Some && (found matches Some(None)) ==> step
            is Refuse,
        q.product_id is Some || q.product_slug is None ==> step is List,
{
}

} // verus!
