//! What comes of validating a key.

use crate::api::validate::{
    is_validate_step, seat_step, SeatFacts, SeatStep, ValidateFacts, ValidateReq, ValidateResp,
    ValidateStep,
};
use crate::clock::{rfc3339_parts, rfc3339_text, Moment};
use crate::codec::{ed25519_accepts, sha256, sha256_hex, uuid_text};
use crate::crypto::{read_key, KeyModel};
use crate::models::{License, Product};
use crate::text::opt_text;
use vstd::prelude::*;
use vstd::utf8::encode_utf8;

verus! {

// ---------- seats ----------

/// A single-seat license that is bound refuses every machine but the one it is
/// bound to, and that one it always lets on: the machine is looked up, tells that
/// it is alive, and has its seat, whether or not there is a record of it.
pub proof fn a_bound_seat_belongs_to_its_machine(license: License, fp: Seq<char>, facts: SeatFacts)
    requires
        license.max_machines == 1,
        license.fingerprint is Some,
    ensures
        seat_step(license, fp, facts) is WrongMachine <==> license.fingerprint->0@ != fp,
        license.fingerprint->0@ == fp ==> match facts.machine {
            None => seat_step(license, fp, facts) is FindMachine,
            Some(None) => seat_step(license, fp, facts) == (SeatStep::Seated { machine: None }),
            Some(Some(m)) => if facts.heartbeat_sent {
                seat_step(license, fp, facts) == (SeatStep::Seated { machine: Some(m.id) })
            } else {
                seat_step(license, fp, facts) == (SeatStep::Heartbeat { machine_id: m.id })
            },
        },
{
}

/// A single-seat license that is not bound yet is bound to the machine that asks,
/// whichever it is.
pub proof fn a_free_single_seat_is_bound(license: License, fp: Seq<char>, facts: SeatFacts)
    requires
        license.max_machines == 1,
        license.fingerprint is None,
    ensures
        facts.activated is None ==> seat_step(license, fp, facts) == (SeatStep::Activate {
            bind: true,
        }),
        facts.activated is Some ==> seat_step(license, fp, facts) == (SeatStep::Seated {
            machine: facts.activated,
        }),
{
}

/// On a license with several seats, or without a limit, a machine that has a seat
/// keeps it; another gets one as long as one is free, and the license is bound to
/// none.
pub proof fn several_seats_are_shared(license: License, fp: Seq<char>, facts: SeatFacts)
    requires
        license.max_machines != 1,
    ensures
        ({
            let step = seat_step(license, fp, facts);
            &&& !(step is WrongMachine)
            &&& facts.machine is None ==> step is FindMachine
            &&& facts.machine matches Some(Some(m)) ==> if facts.heartbeat_sent {
                step == (SeatStep::Seated { machine: Some(m.id) })
            } else {
                step == (SeatStep::Heartbeat { machine_id: m.id })
            }
            &&& facts.machine == Some(None::<crate::models::Machine>) ==> match facts.active_machines {
                None => step is CountMachines,
                Some(n) => if 0 < license.max_machines <= n {
                    step is NoSeat
                } else if facts.activated is None {
                    step == (SeatStep::Activate { bind: false })
                } else {
                    step == (SeatStep::Seated { machine: facts.activated })
                },
            }
        }),
{
}

// ---------- what a request is about ----------

/// Is a request let through, its key the server's, and its license known?
pub open spec fn is_genuine(
    req: ValidateReq,
    public: Seq<u8>,
    facts: ValidateFacts,
    k: KeyModel,
    license: License,
) -> bool {
    &&& facts.admitted == Some(true)
    &&& read_key(req.key@) matches Ok(read) && read == k
    &&& ed25519_accepts(public, k.signed, k.signature)
    &&& facts.license == Some(Some(license))
}

/// Is the license active and for the product that was asked for?
pub open spec fn is_wanted(
    req: ValidateReq,
    facts: ValidateFacts,
    license: License,
    product: Option<Product>,
) -> bool {
    &&& license.status@ == "active"@
    &&& facts.product == Some(product)
    &&& req.product_slug is Some && product is Some ==> product->0.slug@ == req.product_slug->0@
}

/// Does a license end at this moment, with its grace within the calendar?
pub open spec fn ends_at(license: License, end: Moment) -> bool {
    &&& license.expires_at is Some
    &&& rfc3339_parts(license.expires_at->0@) == Some((end.secs, end.nanos))
    &&& end.nanos < 1_000_000_000
    &&& -8_334_601_228_800 <= end.secs + license.grace_seconds <= 8_210_266_876_799
}

/// Does a license have no end that can be read?
pub open spec fn is_endless(license: License) -> bool {
    license.expires_at is Some ==> rfc3339_parts(license.expires_at->0@) is None
}

/// Is `now` at or past the moment that lies `secs` seconds after `end`?
pub open spec fn is_past(now: Moment, end: Moment, secs: int) -> bool {
    now.secs > end.secs + secs || (now.secs == end.secs + secs && now.nanos >= end.nanos)
}

/// Is a license not past its end and its grace?
pub open spec fn is_alive(license: License, now: Moment) -> bool {
    is_endless(license) || exists|end: Moment|
        #[trigger] ends_at(license, end) && !is_past(now, end, license.grace_seconds as int)
}

/// Does an answer refuse a key for this reason?
pub open spec fn refuses(step: ValidateStep, reason: Seq<char>) -> bool {
    &&& step is Answer
    &&& !step->resp.ok
    &&& step->resp.reason is Some
    &&& step->resp.reason->0@ == reason
    &&& step->resp.entitlements@.len() == 0
    &&& step->resp.status is None
    &&& step->resp.machine_id is None
    &&& step->resp.in_grace_period is None
    &&& step->resp.is_trial is None
}

/// Does an answer approve a key, and tell what its license grants?
pub open spec fn approves_license(
    resp: ValidateResp,
    k: KeyModel,
    license: License,
    product: Option<Product>,
) -> bool {
    &&& resp.ok
    &&& resp.reason is None
    &&& resp.license_id is Some && resp.license_id->0@ == uuid_text(k.payload.license_id)
    &&& resp.product_id is Some && resp.product_id->0@ == uuid_text(k.payload.product_id)
    &&& resp.product_slug is Some <==> product is Some
    &&& product is Some ==> resp.product_slug->0@ == product->0.slug@
    &&& resp.issued_at is Some && resp.issued_at->0@ == license.issued_at@
    &&& resp.expires_at is Some <==> license.expires_at is Some
    &&& license.expires_at is Some ==> resp.expires_at->0@ == license.expires_at->0@
    &&& license.is_trial ==> resp.is_trial == Some(true)
    &&& !license.is_trial ==> resp.is_trial is None
    &&& resp.entitlements@.len() == license.entitlements@.len()
    &&& forall|i: int|
        0 <= i < resp.entitlements@.len() ==> (#[trigger] resp.entitlements@[i])@
            == license.entitlements@[i]@
    &&& resp.status is Some && resp.status->0@ == "active"@
    &&& resp.max_machines == Some(license.max_machines)
}

proof fn lemma_statuses()
    ensures
        "active"@ != "revoked"@,
        "active"@ != "suspended"@,
        "revoked"@ != "suspended"@,
{
    reveal_strlit("active");
    reveal_strlit("revoked");
    reveal_strlit("suspended");
    assert("active"@.len() == 6 && "revoked"@.len() == 7 && "suspended"@.len() == 9);
}

proof fn lemma_approval(
    resp: ValidateResp,
    k: KeyModel,
    license: License,
    product: Option<Product>,
    now: Moment,
    machine: Option<Seq<char>>,
)
    requires
        resp@ == crate::api::validate::approval(k, license, product, now, machine),
        license.status@ == "active"@,
    ensures
        approves_license(resp, k, license, product),
        machine is None <==> resp.machine_id is None,
        machine is Some ==> resp.machine_id->0@ == machine->0,
{
    let a = resp@;
    assert(a.ok == resp.ok);
    assert(a.reason == opt_text(resp.reason));
    assert(a.license_id == opt_text(resp.license_id));
    assert(a.product_id == opt_text(resp.product_id));
    assert(a.product_slug == opt_text(resp.product_slug));
    assert(a.issued_at == opt_text(resp.issued_at));
    assert(a.expires_at == opt_text(resp.expires_at));
    assert(a.status == opt_text(resp.status));
    assert(a.machine_id == opt_text(resp.machine_id));
    assert(a.entitlements == crate::text::texts(resp.entitlements@));
    assert(a.entitlements.len() == resp.entitlements@.len());
    assert forall|i: int| 0 <= i < resp.entitlements@.len() implies (
    #[trigger] resp.entitlements@[i])@ == license.entitlements@[i]@ by {
        assert(a.entitlements[i] == resp.entitlements@[i]@);
    }
}

proof fn lemma_refusal(resp: ValidateResp, reason: Seq<char>)
    requires
        resp@.ok == false,
        resp@.reason == Some(reason),
        resp@.entitlements == Seq::<Seq<char>>::empty(),
        resp@.status is None,
        resp@.machine_id is None,
        resp@.in_grace_period is None,
        resp@.is_trial is None,
    ensures
        !resp.ok,
        resp.reason is Some && resp.reason->0@ == reason,
        resp.entitlements@.len() == 0,
        resp.status is None,
        resp.machine_id is None,
        resp.in_grace_period is None,
        resp.is_trial is None,
{
    assert(resp@.entitlements.len() == resp.entitlements@.len());
}

// ---------- verdicts ----------

/// A request that the rate limit holds back, a text that is no key, a key that
/// the server did not sign and a license that is not known are refused, each for
/// its reason.
pub proof fn keys_are_checked_first(
    req: ValidateReq,
    client: Option<String>,
    public: Seq<u8>,
    facts: ValidateFacts,
    now: Moment,
    step: ValidateStep,
)
    requires
        is_validate_step(req, client, public, facts, now, step),
    ensures
        facts.admitted is None <==> step is ConsumeToken,
        facts.admitted is None && client is Some ==> step->bucket@ == client->0@,
        facts.admitted is None && client is None ==> step->bucket@ == if req.key@.len() <= 24 {
            req.key@
        } else {
            req.key@.take(24)
        },
        facts.admitted == Some(false) ==> refuses(step, "rate_limited"@),
        facts.admitted == Some(true) && read_key(req.key@) is Err ==> refuses(step, "bad_format"@),
        facts.admitted == Some(true) && (read_key(req.key@) matches Ok(k) && !ed25519_accepts(
            public,
            k.signed,
            k.signature,
        )) ==> refuses(step, "bad_signature"@),
        facts.admitted == Some(true) && (read_key(req.key@) matches Ok(k) && ed25519_accepts(
            public,
            k.signed,
            k.signature,
        )) && facts.license is None ==> step is FindLicense && step->FindLicense_license_id@
            == uuid_text(read_key(req.key@)->Ok_0.payload.license_id),
        facts.admitted == Some(true) && (read_key(req.key@) matches Ok(k) && ed25519_accepts(
            public,
            k.signed,
            k.signature,
        )) && facts.license == Some(None::<License>) ==> refuses(step, "not_found"@),
{
    if step is Answer && facts.admitted == Some(false) {
        lemma_refusal(step->resp, "rate_limited"@);
    }
    if step is Answer && facts.admitted == Some(true) {
        match read_key(req.key@) {
            Err(_) => {
                lemma_refusal(step->resp, "bad_format"@);
            },
            Ok(k) => {
                if !k.verifies(public) {
                    lemma_refusal(step->resp, "bad_signature"@);
                } else if facts.license == Some(None::<License>) {
                    lemma_refusal(step->resp, "not_found"@);
                }
            },
        }
    }
}

/// A license that was withdrawn, or is in a state that is not known, is refused
/// for that, before anything else is asked of it.
pub proof fn only_active_licenses_go_on(
    req: ValidateReq,
    client: Option<String>,
    public: Seq<u8>,
    facts: ValidateFacts,
    now: Moment,
    step: ValidateStep,
    k: KeyModel,
    license: License,
)
    requires
        is_validate_step(req, client, public, facts, now, step),
        is_genuine(req, public, facts, k, license),
    ensures
        license.status@ == "revoked"@ ==> refuses(step, "revoked"@),
        license.status@ == "suspended"@ ==> refuses(step, "suspended"@),
        license.status@ != "active"@ && license.status@ != "revoked"@ && license.status@
            != "suspended"@ ==> refuses(step, "invalid_state"@),
        license.status@ == "active"@ && facts.product is None ==> step == (
        ValidateStep::FindProduct { product_id: license.product_id }),
{
    lemma_statuses();
    if license.status@ != "active"@ {
        if license.status@ == "revoked"@ {
            lemma_refusal(step->resp, "revoked"@);
        } else if license.status@ == "suspended"@ {
            lemma_refusal(step->resp, "suspended"@);
        } else {
            lemma_refusal(step->resp, "invalid_state"@);
        }
    }
}

/// A key for another product than the one that was asked for is refused for that.
pub proof fn keys_open_their_own_product(
    req: ValidateReq,
    client: Option<String>,
    public: Seq<u8>,
    facts: ValidateFacts,
    now: Moment,
    step: ValidateStep,
    k: KeyModel,
    license: License,
    product: Product,
)
    requires
        is_validate_step(req, client, public, facts, now, step),
        is_genuine(req, public, facts, k, license),
        license.status@ == "active"@,
        facts.product == Some(Some(product)),
        req.product_slug is Some,
        req.product_slug->0@ != product.slug@,
    ensures
        refuses(step, "product_mismatch"@),
{
    lemma_statuses();
    lemma_refusal(step->resp, "product_mismatch"@);
}

/// A license is refused as expired exactly from the end of its grace on, and the
/// answer tells when it ended and when its grace did.
pub proof fn licenses_expire_with_their_grace(
    req: ValidateReq,
    client: Option<String>,
    public: Seq<u8>,
    facts: ValidateFacts,
    now: Moment,
    step: ValidateStep,
    k: KeyModel,
    license: License,
    product: Option<Product>,
    end: Moment,
)
    requires
        is_validate_step(req, client, public, facts, now, step),
        is_genuine(req, public, facts, k, license),
        is_wanted(req, facts, license, product),
        ends_at(license, end),
        is_past(now, end, license.grace_seconds as int),
    ensures
        refuses(step, "expired"@),
        step->resp.expires_at is Some && step->resp.expires_at->0@ == license.expires_at->0@,
        step->resp.license_id is Some && step->resp.license_id->0@ == uuid_text(
            k.payload.license_id,
        ),
        step->resp.grace_until is Some && step->resp.grace_until->0@ == if license.grace_seconds
            == 0 {
            license.expires_at->0@
        } else {
            rfc3339_text((end.secs + license.grace_seconds) as i64, end.nanos)
        },
{
    lemma_statuses();
    lemma_refusal(step->resp, "expired"@);
    assert(step->resp@.expires_at == opt_text(step->resp.expires_at));
    assert(step->resp@.grace_until == opt_text(step->resp.grace_until));
    assert(step->resp@.license_id == opt_text(step->resp.license_id));
}

/// A good key is approved where no machine is named, with all that its license
/// grants. In the time of grace the answer says so, and until when.
pub proof fn good_keys_are_told_what_they_grant(
    req: ValidateReq,
    client: Option<String>,
    public: Seq<u8>,
    facts: ValidateFacts,
    now: Moment,
    step: ValidateStep,
    k: KeyModel,
    license: License,
    product: Option<Product>,
)
    requires
        is_validate_step(req, client, public, facts, now, step),
        is_genuine(req, public, facts, k, license),
        is_wanted(req, facts, license, product),
        is_alive(license, now),
        req.fingerprint is None,
    ensures
        step is Answer,
        approves_license(step->resp, k, license, product),
        step->resp.machine_id is None,
        step->log is Some && step->log->0.result@ == "ok"@,
        is_endless(license) ==> step->resp.in_grace_period is None && step->resp.grace_until is None,
        forall|end: Moment| #[trigger]
            ends_at(license, end) ==> (if is_past(now, end, 0) {
                step->resp.in_grace_period == Some(true) && step->resp.grace_until is Some
                    && step->resp.grace_until->0@ == rfc3339_text(
                    (end.secs + license.grace_seconds) as i64,
                    end.nanos,
                )
            } else {
                step->resp.in_grace_period is None && step->resp.grace_until is None
            }),
{
    lemma_statuses();
    lemma_approval(step->resp, k, license, product, now, None);
    assert(step->resp@.grace_until == opt_text(step->resp.grace_until));
    assert(step->resp@.in_grace_period == step->resp.in_grace_period);
}

/// The machine that a single-seat license is bound to is let in; every other one
/// is refused.
pub proof fn the_bound_machine_is_let_in(
    req: ValidateReq,
    client: Option<String>,
    public: Seq<u8>,
    facts: ValidateFacts,
    now: Moment,
    step: ValidateStep,
    k: KeyModel,
    license: License,
    product: Option<Product>,
)
    requires
        is_validate_step(req, client, public, facts, now, step),
        is_genuine(req, public, facts, k, license),
        is_wanted(req, facts, license, product),
        is_alive(license, now),
        req.fingerprint is Some,
        license.max_machines == 1,
        license.fingerprint is Some,
        k.payload.flags & 1 == 0 || k.payload.fingerprint_hash == sha256(
            encode_utf8(req.fingerprint->0@),
        ),
    ensures
        license.fingerprint->0@ != req.fingerprint->0@ ==> refuses(step, "fingerprint_mismatch"@)
            && step->log is Some && step->log->0.result@ == "fingerprint_mismatch"@,
        license.fingerprint->0@ == req.fingerprint->0@ ==> match facts.seat.machine {
            None => step is FindMachine && step->FindMachine_fingerprint_hash@ == sha256_hex(
                req.fingerprint->0@,
            ),
            Some(Some(m)) => if facts.seat.heartbeat_sent {
                step is Answer && approves_license(step->resp, k, license, product)
                    && step->resp.machine_id is Some && step->resp.machine_id->0@ == m.id@
            } else {
                step == (ValidateStep::Heartbeat { machine_id: m.id })
            },
            Some(None) => step is Answer && approves_license(step->resp, k, license, product),
        },
{
    lemma_statuses();
    assert(crate::crypto::payload::FLAG_FINGERPRINT_BOUND == 1);
    if license.fingerprint->0@ != req.fingerprint->0@ {
        lemma_refusal(step->resp, "fingerprint_mismatch"@);
    } else {
        match facts.seat.machine {
            Some(Some(m)) => {
                if facts.seat.heartbeat_sent {
                    lemma_approval(step->resp, k, license, product, now, Some(m.id@));
                }
            },
            Some(None) => {
                lemma_approval(step->resp, k, license, product, now, None);
            },
            None => {},
        }
    }
}

/// The first machine that asks binds a single-seat license, and is let in.
pub proof fn the_first_machine_is_bound(
    req: ValidateReq,
    client: Option<String>,
    public: Seq<u8>,
    facts: ValidateFacts,
    now: Moment,
    step: ValidateStep,
    k: KeyModel,
    license: License,
    product: Option<Product>,
)
    requires
        is_validate_step(req, client, public, facts, now, step),
        is_genuine(req, public, facts, k, license),
        is_wanted(req, facts, license, product),
        is_alive(license, now),
        req.fingerprint is Some,
        license.max_machines == 1,
        license.fingerprint is None,
        k.payload.flags & 1 == 0 || k.payload.fingerprint_hash == sha256(
            encode_utf8(req.fingerprint->0@),
        ),
    ensures
        facts.seat.activated is None ==> {
            &&& step matches ValidateStep::Activate {
                license_id,
                fingerprint,
                fingerprint_hash,
                hostname,
                platform,
                bind,
            }
            &&& bind
            &&& license_id@ == uuid_text(k.payload.license_id)
            &&& fingerprint@ == req.fingerprint->0@
            &&& fingerprint_hash@ == sha256_hex(req.fingerprint->0@)
            &&& hostname == req.hostname
            &&& platform == req.platform
        },
        facts.seat.activated is Some ==> step is Answer && approves_license(
            step->resp,
            k,
            license,
            product,
        ) && step->resp.machine_id is Some && step->resp.machine_id->0@
            == facts.seat.activated->0@,
{
    lemma_statuses();
    assert(crate::crypto::payload::FLAG_FINGERPRINT_BOUND == 1);
    if facts.seat.activated is Some {
        lemma_approval(step->resp, k, license, product, now, Some(facts.seat.activated->0@));
    }
}

/// On a license with several seats a machine that is not known gets a seat as
/// long as one is free, is refused where none is, and keeps the one it has.
pub proof fn machines_share_the_seats(
    req: ValidateReq,
    client: Option<String>,
    public: Seq<u8>,
    facts: ValidateFacts,
    now: Moment,
    step: ValidateStep,
    k: KeyModel,
    license: License,
    product: Option<Product>,
)
    requires
        is_validate_step(req, client, public, facts, now, step),
        is_genuine(req, public, facts, k, license),
        is_wanted(req, facts, license, product),
        is_alive(license, now),
        req.fingerprint is Some,
        license.max_machines != 1,
        k.payload.flags & 1 == 0 || k.payload.fingerprint_hash == sha256(
            encode_utf8(req.fingerprint->0@),
        ),
    ensures
        match facts.seat.machine {
            None => step is FindMachine,
            Some(Some(m)) => if facts.seat.heartbeat_sent {
                step is Answer && approves_license(step->resp, k, license, product)
                    && step->resp.machine_id is Some && step->resp.machine_id->0@ == m.id@
            } else {
                step == (ValidateStep::Heartbeat { machine_id: m.id })
            },
            Some(None) => match facts.seat.active_machines {
                None => step is CountMachines,
                Some(n) => if 0 < license.max_machines <= n {
                    refuses(step, "too_many_machines"@) && step->resp.max_machines == Some(
                        license.max_machines,
                    ) && step->log is Some && step->log->0.result@ == "too_many_machines"@
                } else if facts.seat.activated is None {
                    step is Activate && !step->Activate_bind && step->Activate_fingerprint@
                        == req.fingerprint->0@
                } else {
                    step is Answer && approves_license(step->resp, k, license, product)
                        && step->resp.machine_id is Some && step->resp.machine_id->0@
                        == facts.seat.activated->0@
                },
            },
        },
{
    lemma_statuses();
    assert(crate::crypto::payload::FLAG_FINGERPRINT_BOUND == 1);
    match facts.seat.machine {
        None => {},
        Some(Some(m)) => {
            if facts.seat.heartbeat_sent {
                lemma_approval(step->resp, k, license, product, now, Some(m.id@));
            }
        },
        Some(None) => {
            if facts.seat.active_machines is Some {
                if 0 < license.max_machines <= facts.seat.active_machines->0 {
                    lemma_refusal(step->resp, "too_many_machines"@);
                } else if facts.seat.activated is Some {
                    lemma_approval(
                        step->resp,
                        k,
                        license,
                        product,
                        now,
                        Some(facts.seat.activated->0@),
                    );
                }
            }
        },
    }
}

/// A key that is itself bound to a machine lets no other one in.
pub proof fn bound_keys_open_one_machine(
    req: ValidateReq,
    client: Option<String>,
    public: Seq<u8>,
    facts: ValidateFacts,
    now: Moment,
    step: ValidateStep,
    k: KeyModel,
    license: License,
)
    requires
        is_validate_step(req, client, public, facts, now, step),
        is_genuine(req, public, facts, k, license),
        req.fingerprint is Some,
        k.payload.flags & 1 == 1,
        k.payload.fingerprint_hash != sha256(encode_utf8(req.fingerprint->0@)),
    ensures
        step is Answer ==> !step->resp.ok,
{
    lemma_statuses();
    assert(crate::crypto::payload::FLAG_FINGERPRINT_BOUND == 1);
    if step is Answer {
        assert(step->resp@.ok == step->resp.ok);
    }
}

} // verus!
