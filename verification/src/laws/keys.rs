//! What a license key says of its license.

use crate::api::admin::hand_payload;
use crate::api::webhook::LicenseTerms;
use crate::clock::{rfc3339_parts, Moment};
use crate::codec::{base32_bytes, base32_text, ed25519_signature, uuid_reading};
use crate::crypto::payload::{read_payload, PayloadModel};
use crate::crypto::{issued_key, read_key, KeyFault, KeyModel};
use crate::licensing::payload_of;
use crate::models::License;
use crate::text::{
    after_char, before_char, is_white_space, lemma_place_of, lemma_place_unique, place_of, trimmed,
    trimmed_end, trimmed_start, uppercased,
};
use vstd::prelude::*;

verus! {

/// The key of a license that ends at a readable time carries that second: a
/// client that holds it counts it as expired from then on, and not before.
pub proof fn keys_expire_with_their_license(license: License, end: Moment, now: i64)
    requires
        license.expires_at is Some,
        rfc3339_parts(license.expires_at->0@) == Some((end.secs, end.nanos)),
    ensures
        payload_of(license).expires_at == end.secs,
        end.secs != 0 ==> (payload_of(license).is_expired(now as int) <==> now >= end.secs),
{
}

/// The key of a license without an end never expires.
pub proof fn keys_of_endless_licenses_never_expire(license: License, now: i64)
    requires
        license.expires_at is None,
    ensures
        payload_of(license).expires_at == 0,
        !payload_of(license).is_expired(now as int),
{
}

/// A key that never expires belongs to a license without an end, or to one whose
/// end cannot be read or is the first second that times count from.
pub proof fn only_endless_licenses_have_endless_keys(license: License, secs: i64, nanos: u32)
    requires
        license.expires_at is Some,
        rfc3339_parts(license.expires_at->0@) == Some((secs, nanos)),
        secs != 0,
    ensures
        payload_of(license).expires_at != 0,
        payload_of(license).is_expired(secs as int),
{
}

/// The key of a license names the license, its product, when it was issued,
/// whether it is a trial, and all that it entitles to, in order. It is bound to
/// no machine.
pub proof fn keys_tell_what_their_license_grants(license: License)
    requires
        uuid_reading(license.id@) is Ok,
        uuid_reading(license.product_id@) is Ok,
    ensures
        ({
            let p = payload_of(license);
            &&& p.version == 2
            &&& uuid_reading(license.id@) == Ok::<Seq<u8>, Seq<char>>(p.license_id)
            &&& uuid_reading(license.product_id@) == Ok::<Seq<u8>, Seq<char>>(p.product_id)
            &&& license.is_trial ==> p.flags == 2
            &&& !license.is_trial ==> p.flags == 0
            &&& rfc3339_parts(license.issued_at@) matches Some(at) ==> p.issued_at == at.0
            &&& p.fingerprint_hash.len() == 32
            &&& forall|i: int| 0 <= i < 32 ==> #[trigger] p.fingerprint_hash[i] == 0
            &&& p.entitlements.len() == license.entitlements@.len()
            &&& forall|i: int|
                0 <= i < p.entitlements.len() ==> #[trigger] p.entitlements[i]
                    == license.entitlements@[i]@
        }),
{
}

/// Two licenses have the same key only where they say the same: no two licenses
/// share one.
pub proof fn licenses_do_not_share_payloads(a: License, b: License)
    requires
        payload_of(a) == payload_of(b),
        uuid_reading(a.id@) is Ok,
        uuid_reading(b.id@) is Ok,
    ensures
        uuid_reading(a.id@) == uuid_reading(b.id@),
        a.is_trial == b.is_trial,
        a.entitlements@.len() == b.entitlements@.len(),
        forall|i: int|
            0 <= i < a.entitlements@.len() ==> (#[trigger] a.entitlements@[i])@
                == b.entitlements@[i]@,
{
    assert(payload_of(a).flags == payload_of(b).flags);
    assert(payload_of(a).entitlements.len() == a.entitlements@.len());
    assert(payload_of(b).entitlements.len() == b.entitlements@.len());
    assert forall|i: int| 0 <= i < a.entitlements@.len() implies (#[trigger] a.entitlements@[i])@
        == b.entitlements@[i]@ by {
        assert(payload_of(a).entitlements[i] == payload_of(b).entitlements[i]);
        assert(payload_of(b).entitlements[i] == b.entitlements@[i]@);
    }
}

/// A license that is issued by hand is signed with its own terms: its end, its
/// entitlements, whether it is a trial, and the present second.
pub proof fn keys_by_hand_tell_their_terms(
    product: Seq<u8>,
    license_id: Seq<u8>,
    terms: LicenseTerms,
    now: Moment,
)
    ensures
        ({
            let p = hand_payload(product, license_id, terms, now);
            &&& p.version == 2
            &&& p.product_id == product
            &&& p.license_id == license_id
            &&& p.issued_at == now.secs
            &&& terms.expires_at is None ==> p.expires_at == 0
            &&& terms.expires_at is Some ==> (rfc3339_parts(terms.expires_at->0@) matches Some(end)
                ==> p.expires_at == end.0)
            &&& terms.is_trial ==> p.flags == 2
            &&& !terms.is_trial ==> p.flags == 0
            &&& forall|i: int| 0 <= i < 32 ==> #[trigger] p.fingerprint_hash[i] == 0
            &&& p.entitlements.len() == terms.entitlements@.len()
            &&& forall|i: int|
                0 <= i < p.entitlements.len() ==> #[trigger] p.entitlements[i]
                    == terms.entitlements@[i]@
        }),
{
}

/// A key reads `LIC1`, its payload and the signature over that payload, with
/// hyphens between them.
pub proof fn keys_are_tagged_and_signed(secret: Seq<u8>, payload: PayloadModel)
    ensures
        ({
            let text = issued_key(secret, payload);
            let body = base32_text(payload.wire());
            let seal = base32_text(ed25519_signature(secret, payload.wire()));
            &&& text.len() == 6 + body.len() + seal.len()
            &&& text[0] == 'L' && text[1] == 'I' && text[2] == 'C' && text[3] == '1'
            &&& text[4] == '-'
            &&& text.subrange(5, 5 + body.len() as int) == body
            &&& text[5 + body.len() as int] == '-'
            &&& text.subrange(6 + body.len() as int, text.len() as int) == seal
        }),
{
    reveal_strlit("LIC1");
    reveal_strlit("-");
    let text = issued_key(secret, payload);
    let body = base32_text(payload.wire());
    let seal = base32_text(ed25519_signature(secret, payload.wire()));
    assert(text.subrange(5, 5 + body.len() as int) =~= body);
    assert(text.subrange(6 + body.len() as int, text.len() as int) =~= seal);
}

// ---------- reading keys ----------

/// Only a whole key is read: it begins with its tag, its signature is 64 bytes
/// long, and the bytes that were signed are those of its payload.
pub proof fn only_whole_keys_are_read(text: Seq<char>)
    ensures
        read_key(text) matches Ok(k) ==> {
            &&& trimmed(text).len() > 5
            &&& trimmed(text).subrange(0, 5) == "LIC1-"@
            &&& k.signature.len() == 64
            &&& read_payload(k.signed) is Ok
            &&& read_payload(k.signed)->Ok_0 == k.payload
        },
{
    reveal_strlit("LIC1");
    reveal_strlit("LIC1-");
    let t = trimmed(text);
    lemma_place_of(t, '-');
    if read_key(text) is Ok {
        let k = place_of(t, '-');
        assert(before_char(t, '-').len() == k);
        assert(k == 4 && k < t.len());
        let rest = after_char(t, '-')->0;
        lemma_place_of(rest, '-');
        assert(rest.len() == t.len() - 5);
        assert forall|i: int| 0 <= i < 5 implies t.subrange(0, 5)[i] == "LIC1-"@[i] by {
            if i < 4 {
                assert(before_char(t, '-')[i] == t[i]);
            }
        }
        assert(t.subrange(0, 5) =~= "LIC1-"@);
    }
}

/// The sections of a key are read in either case: the first is what was signed,
/// the second its signature. Where both are sound the key is read, and where one
/// is not it is refused for it.
pub proof fn sections_are_read_as_they_stand(
    first: Seq<char>,
    second: Seq<char>,
    signed: Seq<u8>,
    signature: Seq<u8>,
)
    requires
        forall|i: int| 0 <= i < first.len() ==> first[i] != '-',
        second.len() > 0,
        !is_white_space(second[second.len() - 1]),
    ensures
        ({
            let r = read_key("LIC1-"@ + first + "-"@ + second);
            let bytes = base32_bytes(uppercased(first));
            let tag = base32_bytes(uppercased(second));
            &&& bytes is None <==> r == Err::<KeyModel, KeyFault>(KeyFault::PayloadBase32)
            &&& bytes is Some && tag is None <==> r == Err::<KeyModel, KeyFault>(
                KeyFault::SignatureBase32,
            )
            &&& bytes == Some(signed) && tag == Some(signature) ==> {
                &&& read_payload(signed) is Err ==> r is Err && (r->Err_0 is Payload)
                &&& read_payload(signed) is Ok && signature.len() != 64 ==> r is Err && (r->Err_0
                    is SignatureLength)
                &&& read_payload(signed) is Ok && signature.len() == 64 ==> r is Ok
                    && r->Ok_0.payload == read_payload(signed)->Ok_0 && r->Ok_0.signature
                    == signature && r->Ok_0.signed == signed
            }
        }),
{
    reveal_strlit("LIC1");
    reveal_strlit("LIC1-");
    reveal_strlit("-");
    let t = "LIC1-"@ + first + "-"@ + second;
    assert(t[0] == 'L');
    assert(t[t.len() - 1] == second[second.len() - 1]);
    assert(trimmed_start(t) == t);
    assert(trimmed_end(t) == t);
    assert(t[4] == '-' && t[0] == 'L' && t[1] == 'I' && t[2] == 'C' && t[3] == '1');
    lemma_place_unique(t, '-', 4);
    assert(before_char(t, '-') =~= "LIC1"@);
    let rest = t.subrange(5, t.len() as int);
    assert(rest =~= first + "-"@ + second);
    lemma_place_unique(rest, '-', first.len() as int);
    assert(before_char(rest, '-') =~= first);
    assert(rest.subrange(first.len() as int + 1, rest.len() as int) =~= second);
}

/// A text that does not begin with the tag of a key is refused for it, and one
/// that lacks a section for that.
pub proof fn keys_have_three_sections(text: Seq<char>, k: int)
    requires
        0 <= k <= trimmed(text).len(),
        forall|j: int| 0 <= j < k ==> trimmed(text)[j] != '-',
        k < trimmed(text).len() ==> trimmed(text)[k] == '-',
    ensures
        trimmed(text).subrange(0, k) != "LIC1"@ ==> read_key(text) == Err::<KeyModel, KeyFault>(
            KeyFault::UnrecognizedPrefix { prefix: trimmed(text).subrange(0, k) },
        ),
        trimmed(text) == "LIC1"@ ==> read_key(text) == Err::<KeyModel, KeyFault>(
            KeyFault::MissingPayload,
        ),
        trimmed(text).subrange(0, k) == "LIC1"@ && k < trimmed(text).len() && (forall|j: int|
            k < j < trimmed(text).len() ==> trimmed(text)[j] != '-') ==> read_key(text) == Err::<
            KeyModel,
            KeyFault,
        >(KeyFault::MissingSignature),
{
    reveal_strlit("LIC1");
    let t = trimmed(text);
    lemma_place_unique(t, '-', k);
    if t == "LIC1"@ {
        assert(t[0] == 'L' && t[1] == 'I' && t[2] == 'C' && t[3] == '1');
        assert(k == 4);
        assert(t.subrange(0, 4) =~= t);
    }
    if k < t.len() {
        let rest = t.subrange(k + 1, t.len() as int);
        if forall|j: int| k < j < t.len() ==> t[j] != '-' {
            assert forall|j: int| 0 <= j < rest.len() implies rest[j] != '-' by {
                assert(rest[j] == t[k + 1 + j]);
            }
            lemma_place_unique(rest, '-', rest.len() as int);
        }
    }
}

} // verus!
