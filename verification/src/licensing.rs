//! What a license row becomes: the payload it is signed as, and its key.

use crate::clock::{rfc3339_moment, unix_or_zero, unix_seconds};
use crate::codec::{ed25519_public, uuid_parse, uuid_reading, Uuid};
use crate::crypto::payload::{LicensePayload, PayloadModel, FLAG_TRIAL, KEY_VERSION_V2};
use crate::crypto::{issue_key, issued_key, read_key, SigningKey};
use crate::error::AppError;
use crate::models::License;
use crate::text::{cat3, copy_of, opt_text, texts};
use vstd::prelude::*;
use vstd::utf8::encode_utf8;

verus! {

/// Can a key carry these entitlements? At most 255 of them, each of at most
/// 255 bytes.
pub open spec fn entitlements_fit(slugs: Seq<String>) -> bool {
    &&& slugs.len() <= 255
    &&& forall|i: int| 0 <= i < slugs.len() ==> encode_utf8((#[trigger] slugs[i])@).len() <= 255
}

/// Can a key carry these entitlements?
pub fn fit_in_key(slugs: &Vec<String>) -> (r: bool)
    ensures
        r == entitlements_fit(slugs@),
{
    if slugs.len() > 255 {
        return false;
    }
    for i in 0..slugs.len()
        invariant
            slugs@.len() <= 255,
            forall|j: int| 0 <= j < i ==> encode_utf8((#[trigger] slugs@[j])@).len() <= 255,
    {
        let bytes: &[u8] = slugs[i].as_str().as_bytes();
        if bytes.len() > 255 {
            assert(encode_utf8(slugs@[i as int]@).len() > 255);
            return false;
        }
    }
    true
}

/// Thirty-two zero bytes: the fingerprint hash of a license that is not bound.
pub open spec fn no_fingerprint() -> Seq<u8> {
    Seq::new(32, |i: int| 0u8)
}

/// The flags of a license: only the trial flag is ever set at issue.
pub open spec fn issue_flags(is_trial: bool) -> u8 {
    if is_trial {
        FLAG_TRIAL
    } else {
        0
    }
}

/// Are the identifiers of a license row UUIDs?
pub open spec fn has_uuids(license: License) -> bool {
    uuid_reading(license.product_id@) is Ok && uuid_reading(license.id@) is Ok
}

/// What a license row is signed as. Times that cannot be read count as 0.
pub open spec fn payload_of(license: License) -> PayloadModel {
    PayloadModel {
        version: KEY_VERSION_V2,
        flags: issue_flags(license.is_trial),
        product_id: uuid_reading(license.product_id@)->Ok_0,
        license_id: uuid_reading(license.id@)->Ok_0,
        issued_at: unix_or_zero(Some(license.issued_at@)),
        expires_at: unix_or_zero(opt_text(license.expires_at)),
        fingerprint_hash: no_fingerprint(),
        entitlements: texts(license.entitlements@),
    }
}

/// The key of a license row: a function of the row and the server's secret, so
/// that it can be derived again at any time.
pub open spec fn key_of(secret: Seq<u8>, license: License) -> Seq<char> {
    issued_key(secret, payload_of(license))
}

/// What is wrong with the identifiers of a license row; `word` says how the
/// error speaks of them.
pub open spec fn bad_id_words(word: Seq<char>, license: License) -> Seq<char> {
    match uuid_reading(license.product_id@) {
        Err(e) => word + " product_id: "@ + e,
        Ok(_) => match uuid_reading(license.id@) {
            Err(e) => word + " license_id: "@ + e,
            Ok(_) => seq![],
        },
    }
}

/// The key of a license row. It reads back as what the row is signed as, and
/// the server's public key accepts it. It cannot be had where an identifier of
/// the row is no UUID.
pub fn derive_key(signing_key: &SigningKey, license: &License, word: &str) -> (r: Result<
    String,
    AppError,
>)
    requires
        entitlements_fit(license.entitlements@),
    ensures
        match r {
            Ok(key) => {
                &&& has_uuids(*license)
                &&& key@ == key_of(signing_key.secret@, *license)
                &&& read_key(key@) is Ok
                &&& read_key(key@)->Ok_0.payload == payload_of(*license)
                &&& license.expires_at is None ==> read_key(key@)->Ok_0.payload.expires_at == 0
                &&& license.expires_at is Some ==> (rfc3339_moment(license.expires_at->0@) matches Some(
                    end,
                ) ==> read_key(key@)->Ok_0.payload.expires_at == end.secs)
                &&& read_key(key@)->Ok_0.verifies(ed25519_public(signing_key.secret@))
            },
            Err(e) => !has_uuids(*license) && e.is_internal(bad_id_words(word@, *license)),
        },
{
    let product_id: Uuid = match uuid_parse(license.product_id.as_str()) {
        Ok(id) => id,
        Err(e) => {
            return Err(AppError::Internal(cat3(word, " product_id: ", e.as_str())));
        },
    };
    let license_id: Uuid = match uuid_parse(license.id.as_str()) {
        Ok(id) => id,
        Err(e) => {
            return Err(AppError::Internal(cat3(word, " license_id: ", e.as_str())));
        },
    };
    let payload: LicensePayload = LicensePayload {
        version: KEY_VERSION_V2,
        flags: if license.is_trial {
            FLAG_TRIAL
        } else {
            0
        },
        product_id,
        license_id,
        issued_at: unix_seconds(&Some(license.issued_at.clone())),
        expires_at: unix_seconds(&license.expires_at),
        fingerprint_hash: [0u8; 32],
        entitlements: copy_of(&license.entitlements),
    };
    proof {
        assert(payload@.fingerprint_hash =~= no_fingerprint());
        assert(payload@ == payload_of(*license));
        assert(payload@.fits()) by {
            assert forall|i: int| 0 <= i < payload@.entitlements.len() implies encode_utf8(
                #[trigger] payload@.entitlements[i],
            ).len() <= 255 by {
                assert(payload@.entitlements[i] == license.entitlements@[i]@);
            }
        }
    }
    Ok(issue_key(signing_key, &payload))
}

} // verus!
