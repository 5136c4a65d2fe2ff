//! The key that licenses are signed with.

use crate::codec::{
    ed25519_derive, ed25519_public, pem_of_public, pem_of_secret, pem_secret, public_pem,
    secret_of_pem, secret_pem, text_of_utf8, utf8_text,
};
use crate::error::{bad_request, AppError};
use crate::text::{cat2, contains, holds, trim, trimmed};
use vstd::prelude::*;

verus! {

/// A keypair to store, in PEM form.
#[derive(Clone, Debug, PartialEq, Eq)]
pub struct StoredKeypair {
    pub public_key_pem: String,
    pub private_key_pem: String,
}

/// Does a text look like a private key in PEM form?
pub open spec fn looks_like_key(pem: Seq<char>) -> bool {
    holds(pem, "-----BEGIN"@) && holds(pem, "PRIVATE KEY-----"@)
}

/// What is said where licenses exist that the present key signed.
pub open spec fn licenses_exist_words() -> Seq<char> {
    "this Keysat has already issued at least one license; importing a new issuer key would invalidate every previously-signed license. Refusing. Use this endpoint only on a fresh master-Keysat install before any licenses have been issued."@
}

/// Is `r` what comes of importing the key that a body holds?
pub open spec fn is_import(
    body: Seq<u8>,
    licenses_exist: bool,
    r: Result<StoredKeypair, AppError>,
) -> bool {
    match utf8_text(body) {
        None => r matches Err(e) && e.is_bad_request("body is not valid UTF-8"@),
        Some(text) => {
            let pem = trimmed(text);
            if pem.len() == 0 {
                r matches Err(e) && e.is_bad_request("body is empty"@)
            } else if !looks_like_key(pem) {
                r matches Err(e) && e.is_bad_request(
                    "expected a PEM-encoded private key (must contain BEGIN/END PRIVATE KEY)"@,
                )
            } else {
                match pem_secret(pem) {
                    Err(detail) => r matches Err(e) && e.is_bad_request(
                        "could not parse Ed25519 private key: "@ + detail,
                    ),
                    Ok(secret) => is_reencoding(secret, licenses_exist, r),
                }
            }
        },
    }
}

/// Is `r` what comes of importing a secret? It is written anew, so that what is
/// stored always has the same form.
pub open spec fn is_reencoding(
    secret: Seq<u8>,
    licenses_exist: bool,
    r: Result<StoredKeypair, AppError>,
) -> bool {
    match (secret_pem(secret), public_pem(ed25519_public(secret))) {
        (Err(detail), _) => r matches Err(e) && e.is_internal("re-encode private key: "@ + detail),
        (Ok(_), Err(detail)) => r matches Err(e) && e.is_internal(
            "encode public key: "@ + detail,
        ),
        (Ok(private), Ok(public)) => if licenses_exist {
            r matches Err(e) && e.is_conflict(licenses_exist_words())
        } else {
            r matches Ok(k) && k.private_key_pem@ == private && k.public_key_pem@ == public
        },
    }
}

/// The keypair to store for the private key that a body holds. While licenses
/// exist that the present key signed, no other is taken.
pub fn import(body: &[u8], licenses_exist: bool) -> (r: Result<StoredKeypair, AppError>)
    ensures
        is_import(body@, licenses_exist, r),
{
    let text: &str = match text_of_utf8(body) {
        None => {
            return Err(bad_request("body is not valid UTF-8"));
        },
        Some(text) => text,
    };
    let pem: &str = trim(text);
    if pem.unicode_len() == 0 {
        return Err(bad_request("body is empty"));
    }
    if !contains(pem, "-----BEGIN") || !contains(pem, "PRIVATE KEY-----") {
        return Err(
            bad_request("expected a PEM-encoded private key (must contain BEGIN/END PRIVATE KEY)"),
        );
    }
    match secret_of_pem(pem) {
        Err(detail) => Err(
            AppError::BadRequest(cat2("could not parse Ed25519 private key: ", detail.as_str())),
        ),
        Ok(secret) => reencode(&secret, licenses_exist),
    }
}

/// The keypair to store for a secret.
pub fn reencode(secret: &[u8; 32], licenses_exist: bool) -> (r: Result<StoredKeypair, AppError>)
    ensures
        is_reencoding(secret@, licenses_exist, r),
{
    let public: [u8; 32] = ed25519_derive(secret);
    let private_key_pem: String = match pem_of_secret(secret) {
        Err(detail) => {
            return Err(AppError::Internal(cat2("re-encode private key: ", detail.as_str())));
        },
        Ok(pem) => pem,
    };
    let public_key_pem: String = match pem_of_public(&public) {
        Err(detail) => {
            return Err(AppError::Internal(cat2("encode public key: ", detail.as_str())));
        },
        Ok(pem) => pem,
    };
    if licenses_exist {
        return Err(
            AppError::Conflict(
                String::from_str(
                    "this Keysat has already issued at least one license; importing a new issuer key would invalidate every previously-signed license. Refusing. Use this endpoint only on a fresh master-Keysat install before any licenses have been issued.",
                ),
            ),
        );
    }
    Ok(StoredKeypair { public_key_pem, private_key_pem })
}

/// No key is imported while licenses exist.
pub proof fn issued_licenses_keep_their_key(body: Seq<u8>, r: Result<StoredKeypair, AppError>)
    requires
        is_import(body, true, r),
    ensures
        r is Err,
{
}

} // verus!
