//! The server's keypair: loaded from its stored PEM form, or made on first boot.

use crate::codec::{
    ed25519_generate, ed25519_public, pem_of_public, pem_of_secret, pem_public, pem_secret, public_of_pem, public_pem,
    secret_of_pem, secret_pem,
};
use crate::crypto::{SigningKey, VerifyingKey};
use vstd::prelude::*;

verus! {

/// Both halves of the server's keypair, and the public half for display.
#[derive(Clone, Debug)]
pub struct ServerKeypair {
    pub signing: SigningKey,
    pub verifying: VerifyingKey,
    pub public_key_pem: String,
}

/// Why a keypair could not be had.
#[derive(Clone, Copy, Debug, PartialEq, Eq)]
pub enum KeypairError {
    StoredPrivateKey,
    StoredPublicKey,
    EncodePrivateKey,
    EncodePublicKey,
}

impl KeypairError {
    /// The error in words.
    pub fn message(&self) -> (r: String)
        ensures
            r@ == match *self {
                KeypairError::StoredPrivateKey => "failed to parse stored private key"@,
                KeypairError::StoredPublicKey => "failed to parse stored public key"@,
                KeypairError::EncodePrivateKey => "failed to encode private key to PEM"@,
                KeypairError::EncodePublicKey => "failed to encode public key to PEM"@,
            },
    {
        match *self {
            KeypairError::StoredPrivateKey => String::from_str("failed to parse stored private key"),
            KeypairError::StoredPublicKey => String::from_str("failed to parse stored public key"),
            KeypairError::EncodePrivateKey => String::from_str("failed to encode private key to PEM"),
            KeypairError::EncodePublicKey => String::from_str("failed to encode public key to PEM"),
        }
    }
}

/// The keypair of a stored row: the private key is read first, and the public
/// key's text is kept as it was stored.
pub fn load_stored(pub_pem: String, priv_pem: &str) -> (r: Result<ServerKeypair, KeypairError>)
    ensures
        match r {
            Ok(k) => {
                &&& pem_secret(priv_pem@) == Ok::<Seq<u8>, Seq<char>>(k.signing.secret@)
                &&& pem_public(pub_pem@) == Ok::<Seq<u8>, Seq<char>>(k.verifying.bytes@)
                &&& k.public_key_pem == pub_pem
            },
            Err(KeypairError::StoredPrivateKey) => pem_secret(priv_pem@) is Err,
            Err(KeypairError::StoredPublicKey) => pem_secret(priv_pem@) is Ok && pem_public(
                pub_pem@,
            ) is Err,
            Err(_) => false,
        },
{
    match secret_of_pem(priv_pem) {
        Err(_) => Err(KeypairError::StoredPrivateKey),
        Ok(secret) => match public_of_pem(pub_pem.as_str()) {
            Err(_) => Err(KeypairError::StoredPublicKey),
            Ok(bytes) => Ok(
                ServerKeypair {
                    signing: SigningKey { secret },
                    verifying: VerifyingKey { bytes },
                    public_key_pem: pub_pem,
                },
            ),
        },
    }
}

/// The keypair with the given secret, and the PEM text to store for its
/// private half. What is stored loads as the same keypair.
pub fn from_secret(secret: [u8; 32]) -> (r: Result<(ServerKeypair, String), KeypairError>)
    ensures
        match r {
            Ok((k, priv_pem)) => {
                &&& k.signing.secret == secret
                &&& k.verifying.bytes@ == ed25519_public(secret@)
                &&& public_pem(ed25519_public(secret@)) == Ok::<Seq<char>, Seq<char>>(
                    k.public_key_pem@,
                )
                &&& secret_pem(secret@) == Ok::<Seq<char>, Seq<char>>(priv_pem@)
                &&& pem_secret(priv_pem@) == Ok::<Seq<u8>, Seq<char>>(secret@)
                &&& pem_public(k.public_key_pem@) == Ok::<Seq<u8>, Seq<char>>(
                    k.verifying.bytes@,
                )
            },
            Err(KeypairError::EncodePrivateKey) => secret_pem(secret@) is Err,
            Err(KeypairError::EncodePublicKey) => secret_pem(secret@) is Ok && public_pem(
                ed25519_public(secret@),
            ) is Err,
            Err(_) => false,
        },
{
    let signing: SigningKey = SigningKey { secret };
    let verifying: VerifyingKey = signing.verifying_key();
    match pem_of_secret(&secret) {
        Err(_) => Err(KeypairError::EncodePrivateKey),
        Ok(priv_pem) => match pem_of_public(&verifying.bytes) {
            Err(_) => Err(KeypairError::EncodePublicKey),
            Ok(public_key_pem) => Ok((ServerKeypair { signing, verifying, public_key_pem }, priv_pem)),
        },
    }
}

/// A keypair as it is stored.
#[derive(Clone, Debug)]
pub struct StoredKeys {
    pub public_key_pem: String,
    pub private_key_pem: String,
}

/// Is `r` the server's keypair?
pub open spec fn is_server_keypair(
    stored: Option<StoredKeys>,
    r: Result<(ServerKeypair, Option<StoredKeys>), KeypairError>,
) -> bool {
    match (stored, r) {
        (Some(row), Ok((k, new))) => {
            &&& new is None
            &&& pem_secret(row.private_key_pem@) == Ok::<Seq<u8>, Seq<char>>(k.signing.secret@)
            &&& pem_public(row.public_key_pem@) == Ok::<Seq<u8>, Seq<char>>(k.verifying.bytes@)
            &&& k.public_key_pem == row.public_key_pem
        },
        (Some(row), Err(e)) => {
            ||| e is StoredPrivateKey && pem_secret(row.private_key_pem@) is Err
            ||| e is StoredPublicKey && pem_secret(row.private_key_pem@) is Ok && pem_public(
                row.public_key_pem@,
            ) is Err
        },
        (None, Ok((k, new))) => {
            &&& new is Some
            &&& k.verifying.bytes@ == ed25519_public(k.signing.secret@)
            &&& new->0.public_key_pem == k.public_key_pem
            &&& secret_pem(k.signing.secret@) == Ok::<Seq<char>, Seq<char>>(
                new->0.private_key_pem@,
            )
            &&& public_pem(k.verifying.bytes@) == Ok::<Seq<char>, Seq<char>>(
                k.public_key_pem@,
            )
            &&& pem_secret(new->0.private_key_pem@) == Ok::<Seq<u8>, Seq<char>>(
                k.signing.secret@,
            )
            &&& pem_public(new->0.public_key_pem@) == Ok::<Seq<u8>, Seq<char>>(
                k.verifying.bytes@,
            )
        },
        (None, Err(e)) => exists|secret: [u8; 32]|
            {
                ||| e is EncodePrivateKey && #[trigger] secret_pem(secret@) is Err
                ||| e is EncodePublicKey && secret_pem(secret@) is Ok && public_pem(
                    ed25519_public(secret@),
                ) is Err
            },
    }
}

/// The server's keypair: the stored one, or else a new one, with what is to be
/// stored for it. What is stored loads as the same keypair.
pub fn load_or_generate(stored: Option<StoredKeys>) -> (r: Result<
    (ServerKeypair, Option<StoredKeys>),
    KeypairError,
>)
    ensures
        is_server_keypair(stored, r),
{
    match stored {
        Some(row) => match load_stored(row.public_key_pem, row.private_key_pem.as_str()) {
            Ok(k) => Ok((k, None)),
            Err(e) => Err(e),
        },
        None => {
            let secret: [u8; 32] = ed25519_generate();
            match from_secret(secret) {
                Ok((k, private_key_pem)) => {
                    let public_key_pem: String = k.public_key_pem.clone();
                    Ok((k, Some(StoredKeys { public_key_pem, private_key_pem })))
                },
                Err(e) => Err(e),
            }
        },
    }
}

} // verus!
