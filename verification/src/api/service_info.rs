//! What the service tells about itself.

use crate::api::admin::effective_operator_name;
use crate::crypto::keys::ServerKeypair;
use crate::crypto::payload::KEY_VERSION;
use vstd::prelude::*;

verus! {

/// What the service tells about itself.
#[derive(Clone, Debug, PartialEq, Eq)]
pub struct ServiceInfo {
    pub service: &'static str,
    pub version: &'static str,
    pub operator: Option<String>,
    pub public_key_pem: String,
    pub key_algorithm: &'static str,
    pub key_format_version: u8,
}

/// What the service tells about itself. The operator's name is the stored one,
/// or else the one that was set up.
pub fn root(
    keypair: &ServerKeypair,
    version: &'static str,
    stored_operator: &Option<String>,
    configured_operator: &Option<String>,
) -> (r: ServiceInfo)
    ensures
        r.service@ == "keysat"@,
        r.version == version,
        r.operator == match *stored_operator {
            Some(name) => Some(name),
            None => *configured_operator,
        },
        r.public_key_pem == keypair.public_key_pem,
        r.key_algorithm@ == "ed25519"@,
        r.key_format_version == KEY_VERSION,
{
    ServiceInfo {
        service: "keysat",
        version,
        operator: effective_operator_name(stored_operator, configured_operator),
        public_key_pem: keypair.public_key_pem.clone(),
        key_algorithm: "ed25519",
        key_format_version: KEY_VERSION,
    }
}

/// The server's public key.
#[derive(Clone, Debug, PartialEq, Eq)]
pub struct PublicKeyInfo {
    pub public_key_pem: String,
    pub key_algorithm: &'static str,
    pub key_format_version: u8,
}

/// The server's public key, which clients check licenses with.
pub fn public_key(keypair: &ServerKeypair) -> (r: PublicKeyInfo)
    ensures
        r.public_key_pem == keypair.public_key_pem,
        r.key_algorithm@ == "ed25519"@,
        r.key_format_version == KEY_VERSION,
{
    PublicKeyInfo {
        public_key_pem: keypair.public_key_pem.clone(),
        key_algorithm: "ed25519",
        key_format_version: KEY_VERSION,
    }
}

} // verus!
