//! License key cryptography.
//!
//! A key that a buyer holds reads `LIC1-<base32 payload>-<base32 signature>`.
//! The base32 text is upper case without padding and is read in either case;
//! the signature is 64 bytes of Ed25519 over the payload blob. A client that
//! holds the public key can check a key, its expiry and its entitlements
//! without asking the server.

use crate::codec::{
    base32_bytes, base32_decode, base32_encode, base32_text, ed25519_accepts, ed25519_derive,
    ed25519_public, ed25519_sign, ed25519_signature, ed25519_verify, is_base32_char, sha256,
    sha256_digest,
};
use crate::crypto::payload::{
    payload_round_trip, read_payload, LicensePayload, PayloadError, PayloadModel, KEY_VERSION_V2,
};
use crate::text::{
    after_char, ascii_upper, before_char, cut, lemma_place_unique, same, to_ascii_upper, trim,
    trimmed, trimmed_end, trimmed_start, uppercased,
};
use vstd::prelude::*;
use vstd::utf8::encode_utf8;

pub mod keys;
pub mod payload;

verus! {

/// The prefix that tags a key.
pub const KEY_PREFIX: &'static str = "LIC1";

/// An Ed25519 signing key.
#[derive(Clone, Copy, Debug)]
pub struct SigningKey {
    pub secret: [u8; 32],
}

/// An Ed25519 public key.
#[derive(Clone, Copy, Debug, PartialEq, Eq)]
pub struct VerifyingKey {
    pub bytes: [u8; 32],
}

/// An Ed25519 signature.
#[derive(Clone, Copy, Debug, PartialEq, Eq)]
pub struct Signature {
    pub bytes: [u8; 64],
}

impl SigningKey {
    /// The key with the given secret.
    pub fn from_bytes(secret: [u8; 32]) -> (r: SigningKey)
        ensures
            r.secret == secret,
    {
        SigningKey { secret }
    }

    /// The public key that belongs to this key.
    pub fn verifying_key(&self) -> (r: VerifyingKey)
        ensures
            r.bytes@ == ed25519_public(self.secret@),
    {
        VerifyingKey { bytes: ed25519_derive(&self.secret) }
    }
}

/// Why a text is no license key.
#[derive(Clone, Debug)]
pub enum KeyError {
    UnrecognizedPrefix { prefix: String },
    MissingPayload,
    MissingSignature,
    PayloadBase32,
    SignatureBase32,
    Payload { error: PayloadError },
    SignatureLength,
}

/// What a `KeyError` says.
pub enum KeyFault {
    UnrecognizedPrefix { prefix: Seq<char> },
    MissingPayload,
    MissingSignature,
    PayloadBase32,
    SignatureBase32,
    Payload { error: PayloadError },
    SignatureLength,
}

impl View for KeyError {
    type V = KeyFault;

    open spec fn view(&self) -> KeyFault {
        match self {
            KeyError::UnrecognizedPrefix { prefix } => KeyFault::UnrecognizedPrefix {
                prefix: prefix@,
            },
            KeyError::MissingPayload => KeyFault::MissingPayload,
            KeyError::MissingSignature => KeyFault::MissingSignature,
            KeyError::PayloadBase32 => KeyFault::PayloadBase32,
            KeyError::SignatureBase32 => KeyFault::SignatureBase32,
            KeyError::Payload { error } => KeyFault::Payload { error: *error },
            KeyError::SignatureLength => KeyFault::SignatureLength,
        }
    }
}

impl KeyFault {
    /// The error in words.
    pub open spec fn words(self) -> Seq<char> {
        match self {
            KeyFault::UnrecognizedPrefix { prefix } => "unrecognized key prefix: "@ + prefix,
            KeyFault::MissingPayload => "missing payload section"@,
            KeyFault::MissingSignature => "missing signature section"@,
            KeyFault::PayloadBase32 => "invalid base32 in payload"@,
            KeyFault::SignatureBase32 => "invalid base32 in signature"@,
            KeyFault::Payload { error } => error.words(),
            KeyFault::SignatureLength => "signature length != 64"@,
        }
    }
}

impl KeyError {
    /// The error in words.
    pub fn message(&self) -> (r: String)
        ensures
            r@ == self@.words(),
    {
        match self {
            KeyError::UnrecognizedPrefix { prefix } => {
                let mut s: String = String::from_str("unrecognized key prefix: ");
                s.append(prefix.as_str());
                s
            },
            KeyError::MissingPayload => String::from_str("missing payload section"),
            KeyError::MissingSignature => String::from_str("missing signature section"),
            KeyError::PayloadBase32 => String::from_str("invalid base32 in payload"),
            KeyError::SignatureBase32 => String::from_str("invalid base32 in signature"),
            KeyError::Payload { error } => error.message(),
            KeyError::SignatureLength => String::from_str("signature length != 64"),
        }
    }
}

/// The parts of a key: its payload, its signature, and the signed bytes.
#[verifier::ext_equal]
pub struct KeyModel {
    pub payload: PayloadModel,
    pub signature: Seq<u8>,
    pub signed: Seq<u8>,
}

impl KeyModel {
    /// Does the public key accept this key's signature?
    pub open spec fn verifies(self, public: Seq<u8>) -> bool {
        ed25519_accepts(public, self.signed, self.signature)
    }
}

/// The parts that the sections of a key stand for.
pub open spec fn read_sections(payload: Seq<char>, signature: Seq<char>) -> Result<
    KeyModel,
    KeyFault,
> {
    match base32_bytes(uppercased(payload)) {
        None => Err(KeyFault::PayloadBase32),
        Some(signed) => match base32_bytes(uppercased(signature)) {
            None => Err(KeyFault::SignatureBase32),
            Some(sig) => match read_payload(signed) {
                Err(error) => Err(KeyFault::Payload { error }),
                Ok(p) => if sig.len() != 64 {
                    Err(KeyFault::SignatureLength)
                } else {
                    Ok(KeyModel { payload: p, signature: sig, signed })
                },
            },
        },
    }
}

/// The parts of a key that a user typed, or why it is none. White space around
/// the key is ignored; the sections are separated by the first two hyphens.
pub open spec fn read_key(text: Seq<char>) -> Result<KeyModel, KeyFault> {
    let t = trimmed(text);
    if before_char(t, '-') != KEY_PREFIX@ {
        Err(KeyFault::UnrecognizedPrefix { prefix: before_char(t, '-') })
    } else {
        match after_char(t, '-') {
            None => Err(KeyFault::MissingPayload),
            Some(rest) => match after_char(rest, '-') {
                None => Err(KeyFault::MissingSignature),
                Some(signature) => read_sections(before_char(rest, '-'), signature),
            },
        }
    }
}

/// The text of a key with the given wire form and signature.
pub open spec fn key_text(wire: Seq<u8>, signature: Seq<u8>) -> Seq<char> {
    KEY_PREFIX@ + "-"@ + base32_text(wire) + "-"@ + base32_text(signature)
}

/// The hash of a fingerprint, which is what a key carries of it.
pub fn hash_fingerprint(fp: &str) -> (r: [u8; 32])
    ensures
        r@ == sha256(encode_utf8(fp@)),
{
    sha256_digest(fp.as_bytes())
}

proof fn lemma_not_trimmed(s: Seq<char>)
    requires
        s.len() > 0,
        !crate::text::is_white_space(s[0]),
        !crate::text::is_white_space(s[s.len() - 1]),
    ensures
        trimmed(s) == s,
{
    assert(trimmed_start(s) == s);
    assert(trimmed_end(s) == s);
}

proof fn lemma_base32_upper(s: Seq<char>)
    requires
        forall|i: int| 0 <= i < s.len() ==> is_base32_char(#[trigger] s[i]),
    ensures
        uppercased(s) == s,
{
    assert(uppercased(s) =~= s);
}

/// A text of the shape `LIC1-p-s`, with `p` and `s` base32, splits into `p` and `s`.
proof fn lemma_key_sections(p: Seq<char>, s: Seq<char>)
    requires
        forall|i: int| 0 <= i < p.len() ==> is_base32_char(#[trigger] p[i]),
        forall|i: int| 0 <= i < s.len() ==> is_base32_char(#[trigger] s[i]),
    ensures
        read_key(KEY_PREFIX@ + "-"@ + p + "-"@ + s) == read_sections(p, s),
{
    reveal_strlit("LIC1");
    reveal_strlit("-");
    let t = KEY_PREFIX@ + "-"@ + p + "-"@ + s;
    assert(t[0] == 'L');
    assert(t[t.len() - 1] == if s.len() > 0 {
        s[s.len() - 1]
    } else {
        '-'
    });
    lemma_not_trimmed(t);
    lemma_place_unique(t, '-', 4);
    assert(before_char(t, '-') =~= KEY_PREFIX@);
    let rest = t.subrange(5, t.len() as int);
    assert(rest =~= p + "-"@ + s);
    lemma_place_unique(rest, '-', p.len() as int);
    assert(before_char(rest, '-') =~= p);
    assert(rest.subrange(p.len() as int + 1, rest.len() as int) =~= s);
}

/// The text of a key. It reads back as the version 2 payload, the signature,
/// and the bytes that were signed.
pub fn encode_key(payload: &LicensePayload, signature: &Signature) -> (r: String)
    requires
        payload@.fits(),
    ensures
        r@ == key_text(payload@.wire(), signature.bytes@),
        read_key(r@) == Ok::<KeyModel, KeyFault>(
            KeyModel {
                payload: PayloadModel { version: KEY_VERSION_V2, ..payload@ },
                signature: signature.bytes@,
                signed: payload@.wire(),
            },
        ),
{
    let wire: Vec<u8> = payload.to_bytes();
    let payload_b32: String = base32_encode(wire.as_slice());
    let sig_b32: String = base32_encode(signature.bytes.as_slice());
    let mut out: String = String::from_str(KEY_PREFIX);
    out.append("-");
    out.append(payload_b32.as_str());
    out.append("-");
    out.append(sig_b32.as_str());
    proof {
        let p = PayloadModel { version: KEY_VERSION_V2, ..payload@ };
        assert(p.head_bytes() == payload@.head_bytes());
        assert(p.wire() == payload@.wire());
        payload_round_trip(p);
        lemma_base32_upper(payload_b32@);
        lemma_base32_upper(sig_b32@);
        lemma_key_sections(payload_b32@, sig_b32@);
    }
    out
}

fn signature_of(bytes: &Vec<u8>) -> (r: Option<Signature>)
    ensures
        match r {
            Some(s) => bytes@.len() == 64 && s.bytes@ == bytes@,
            None => bytes@.len() != 64,
        },
{
    if bytes.len() != 64 {
        return None;
    }
    let mut out: [u8; 64] = [0u8; 64];
    for i in 0..64usize
        invariant
            bytes@.len() == 64,
            forall|j: int| 0 <= j < i ==> out@[j] == bytes@[j],
    {
        out[i] = bytes[i];
    }
    assert(out@ =~= bytes@);
    Some(Signature { bytes: out })
}

/// The payload, signature and signed bytes of a key that a user typed. The
/// signature is not checked here.
pub fn parse_key(s: &str) -> (r: Result<(LicensePayload, Signature, Vec<u8>), KeyError>)
    ensures
        match r {
            Ok(k) => read_key(s@) == Ok::<KeyModel, KeyFault>(
                KeyModel { payload: k.0@, signature: k.1.bytes@, signed: k.2@ },
            ),
            Err(e) => read_key(s@) == Err::<KeyModel, KeyFault>(e@),
        },
{
    let t: &str = trim(s);
    let (prefix, rest) = cut(t, '-');
    if !same(prefix, KEY_PREFIX) {
        return Err(KeyError::UnrecognizedPrefix { prefix: String::from_str(prefix) });
    }
    let rest: &str = match rest {
        Some(rest) => rest,
        None => {
            return Err(KeyError::MissingPayload);
        },
    };
    let (payload_b32, sig_b32) = cut(rest, '-');
    let sig_b32: &str = match sig_b32 {
        Some(sig) => sig,
        None => {
            return Err(KeyError::MissingSignature);
        },
    };
    let signed: Vec<u8> = match base32_decode(to_ascii_upper(payload_b32).as_str()) {
        Some(bytes) => bytes,
        None => {
            return Err(KeyError::PayloadBase32);
        },
    };
    let sig_bytes: Vec<u8> = match base32_decode(to_ascii_upper(sig_b32).as_str()) {
        Some(bytes) => bytes,
        None => {
            return Err(KeyError::SignatureBase32);
        },
    };
    let payload: LicensePayload = match LicensePayload::from_bytes(signed.as_slice()) {
        Ok(p) => p,
        Err(error) => {
            return Err(KeyError::Payload { error });
        },
    };
    match signature_of(&sig_bytes) {
        Some(signature) => Ok((payload, signature, signed)),
        None => Err(KeyError::SignatureLength),
    }
}

/// Signs a payload with the server's key. The key's own public key accepts
/// the signature.
pub fn sign_payload(signing_key: &SigningKey, payload: &LicensePayload) -> (r: Signature)
    requires
        payload@.fits(),
    ensures
        r.bytes@ == ed25519_signature(signing_key.secret@, payload@.wire()),
        ed25519_accepts(ed25519_public(signing_key.secret@), payload@.wire(), r.bytes@),
{
    let wire: Vec<u8> = payload.to_bytes();
    Signature { bytes: ed25519_sign(&signing_key.secret, wire.as_slice()) }
}

/// Checks a signature over the signed bytes of a parsed key. The bytes are the
/// ones that came out of the key: a version 1 payload written again would be
/// version 2 and no longer match its signature.
pub fn verify_payload(
    verifying_key: &VerifyingKey,
    signed_bytes: &[u8],
    signature: &Signature,
) -> (r: Result<(), SignatureMismatch>)
    ensures
        r is Ok <==> ed25519_accepts(verifying_key.bytes@, signed_bytes@, signature.bytes@),
{
    if ed25519_verify(&verifying_key.bytes, signed_bytes, &signature.bytes) {
        Ok(())
    } else {
        Err(SignatureMismatch {  })
    }
}

/// The signature of a key is not the server's.
#[derive(Clone, Copy, Debug, PartialEq, Eq)]
pub struct SignatureMismatch {}

impl SignatureMismatch {
    /// The error in words.
    pub fn message(&self) -> (r: String)
        ensures
            r@ == "signature verification failed"@,
    {
        String::from_str("signature verification failed")
    }
}

/// The key that a payload is issued as: it reads back as the payload and the
/// server's public key accepts it, so a client needs nothing else to check it.
pub fn issue_key(signing_key: &SigningKey, payload: &LicensePayload) -> (r: String)
    requires
        payload@.fits(),
    ensures
        r@ == issued_key(signing_key.secret@, payload@),
        read_key(r@) is Ok,
        read_key(r@)->Ok_0.payload == (PayloadModel { version: KEY_VERSION_V2, ..payload@ }),
        read_key(r@)->Ok_0.signed == payload@.wire(),
        read_key(r@)->Ok_0.verifies(ed25519_public(signing_key.secret@)),
{
    let signature: Signature = sign_payload(signing_key, payload);
    encode_key(payload, &signature)
}

/// The text of the key that a payload is issued as.
pub open spec fn issued_key(secret: Seq<u8>, payload: PayloadModel) -> Seq<char> {
    key_text(payload.wire(), ed25519_signature(secret, payload.wire()))
}

/// A key whose signature has been checked.
pub open spec fn is_verified(text: Seq<char>, public: Seq<u8>) -> bool {
    read_key(text) is Ok && read_key(text)->Ok_0.verifies(public)
}

/// The case of a key's base32 sections does not matter: both cases read alike.
pub proof fn sections_ignore_case(payload: Seq<char>, signature: Seq<char>)
    ensures
        read_sections(payload, signature) == read_sections(
            uppercased(payload),
            uppercased(signature),
        ),
{
    assert(uppercased(uppercased(payload)) =~= uppercased(payload)) by {
        assert forall|i: int| 0 <= i < payload.len() implies ascii_upper(ascii_upper(payload[i]))
            == ascii_upper(payload[i]) by {}
    }
    assert(uppercased(uppercased(signature)) =~= uppercased(signature));
}

} // verus!
