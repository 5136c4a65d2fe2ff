//! Notices from BTCPay, and their signatures.

use crate::codec::{
    bytes_match, hex_bytes, hex_decode, hex_round_trip, hex_text, hmac_sha256, hmac_tag,
};
use crate::text::{after_prefix, opt_str, same, strip_prefix};
use vstd::prelude::*;
use vstd::utf8::encode_utf8;

verus! {

/// What is wrong with a notice's signature.
#[derive(Clone, Copy, Debug, PartialEq, Eq, Structural)]
pub enum SignatureError {
    NoPrefix,
    NotHex,
    Mismatch,
}

impl SignatureError {
    /// The error in words.
    pub fn message(&self) -> (r: &'static str)
        ensures
            r@ == match self {
                SignatureError::NoPrefix => "BTCPay-Sig header missing 'sha256=' prefix"@,
                SignatureError::NotHex => "BTCPay-Sig header is not hex"@,
                SignatureError::Mismatch => "BTCPay webhook signature mismatch"@,
            },
    {
        match self {
            SignatureError::NoPrefix => "BTCPay-Sig header missing 'sha256=' prefix",
            SignatureError::NotHex => "BTCPay-Sig header is not hex",
            SignatureError::Mismatch => "BTCPay webhook signature mismatch",
        }
    }
}

/// The verdict on a signature header: it holds `sha256=` and, in hexadecimal,
/// the tag of the body under the secret.
pub open spec fn signature_verdict(
    secret: Seq<char>,
    header: Seq<char>,
    body: Seq<u8>,
) -> Result<(), SignatureError> {
    match after_prefix(header, "sha256="@) {
        None => Err(SignatureError::NoPrefix),
        Some(hex) => match hex_bytes(hex) {
            None => Err(SignatureError::NotHex),
            Some(tag) => if tag == hmac_sha256(encode_utf8(secret), body) {
                Ok(())
            } else {
                Err(SignatureError::Mismatch)
            },
        },
    }
}

/// Checks a notice's signature header against its body, as it was received.
pub fn verify_signature(secret: &str, header_value: &str, raw_body: &[u8]) -> (r: Result<
    (),
    SignatureError,
>)
    ensures
        r == signature_verdict(secret@, header_value@, raw_body@),
{
    let hex: &str = match strip_prefix(header_value, "sha256=") {
        None => {
            return Err(SignatureError::NoPrefix);
        },
        Some(hex) => hex,
    };
    let expected: Vec<u8> = match hex_decode(hex) {
        None => {
            return Err(SignatureError::NotHex);
        },
        Some(expected) => expected,
    };
    let computed: [u8; 32] = hmac_tag(secret.as_bytes(), raw_body);
    if bytes_match(computed.as_slice(), expected.as_slice()) {
        Ok(())
    } else {
        Err(SignatureError::Mismatch)
    }
}

/// The header that BTCPay signs a body with is accepted for that body.
pub proof fn genuine_signatures_are_accepted(secret: Seq<char>, body: Seq<u8>)
    ensures
        signature_verdict(
            secret,
            "sha256="@ + hex_text(hmac_sha256(encode_utf8(secret), body)),
            body,
        ) is Ok,
{
    let tag = hmac_sha256(encode_utf8(secret), body);
    let header = "sha256="@ + hex_text(tag);
    let n = "sha256="@.len() as int;
    assert(header.subrange(0, n) =~= "sha256="@);
    assert(header.subrange(n, header.len() as int) =~= hex_text(tag));
    hex_round_trip(tag);
}

/// A notice, as far as it is read.
#[derive(Clone, Debug, PartialEq, Eq)]
pub struct WebhookEvent {
    pub event_type: String,
    pub invoice_id: String,
}

impl WebhookEvent {
    /// The invoice's status that the notice tells, if it tells one.
    pub open spec fn status(self) -> Option<Seq<char>> {
        let t = self.event_type@;
        if t == "InvoiceSettled"@ || t == "InvoicePaymentSettled"@ {
            Some("settled"@)
        } else if t == "InvoiceExpired"@ {
            Some("expired"@)
        } else if t == "InvoiceInvalid"@ {
            Some("invalid"@)
        } else {
            None
        }
    }

    /// The invoice's status that the notice tells, if it tells one.
    pub fn to_status(&self) -> (r: Option<&'static str>)
        ensures
            opt_str(r) == self.status(),
    {
        let t: &str = self.event_type.as_str();
        if same(t, "InvoiceSettled") || same(t, "InvoicePaymentSettled") {
            Some("settled")
        } else if same(t, "InvoiceExpired") {
            Some("expired")
        } else if same(t, "InvoiceInvalid") {
            Some("invalid")
        } else {
            None
        }
    }
}

} // verus!
