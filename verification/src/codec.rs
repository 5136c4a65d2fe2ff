//! Byte and text codecs, digests and signatures, each computed by the crate
//! that the service takes it from.

use crate::text::{opt_str, texts};
use argon2::{PasswordHasher, PasswordVerifier};
use rand::RngCore;
use base64::Engine;
use ed25519_dalek::pkcs8::{DecodePrivateKey, DecodePublicKey, EncodePrivateKey, EncodePublicKey};
use ed25519_dalek::{Signer, Verifier};
use hmac::Mac;
use sha2::Digest;
use subtle::ConstantTimeEq;
use vstd::prelude::*;
use vstd::utf8::{decode_utf8, encode_utf8, valid_utf8};

verus! {

/// The bytes of an optional byte string.
pub open spec fn opt_bytes(o: Option<Vec<u8>>) -> Option<Seq<u8>> {
    match o {
        Some(v) => Some(v@),
        None => None,
    }
}

// ---------- base32 ----------

/// Base32 (RFC 4648 alphabet, no padding) of some bytes.
pub uninterp spec fn base32_text(bytes: Seq<u8>) -> Seq<char>;

/// The bytes that a base32 text (upper case, no padding) stands for, if any.
pub uninterp spec fn base32_bytes(text: Seq<char>) -> Option<Seq<u8>>;

/// A character of the base32 alphabet.
pub open spec fn is_base32_char(c: char) -> bool {
    'A' <= c <= 'Z' || '2' <= c <= '7'
}

/// Calls `data_encoding::BASE32_NOPAD.encode`. The result is named, uses the
/// base32 alphabet only, and decodes to the bytes it was made from.
#[verifier::external_body]
pub(crate) fn base32_encode(bytes: &[u8]) -> (r: String)
    ensures
        r@ == base32_text(bytes@),
        base32_bytes(r@) == Some(bytes@),
        forall|i: int| 0 <= i < r@.len() ==> is_base32_char(#[trigger] r@[i]),
{
    data_encoding::BASE32_NOPAD.encode(bytes)
}

/// Calls `data_encoding::BASE32_NOPAD.decode` on the bytes of `text`. The
/// result is named; which decoding error came is not told apart.
#[verifier::external_body]
pub(crate) fn base32_decode(text: &str) -> (r: Option<Vec<u8>>)
    ensures
        opt_bytes(r) == base32_bytes(text@),
{
    data_encoding::BASE32_NOPAD.decode(text.as_bytes()).ok()
}

// ---------- base64 ----------

/// URL-safe base64 without padding of some bytes.
pub uninterp spec fn base64url_text(bytes: Seq<u8>) -> Seq<char>;

/// Calls `base64`'s `URL_SAFE_NO_PAD.encode`; the result is named.
#[verifier::external_body]
pub(crate) fn base64url_encode(bytes: &[u8]) -> (r: String)
    ensures
        r@ == base64url_text(bytes@),
{
    base64::engine::general_purpose::URL_SAFE_NO_PAD.encode(bytes)
}

// ---------- hex ----------

/// The lower-case hexadecimal digit for `n`, below sixteen.
pub open spec fn hex_digit(n: int) -> char {
    if n < 10 {
        (48 + n) as char
    } else {
        (87 + n) as char
    }
}

/// Each byte as two lower-case hexadecimal digits.
pub open spec fn hex_text(bytes: Seq<u8>) -> Seq<char> {
    Seq::new(
        2 * bytes.len(),
        |i: int|
            if i % 2 == 0 {
                hex_digit(bytes[i / 2] as int / 16)
            } else {
                hex_digit(bytes[i / 2] as int % 16)
            },
    )
}

/// The value of a hexadecimal digit of either case.
pub open spec fn hex_value(c: char) -> Option<int> {
    if '0' <= c <= '9' {
        Some(c as int - 48)
    } else if 'a' <= c <= 'f' {
        Some(c as int - 87)
    } else if 'A' <= c <= 'F' {
        Some(c as int - 55)
    } else {
        None
    }
}

/// Two hexadecimal digits for each byte, and nothing else.
pub open spec fn is_hex(text: Seq<char>) -> bool {
    text.len() % 2 == 0 && forall|i: int| 0 <= i < text.len() ==> hex_value(#[trigger] text[i]) is Some
}

/// The bytes that a hexadecimal text stands for.
pub open spec fn hex_bytes(text: Seq<char>) -> Option<Seq<u8>> {
    if is_hex(text) {
        Some(
            Seq::new(
                text.len() / 2,
                |i: int| (hex_value(text[2 * i])->0 * 16 + hex_value(text[2 * i + 1])->0) as u8,
            ),
        )
    } else {
        None
    }
}

/// Reading what was written in hexadecimal gives the bytes back.
pub proof fn hex_round_trip(bytes: Seq<u8>)
    ensures
        hex_bytes(hex_text(bytes)) == Some(bytes),
{
    let t = hex_text(bytes);
    assert forall|i: int| 0 <= i < t.len() implies hex_value(#[trigger] t[i]) is Some by {}
    assert forall|i: int| 0 <= i < bytes.len() implies #[trigger] hex_bytes(t)->0[i]
        == bytes[i] by {
        assert((2 * i) / 2 == i && (2 * i) % 2 == 0);
        assert((2 * i + 1) / 2 == i && (2 * i + 1) % 2 == 1);
    }
    assert(hex_bytes(t)->0 =~= bytes);
}

/// Calls `hex::encode`: two lower-case digits for each byte.
#[verifier::external_body]
pub(crate) fn hex_encode(bytes: &[u8]) -> (r: String)
    ensures
        r@ == hex_text(bytes@),
{
    hex::encode(bytes)
}

/// Calls `hex::decode`: the bytes of an even number of hexadecimal digits of
/// either case, and nothing for any other text.
#[verifier::external_body]
pub(crate) fn hex_decode(text: &str) -> (r: Option<Vec<u8>>)
    ensures
        opt_bytes(r) == hex_bytes(text@),
{
    hex::decode(text).ok()
}

// ---------- percent encoding ----------

/// A byte that percent encoding leaves as it is.
pub open spec fn is_unreserved(b: u8) -> bool {
    ||| 48 <= b <= 57
    ||| 65 <= b <= 90
    ||| 97 <= b <= 122
    ||| b == 45
    ||| b == 46
    ||| b == 95
    ||| b == 126
}

/// The upper-case hexadecimal digit for `n`, below sixteen.
pub open spec fn hex_digit_upper(n: int) -> char {
    if n < 10 {
        (48 + n) as char
    } else {
        (55 + n) as char
    }
}

/// Every byte but letters, digits and `-._~` as `%` and two upper-case
/// hexadecimal digits.
pub open spec fn percent_encoded(bytes: Seq<u8>) -> Seq<char>
    decreases bytes.len(),
{
    if bytes.len() == 0 {
        seq![]
    } else {
        let b = bytes.last();
        percent_encoded(bytes.drop_last()) + if is_unreserved(b) {
            seq![b as char]
        } else {
            seq!['%', hex_digit_upper(b as int / 16), hex_digit_upper(b as int % 16)]
        }
    }
}

/// Calls `urlencoding::encode`: the percent encoding of the text's UTF-8 bytes.
#[verifier::external_body]
pub(crate) fn url_encode(text: &str) -> (r: String)
    ensures
        r@ == percent_encoded(encode_utf8(text@)),
{
    urlencoding::encode(text).into_owned()
}

// ---------- UTF-8 ----------

/// The text that some bytes hold, where they are UTF-8.
pub open spec fn utf8_text(bytes: Seq<u8>) -> Option<Seq<char>> {
    if valid_utf8(bytes) {
        Some(decode_utf8(bytes))
    } else {
        None
    }
}

/// Calls `str::from_utf8`: the text of the bytes exactly where they are UTF-8.
#[verifier::external_body]
pub(crate) fn text_of_utf8(bytes: &[u8]) -> (r: Option<&str>)
    ensures
        opt_str(r) == utf8_text(bytes@),
{
    std::str::from_utf8(bytes).ok()
}

// ---------- digests ----------

/// SHA-256.
pub uninterp spec fn sha256(bytes: Seq<u8>) -> Seq<u8>;

/// Calls `sha2::Sha256::digest`; the result is named.
#[verifier::external_body]
pub(crate) fn sha256_digest(bytes: &[u8]) -> (r: [u8; 32])
    ensures
        r@ == sha256(bytes@),
{
    sha2::Sha256::digest(bytes).into()
}

/// HMAC-SHA-256 of a message under a key.
pub uninterp spec fn hmac_sha256(key: Seq<u8>, message: Seq<u8>) -> Seq<u8>;

/// Calls `hmac::Hmac::<Sha256>` with a key of any length; the result is named.
#[verifier::external_body]
pub(crate) fn hmac_tag(key: &[u8], message: &[u8]) -> (r: [u8; 32])
    ensures
        r@ == hmac_sha256(key@, message@),
{
    let mut mac = hmac::Hmac::<sha2::Sha256>::new_from_slice(key).expect("any key length");
    mac.update(message);
    mac.finalize().into_bytes().into()
}

/// Calls `subtle`'s `ct_eq` on two byte slices: true exactly when they are
/// equal, whatever their lengths.
#[verifier::external_body]
pub(crate) fn bytes_match(a: &[u8], b: &[u8]) -> (r: bool)
    ensures
        r == (a@ == b@),
{
    bool::from(a.ct_eq(b))
}

/// The SHA-256 of a text's UTF-8 bytes, in lower-case hexadecimal.
pub open spec fn sha256_hex(text: Seq<char>) -> Seq<char> {
    hex_text(sha256(encode_utf8(text)))
}

/// The SHA-256 of a text, in lower-case hexadecimal.
pub fn hex_sha256(text: &str) -> (r: String)
    ensures
        r@ == sha256_hex(text@),
{
    let digest: [u8; 32] = sha256_digest(text.as_bytes());
    hex_encode(digest.as_slice())
}

// ---------- Ed25519 ----------

/// The public key that belongs to a 32-byte secret.
pub uninterp spec fn ed25519_public(secret: Seq<u8>) -> Seq<u8>;

/// The signature over a message under a 32-byte secret.
pub uninterp spec fn ed25519_signature(secret: Seq<u8>, message: Seq<u8>) -> Seq<u8>;

/// Does a public key accept a signature over a message?
pub uninterp spec fn ed25519_accepts(
    public: Seq<u8>,
    message: Seq<u8>,
    signature: Seq<u8>,
) -> bool;

/// Calls `ed25519_dalek`'s `SigningKey::verifying_key`; the result is named.
#[verifier::external_body]
pub(crate) fn ed25519_derive(secret: &[u8; 32]) -> (r: [u8; 32])
    ensures
        r@ == ed25519_public(secret@),
{
    ed25519_dalek::SigningKey::from_bytes(secret).verifying_key().to_bytes()
}

/// Calls `ed25519_dalek`'s `SigningKey::sign`. The result is named, and the
/// secret's own public key accepts it.
#[verifier::external_body]
pub(crate) fn ed25519_sign(secret: &[u8; 32], message: &[u8]) -> (r: [u8; 64])
    ensures
        r@ == ed25519_signature(secret@, message@),
        ed25519_accepts(ed25519_public(secret@), message@, r@),
{
    ed25519_dalek::SigningKey::from_bytes(secret).sign(message).to_bytes()
}

/// Calls `ed25519_dalek`'s `VerifyingKey::verify`; the verdict is named. Bytes
/// that are no point of the curve accept nothing. That a signature is refused
/// with other bytes than the signed ones is left unsaid: it rests on the scheme,
/// not on the code.
#[verifier::external_body]
pub(crate) fn ed25519_verify(public: &[u8; 32], message: &[u8], signature: &[u8; 64]) -> (r: bool)
    ensures
        r == ed25519_accepts(public@, message@, signature@),
{
    match ed25519_dalek::VerifyingKey::from_bytes(public) {
        Ok(key) => key.verify(message, &ed25519_dalek::Signature::from_bytes(signature)).is_ok(),
        Err(_) => false,
    }
}

/// The 32-byte secret in a PKCS#8 PEM text, or what is wrong with the text.
pub uninterp spec fn pem_secret(pem: Seq<char>) -> Result<Seq<u8>, Seq<char>>;

/// The 32-byte public key in a PEM text, or what is wrong with the text.
pub uninterp spec fn pem_public(pem: Seq<char>) -> Result<Seq<u8>, Seq<char>>;

/// The PKCS#8 PEM text for a 32-byte secret, or why there is none.
pub uninterp spec fn secret_pem(secret: Seq<u8>) -> Result<Seq<char>, Seq<char>>;

/// The PEM text for a 32-byte public key, or why there is none.
pub uninterp spec fn public_pem(public: Seq<u8>) -> Result<Seq<char>, Seq<char>>;

/// The view of a key or an error text.
pub open spec fn key_or_text(r: Result<[u8; 32], String>) -> Result<Seq<u8>, Seq<char>> {
    match r {
        Ok(k) => Ok(k@),
        Err(e) => Err(e@),
    }
}

/// The view of a text or an error text.
pub open spec fn text_or_text(r: Result<String, String>) -> Result<Seq<char>, Seq<char>> {
    match r {
        Ok(t) => Ok(t@),
        Err(e) => Err(e@),
    }
}

/// Calls `ed25519_dalek`'s `SigningKey::from_pkcs8_pem`; the secret or the
/// error's text is named.
#[verifier::external_body]
pub(crate) fn secret_of_pem(pem: &str) -> (r: Result<[u8; 32], String>)
    ensures
        key_or_text(r) == pem_secret(pem@),
{
    match ed25519_dalek::SigningKey::from_pkcs8_pem(pem) {
        Ok(key) => Ok(key.to_bytes()),
        Err(e) => Err(e.to_string()),
    }
}

/// Calls `ed25519_dalek`'s `VerifyingKey::from_public_key_pem`; the key or the
/// error's text is named.
#[verifier::external_body]
pub(crate) fn public_of_pem(pem: &str) -> (r: Result<[u8; 32], String>)
    ensures
        key_or_text(r) == pem_public(pem@),
{
    match ed25519_dalek::VerifyingKey::from_public_key_pem(pem) {
        Ok(key) => Ok(key.to_bytes()),
        Err(e) => Err(e.to_string()),
    }
}

/// Calls `ed25519_dalek`'s `SigningKey::to_pkcs8_pem` with line feeds. The text
/// or the error's text is named; a text that comes back parses to the same
/// secret.
#[verifier::external_body]
pub(crate) fn pem_of_secret(secret: &[u8; 32]) -> (r: Result<String, String>)
    ensures
        text_or_text(r) == secret_pem(secret@),
        r is Ok ==> (pem_secret(r->Ok_0@) is Ok && pem_secret(r->Ok_0@)->Ok_0 == secret@),
{
    let key = ed25519_dalek::SigningKey::from_bytes(secret);
    match key.to_pkcs8_pem(pkcs8::LineEnding::LF) {
        Ok(pem) => Ok(pem.to_string()),
        Err(e) => Err(e.to_string()),
    }
}

/// Calls `ed25519_dalek`'s `VerifyingKey::to_public_key_pem` with line feeds.
/// The text or the error's text is named; a text that comes back parses to the
/// same key. Bytes that are no point of the curve give an error.
#[verifier::external_body]
pub(crate) fn pem_of_public(public: &[u8; 32]) -> (r: Result<String, String>)
    ensures
        text_or_text(r) == public_pem(public@),
        r is Ok ==> (pem_public(r->Ok_0@) is Ok && pem_public(r->Ok_0@)->Ok_0 == public@),
{
    match ed25519_dalek::VerifyingKey::from_bytes(public) {
        Ok(key) => key.to_public_key_pem(pkcs8::LineEnding::LF).map_err(|e| e.to_string()),
        Err(e) => Err(e.to_string()),
    }
}

// ---------- chance ----------

/// Calls `rand::thread_rng` and its `fill_bytes`. Nothing is known of the bytes.
#[verifier::external_body]
pub(crate) fn random_bytes<const N: usize>() -> (r: [u8; N]) {
    let mut bytes = [0u8; N];
    rand::thread_rng().fill_bytes(&mut bytes);
    bytes
}

/// Calls `rand::rngs::OsRng`'s `fill_bytes`. Nothing is known of the bytes.
#[verifier::external_body]
pub(crate) fn os_random_bytes<const N: usize>() -> (r: [u8; N]) {
    let mut bytes = [0u8; N];
    rand::rngs::OsRng.fill_bytes(&mut bytes);
    bytes
}

/// Calls `ed25519_dalek::SigningKey::generate` with `rand::rngs::OsRng`. Nothing
/// is known of the secret.
#[verifier::external_body]
pub(crate) fn ed25519_generate() -> (r: [u8; 32]) {
    ed25519_dalek::SigningKey::generate(&mut rand::rngs::OsRng).to_bytes()
}

/// Calls `uuid::Uuid::new_v4`. The bytes are random but for the version, which is
/// four, and the variant.
#[verifier::external_body]
pub(crate) fn uuid_v4() -> (r: Uuid)
    ensures
        is_v4(r.bytes@),
{
    Uuid { bytes: *uuid::Uuid::new_v4().as_bytes() }
}

/// Do the bytes of a UUID say that they are random?
pub open spec fn is_v4(bytes: Seq<u8>) -> bool {
    bytes.len() == 16 && bytes[6] / 16 == 4 && bytes[8] / 64 == 2
}

// ---------- passwords ----------

/// Does a password hash, in the PHC text form, belong to a password?
pub uninterp spec fn argon2_accepts(password: Seq<u8>, phc: Seq<char>) -> bool;

/// Calls `argon2`'s `hash_password` with its default parameters and a random
/// salt. The hash differs from call to call; each belongs to the password, and
/// one comes back for every password below 4 GiB.
#[verifier::external_body]
pub(crate) fn argon2_hash(password: &[u8]) -> (r: Result<String, String>)
    ensures
        r is Ok ==> argon2_accepts(password@, r->Ok_0@),
        password@.len() <= 0xFFFF_FFFF ==> r is Ok,
{
    let salt = argon2::password_hash::SaltString::generate(&mut rand::rngs::OsRng);
    match argon2::Argon2::default().hash_password(password, &salt) {
        Ok(hash) => Ok(hash.to_string()),
        Err(e) => Err(e.to_string()),
    }
}

/// Calls `argon2`'s `verify_password`; the verdict is named. A text that is no
/// password hash belongs to no password.
#[verifier::external_body]
pub(crate) fn argon2_verify(password: &[u8], phc: &str) -> (r: bool)
    ensures
        r == argon2_accepts(password@, phc@),
{
    match argon2::PasswordHash::new(phc) {
        Ok(hash) => argon2::Argon2::default().verify_password(password, &hash).is_ok(),
        Err(_) => false,
    }
}

// ---------- URLs ----------

/// The host of a URL.
#[derive(Clone, Debug, PartialEq, Eq)]
pub enum UrlHost {
    Domain { name: String },
    Ipv4 { octets: [u8; 4] },
    Ipv6 { segments: [u16; 8] },
}

/// What a host is.
pub enum HostModel {
    Domain { name: Seq<char> },
    Ipv4 { octets: Seq<u8> },
    Ipv6 { segments: Seq<u16> },
}

impl View for UrlHost {
    type V = HostModel;

    open spec fn view(&self) -> HostModel {
        match self {
            UrlHost::Domain { name } => HostModel::Domain { name: name@ },
            UrlHost::Ipv4 { octets } => HostModel::Ipv4 { octets: octets@ },
            UrlHost::Ipv6 { segments } => HostModel::Ipv6 { segments: segments@ },
        }
    }
}

/// The scheme and host of a URL.
#[derive(Clone, Debug)]
pub struct UrlParts {
    pub scheme: String,
    pub host: Option<UrlHost>,
}

/// What the scheme and host of a URL are.
pub struct UrlModel {
    pub scheme: Seq<char>,
    pub host: Option<HostModel>,
}

impl View for UrlParts {
    type V = UrlModel;

    open spec fn view(&self) -> UrlModel {
        UrlModel {
            scheme: self.scheme@,
            host: match self.host {
                Some(h) => Some(h@),
                None => None,
            },
        }
    }
}

/// The view of the parts of an optional URL.
pub open spec fn opt_url(o: Option<UrlParts>) -> Option<UrlModel> {
    match o {
        Some(u) => Some(u@),
        None => None,
    }
}

/// The scheme and host of the URL that a text is, if it is one.
pub uninterp spec fn url_reading(text: Seq<char>) -> Option<UrlModel>;

/// Calls `url::Url::parse` and takes the scheme and the host of what it found;
/// the result is named.
#[verifier::external_body]
pub(crate) fn url_parse(text: &str) -> (r: Option<UrlParts>)
    ensures
        opt_url(r) == url_reading(text@),
{
    let url = url::Url::parse(text).ok()?;
    let host = match url.host() {
        Some(url::Host::Domain(d)) => Some(UrlHost::Domain { name: d.to_string() }),
        Some(url::Host::Ipv4(ip)) => Some(UrlHost::Ipv4 { octets: ip.octets() }),
        Some(url::Host::Ipv6(ip)) => Some(UrlHost::Ipv6 { segments: ip.segments() }),
        None => None,
    };
    Some(UrlParts { scheme: url.scheme().to_string(), host })
}

// ---------- UUIDs ----------

/// The bytes of a UUID written in any of its usual forms, or what is wrong with
/// the text.
pub uninterp spec fn uuid_reading(text: Seq<char>) -> Result<Seq<u8>, Seq<char>>;

/// Sixteen bytes as lower-case hexadecimal digits in groups of 8, 4, 4, 4, 12.
pub open spec fn uuid_text(bytes: Seq<u8>) -> Seq<char> {
    let h = hex_text(bytes);
    h.subrange(0, 8) + seq!['-'] + h.subrange(8, 12) + seq!['-'] + h.subrange(12, 16) + seq!['-']
        + h.subrange(16, 20) + seq!['-'] + h.subrange(20, 32)
}

/// A universally unique identifier.
#[derive(Clone, Copy, Debug, PartialEq, Eq)]
pub struct Uuid {
    pub bytes: [u8; 16],
}

impl View for Uuid {
    type V = Seq<u8>;

    open spec fn view(&self) -> Seq<u8> {
        self.bytes@
    }
}

/// The view of a UUID or an error text.
pub open spec fn uuid_or_text(r: Result<Uuid, String>) -> Result<Seq<u8>, Seq<char>> {
    match r {
        Ok(u) => Ok(u@),
        Err(e) => Err(e@),
    }
}

/// Calls `uuid::Uuid::parse_str`; the UUID or the error's text is named.
#[verifier::external_body]
pub(crate) fn uuid_parse(text: &str) -> (r: Result<Uuid, String>)
    ensures
        uuid_or_text(r) == uuid_reading(text@),
{
    match uuid::Uuid::parse_str(text) {
        Ok(u) => Ok(Uuid { bytes: u.into_bytes() }),
        Err(e) => Err(e.to_string()),
    }
}

/// Calls `uuid::Uuid`'s `to_string`: the hyphenated lower-case form, which
/// parses to the same bytes.
#[verifier::external_body]
pub(crate) fn uuid_to_text(u: &Uuid) -> (r: String)
    ensures
        r@ == uuid_text(u@),
        uuid_reading(r@) is Ok && uuid_reading(r@)->Ok_0 == u@,
{
    uuid::Uuid::from_bytes(u.bytes).to_string()
}

impl Uuid {
    /// A UUID made up at random.
    pub fn new_v4() -> (r: Uuid)
        ensures
            is_v4(r.bytes@),
    {
        uuid_v4()
    }

    /// The UUID of a text in any of the usual forms.
    pub fn parse_str(text: &str) -> (r: Result<Uuid, String>)
        ensures
            uuid_or_text(r) == uuid_reading(text@),
    {
        uuid_parse(text)
    }

    /// The hyphenated lower-case form.
    pub fn to_text(&self) -> (r: String)
        ensures
            r@ == uuid_text(self@),
            uuid_reading(r@) == Ok::<Seq<u8>, Seq<char>>(self@),
    {
        uuid_to_text(self)
    }
}

// ---------- JSON ----------

/// The strings of a JSON text that is an array of strings and nothing else.
pub uninterp spec fn json_strings(text: Seq<char>) -> Option<Seq<Seq<char>>>;

/// A character as it stands in a JSON string: quotes, backslashes and control
/// characters are written with a backslash, and everything else as it is.
pub open spec fn json_char(c: char) -> Seq<char> {
    if c == '"' || c == '\\' {
        seq!['\\', c]
    } else if c == '\n' {
        seq!['\\', 'n']
    } else if c == '\r' {
        seq!['\\', 'r']
    } else if c == '\t' {
        seq!['\\', 't']
    } else if c as int == 8 {
        seq!['\\', 'b']
    } else if c as int == 12 {
        seq!['\\', 'f']
    } else if (c as int) < 32 {
        seq!['\\', 'u', '0', '0', hex_digit(c as int / 16), hex_digit(c as int % 16)]
    } else {
        seq![c]
    }
}

/// A text as it stands between the quotes of a JSON string.
pub open spec fn json_chars(text: Seq<char>) -> Seq<char>
    decreases text.len(),
{
    if text.len() == 0 {
        seq![]
    } else {
        json_chars(text.drop_last()) + json_char(text.last())
    }
}

/// The JSON text of one string.
pub open spec fn json_string(text: Seq<char>) -> Seq<char> {
    seq!['"'] + json_chars(text) + seq!['"']
}

/// JSON texts of strings with commas between them.
pub open spec fn json_items(items: Seq<Seq<char>>) -> Seq<char>
    decreases items.len(),
{
    if items.len() == 0 {
        seq![]
    } else if items.len() == 1 {
        json_string(items[0])
    } else {
        json_items(items.drop_last()) + seq![','] + json_string(items.last())
    }
}

/// The JSON text of an array of strings.
pub open spec fn json_array(items: Seq<Seq<char>>) -> Seq<char> {
    seq!['['] + json_items(items) + seq![']']
}

/// The view of an optional list of strings.
pub open spec fn opt_texts(o: Option<Vec<String>>) -> Option<Seq<Seq<char>>> {
    match o {
        Some(v) => Some(texts(v@)),
        None => None,
    }
}

/// Calls `serde_json::from_str::<Vec<String>>`; the result is named, and which
/// parse error came is not told apart.
#[verifier::external_body]
pub(crate) fn json_to_strings(text: &str) -> (r: Option<Vec<String>>)
    ensures
        opt_texts(r) == json_strings(text@),
{
    serde_json::from_str::<Vec<String>>(text).ok()
}

/// Calls `serde_json::to_string` on a list of strings: their JSON texts in square
/// brackets, with commas and no spaces. The result reads back as the same strings.
#[verifier::external_body]
pub(crate) fn strings_to_json(items: &Vec<String>) -> (r: String)
    ensures
        r@ == json_array(texts(items@)),
        json_strings(r@) == Some(texts(items@)),
{
    serde_json::to_string(items).expect("strings serialise")
}

/// Calls `serde_json::to_string` on one string: the string in quotes, with
/// quotes, backslashes and control characters escaped.
#[verifier::external_body]
pub(crate) fn string_to_json(text: &str) -> (r: String)
    ensures
        r@ == json_string(text@),
{
    serde_json::to_string(text).expect("a string serialises")
}

/// A value of a JSON object.
#[derive(Clone, Debug, PartialEq, Eq)]
pub enum JsonScalar {
    Text { text: String },
    Number { number: i64 },
    Flag { flag: bool },
}

/// What a value of a JSON object is.
pub enum ScalarModel {
    Text { text: Seq<char> },
    Number { number: i64 },
    Flag { flag: bool },
}

impl View for JsonScalar {
    type V = ScalarModel;

    open spec fn view(&self) -> ScalarModel {
        match self {
            JsonScalar::Text { text } => ScalarModel::Text { text: text@ },
            JsonScalar::Number { number } => ScalarModel::Number { number: *number },
            JsonScalar::Flag { flag } => ScalarModel::Flag { flag: *flag },
        }
    }
}

/// A JSON object of plain values under a key.
#[derive(Clone, Debug, PartialEq, Eq)]
pub struct JsonMember {
    pub key: String,
    pub fields: Vec<(&'static str, JsonScalar)>,
}

/// What the fields of a JSON object are.
pub open spec fn fields_of(fields: Seq<(&'static str, JsonScalar)>) -> Seq<
    (Seq<char>, ScalarModel),
> {
    fields.map_values(|f: (&'static str, JsonScalar)| (f.0@, f.1@))
}

/// What a JSON object under a key is.
pub open spec fn members_of(members: Seq<JsonMember>) -> Seq<
    (Seq<char>, Seq<(Seq<char>, ScalarModel)>),
> {
    members.map_values(|m: JsonMember| (m.key@, fields_of(m.fields@)))
}

/// The JSON text of an object of objects.
pub uninterp spec fn json_objects(
    members: Seq<(Seq<char>, Seq<(Seq<char>, ScalarModel)>)>,
) -> Seq<char>;

/// Calls `serde_json::to_string` on a map of maps; the text is named.
#[verifier::external_body]
pub(crate) fn objects_to_json(members: &Vec<JsonMember>) -> (r: String)
    ensures
        r@ == json_objects(members_of(members@)),
{
    let scalar = |s: &JsonScalar| match s {
        JsonScalar::Text { text } => serde_json::Value::from(text.as_str()),
        JsonScalar::Number { number } => serde_json::Value::from(*number),
        JsonScalar::Flag { flag } => serde_json::Value::from(*flag),
    };
    let object = |m: &JsonMember| {
        m.fields.iter().map(|f| (f.0.to_string(), scalar(&f.1))).collect::<serde_json::Map<_, _>>()
    };
    let all: serde_json::Map<_, _> =
        members.iter().map(|m| (m.key.clone(), object(m).into())).collect();
    serde_json::to_string(&all).expect("a map serialises")
}

} // verus!
