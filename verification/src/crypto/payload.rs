//! The signed payload of a license key and its wire form.
//!
//! Version 2, which is the one that is issued, is an 83-byte head followed by
//! the entitlement table; version 1 is a fixed 74-byte blob that is read, and
//! never written, so that keys issued with it verify forever.
//!
//! | offset | size | version 2 field                                     |
//! |--------|------|-----------------------------------------------------|
//! | 0      | 1    | version = 2                                         |
//! | 1      | 1    | flags                                               |
//! | 2      | 16   | product_id                                          |
//! | 18     | 16   | license_id                                          |
//! | 34     | 8    | issued_at (u64 BE, unix seconds)                    |
//! | 42     | 8    | expires_at (u64 BE, unix seconds; 0 = perpetual)    |
//! | 50     | 32   | fingerprint_hash (SHA-256; zero iff flag bit unset) |
//! | 82     | 1    | entitlement count                                   |
//! | 83..   | ...  | entitlements: a length byte and that many bytes     |

use crate::codec::{text_of_utf8, utf8_text, Uuid};
use crate::text::{is_one_of, nat_text, nat_to_text, texts};
use vstd::prelude::*;
use vstd::utf8::{
    decode_utf8_encode_utf8, encode_utf8, encode_utf8_decode_utf8, encode_utf8_valid_utf8,
};

verus! {

/// Key format version that is issued.
pub const KEY_VERSION: u8 = 2;

/// The legacy format, accepted on parse.
pub const KEY_VERSION_V1: u8 = 1;

/// The current format.
pub const KEY_VERSION_V2: u8 = 2;

/// Size of a version 1 payload.
pub const PAYLOAD_V1_LEN: usize = 74;

/// Size of a version 2 payload without entitlements.
pub const PAYLOAD_V2_HEAD_LEN: usize = 83;

/// Flag bit: the license is bound to a fingerprint hash.
pub const FLAG_FINGERPRINT_BOUND: u8 = 0b0000_0001;

/// Flag bit: the license was issued as a trial.
pub const FLAG_TRIAL: u8 = 0b0000_0010;

/// A parsed, not yet verified key payload. A version 1 payload has the fields
/// that only version 2 carries filled with zeros.
#[derive(Clone, Debug, PartialEq, Eq)]
pub struct LicensePayload {
    pub version: u8,
    pub flags: u8,
    pub product_id: Uuid,
    pub license_id: Uuid,
    pub issued_at: i64,
    /// Unix seconds; 0 means perpetual.
    pub expires_at: i64,
    /// SHA-256 of the fingerprint, or zeros where the license is not bound.
    pub fingerprint_hash: [u8; 32],
    /// Feature slugs.
    pub entitlements: Vec<String>,
}

/// What a payload says.
#[verifier::ext_equal]
pub struct PayloadModel {
    pub version: u8,
    pub flags: u8,
    pub product_id: Seq<u8>,
    pub license_id: Seq<u8>,
    pub issued_at: i64,
    pub expires_at: i64,
    pub fingerprint_hash: Seq<u8>,
    pub entitlements: Seq<Seq<char>>,
}

impl View for LicensePayload {
    type V = PayloadModel;

    open spec fn view(&self) -> PayloadModel {
        PayloadModel {
            version: self.version,
            flags: self.flags,
            product_id: self.product_id@,
            license_id: self.license_id@,
            issued_at: self.issued_at,
            expires_at: self.expires_at,
            fingerprint_hash: self.fingerprint_hash@,
            entitlements: texts(self.entitlements@),
        }
    }
}

/// Why a blob is no payload.
#[derive(Clone, Copy, Debug, PartialEq, Eq)]
pub enum PayloadError {
    Empty,
    UnsupportedVersion { version: u8 },
    V1Length { len: usize },
    V2Length { len: usize },
    TruncatedEntitlements { index: usize, cursor: usize, len: usize },
    EntitlementOverrun { index: usize, len: usize },
    EntitlementNotUtf8 { index: usize },
    TrailingBytes { unread: usize },
}

impl PayloadError {
    /// The error in words.
    pub open spec fn words(self) -> Seq<char> {
        match self {
            PayloadError::Empty => "empty payload"@,
            PayloadError::UnsupportedVersion { version } => "unsupported key version: "@ + nat_text(
                version as nat,
            ),
            PayloadError::V1Length { len } => "v1 payload length "@ + nat_text(len as nat)
                + " != expected 74"@,
            PayloadError::V2Length { len } => "v2 payload length "@ + nat_text(len as nat)
                + " < head length 83"@,
            PayloadError::TruncatedEntitlements { index, cursor, len } =>
                "truncated entitlement list at index "@ + nat_text(index as nat) + " (cursor "@
                    + nat_text(cursor as nat) + ", len "@ + nat_text(len as nat) + ")"@,
            PayloadError::EntitlementOverrun { index, len } => "entitlement "@ + nat_text(
                index as nat,
            ) + " length "@ + nat_text(len as nat) + " runs past end of payload"@,
            PayloadError::EntitlementNotUtf8 { index } => "entitlement "@ + nat_text(index as nat)
                + " is not UTF-8"@,
            PayloadError::TrailingBytes { unread } => "trailing bytes after entitlement list ("@
                + nat_text(unread as nat) + " unread)"@,
        }
    }

    /// The error in words.
    pub fn message(&self) -> (r: String)
        ensures
            r@ == self.words(),
    {
        match *self {
            PayloadError::Empty => String::from_str("empty payload"),
            PayloadError::UnsupportedVersion { version } => {
                let mut s: String = String::from_str("unsupported key version: ");
                s.append(nat_to_text(version as u64).as_str());
                s
            },
            PayloadError::V1Length { len } => {
                let mut s: String = String::from_str("v1 payload length ");
                s.append(nat_to_text(len as u64).as_str());
                s.append(" != expected 74");
                s
            },
            PayloadError::V2Length { len } => {
                let mut s: String = String::from_str("v2 payload length ");
                s.append(nat_to_text(len as u64).as_str());
                s.append(" < head length 83");
                s
            },
            PayloadError::TruncatedEntitlements { index, cursor, len } => {
                let mut s: String = String::from_str("truncated entitlement list at index ");
                s.append(nat_to_text(index as u64).as_str());
                s.append(" (cursor ");
                s.append(nat_to_text(cursor as u64).as_str());
                s.append(", len ");
                s.append(nat_to_text(len as u64).as_str());
                s.append(")");
                s
            },
            PayloadError::EntitlementOverrun { index, len } => {
                let mut s: String = String::from_str("entitlement ");
                s.append(nat_to_text(index as u64).as_str());
                s.append(" length ");
                s.append(nat_to_text(len as u64).as_str());
                s.append(" runs past end of payload");
                s
            },
            PayloadError::EntitlementNotUtf8 { index } => {
                let mut s: String = String::from_str("entitlement ");
                s.append(nat_to_text(index as u64).as_str());
                s.append(" is not UTF-8");
                s
            },
            PayloadError::TrailingBytes { unread } => {
                let mut s: String = String::from_str("trailing bytes after entitlement list (");
                s.append(nat_to_text(unread as u64).as_str());
                s.append(" unread)");
                s
            },
        }
    }
}

// ---------- the wire form ----------

/// Eight bytes, the most significant first.
pub open spec fn be64(x: u64) -> Seq<u8> {
    seq![
        ((x >> 56) & 0xff) as u8,
        ((x >> 48) & 0xff) as u8,
        ((x >> 40) & 0xff) as u8,
        ((x >> 32) & 0xff) as u8,
        ((x >> 24) & 0xff) as u8,
        ((x >> 16) & 0xff) as u8,
        ((x >> 8) & 0xff) as u8,
        (x & 0xff) as u8,
    ]
}

/// The number whose bytes, the most significant first, are `b[at..at + 8]`.
pub open spec fn from_be64(b: Seq<u8>, at: int) -> u64 {
    (b[at] as u64) << 56 | (b[at + 1] as u64) << 48 | (b[at + 2] as u64) << 40 | (b[at
        + 3] as u64) << 32 | (b[at + 4] as u64) << 24 | (b[at + 5] as u64) << 16 | (b[at
        + 6] as u64) << 8 | (b[at + 7] as u64)
}

/// One entry of the entitlement table.
pub open spec fn entry_bytes(slug: Seq<char>) -> Seq<u8> {
    seq![encode_utf8(slug).len() as u8] + encode_utf8(slug)
}

/// The entitlement table.
pub open spec fn table_bytes(slugs: Seq<Seq<char>>) -> Seq<u8>
    decreases slugs.len(),
{
    if slugs.len() == 0 {
        seq![]
    } else {
        table_bytes(slugs.drop_last()) + entry_bytes(slugs.last())
    }
}

impl PayloadModel {
    /// Can the version 2 form hold this payload? At most 255 entitlements,
    /// each of at most 255 bytes.
    pub open spec fn fits(self) -> bool {
        &&& self.product_id.len() == 16
        &&& self.license_id.len() == 16
        &&& self.fingerprint_hash.len() == 32
        &&& self.entitlements.len() <= 255
        &&& forall|i: int|
            0 <= i < self.entitlements.len() ==> encode_utf8(
                #[trigger] self.entitlements[i],
            ).len() <= 255
    }

    /// Has the license expired at the given instant? A perpetual one never does.
    pub open spec fn is_expired(self, now_unix: int) -> bool {
        self.expires_at != 0 && now_unix >= self.expires_at
    }

    /// The fixed head of the version 2 form.
    pub open spec fn head_bytes(self) -> Seq<u8> {
        seq![KEY_VERSION_V2, self.flags] + self.product_id + self.license_id + be64(
            self.issued_at as u64,
        ) + be64(self.expires_at as u64) + self.fingerprint_hash + seq![
            self.entitlements.len() as u8,
        ]
    }

    /// The version 2 form.
    pub open spec fn wire(self) -> Seq<u8> {
        self.head_bytes() + table_bytes(self.entitlements)
    }
}

/// Reads entitlements `index` to `count` of the table from `cursor` on.
pub open spec fn read_table(b: Seq<u8>, cursor: int, index: int, count: int) -> Result<
    Seq<Seq<char>>,
    PayloadError,
>
    decreases count - index,
{
    if index >= count {
        if cursor == b.len() {
            Ok(seq![])
        } else {
            Err(PayloadError::TrailingBytes { unread: (b.len() - cursor) as usize })
        }
    } else if cursor >= b.len() {
        Err(
            PayloadError::TruncatedEntitlements {
                index: index as usize,
                cursor: cursor as usize,
                len: b.len() as usize,
            },
        )
    } else if cursor + 1 + b[cursor] > b.len() {
        Err(PayloadError::EntitlementOverrun { index: index as usize, len: b[cursor] as usize })
    } else {
        match utf8_text(b.subrange(cursor + 1, cursor + 1 + b[cursor])) {
            None => Err(PayloadError::EntitlementNotUtf8 { index: index as usize }),
            Some(slug) => match read_table(b, cursor + 1 + b[cursor], index + 1, count) {
                Ok(rest) => Ok(seq![slug] + rest),
                Err(e) => Err(e),
            },
        }
    }
}

/// What a version 1 blob of the right length says.
pub open spec fn read_v1(b: Seq<u8>) -> PayloadModel {
    PayloadModel {
        version: KEY_VERSION_V1,
        flags: b[1],
        product_id: b.subrange(2, 18),
        license_id: b.subrange(18, 34),
        issued_at: from_be64(b, 34) as i64,
        expires_at: 0,
        fingerprint_hash: b.subrange(42, 74),
        entitlements: seq![],
    }
}

/// What a blob says, or why it is no payload.
pub open spec fn read_payload(b: Seq<u8>) -> Result<PayloadModel, PayloadError> {
    if b.len() == 0 {
        Err(PayloadError::Empty)
    } else if b[0] == KEY_VERSION_V1 {
        if b.len() != 74 {
            Err(PayloadError::V1Length { len: b.len() as usize })
        } else {
            Ok(read_v1(b))
        }
    } else if b[0] == KEY_VERSION_V2 {
        if b.len() < 83 {
            Err(PayloadError::V2Length { len: b.len() as usize })
        } else {
            match read_table(b, 83, 0, b[82] as int) {
                Ok(slugs) => Ok(
                    PayloadModel {
                        version: KEY_VERSION_V2,
                        flags: b[1],
                        product_id: b.subrange(2, 18),
                        license_id: b.subrange(18, 34),
                        issued_at: from_be64(b, 34) as i64,
                        expires_at: from_be64(b, 42) as i64,
                        fingerprint_hash: b.subrange(50, 82),
                        entitlements: slugs,
                    },
                ),
                Err(e) => Err(e),
            }
        }
    } else {
        Err(PayloadError::UnsupportedVersion { version: b[0] })
    }
}

// ---------- the code ----------

fn push_all(out: &mut Vec<u8>, more: &[u8])
    ensures
        final(out)@ == old(out)@ + more@,
{
    let ghost before = out@;
    for i in 0..more.len()
        invariant
            out@ == before + more@.take(i as int),
    {
        out.push(more[i]);
        assert(more@.take(i + 1) == more@.take(i as int).push(more@[i as int]));
    }
    assert(more@.take(more@.len() as int) == more@);
}

fn push_be64(out: &mut Vec<u8>, x: u64)
    ensures
        final(out)@ == old(out)@ + be64(x),
{
    out.push(((x >> 56) & 0xff) as u8);
    out.push(((x >> 48) & 0xff) as u8);
    out.push(((x >> 40) & 0xff) as u8);
    out.push(((x >> 32) & 0xff) as u8);
    out.push(((x >> 24) & 0xff) as u8);
    out.push(((x >> 16) & 0xff) as u8);
    out.push(((x >> 8) & 0xff) as u8);
    out.push((x & 0xff) as u8);
    assert(out@ == old(out)@ + be64(x));
}

fn read_be64(b: &[u8], at: usize) -> (r: u64)
    requires
        at + 8 <= b@.len(),
    ensures
        r == from_be64(b@, at as int),
{
    (b[at] as u64) << 56 | (b[at + 1] as u64) << 48 | (b[at + 2] as u64) << 40 | (b[at
        + 3] as u64) << 32 | (b[at + 4] as u64) << 24 | (b[at + 5] as u64) << 16 | (b[at
        + 6] as u64) << 8 | (b[at + 7] as u64)
}

fn read_uuid(b: &[u8], at: usize) -> (r: Uuid)
    requires
        at + 16 <= b@.len(),
    ensures
        r@ == b@.subrange(at as int, at + 16),
{
    let mut bytes: [u8; 16] = [0u8; 16];
    let total: usize = b.len();
    for i in 0..16usize
        invariant
            at + 16 <= total == b@.len(),
            forall|j: int| 0 <= j < i ==> bytes@[j] == b@[at + j],
    {
        bytes[i] = b[at + i];
    }
    assert(bytes@ == b@.subrange(at as int, at + 16));
    Uuid { bytes }
}

fn read_hash(b: &[u8], at: usize) -> (r: [u8; 32])
    requires
        at + 32 <= b@.len(),
    ensures
        r@ == b@.subrange(at as int, at + 32),
{
    let mut bytes: [u8; 32] = [0u8; 32];
    let total: usize = b.len();
    for i in 0..32usize
        invariant
            at + 32 <= total == b@.len(),
            forall|j: int| 0 <= j < i ==> bytes@[j] == b@[at + j],
    {
        bytes[i] = b[at + i];
    }
    assert(bytes@ == b@.subrange(at as int, at + 32));
    bytes
}

impl LicensePayload {
    /// Is the license bound to a fingerprint?
    pub fn is_fingerprint_bound(&self) -> (r: bool)
        ensures
            r == (self.flags & FLAG_FINGERPRINT_BOUND != 0),
    {
        self.flags & FLAG_FINGERPRINT_BOUND != 0
    }

    /// Was the license issued as a trial?
    pub fn is_trial(&self) -> (r: bool)
        ensures
            r == (self.flags & FLAG_TRIAL != 0),
    {
        self.flags & FLAG_TRIAL != 0
    }

    /// Has the license expired at the given instant? A perpetual one never does.
    pub fn is_expired_at(&self, now_unix: i64) -> (r: bool)
        ensures
            r == (self.expires_at != 0 && now_unix >= self.expires_at),
            r == self@.is_expired(now_unix as int),
    {
        self.expires_at != 0 && now_unix >= self.expires_at
    }

    /// Does the license grant the entitlement? The comparison is exact.
    pub fn has_entitlement(&self, slug: &str) -> (r: bool)
        ensures
            r == self@.entitlements.contains(slug@),
    {
        is_one_of(&self.entitlements, slug)
    }

    /// The version 2 form. Version 1 is never written.
    pub fn to_bytes(&self) -> (r: Vec<u8>)
        requires
            self@.fits(),
        ensures
            r@ == self@.wire(),
    {
        let mut buf: Vec<u8> = Vec::new();
        buf.push(KEY_VERSION_V2);
        buf.push(self.flags);
        assert(buf@ == seq![KEY_VERSION_V2, self.flags]);
        push_all(&mut buf, self.product_id.bytes.as_slice());
        push_all(&mut buf, self.license_id.bytes.as_slice());
        push_be64(&mut buf, self.issued_at as u64);
        push_be64(&mut buf, self.expires_at as u64);
        push_all(&mut buf, self.fingerprint_hash.as_slice());
        let n: usize = self.entitlements.len();
        buf.push(n as u8);
        assert(buf@ == self@.head_bytes());
        for i in 0..self.entitlements.len()
            invariant
                self@.fits(),
                buf@ == self@.head_bytes() + table_bytes(self@.entitlements.take(i as int)),
        {
            let ghost slugs = self@.entitlements;
            let bytes: &[u8] = self.entitlements[i].as_str().as_bytes();
            assert(slugs[i as int] == self.entitlements@[i as int]@);
            let len: usize = bytes.len();
            buf.push(len as u8);
            push_all(&mut buf, bytes);
            assert(slugs.take(i + 1).drop_last() == slugs.take(i as int));
            assert(buf@ == self@.head_bytes() + (table_bytes(slugs.take(i as int)) + entry_bytes(
                slugs[i as int],
            )));
        }
        assert(self@.entitlements.take(self@.entitlements.len() as int) == self@.entitlements);
        buf
    }

    /// Reads a payload blob; its first byte tells the version.
    pub fn from_bytes(bytes: &[u8]) -> (r: Result<LicensePayload, PayloadError>)
        ensures
            match r {
                Ok(p) => read_payload(bytes@) == Ok::<PayloadModel, PayloadError>(p@),
                Err(e) => read_payload(bytes@) == Err::<PayloadModel, PayloadError>(e),
            },
    {
        if bytes.len() == 0 {
            return Err(PayloadError::Empty);
        }
        if bytes[0] == KEY_VERSION_V1 {
            Self::from_bytes_v1(bytes)
        } else if bytes[0] == KEY_VERSION_V2 {
            Self::from_bytes_v2(bytes)
        } else {
            Err(PayloadError::UnsupportedVersion { version: bytes[0] })
        }
    }

    fn from_bytes_v1(bytes: &[u8]) -> (r: Result<LicensePayload, PayloadError>)
        requires
            bytes@.len() > 0,
            bytes@[0] == KEY_VERSION_V1,
        ensures
            match r {
                Ok(p) => read_payload(bytes@) == Ok::<PayloadModel, PayloadError>(p@),
                Err(e) => read_payload(bytes@) == Err::<PayloadModel, PayloadError>(e),
            },
    {
        let len: usize = bytes.len();
        if len != PAYLOAD_V1_LEN {
            return Err(PayloadError::V1Length { len });
        }
        let p = LicensePayload {
            version: KEY_VERSION_V1,
            flags: bytes[1],
            product_id: read_uuid(bytes, 2),
            license_id: read_uuid(bytes, 18),
            issued_at: read_be64(bytes, 34) as i64,
            expires_at: 0,
            fingerprint_hash: read_hash(bytes, 42),
            entitlements: Vec::new(),
        };
        assert(p@ =~= read_v1(bytes@));
        Ok(p)
    }

    /// Reads a version 2 blob. It is refused exactly where it is the wire form of
    /// no payload.
    pub fn from_bytes_v2(bytes: &[u8]) -> (r: Result<LicensePayload, PayloadError>)
        requires
            bytes@.len() > 0,
            bytes@[0] == KEY_VERSION_V2,
        ensures
            match r {
                Ok(p) => read_payload(bytes@) == Ok::<PayloadModel, PayloadError>(p@),
                Err(e) => read_payload(bytes@) == Err::<PayloadModel, PayloadError>(e),
            },
            r matches Ok(p) ==> p.version == KEY_VERSION_V2 && p@.fits() && p@.wire() == bytes@,
            r is Err <==> forall|p: PayloadModel| p.fits() ==> #[trigger] p.wire() != bytes@,
    {
        proof {
            wire_forms_are_read_and_nothing_else(bytes@);
        }
        Self::read_v2(bytes)
    }

    fn read_v2(bytes: &[u8]) -> (r: Result<LicensePayload, PayloadError>)
        requires
            bytes@.len() > 0,
            bytes@[0] == KEY_VERSION_V2,
        ensures
            match r {
                Ok(p) => read_payload(bytes@) == Ok::<PayloadModel, PayloadError>(p@),
                Err(e) => read_payload(bytes@) == Err::<PayloadModel, PayloadError>(e),
            },
    {
        let total: usize = bytes.len();
        if total < PAYLOAD_V2_HEAD_LEN {
            return Err(PayloadError::V2Length { len: total });
        }
        let n: usize = bytes[82] as usize;
        let mut entitlements: Vec<String> = Vec::new();
        let mut cursor: usize = PAYLOAD_V2_HEAD_LEN;
        let mut i: usize = 0;
        assert(texts(entitlements@) == Seq::<Seq<char>>::empty());
        proof {
            let r = read_table(bytes@, 83, 0, n as int);
            if r is Ok {
                assert(texts(entitlements@) + r->Ok_0 == r->Ok_0);
            }
        }
        while i < n
            invariant
                83 <= cursor <= total == bytes@.len(),
                i <= n <= 255,
                match read_table(bytes@, cursor as int, i as int, n as int) {
                    Ok(rest) => read_table(bytes@, 83, 0, n as int) == Ok::<
                        Seq<Seq<char>>,
                        PayloadError,
                    >(texts(entitlements@) + rest),
                    Err(e) => read_table(bytes@, 83, 0, n as int) == Err::<
                        Seq<Seq<char>>,
                        PayloadError,
                    >(e),
                },
                bytes@[0] == KEY_VERSION_V2,
                n == bytes@[82],
            decreases n - i,
        {
            if cursor >= total {
                return Err(PayloadError::TruncatedEntitlements { index: i, cursor, len: total });
            }
            let len: usize = bytes[cursor] as usize;
            if len > total - cursor - 1 {
                return Err(PayloadError::EntitlementOverrun { index: i, len });
            }
            let part: &[u8] = vstd::slice::slice_subrange(bytes, cursor + 1, cursor + 1 + len);
            match text_of_utf8(part) {
                None => {
                    return Err(PayloadError::EntitlementNotUtf8 { index: i });
                },
                Some(slug) => {
                    let ghost before = texts(entitlements@);
                    entitlements.push(String::from_str(slug));
                    proof {
                        assert(texts(entitlements@) == before.push(slug@));
                        match read_table(bytes@, cursor + 1 + len, i + 1, n as int) {
                            Ok(rest) => {
                                assert(before + (seq![slug@] + rest) == before.push(slug@) + rest);
                            },
                            Err(e) => {},
                        }
                    }
                },
            }
            cursor = cursor + 1 + len;
            i += 1;
        }
        if cursor != total {
            return Err(PayloadError::TrailingBytes { unread: total - cursor });
        }
        assert(texts(entitlements@) + Seq::<Seq<char>>::empty() == texts(entitlements@));
        Ok(
            LicensePayload {
                version: KEY_VERSION_V2,
                flags: bytes[1],
                product_id: read_uuid(bytes, 2),
                license_id: read_uuid(bytes, 18),
                issued_at: read_be64(bytes, 34) as i64,
                expires_at: read_be64(bytes, 42) as i64,
                fingerprint_hash: read_hash(bytes, 50),
                entitlements,
            },
        )
    }
}

// ---------- laws ----------

proof fn lemma_be64(x: u64, b: Seq<u8>, at: int)
    requires
        0 <= at,
        at + 8 <= b.len(),
        b.subrange(at, at + 8) == be64(x),
    ensures
        from_be64(b, at) == x,
{
    let s = b.subrange(at, at + 8);
    assert(s[0] == b[at] && s[1] == b[at + 1] && s[2] == b[at + 2] && s[3] == b[at + 3] && s[4] == b[at
        + 4] && s[5] == b[at + 5] && s[6] == b[at + 6] && s[7] == b[at + 7]);
    assert(x == (((x >> 56) & 0xff) as u8 as u64) << 56 | (((x >> 48) & 0xff) as u8 as u64) << 48 | (((x
        >> 40) & 0xff) as u8 as u64) << 40 | (((x >> 32) & 0xff) as u8 as u64) << 32 | (((x >> 24)
        & 0xff) as u8 as u64) << 24 | (((x >> 16) & 0xff) as u8 as u64) << 16 | (((x >> 8)
        & 0xff) as u8 as u64) << 8 | ((x & 0xff) as u8 as u64)) by (bit_vector);
}

proof fn lemma_be64_back(b: Seq<u8>, at: int)
    requires
        0 <= at,
        at + 8 <= b.len(),
    ensures
        be64(from_be64(b, at)) == b.subrange(at, at + 8),
{
    let x = from_be64(b, at);
    let (b0, b1, b2, b3) = (b[at], b[at + 1], b[at + 2], b[at + 3]);
    let (b4, b5, b6, b7) = (b[at + 4], b[at + 5], b[at + 6], b[at + 7]);
    assert(((x >> 56) & 0xff) as u8 == b0 && ((x >> 48) & 0xff) as u8 == b1 && ((x >> 40)
        & 0xff) as u8 == b2 && ((x >> 32) & 0xff) as u8 == b3 && ((x >> 24) & 0xff) as u8 == b4
        && ((x >> 16) & 0xff) as u8 == b5 && ((x >> 8) & 0xff) as u8 == b6 && (x & 0xff) as u8
        == b7) by (bit_vector)
        requires
            x == (b0 as u64) << 56 | (b1 as u64) << 48 | (b2 as u64) << 40 | (b3 as u64) << 32 | (
            b4 as u64) << 24 | (b5 as u64) << 16 | (b6 as u64) << 8 | (b7 as u64),
    ;
    assert(be64(x) =~= b.subrange(at, at + 8));
}

/// Reading the table behind any head gives back the entitlements from `index` on.
proof fn lemma_read_table(b: Seq<u8>, slugs: Seq<Seq<char>>, index: int)
    requires
        0 <= index <= slugs.len() <= 255,
        b.len() >= 83,
        b.subrange(83, b.len() as int) == table_bytes(slugs),
        forall|i: int| 0 <= i < slugs.len() ==> encode_utf8(#[trigger] slugs[i]).len() <= 255,
    ensures
        read_table(
            b,
            (83 + table_bytes(slugs.take(index)).len()) as int,
            index,
            slugs.len() as int,
        ) == Ok::<Seq<Seq<char>>, PayloadError>(slugs.subrange(index, slugs.len() as int)),
    decreases slugs.len() - index,
{
    let cursor: int = (83 + table_bytes(slugs.take(index)).len()) as int;
    if index == slugs.len() {
        assert(slugs.take(index) == slugs);
        assert(slugs.subrange(index, slugs.len() as int) == Seq::<Seq<char>>::empty());
    } else {
        lemma_table_prefix(slugs, index);
        let slug = slugs[index];
        let entry = entry_bytes(slug);
        let len = encode_utf8(slug).len() as int;
        let next = slugs.take(index + 1);
        assert(next.drop_last() == slugs.take(index));
        let t = table_bytes(slugs);
        let at = table_bytes(slugs.take(index)).len() as int;
        lemma_table_prefix(slugs, index + 1);
        assert(t.subrange(0, table_bytes(next).len() as int) == table_bytes(next));
        assert(b[cursor] == t[at]);
        assert(t[at] == table_bytes(next)[at]);
        assert(b[cursor] == len);
        assert(b.subrange(cursor + 1, cursor + 1 + len) =~= encode_utf8(slug)) by {
            assert forall|k: int| 0 <= k < len implies b[cursor + 1 + k] == encode_utf8(
                slug,
            )[k] by {
                assert(b[cursor + 1 + k] == t[at + 1 + k]);
                assert(t[at + 1 + k] == table_bytes(next)[at + 1 + k]);
            }
        }
        encode_utf8_valid_utf8(slug);
        encode_utf8_decode_utf8(slug);
        lemma_read_table(b, slugs, index + 1);
        assert(seq![slug] + slugs.subrange(index + 1, slugs.len() as int) =~= slugs.subrange(
            index,
            slugs.len() as int,
        ));
    }
}

/// The table of the first `k` entitlements begins the table of all.
proof fn lemma_table_prefix(slugs: Seq<Seq<char>>, k: int)
    requires
        0 <= k <= slugs.len(),
    ensures
        table_bytes(slugs.take(k)).len() <= table_bytes(slugs).len(),
        table_bytes(slugs).subrange(0, table_bytes(slugs.take(k)).len() as int) == table_bytes(
            slugs.take(k),
        ),
    decreases slugs.len(),
{
    if k == slugs.len() {
        assert(slugs.take(k) == slugs);
    } else {
        lemma_table_prefix(slugs.drop_last(), k);
        assert(slugs.drop_last().take(k) == slugs.take(k));
    }
}

/// What a payload's wire form reads back as is the payload: nothing that is
/// signed is lost, and nothing is added.
pub proof fn payload_round_trip(p: PayloadModel)
    requires
        p.version == KEY_VERSION_V2,
        p.fits(),
    ensures
        read_payload(p.wire()) == Ok::<PayloadModel, PayloadError>(p),
{
    let b = p.wire();
    let head = p.head_bytes();
    assert(head.len() == 83);
    assert(b.subrange(2, 18) =~= p.product_id);
    assert(b.subrange(18, 34) =~= p.license_id);
    assert(b.subrange(34, 42) =~= be64(p.issued_at as u64));
    assert(b.subrange(42, 50) =~= be64(p.expires_at as u64));
    assert(b.subrange(50, 82) =~= p.fingerprint_hash);
    assert(b[82] == p.entitlements.len());
    lemma_be64(p.issued_at as u64, b, 34);
    lemma_be64(p.expires_at as u64, b, 42);
    let (x, y) = (p.issued_at, p.expires_at);
    assert(x as u64 as i64 == x) by (bit_vector);
    assert(y as u64 as i64 == y) by (bit_vector);
    assert(b.subrange(83, b.len() as int) =~= table_bytes(p.entitlements));
    assert(p.entitlements.take(0) == Seq::<Seq<char>>::empty());
    lemma_read_table(b, p.entitlements, 0);
    assert(p.entitlements.subrange(0, p.entitlements.len() as int) == p.entitlements);
    assert(read_payload(b)->Ok_0 =~= p);
}

/// The bytes from `cursor` on are the table of what is read there.
proof fn lemma_table_read_back(b: Seq<u8>, cursor: int, index: int, count: int)
    requires
        0 <= cursor <= b.len(),
        0 <= index <= count,
        read_table(b, cursor, index, count) is Ok,
    ensures
        ({
            let slugs = read_table(b, cursor, index, count)->Ok_0;
            &&& slugs.len() == count - index
            &&& table_bytes(slugs) == b.subrange(cursor, b.len() as int)
            &&& forall|i: int|
                0 <= i < slugs.len() ==> encode_utf8(#[trigger] slugs[i]).len() <= 255
        }),
    decreases count - index,
{
    if index < count {
        let len = b[cursor] as int;
        let part = b.subrange(cursor + 1, cursor + 1 + len);
        let slug = utf8_text(part)->0;
        decode_utf8_encode_utf8(part);
        lemma_table_read_back(b, cursor + 1 + len, index + 1, count);
        let rest = read_table(b, cursor + 1 + len, index + 1, count)->Ok_0;
        lemma_table_first(slug, rest);
        assert(entry_bytes(slug) + b.subrange(cursor + 1 + len, b.len() as int) =~= b.subrange(
            cursor,
            b.len() as int,
        ));
    } else {
        assert(b.subrange(cursor, b.len() as int) =~= table_bytes(seq![]));
    }
}

proof fn lemma_table_first(slug: Seq<char>, rest: Seq<Seq<char>>)
    ensures
        table_bytes(seq![slug] + rest) == entry_bytes(slug) + table_bytes(rest),
    decreases rest.len(),
{
    let all = seq![slug] + rest;
    if rest.len() == 0 {
        assert(all.drop_last() == Seq::<Seq<char>>::empty());
        assert(table_bytes(all.drop_last()) == Seq::<u8>::empty());
        assert(all.last() == slug);
        assert(table_bytes(all) =~= entry_bytes(slug) + table_bytes(rest));
    } else {
        assert(all.drop_last() == seq![slug] + rest.drop_last());
        lemma_table_first(slug, rest.drop_last());
        assert(table_bytes(all) =~= entry_bytes(slug) + table_bytes(rest));
    }
}

/// A version 2 blob that is read is the wire form of what it says, so no two
/// blobs say the same and every byte of a blob matters.
pub proof fn payload_is_canonical(b: Seq<u8>)
    requires
        read_payload(b) is Ok,
        read_payload(b)->Ok_0.version == KEY_VERSION_V2,
    ensures
        read_payload(b)->Ok_0.fits(),
        read_payload(b)->Ok_0.wire() == b,
{
    let p = read_payload(b)->Ok_0;
    lemma_table_read_back(b, 83, 0, b[82] as int);
    lemma_be64_back(b, 34);
    lemma_be64_back(b, 42);
    let (x, y) = (from_be64(b, 34), from_be64(b, 42));
    assert(x as i64 as u64 == x) by (bit_vector);
    assert(y as i64 as u64 == y) by (bit_vector);
    assert(p.head_bytes() =~= b.subrange(0, 83));
    assert(p.wire() =~= b);
}

/// A version 2 blob is read as the one payload that it is the wire form of, and
/// is refused exactly where it is the wire form of none.
pub proof fn wire_forms_are_read_and_nothing_else(b: Seq<u8>)
    requires
        b.len() > 0,
        b[0] == KEY_VERSION_V2,
    ensures
        read_payload(b) matches Ok(p) ==> p.version == KEY_VERSION_V2 && p.fits() && p.wire() == b,
        read_payload(b) is Err <==> forall|p: PayloadModel| p.fits() ==> #[trigger] p.wire() != b,
{
    if read_payload(b) is Ok {
        payload_is_canonical(b);
        let p = read_payload(b)->Ok_0;
        assert(p.fits() && p.wire() == b);
    } else {
        assert forall|p: PayloadModel| p.fits() implies #[trigger] p.wire() != b by {
            let q = PayloadModel { version: KEY_VERSION_V2, ..p };
            assert(q.head_bytes() == p.head_bytes());
            assert(q.wire() == p.wire());
            payload_round_trip(q);
        }
    }
}

/// A version 2 blob that was changed is read as another payload, if it is read at
/// all.
pub proof fn changed_blobs_are_read_differently(b: Seq<u8>, c: Seq<u8>)
    requires
        b.len() > 0,
        b[0] == KEY_VERSION_V2,
        c.len() > 0,
        c[0] == KEY_VERSION_V2,
        b != c,
        read_payload(b) is Ok,
    ensures
        read_payload(c) != read_payload(b),
{
    wire_forms_are_read_and_nothing_else(b);
    wire_forms_are_read_and_nothing_else(c);
}

/// Every version 1 blob of the right length is read, with nothing in the
/// fields that version 1 does not carry.
pub proof fn legacy_payloads_are_read(b: Seq<u8>)
    requires
        b.len() == PAYLOAD_V1_LEN,
        b[0] == KEY_VERSION_V1,
    ensures
        read_payload(b) is Ok,
        ({
            let p = read_payload(b)->Ok_0;
            &&& p.version == KEY_VERSION_V1
            &&& p.flags == b[1]
            &&& p.product_id == b.subrange(2, 18)
            &&& p.license_id == b.subrange(18, 34)
            &&& p.expires_at == 0
            &&& p.entitlements.len() == 0
        }),
{
}

} // verus!
