//! How a payload lies on the wire, and how time is counted.

use crate::clock::{unix_or_zero, Moment};
use crate::crypto::payload::{be64, from_be64, read_payload, table_bytes, PayloadModel};
use vstd::prelude::*;
use vstd::utf8::encode_utf8;

verus! {

/// The number that `n` bytes from `at` on stand for, the most significant first.
pub open spec fn number(b: Seq<u8>, at: int, n: nat) -> nat
    decreases n,
{
    if n == 0 {
        0
    } else {
        number(b, at, (n - 1) as nat) * 256 + b[at + n - 1] as nat
    }
}

proof fn lemma_be64(x: u64)
    ensures
        number(be64(x), 0, 8) == x,
{
    let b = be64(x);
    assert((x >> 56) & 0xff == x / 0x100_0000_0000_0000) by (bit_vector);
    assert((x >> 48) & 0xff == x / 0x1_0000_0000_0000 % 256) by (bit_vector);
    assert((x >> 40) & 0xff == x / 0x100_0000_0000 % 256) by (bit_vector);
    assert((x >> 32) & 0xff == x / 0x1_0000_0000 % 256) by (bit_vector);
    assert((x >> 24) & 0xff == x / 0x100_0000 % 256) by (bit_vector);
    assert((x >> 16) & 0xff == x / 0x1_0000 % 256) by (bit_vector);
    assert((x >> 8) & 0xff == x / 0x100 % 256) by (bit_vector);
    assert(x & 0xff == x % 256) by (bit_vector);
    reveal_with_fuel(number, 9);
    let n = x as int;
    assert(n / 256 / 256 == n / 0x1_0000);
    assert(n / 0x1_0000 / 256 == n / 0x100_0000);
    assert(n / 0x100_0000 / 256 == n / 0x1_0000_0000);
    assert(n / 0x1_0000_0000 / 256 == n / 0x100_0000_0000);
    assert(n / 0x100_0000_0000 / 256 == n / 0x1_0000_0000_0000);
    assert(n / 0x1_0000_0000_0000 / 256 == n / 0x100_0000_0000_0000);
}

proof fn lemma_moved(a: Seq<u8>, b: Seq<u8>, at: int, n: nat)
    requires
        0 <= at,
        at + n <= b.len(),
        n <= a.len(),
        forall|i: int| 0 <= i < n ==> #[trigger] b[at + i] == a[i],
    ensures
        number(b, at, n) == number(a, 0, n),
    decreases n,
{
    if n > 0 {
        lemma_moved(a, b, at, (n - 1) as nat);
        assert(b[at + (n - 1)] == a[n - 1]);
    }
}

/// A payload lies on the wire field behind field, each at its place; numbers have
/// the most significant byte first.
pub proof fn payloads_are_laid_out(p: PayloadModel)
    requires
        p.fits(),
    ensures
        p.wire().len() >= 83,
        p.wire()[0] == 2,
        p.wire()[1] == p.flags,
        p.wire().subrange(2, 18) == p.product_id,
        p.wire().subrange(18, 34) == p.license_id,
        number(p.wire(), 34, 8) == p.issued_at as u64,
        number(p.wire(), 42, 8) == p.expires_at as u64,
        p.wire().subrange(50, 82) == p.fingerprint_hash,
        p.wire()[82] == p.entitlements.len(),
        p.wire().subrange(83, p.wire().len() as int) == table_bytes(p.entitlements),
{
    let w = p.wire();
    let h = p.head_bytes();
    assert(h.len() == 83);
    assert(w.subrange(2, 18) =~= p.product_id);
    assert(w.subrange(18, 34) =~= p.license_id);
    assert(w.subrange(50, 82) =~= p.fingerprint_hash);
    assert(w.subrange(83, w.len() as int) =~= table_bytes(p.entitlements));
    let issued = be64(p.issued_at as u64);
    let ends = be64(p.expires_at as u64);
    lemma_be64(p.issued_at as u64);
    lemma_be64(p.expires_at as u64);
    assert forall|i: int| 0 <= i < 8 implies #[trigger] w[34 + i] == issued[i] by {
        assert(h[34 + i] == issued[i]);
    }
    assert forall|i: int| 0 <= i < 8 implies #[trigger] w[42 + i] == ends[i] by {
        assert(h[42 + i] == ends[i]);
    }
    lemma_moved(issued, w, 34, 8);
    lemma_moved(ends, w, 42, 8);
}

/// Entitlements lie behind each other, each as its length and its bytes.
pub proof fn entitlements_are_laid_out(slugs: Seq<Seq<char>>, last: Seq<char>)
    requires
        encode_utf8(last).len() <= 255,
    ensures
        table_bytes(Seq::<Seq<char>>::empty()).len() == 0,
        ({
            let before = table_bytes(slugs);
            let all = table_bytes(slugs.push(last));
            &&& all.len() == before.len() + 1 + encode_utf8(last).len()
            &&& all.subrange(0, before.len() as int) == before
            &&& all[before.len() as int] == encode_utf8(last).len()
            &&& all.subrange(before.len() as int + 1, all.len() as int) == encode_utf8(last)
        }),
{
    assert(slugs.push(last).drop_last() =~= slugs);
    let before = table_bytes(slugs);
    let all = table_bytes(slugs.push(last));
    assert(all.subrange(0, before.len() as int) =~= before);
    assert(all.subrange(before.len() as int + 1, all.len() as int) =~= encode_utf8(last));
}

proof fn lemma_from_be64(b: Seq<u8>, at: int)
    requires
        0 <= at,
        at + 8 <= b.len(),
    ensures
        from_be64(b, at) == number(b, at, 8),
{
    let x0 = b[at] as u64;
    let x1 = b[at + 1] as u64;
    let x2 = b[at + 2] as u64;
    let x3 = b[at + 3] as u64;
    let x4 = b[at + 4] as u64;
    let x5 = b[at + 5] as u64;
    let x6 = b[at + 6] as u64;
    let x7 = b[at + 7] as u64;
    let y = x0 << 56 | x1 << 48 | x2 << 40 | x3 << 32 | x4 << 24 | x5 << 16 | x6 << 8 | x7;
    assert(y / 0x100_0000_0000_0000 == x0 && y / 0x1_0000_0000_0000 % 256 == x1 && y
        / 0x100_0000_0000 % 256 == x2 && y / 0x1_0000_0000 % 256 == x3 && y / 0x100_0000 % 256
        == x4 && y / 0x1_0000 % 256 == x5 && y / 0x100 % 256 == x6 && y % 256 == x7)
        by (bit_vector)
        requires
            x0 < 256,
            x1 < 256,
            x2 < 256,
            x3 < 256,
            x4 < 256,
            x5 < 256,
            x6 < 256,
            x7 < 256,
            y == x0 << 56 | x1 << 48 | x2 << 40 | x3 << 32 | x4 << 24 | x5 << 16 | x6 << 8 | x7,
    ;
    reveal_with_fuel(number, 9);
    let n = y as int;
    assert(n / 256 / 256 == n / 0x1_0000);
    assert(n / 0x1_0000 / 256 == n / 0x100_0000);
    assert(n / 0x100_0000 / 256 == n / 0x1_0000_0000);
    assert(n / 0x1_0000_0000 / 256 == n / 0x100_0000_0000);
    assert(n / 0x100_0000_0000 / 256 == n / 0x1_0000_0000_0000);
    assert(n / 0x1_0000_0000_0000 / 256 == n / 0x100_0000_0000_0000);
}

/// A blob is read field behind field, each from its place.
pub proof fn blobs_are_read_by_place(b: Seq<u8>)
    ensures
        b.len() == 0 ==> read_payload(b) is Err,
        b.len() > 0 && b[0] != 1 && b[0] != 2 ==> read_payload(b) is Err,
        b.len() > 0 && b[0] == 1 ==> (read_payload(b) is Ok <==> b.len() == 74),
        b.len() > 0 && b[0] == 2 && b.len() < 83 ==> read_payload(b) is Err,
        read_payload(b) matches Ok(p) ==> {
            &&& p.version == b[0]
            &&& p.flags == b[1]
            &&& p.product_id == b.subrange(2, 18)
            &&& p.license_id == b.subrange(18, 34)
            &&& p.issued_at as u64 == number(b, 34, 8)
            &&& b[0] == 2 ==> p.expires_at as u64 == number(b, 42, 8) && p.fingerprint_hash
                == b.subrange(50, 82)
            &&& b[0] == 1 ==> p.expires_at == 0 && p.fingerprint_hash == b.subrange(42, 74)
                && p.entitlements.len() == 0
        },
{
    if read_payload(b) is Ok {
        lemma_from_be64(b, 34);
        let x = from_be64(b, 34);
        assert(x as i64 as u64 == x) by (bit_vector);
        if b[0] == 2 {
            lemma_from_be64(b, 42);
            let y = from_be64(b, 42);
            assert(y as i64 as u64 == y) by (bit_vector);
        }
    }
}

// ---------- time ----------

/// Of two moments one comes first, or they are the same.
pub proof fn moments_are_in_order(a: Moment, b: Moment, c: Moment)
    ensures
        !a.is_before(a),
        a.is_before(b) ==> !b.is_before(a),
        a.is_before(b) && b.is_before(c) ==> a.is_before(c),
        a.is_before(b) || b.is_before(a) || a == b,
        a.secs < b.secs ==> a.is_before(b),
        a.secs == b.secs && a.nanos < b.nanos ==> a.is_before(b),
{
}

/// A moment that lies some seconds ahead is that many seconds ahead, and the
/// calendar reaches to it exactly where it can write it.
pub proof fn seconds_are_added(t: Moment, secs: int)
    requires
        t.nanos < 1_000_000_000,
    ensures
        t.can_add(secs) <==> -8_334_601_228_800 <= t.secs + secs <= 8_210_266_876_799,
        t.can_add(secs) ==> t.later(secs).secs == t.secs + secs && t.later(secs).nanos == t.nanos
            && t.later(secs).in_calendar(),
        t.can_add(secs) && secs > 0 ==> t.is_before(t.later(secs)),
        t.later(0) == t,
{
}

/// A time that can be read counts as its second; one that cannot, or is not there,
/// as none.
pub proof fn unreadable_times_count_as_none(text: Seq<char>, secs: i64, nanos: u32)
    ensures
        unix_or_zero(None) == 0,
        crate::clock::rfc3339_parts(text) == Some((secs, nanos)) ==> unix_or_zero(Some(text))
            == secs,
        crate::clock::rfc3339_parts(text) is None ==> unix_or_zero(Some(text)) == 0,
        crate::clock::rfc3339_parts(text) == Some((secs, nanos)) ==> crate::clock::rfc3339_moment(
            text,
        ) == Some(Moment { secs, nanos }),
        crate::clock::rfc3339_parts(text) is None ==> crate::clock::rfc3339_moment(text) is None,
{
}

} // verus!
