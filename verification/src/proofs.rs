//! What holds of the canonical form: it is a function of the claim's fields,
//! it tells any two claims apart, and a claim without a note leaves no
//! `metadata` member in it.

use vstd::prelude::*;
use vstd::utf8::encode_utf8;
use crate::canonical::{
    canonical_bytes, data_key, decimal_digits, escape_byte, escape_bytes, hex_digit, json_string,
    metadata_key, metadata_member, timestamp_key, ClaimView,
};

verus! {

/// Escaping goes byte by byte: the escaped form of two runs, one after the
/// other, is the one's escaped form and then the other's.
pub proof fn lemma_escape_concat(a: Seq<u8>, b: Seq<u8>)
    ensures
        escape_bytes(a + b) == escape_bytes(a) + escape_bytes(b),
    decreases b.len(),
{
    if b.len() == 0 {
        assert(a + b =~= a);
        assert(escape_bytes(a) + escape_bytes(b) =~= escape_bytes(a));
    } else {
        lemma_escape_concat(a, b.drop_last());
        assert((a + b).drop_last() =~= a + b.drop_last());
        assert((a + b).last() == b.last());
        assert(escape_bytes(a + b) =~= escape_bytes(a) + escape_bytes(b));
    }
}

/// The escaped form of a run that is not empty begins with the escape of
/// the run's first byte.
proof fn lemma_escape_first(x: Seq<u8>)
    requires
        x.len() > 0,
    ensures
        escape_bytes(x) == escape_byte(x[0]) + escape_bytes(x.drop_first()),
{
    let head = seq![x[0]];
    assert(x =~= head + x.drop_first());
    lemma_escape_concat(head, x.drop_first());
    assert(head.drop_last() =~= Seq::<u8>::empty());
    assert(escape_bytes(Seq::<u8>::empty()) =~= Seq::<u8>::empty());
    assert(head.last() == x[0]);
    assert(escape_bytes(head) =~= escape_byte(x[0]));
}

/// Two bytes whose escapes begin two equal runs are the same byte.
proof fn lemma_escape_byte_decides(b1: u8, b2: u8, r1: Seq<u8>, r2: Seq<u8>)
    requires
        escape_byte(b1) + r1 == escape_byte(b2) + r2,
    ensures
        b1 == b2,
        r1 == r2,
{
    let u = escape_byte(b1);
    let v = escape_byte(b2);
    let s1 = u + r1;
    let s2 = v + r2;
    assert(s1[0] == u[0] && s2[0] == v[0]);
    if u[0] != 0x5c {
        assert(u.len() == 1 && v.len() == 1);
    } else {
        assert(v[0] == 0x5c);
        assert(u.len() >= 2 && v.len() >= 2);
        assert(s1[1] == u[1] && s2[1] == v[1]);
        if u[1] == 0x75 {
            assert(u.len() == 6 && v.len() == 6);
            assert(s1[4] == u[4] && s2[4] == v[4]);
            assert(s1[5] == u[5] && s2[5] == v[5]);
            assert(hex_digit(b1 as int / 16) == hex_digit(b2 as int / 16));
            assert(hex_digit(b1 as int % 16) == hex_digit(b2 as int % 16));
        }
    }
    assert(b1 == b2);
    assert(r1 =~= s1.subrange(u.len() as int, s1.len() as int));
    assert(r2 =~= s2.subrange(v.len() as int, s2.len() as int));
}

/// An escaped run ends where the first bare quote stands: of two escaped
/// runs, each followed by a quote, neither is the start of the other.
proof fn lemma_escape_delimited(x: Seq<u8>, y: Seq<u8>, r1: Seq<u8>, r2: Seq<u8>)
    requires
        r1.len() > 0 && r1[0] == 0x22,
        r2.len() > 0 && r2[0] == 0x22,
        escape_bytes(x) + r1 == escape_bytes(y) + r2,
    ensures
        x == y,
        r1 == r2,
    decreases x.len(),
{
    let s1 = escape_bytes(x) + r1;
    let s2 = escape_bytes(y) + r2;
    if x.len() == 0 {
        assert(s1 =~= r1);
        if y.len() > 0 {
            lemma_escape_first(y);
            assert(s2[0] == escape_byte(y[0])[0]);
            assert(false);
        }
        assert(s2 =~= r2);
        assert(x =~= y);
    } else if y.len() == 0 {
        assert(s2 =~= r2);
        lemma_escape_first(x);
        assert(s1[0] == escape_byte(x[0])[0]);
        assert(false);
    } else {
        lemma_escape_first(x);
        lemma_escape_first(y);
        let t1 = escape_bytes(x.drop_first()) + r1;
        let t2 = escape_bytes(y.drop_first()) + r2;
        assert(s1 =~= escape_byte(x[0]) + t1);
        assert(s2 =~= escape_byte(y[0]) + t2);
        lemma_escape_byte_decides(x[0], y[0], t1, t2);
        lemma_escape_delimited(x.drop_first(), y.drop_first(), r1, r2);
        assert(x =~= seq![x[0]] + x.drop_first());
        assert(y =~= seq![y[0]] + y.drop_first());
    }
}


/// The number that a run of decimal digits writes.
spec fn decimal_value(digits: Seq<u8>) -> int
    decreases digits.len(),
{
    if digits.len() == 0 {
        0
    } else {
        10 * decimal_value(digits.drop_last()) + (digits.last() - 0x30)
    }
}

/// The digits of a number are digits: at least one of them, each between
/// `0` and `9`, and they write the number.
proof fn lemma_decimal_digits(n: nat)
    ensures
        decimal_digits(n).len() >= 1,
        forall|i: int| 0 <= i < decimal_digits(n).len() ==> 0x30 <= #[trigger] decimal_digits(n)[i] <= 0x39,
        decimal_value(decimal_digits(n)) == n,
    decreases n,
{
    if n < 10 {
        let d = decimal_digits(n);
        assert(d.drop_last() =~= Seq::<u8>::empty());
        assert(decimal_value(d.drop_last()) == 0);
    } else {
        lemma_decimal_digits(n / 10);
        let d = decimal_digits(n);
        assert(d.drop_last() =~= decimal_digits(n / 10));
    }
}

/// Two numbers with the same digits are the same number.
proof fn lemma_decimal_decides(m: nat, n: nat)
    requires
        decimal_digits(m) == decimal_digits(n),
    ensures
        m == n,
{
    lemma_decimal_digits(m);
    lemma_decimal_digits(n);
}

/// Two texts with the same UTF-8 bytes are the same text.
proof fn lemma_utf8_decides(a: Seq<char>, b: Seq<char>)
    requires
        encode_utf8(a) == encode_utf8(b),
    ensures
        a == b,
{
    vstd::utf8::encode_utf8_decode_utf8(a);
    vstd::utf8::encode_utf8_decode_utf8(b);
}


/// A JSON string ends where its closing quote stands: of two strings, each
/// followed by more bytes, neither is the start of the other.
proof fn lemma_json_string_delimited(a: Seq<char>, b: Seq<char>, r1: Seq<u8>, r2: Seq<u8>)
    requires
        json_string(a) + r1 == json_string(b) + r2,
    ensures
        a == b,
        r1 == r2,
{
    let quote = seq![0x22u8];
    let s1 = json_string(a) + r1;
    let s2 = json_string(b) + r2;
    let t1 = quote + r1;
    let t2 = quote + r2;
    assert(s1 =~= quote + (escape_bytes(encode_utf8(a)) + t1));
    assert(s2 =~= quote + (escape_bytes(encode_utf8(b)) + t2));
    assert(escape_bytes(encode_utf8(a)) + t1 =~= s1.subrange(1, s1.len() as int));
    assert(escape_bytes(encode_utf8(b)) + t2 =~= s2.subrange(1, s2.len() as int));
    lemma_escape_delimited(encode_utf8(a), encode_utf8(b), t1, t2);
    lemma_utf8_decides(a, b);
    assert(r1 =~= t1.subrange(1, t1.len() as int));
    assert(r2 =~= t2.subrange(1, t2.len() as int));
}

/// What follows the member `data` in the canonical form.
spec fn after_data(claim: ClaimView) -> Seq<u8> {
    metadata_member(claim.metadata) + after_metadata(claim)
}

/// What follows the member `metadata`, or the member `data` where there is
/// no note, in the canonical form.
spec fn after_metadata(claim: ClaimView) -> Seq<u8> {
    timestamp_key() + decimal_digits(claim.timestamp as nat) + seq![0x7du8]
}

/// The canonical form tells claims apart: two claims with the same
/// canonical bytes have the same text, the same note, or both none, and the
/// same time. So a signed claim whose embedded claim was changed in any
/// field is checked against other bytes than those that were signed.
pub proof fn lemma_canonical_injective(a: ClaimView, b: ClaimView)
    requires
        canonical_bytes(a) == canonical_bytes(b),
    ensures
        a == b,
{
    let ca = canonical_bytes(a);
    let cb = canonical_bytes(b);
    assert(ca =~= data_key() + (json_string(a.data) + after_data(a)));
    assert(cb =~= data_key() + (json_string(b.data) + after_data(b)));
    assert(json_string(a.data) + after_data(a) =~= ca.subrange(8, ca.len() as int));
    assert(json_string(b.data) + after_data(b) =~= cb.subrange(8, cb.len() as int));
    lemma_json_string_delimited(a.data, b.data, after_data(a), after_data(b));
    let ta = after_data(a);
    let tb = after_data(b);
    lemma_decimal_digits(a.timestamp as nat);
    lemma_decimal_digits(b.timestamp as nat);
    match (a.metadata, b.metadata) {
        (Some(ma), Some(mb)) => {
            assert(ta =~= metadata_key() + (json_string(ma) + after_metadata(a)));
            assert(tb =~= metadata_key() + (json_string(mb) + after_metadata(b)));
            assert(json_string(ma) + after_metadata(a) =~= ta.subrange(12, ta.len() as int));
            assert(json_string(mb) + after_metadata(b) =~= tb.subrange(12, tb.len() as int));
            lemma_json_string_delimited(ma, mb, after_metadata(a), after_metadata(b));
        },
        (Some(ma), None) => {
            assert(ta =~= metadata_key() + (json_string(ma) + after_metadata(a)));
            assert(tb =~= after_metadata(b));
            assert(ta[2] == 0x6d);
            assert(tb[2] == 0x74);
            assert(false);
        },
        (None, Some(mb)) => {
            assert(tb =~= metadata_key() + (json_string(mb) + after_metadata(b)));
            assert(ta =~= after_metadata(a));
            assert(tb[2] == 0x6d);
            assert(ta[2] == 0x74);
            assert(false);
        },
        (None, None) => {
            assert(ta =~= after_metadata(a));
            assert(tb =~= after_metadata(b));
        },
    }
    let ua = after_metadata(a);
    let ub = after_metadata(b);
    assert(ua == ub);
    let da = decimal_digits(a.timestamp as nat);
    let db = decimal_digits(b.timestamp as nat);
    assert(ua.len() == 13 + da.len() + 1);
    assert(ub.len() == 13 + db.len() + 1);
    assert(da =~= ua.subrange(13, ua.len() - 1));
    assert(db =~= ub.subrange(13, ub.len() - 1));
    lemma_decimal_decides(a.timestamp as nat, b.timestamp as nat);
    assert(a.data == b.data);
    assert(a.metadata == b.metadata);
    assert(a.timestamp == b.timestamp);
}

/// The canonical form is a function of the three fields: claims with the
/// same text, the same note and the same time have the same canonical
/// bytes, whenever and wherever they are written.
pub proof fn lemma_canonical_deterministic(a: ClaimView, b: ClaimView)
    requires
        a.data == b.data,
        a.metadata == b.metadata,
        a.timestamp == b.timestamp,
    ensures
        canonical_bytes(a) == canonical_bytes(b),
{
}


/// The member name `"metadata":` as it stands in a canonical form that has
/// a note: the quoted key and the colon after it.
pub open spec fn metadata_name() -> Seq<u8> {
    seq![0x22u8, 0x6du8, 0x65u8, 0x74u8, 0x61u8, 0x64u8, 0x61u8, 0x74u8, 0x61u8, 0x22u8, 0x3au8]
}

/// Whether `word` stands in `text` at position `at`.
pub open spec fn occurs_at(text: Seq<u8>, word: Seq<u8>, at: int) -> bool {
    0 <= at && at + word.len() <= text.len() && text.subrange(at, at + word.len()) == word
}

/// In an escaped run every quote is the second byte of an escape: a
/// backslash stands right before it.
proof fn lemma_escaped_quotes(x: Seq<u8>)
    ensures
        forall|k: int|
            0 <= k < escape_bytes(x).len() && #[trigger] escape_bytes(x)[k] == 0x22 ==> k >= 1
                && escape_bytes(x)[k - 1] == 0x5c,
    decreases x.len(),
{
    if x.len() > 0 {
        lemma_escaped_quotes(x.drop_last());
        let front = escape_bytes(x.drop_last());
        let unit = escape_byte(x.last());
        let all = escape_bytes(x);
        assert(all =~= front + unit);
        assert forall|k: int| 0 <= k < all.len() && #[trigger] all[k] == 0x22 implies k >= 1
            && all[k - 1] == 0x5c by {
            if k < front.len() {
                assert(all[k] == front[k]);
                assert(all[k - 1] == front[k - 1]);
            } else {
                let j = k - front.len();
                assert(all[k] == unit[j]);
                assert(j == 1 && unit[0] == 0x5c);
                assert(all[k - 1] == unit[0]);
            }
        }
    }
}

/// A claim without a note has no `metadata` member in its canonical form:
/// the form is the member `data`, then the member `timestamp`, and the
/// member name `"metadata":` stands nowhere in it, whatever the text of
/// the claim holds.
pub proof fn lemma_metadata_omitted(claim: ClaimView)
    requires
        claim.metadata is None,
    ensures
        canonical_bytes(claim) == data_key() + json_string(claim.data) + timestamp_key()
            + decimal_digits(claim.timestamp as nat) + seq![0x7du8],
        forall|at: int| !occurs_at(canonical_bytes(claim), metadata_name(), at),
{
    let c = canonical_bytes(claim);
    let body = escape_bytes(encode_utf8(claim.data));
    let digits = decimal_digits(claim.timestamp as nat);
    let n = body.len() as int;
    let word = metadata_name();
    assert(c =~= data_key() + json_string(claim.data) + timestamp_key() + digits + seq![0x7du8]);
    lemma_escaped_quotes(encode_utf8(claim.data));
    lemma_decimal_digits(claim.timestamp as nat);
    assert forall|at: int| !occurs_at(c, word, at) by {
        if occurs_at(c, word, at) {
            let found = c.subrange(at, at + word.len());
            let q = at + 9;
            assert(found[8] == 0x61 && found[9] == 0x22 && found[10] == 0x3a);
            assert(c[q - 1] == found[8] && c[q] == found[9] && c[q + 1] == found[10]);
            if q < 9 + n {
                assert(c[q] == body[q - 9]);
                assert(q - 9 >= 1);
                assert(c[q - 1] == body[q - 10]);
            } else if q == 9 + n {
                assert(c[q + 1] == timestamp_key()[0]);
            } else if q < 10 + n + 13 {
                let j = q - (10 + n);
                assert(c[q] == timestamp_key()[j]);
                assert(j == 1 || j == 11);
                if j == 1 {
                    assert(c[q + 1] == timestamp_key()[2]);
                } else {
                    assert(c[q - 1] == timestamp_key()[10]);
                }
            } else if q < 10 + n + 13 + digits.len() {
                assert(c[q] == digits[q - (10 + n + 13)]);
            } else {
                assert(c[q] == 0x7d);
            }
            assert(false);
        }
    }
}

} // verus!
