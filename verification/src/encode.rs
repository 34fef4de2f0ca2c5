//! Byte-level encodings used on the wire: percent-encoding of URL query
//! components and the hexadecimal form of the `state` nonce.
//!
//! Everything is computed over bytes and proved against recursive spec
//! functions; the single trusted step is turning a vector of ASCII bytes
//! back into a `String`.

use vstd::prelude::*;
use vstd::string::*;
use vstd::utf8::encode_utf8;

verus! {

/// The bytes a URL query component keeps as they are (the RFC 3986
/// unreserved set: letters, digits, `-`, `.`, `_`, `~`).  Every other byte
/// is written as `%XX`.
pub open spec fn is_unreserved_byte(b: u8) -> bool {
    (65 <= b <= 90) || (97 <= b <= 122) || (48 <= b <= 57) || b == 45 || b == 46 || b == 95
        || b == 126
}

/// The uppercase hexadecimal digit of a value below 16, as an ASCII byte.
pub open spec fn hex_digit(n: u8) -> u8
    recommends
        n < 16,
{
    if n < 10 {
        (48 + n) as u8
    } else {
        (55 + n) as u8
    }
}

/// How one byte appears in a percent-encoded component.
pub open spec fn encoded_byte(b: u8) -> Seq<u8> {
    if is_unreserved_byte(b) {
        seq![b]
    } else {
        seq![37u8, hex_digit(b / 16), hex_digit(b % 16)]
    }
}

/// Percent-encoding of a byte sequence.
pub open spec fn percent_encoded(bs: Seq<u8>) -> Seq<u8>
    decreases bs.len(),
{
    if bs.len() == 0 {
        Seq::empty()
    } else {
        encoded_byte(bs[0]) + percent_encoded(bs.drop_first())
    }
}

/// Hexadecimal rendering of a byte sequence, two digits per byte.
pub open spec fn hex_bytes(bs: Seq<u8>) -> Seq<u8>
    decreases bs.len(),
{
    if bs.len() == 0 {
        Seq::empty()
    } else {
        seq![hex_digit(bs[0] / 16), hex_digit(bs[0] % 16)] + hex_bytes(bs.drop_first())
    }
}

/// The characters of a sequence of ASCII bytes, one per byte.
pub open spec fn ascii_chars_of(bs: Seq<u8>) -> Seq<char> {
    bs.map_values(|b: u8| b as char)
}

/// Percent-encoding of the UTF-8 bytes of a string, seen as the characters
/// it shows in a URL.
pub open spec fn pct(s: Seq<char>) -> Seq<char> {
    ascii_chars_of(percent_encoded(encode_utf8(s)))
}

pub proof fn lemma_percent_encoded_snoc(bs: Seq<u8>, b: u8)
    ensures
        percent_encoded(bs.push(b)) == percent_encoded(bs) + encoded_byte(b),
    decreases bs.len(),
{
    if bs.len() == 0 {
        assert(bs.push(b).drop_first() =~= Seq::<u8>::empty());
        assert(bs.push(b)[0] == b);
        assert(percent_encoded(bs.push(b)) == encoded_byte(b) + percent_encoded(
            Seq::<u8>::empty(),
        ));
        assert(percent_encoded(bs.push(b)) =~= percent_encoded(bs) + encoded_byte(b));
    } else {
        assert(bs.push(b).drop_first() =~= bs.drop_first().push(b));
        assert(bs.push(b)[0] == bs[0]);
        lemma_percent_encoded_snoc(bs.drop_first(), b);
        assert(percent_encoded(bs.push(b)) == encoded_byte(bs[0]) + (percent_encoded(
            bs.drop_first(),
        ) + encoded_byte(b)));
        assert(encoded_byte(bs[0]) + (percent_encoded(bs.drop_first()) + encoded_byte(b)) =~= (
        encoded_byte(bs[0]) + percent_encoded(bs.drop_first())) + encoded_byte(b));
    }
}

pub proof fn lemma_hex_bytes_snoc(bs: Seq<u8>, b: u8)
    ensures
        hex_bytes(bs.push(b)) == hex_bytes(bs) + seq![hex_digit(b / 16), hex_digit(b % 16)],
    decreases bs.len(),
{
    let digits = seq![hex_digit(b / 16), hex_digit(b % 16)];
    if bs.len() == 0 {
        assert(bs.push(b).drop_first() =~= Seq::<u8>::empty());
        assert(bs.push(b)[0] == b);
        assert(hex_bytes(bs.push(b)) == digits + hex_bytes(Seq::<u8>::empty()));
        assert(hex_bytes(bs.push(b)) =~= hex_bytes(bs) + digits);
    } else {
        let first = seq![hex_digit(bs[0] / 16), hex_digit(bs[0] % 16)];
        assert(bs.push(b).drop_first() =~= bs.drop_first().push(b));
        assert(bs.push(b)[0] == bs[0]);
        lemma_hex_bytes_snoc(bs.drop_first(), b);
        assert(hex_bytes(bs.push(b)) == first + (hex_bytes(bs.drop_first()) + digits));
        assert(first + (hex_bytes(bs.drop_first()) + digits) =~= (first + hex_bytes(
            bs.drop_first(),
        )) + digits);
    }
}

pub proof fn lemma_encoded_byte_ascii(b: u8)
    ensures
        forall|i: int| 0 <= i < encoded_byte(b).len() ==> encoded_byte(b)[i] < 128,
{
    if is_unreserved_byte(b) {
        assert(encoded_byte(b)[0] == b);
    } else {
        assert(encoded_byte(b)[0] == 37);
        assert(encoded_byte(b)[1] == hex_digit(b / 16));
        assert(encoded_byte(b)[2] == hex_digit(b % 16));
    }
}

pub proof fn lemma_percent_encoded_ascii(bs: Seq<u8>)
    ensures
        forall|i: int| 0 <= i < percent_encoded(bs).len() ==> percent_encoded(bs)[i] < 128,
    decreases bs.len(),
{
    if bs.len() != 0 {
        lemma_percent_encoded_ascii(bs.drop_first());
        lemma_encoded_byte_ascii(bs[0]);
        let head = encoded_byte(bs[0]);
        let tail = percent_encoded(bs.drop_first());
        assert forall|i: int| 0 <= i < percent_encoded(bs).len() implies percent_encoded(bs)[i]
            < 128 by {
            assert(percent_encoded(bs) == head + tail);
            if i < head.len() {
                assert(percent_encoded(bs)[i] == head[i]);
            } else {
                assert(percent_encoded(bs)[i] == tail[i - head.len()]);
            }
        }
    }
}

pub proof fn lemma_hex_bytes_ascii(bs: Seq<u8>)
    ensures
        forall|i: int| 0 <= i < hex_bytes(bs).len() ==> hex_bytes(bs)[i] < 128,
    decreases bs.len(),
{
    if bs.len() != 0 {
        lemma_hex_bytes_ascii(bs.drop_first());
        let head = seq![hex_digit(bs[0] / 16), hex_digit(bs[0] % 16)];
        let tail = hex_bytes(bs.drop_first());
        assert forall|i: int| 0 <= i < hex_bytes(bs).len() implies hex_bytes(bs)[i] < 128 by {
            assert(hex_bytes(bs) == head + tail);
            if i < head.len() {
                assert(hex_bytes(bs)[i] == head[i]);
            } else {
                assert(hex_bytes(bs)[i] == tail[i - head.len()]);
            }
        }
    }
}

/// The uppercase hexadecimal digit of a value below 16.
pub fn hex_digit_byte(n: u8) -> (r: u8)
    requires
        n < 16,
    ensures
        r == hex_digit(n),
{
    if n < 10 {
        48 + n
    } else {
        55 + n
    }
}

/// Percent-encodes a byte sequence.
pub fn percent_encode(bytes: &[u8]) -> (r: Vec<u8>)
    ensures
        r@ == percent_encoded(bytes@),
        forall|i: int| 0 <= i < r@.len() ==> r@[i] < 128,
{
    let mut out: Vec<u8> = Vec::new();
    let mut i: usize = 0;
    while i < bytes.len()
        invariant
            i <= bytes@.len(),
            out@ == percent_encoded(bytes@.take(i as int)),
        decreases bytes@.len() - i,
    {
        let b = bytes[i];
        let ghost prefix = bytes@.take(i as int);
        proof {
            assert(prefix.push(b) =~= bytes@.take(i + 1));
            lemma_percent_encoded_snoc(prefix, b);
        }
        if (65 <= b && b <= 90) || (97 <= b && b <= 122) || (48 <= b && b <= 57) || b == 45
            || b == 46 || b == 95 || b == 126 {
            out.push(b);
            assert(out@ =~= percent_encoded(prefix) + encoded_byte(b));
        } else {
            out.push(37);
            out.push(hex_digit_byte(b / 16));
            out.push(hex_digit_byte(b % 16));
            assert(out@ =~= percent_encoded(prefix) + encoded_byte(b));
        }
        i = i + 1;
    }
    proof {
        assert(bytes@.take(bytes@.len() as int) =~= bytes@);
        lemma_percent_encoded_ascii(bytes@);
    }
    out
}

/// Renders a byte sequence in hexadecimal, two uppercase digits per byte.
pub fn hex_encode(bytes: &[u8]) -> (r: Vec<u8>)
    ensures
        r@ == hex_bytes(bytes@),
        forall|i: int| 0 <= i < r@.len() ==> r@[i] < 128,
{
    let mut out: Vec<u8> = Vec::new();
    let mut i: usize = 0;
    while i < bytes.len()
        invariant
            i <= bytes@.len(),
            out@ == hex_bytes(bytes@.take(i as int)),
        decreases bytes@.len() - i,
    {
        let b = bytes[i];
        let ghost prefix = bytes@.take(i as int);
        proof {
            assert(prefix.push(b) =~= bytes@.take(i + 1));
            lemma_hex_bytes_snoc(prefix, b);
        }
        out.push(hex_digit_byte(b / 16));
        out.push(hex_digit_byte(b % 16));
        assert(out@ =~= hex_bytes(prefix) + seq![hex_digit(b / 16), hex_digit(b % 16)]);
        i = i + 1;
    }
    proof {
        assert(bytes@.take(bytes@.len() as int) =~= bytes@);
        lemma_hex_bytes_ascii(bytes@);
    }
    out
}

/// Relies on `String::from_utf8`: bytes below 128 are ASCII, which is valid
/// UTF-8 and decodes to one character per byte, each with the byte's own
/// code.
#[verifier::external_body]
pub(crate) fn string_from_ascii(bytes: Vec<u8>) -> (r: String)
    requires
        forall|i: int| 0 <= i < bytes@.len() ==> bytes@[i] < 128,
    ensures
        r@ == ascii_chars_of(bytes@),
{
    match String::from_utf8(bytes) {
        Ok(s) => s,
        Err(_) => String::new(),
    }
}

/// Percent-encodes a string for use as a URL query value.
pub fn percent_encode_str(s: &str) -> (r: String)
    ensures
        r@ == pct(s@),
{
    let bv = s.as_bytes_vec();
    let encoded = percent_encode(bv.as_slice());
    string_from_ascii(encoded)
}

/// The hexadecimal form of a byte string, as a `String`.
pub fn hex_string(bytes: &[u8]) -> (r: String)
    ensures
        r@ == ascii_chars_of(hex_bytes(bytes@)),
{
    let encoded = hex_encode(bytes);
    string_from_ascii(encoded)
}

} // verus!
