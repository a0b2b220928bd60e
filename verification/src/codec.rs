//! Fixed-width text encodings of raw identifier values.

use vstd::prelude::*;
use vstd::string::StrSliceExecFns;
use vstd::string::StringExecFns;

verus! {

/// A sequence left-padded with `fill` up to `width`; a sequence at least that
/// long is kept as it is.
pub open spec fn left_pad_spec(s: Seq<char>, width: nat, fill: char) -> Seq<char> {
    if s.len() >= width {
        s
    } else {
        Seq::new((width - s.len()) as nat, |i: int| fill) + s
    }
}

/// Left-pads text with the zero digit to the given width.
pub fn left_pad_zero(s: &str, width: usize) -> (r: String)
    ensures
        r@ == left_pad_spec(s@, width as nat, '0'),
{
    let len = s.unicode_len();
    let mut r = String::new();
    let mut i: usize = len;
    while i < width
        invariant
            len <= i,
            len < width ==> i <= width,
            len >= width ==> i == len,
            r@ =~= Seq::new((i - len) as nat, |j: int| '0'),
        decreases width - i,
    {
        r.append("0");
        i = i + 1;
        proof {
            reveal_strlit("0");
            assert(r@ =~= Seq::new((i - len) as nat, |j: int| '0'));
        }
    }
    r.append(s);
    proof {
        assert(r@ =~= left_pad_spec(s@, width as nat, '0'));
    }
    r
}

/// The base-62 digits of a 64-bit value under the standard alphabet, as
/// `base62::encode` produces them.
pub uninterp spec fn base62_digits(n: u64) -> Seq<char>;

/// Relies on base62::encode with the standard alphabet: the digits depend on
/// the value alone, and a 64-bit value yields between one and eleven of them.
#[verifier::external_body]
fn base62_encode_raw(n: u64) -> (r: String)
    ensures
        r@ == base62_digits(n),
        1 <= r@.len() <= 11,
{
    base62::encode(n)
}

/// The base-62 text of a raw value: its digits, left-padded with the zero
/// digit to eleven characters.
pub open spec fn base62_text(n: u64) -> Seq<char> {
    left_pad_spec(base62_digits(n), 11, '0')
}

/// Encodes a raw value as eleven characters of base-62 text.
pub fn encode_base62(n: u64) -> (r: String)
    ensures
        r@ == base62_text(n),
        r@.len() == 11,
{
    let digits = base62_encode_raw(n);
    left_pad_zero(digits.as_str(), 11)
}

/// The eight bytes of a 64-bit value, least significant first.
pub open spec fn le_bytes(n: u64) -> Seq<u8> {
    seq![
        (n & 0xFF) as u8,
        ((n >> 8) & 0xFF) as u8,
        ((n >> 16) & 0xFF) as u8,
        ((n >> 24) & 0xFF) as u8,
        ((n >> 32) & 0xFF) as u8,
        ((n >> 40) & 0xFF) as u8,
        ((n >> 48) & 0xFF) as u8,
        ((n >> 56) & 0xFF) as u8,
    ]
}

/// The little-endian bytes of a 64-bit value.
pub fn u64_le_bytes(n: u64) -> (r: [u8; 8])
    ensures
        r@ == le_bytes(n),
{
    broadcast use vstd::array::group_array_axioms;

    proof {
        assert((n & 0xFF) < 0x100 && ((n >> 8) & 0xFF) < 0x100 && ((n >> 16) & 0xFF) < 0x100 && ((n
            >> 24) & 0xFF) < 0x100 && ((n >> 32) & 0xFF) < 0x100 && ((n >> 40) & 0xFF) < 0x100 && ((
        n >> 48) & 0xFF) < 0x100 && ((n >> 56) & 0xFF) < 0x100) by (bit_vector);
    }
    let r: [u8; 8] = [
        (n & 0xFF) as u8,
        ((n >> 8) & 0xFF) as u8,
        ((n >> 16) & 0xFF) as u8,
        ((n >> 24) & 0xFF) as u8,
        ((n >> 32) & 0xFF) as u8,
        ((n >> 40) & 0xFF) as u8,
        ((n >> 48) & 0xFF) as u8,
        ((n >> 56) & 0xFF) as u8,
    ];
    proof {
        assert(r@ =~= le_bytes(n));
    }
    r
}

/// The base-64 text of a byte sequence under the standard alphabet with
/// padding, as the standard engine produces it.
pub uninterp spec fn base64_digits(bytes: Seq<u8>) -> Seq<char>;

/// Relies on the base64 crate's standard engine (standard alphabet, with
/// padding): the text depends on the bytes alone, four characters for every
/// started three-byte group.
#[verifier::external_body]
fn base64_encode_raw(bytes: &[u8]) -> (r: String)
    ensures
        r@ == base64_digits(bytes@),
        r@.len() == 4 * ((bytes@.len() + 2) / 3),
{
    base64::Engine::encode(&base64::engine::general_purpose::STANDARD, bytes)
}

/// The base-64 text of a raw value: the text of its eight little-endian
/// bytes, left-padded with the zero digit to twelve characters.
pub open spec fn base64_text(n: u64) -> Seq<char> {
    left_pad_spec(base64_digits(le_bytes(n)), 12, '0')
}

/// Encodes a raw value's eight little-endian bytes as twelve characters of
/// base-64 text.
pub fn encode_base64(n: u64) -> (r: String)
    ensures
        r@ == base64_text(n),
        r@.len() == 12,
{
    let bytes = u64_le_bytes(n);
    let digits = base64_encode_raw(bytes.as_slice());
    left_pad_zero(digits.as_str(), 12)
}

} // verus!
