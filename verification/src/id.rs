//! The generated identifier value and its presentations.

use vstd::prelude::*;
use vstd::string::StringExecFns;
use crate::guid::uuid_of;
use crate::codec::{encode_base62, encode_base64, base62_text, base64_text};
use crate::codec::left_pad_zero;
use crate::text::{u64_to_decimal, u64_to_binary, signed_dec_text, binary_text};

verus! {

/// The signed 64-bit reading of a raw unsigned value: the same bit pattern,
/// reinterpreted in two's complement.
pub open spec fn signed_of(v: u64) -> i64 {
    if v < 0x8000_0000_0000_0000 {
        v as i64
    } else {
        (v - 0x1_0000_0000_0000_0000) as i64
    }
}

/// A generated identifier: an opaque 64-bit value, together with the four
/// UUID record fields computed from the tick, sequence and machine identifier
/// captured at generation time.
pub struct FastId {
    raw: u64,
    d1: u32,
    d2: u16,
    d3: u16,
    d4: [u8; 8],
}

impl View for FastId {
    type V = u64;

    /// The raw packed value, read as unsigned.
    closed spec fn view(&self) -> u64 {
        self.raw
    }
}

impl FastId {
    /// The four UUID record fields captured at generation time.
    pub closed spec fn guid_parts(&self) -> (u32, u16, u16, Seq<u8>) {
        (self.d1, self.d2, self.d3, self.d4@)
    }

    pub(crate) fn from_parts(raw: u64, d1: u32, d2: u16, d3: u16, d4: [u8; 8]) -> (r: FastId)
        ensures
            r@ == raw,
            r.guid_parts() == (d1, d2, d3, d4@),
    {
        FastId { raw, d1, d2, d3, d4 }
    }

    /// The canonical raw value: the packed bits read as a signed integer.
    pub fn as_i64(&self) -> (r: i64)
        ensures
            r == signed_of(self@),
    {
        let v = self.raw;
        proof {
            assert(v < 0x8000_0000_0000_0000 ==> #[verifier::truncate] (v as i64) == v)
                by (bit_vector);
            assert(v >= 0x8000_0000_0000_0000 ==> #[verifier::truncate] (v as i64) == v
                - 0x1_0000_0000_0000_0000) by (bit_vector);
        }
        #[verifier::truncate] (v as i64)
    }

    /// The packed bits read as an unsigned integer.
    pub fn as_u64(&self) -> (r: u64)
        ensures
            r == self@,
    {
        self.raw
    }

    /// The UUID-shaped 128-bit presentation, assembled from the record fields
    /// captured at generation time.
    pub fn as_guid(&self) -> (r: uuid::Uuid)
        ensures
            r == uuid_of(
                self.guid_parts().0,
                self.guid_parts().1,
                self.guid_parts().2,
                self.guid_parts().3,
            ),
    {
        uuid::Uuid::from_fields(self.d1, self.d2, self.d3, &self.d4)
    }

    /// The base-62 presentation: eleven characters under the standard
    /// alphabet, left-padded with the zero digit.
    pub fn to_base62(&self) -> (r: String)
        ensures
            r@ == base62_text(self@),
            r@.len() == 11,
    {
        encode_base62(self.raw)
    }

    /// The base-64 presentation: the eight little-endian bytes under the
    /// standard alphabet with padding, twelve characters.
    pub fn to_base64(&self) -> (r: String)
        ensures
            r@ == base64_text(self@),
            r@.len() == 12,
    {
        encode_base64(self.raw)
    }

    /// The decimal text of the signed reading of the raw value.
    pub fn to_decimal(&self) -> (r: String)
        ensures
            r@ == signed_dec_text(self@),
    {
        let v = self.raw;
        if v < 0x8000_0000_0000_0000 {
            u64_to_decimal(v)
        } else {
            proof {
                assert(!v == 0xFFFF_FFFF_FFFF_FFFF - v) by (bit_vector);
            }
            let magnitude = !v + 1;
            let mut r = String::from_str("-");
            let digits = u64_to_decimal(magnitude);
            r.append(digits.as_str());
            proof {
                reveal_strlit("-");
                assert(r@ =~= signed_dec_text(self@));
            }
            r
        }
    }

    /// The binary text of the raw value, in the alternate form at width 64: a
    /// `0b` prefix and the 64-bit pattern's digits, zero-padded to 62
    /// columns.
    pub fn to_binary(&self) -> (r: String)
        ensures
            r@ == binary_text(self@),
    {
        let digits = u64_to_binary(self.raw);
        let padded = left_pad_zero(digits.as_str(), 62);
        let mut r = String::from_str("0b");
        r.append(padded.as_str());
        proof {
            reveal_strlit("0b");
            assert(r@ =~= binary_text(self@));
        }
        r
    }
}

} // verus!
