//! The UUID-shaped presentation of an identifier.
//!
//! The tick populates the three time fields with a version marker; the
//! sequence, folded with low tick bits, populates the clock-sequence bytes;
//! the low 48 bits of the machine identifier populate the node bytes.

use vstd::prelude::*;
use crate::mask::mask_spec;

verus! {

// uuid::Uuid carried opaquely through the library.
#[verifier::external_type_specification]
#[verifier::external_body]
pub struct ExUuid(uuid::Uuid);

/// The value that `uuid::Uuid::from_fields` assembles from the four record
/// fields; it depends on those arguments alone.
pub uninterp spec fn uuid_of(d1: u32, d2: u16, d3: u16, d4: Seq<u8>) -> uuid::Uuid;

/// Relies on uuid::Uuid::from_fields: it assembles the UUID from the four
/// record fields alone, so equal fields give the equal value named here.
pub assume_specification [ uuid::Uuid::from_fields ](
    d1: u32,
    d2: u16,
    d3: u16,
    d4: &[u8; 8],
) -> (r: uuid::Uuid)
    ensures
        r == uuid_of(d1, d2, d3, d4@),
;

/// Low 32 bits of the tick.
pub open spec fn guid_time_low(tick: u64) -> u32 {
    (tick & 0xFFFF_FFFF) as u32
}

/// Middle 16 bits of the tick.
pub open spec fn guid_time_mid(tick: u64) -> u16 {
    ((tick >> 32) & 0xFFFF) as u16
}

/// Top 12 bits of the tick, under a fixed 4-bit version marker of 1.
pub open spec fn guid_time_high_and_version(tick: u64) -> u16 {
    (((tick >> 48) & 0x0FFF) | 0x1000) as u16
}

/// The 14-bit clock-sequence value: the sequence, with `pb` low bits of the
/// tick folded in below it.
pub open spec fn guid_clock_seq(seq: u64, tick: u64, pb: u64) -> u64 {
    (seq << pb) | (tick & mask_spec(pb as nat))
}

/// The eight tail bytes: two clock-sequence bytes (the high one carrying the
/// variant pattern `10` in its top two bits), then the low 48 bits of the
/// machine identifier, big-endian.
pub open spec fn guid_tail(seq: u64, tick: u64, mid: u64, pb: u64) -> Seq<u8> {
    let cs = guid_clock_seq(seq, tick, pb);
    seq![
        (((cs & 0x3F00) >> 8) | 0x80) as u8,
        (cs & 0xFF) as u8,
        ((mid >> 40) & 0xFF) as u8,
        ((mid >> 32) & 0xFF) as u8,
        ((mid >> 24) & 0xFF) as u8,
        ((mid >> 16) & 0xFF) as u8,
        ((mid >> 8) & 0xFF) as u8,
        (mid & 0xFF) as u8,
    ]
}

/// Computes the four UUID record fields from values captured at generation
/// time.
pub fn guid_fields(
    tick: u64,
    seq: u64,
    machine_id: u64,
    placeholder_bits: usize,
    placeholder_mask: u64,
) -> (r: (u32, u16, u16, [u8; 8]))
    requires
        placeholder_bits < 64,
        placeholder_mask == mask_spec(placeholder_bits as nat),
    ensures
        r.0 == guid_time_low(tick),
        r.1 == guid_time_mid(tick),
        r.2 == guid_time_high_and_version(tick),
        r.3@ == guid_tail(seq, tick, machine_id, placeholder_bits as u64),
{
    broadcast use vstd::array::group_array_axioms;

    proof {
        assert(tick & 0xFFFF_FFFF < 0x1_0000_0000) by (bit_vector);
        assert((tick >> 32) & 0xFFFF < 0x1_0000) by (bit_vector);
        assert(((tick >> 48) & 0x0FFF) | 0x1000 < 0x1_0000) by (bit_vector);
    }
    let time_low = (tick & 0xFFFF_FFFF) as u32;
    let time_mid = ((tick >> 32) & 0xFFFF) as u16;
    let time_high_and_version = (((tick >> 48) & 0x0FFF) | 0x1000) as u16;

    let cs = (seq << (placeholder_bits as u64)) | (tick & placeholder_mask);
    proof {
        assert((cs & 0x3F00) >> 8 < 0x100 && ((cs & 0x3F00) >> 8) | 0x80 < 0x100) by (bit_vector);
    }
    let cs_high = (((cs & 0x3F00) >> 8) | 0x80) as u8;
    proof {
        assert(cs & 0xFF < 0x100) by (bit_vector);
    }
    let cs_low = (cs & 0xFF) as u8;

    let node = machine_id & 0xFFFF_FFFF_FFFF;
    proof {
        assert((node >> 40) & 0xFF < 0x100 && (node >> 32) & 0xFF < 0x100 && (node >> 24) & 0xFF
            < 0x100 && (node >> 16) & 0xFF < 0x100 && (node >> 8) & 0xFF < 0x100 && (node & 0xFF)
            < 0x100) by (bit_vector)
            requires
                node == machine_id & 0xFFFF_FFFF_FFFF,
        ;
        assert((node >> 40) & 0xFF == (machine_id >> 40) & 0xFF && (node >> 32) & 0xFF == (
        machine_id >> 32) & 0xFF && (node >> 24) & 0xFF == (machine_id >> 24) & 0xFF && (node >> 16)
            & 0xFF == (machine_id >> 16) & 0xFF && (node >> 8) & 0xFF == (machine_id >> 8) & 0xFF
            && (node & 0xFF) == machine_id & 0xFF) by (bit_vector)
            requires
                node == machine_id & 0xFFFF_FFFF_FFFF,
        ;
    }
    let tail: [u8; 8] = [
        cs_high,
        cs_low,
        ((node >> 40) & 0xFF) as u8,
        ((node >> 32) & 0xFF) as u8,
        ((node >> 24) & 0xFF) as u8,
        ((node >> 16) & 0xFF) as u8,
        ((node >> 8) & 0xFF) as u8,
        (node & 0xFF) as u8,
    ];
    proof {
        assert(tail@ =~= guid_tail(seq, tick, machine_id, placeholder_bits as u64));
    }
    (time_low, time_mid, time_high_and_version, tail)
}

} // verus!
