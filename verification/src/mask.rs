//! Bit-field masks derived from configured field widths.

use vstd::prelude::*;

verus! {

/// Mathematical value of the low-bits mask for a field of `b` bits.
///
/// For `b < 64` this is `2^b - 1`; for `b >= 64` every bit is set, which
/// avoids any shift by the full word width.
pub open spec fn mask_spec(b: nat) -> u64 {
    if b >= 64 {
        u64::MAX
    } else {
        (vstd::arithmetic::power2::pow2(b) - 1) as u64
    }
}

/// Low-bits mask for a field of `bits` bits.
pub fn mask(bits: usize) -> (r: u64)
    ensures
        r == mask_spec(bits as nat),
{
    if bits >= 64 {
        u64::MAX
    } else {
        proof {
            vstd::bits::lemma_u64_pow2_no_overflow(bits as nat);
            vstd::bits::lemma_u64_shl_is_mul(1u64, bits as u64);
        }
        (1u64 << (bits as u64)) - 1
    }
}

/// Law: `mask_spec(b)` is `2^b - 1` for every width below 64, is zero at
/// width zero, and is the all-ones word for every width of 64 or more.
pub proof fn lemma_mask_properties(b: nat)
    ensures
        b < 64 ==> mask_spec(b) == vstd::arithmetic::power2::pow2(b) - 1,
        mask_spec(0) == 0,
        b >= 64 ==> mask_spec(b) == u64::MAX,
{
    vstd::arithmetic::power2::lemma2_to64();
    if b < 64 {
        vstd::bits::lemma_u64_pow2_no_overflow(b);
    }
}

/// A masked value is the value reduced modulo `2^b`, for widths below 64.
pub proof fn lemma_mask_is_mod(x: u64, b: nat)
    requires
        b < 64,
    ensures
        x & mask_spec(b) == x as nat % vstd::arithmetic::power2::pow2(b),
{
    vstd::bits::lemma_u64_pow2_no_overflow(b);
    assert(mask_spec(b) == vstd::bits::low_bits_mask(b));
    vstd::bits::lemma_u64_low_bits_mask_is_mod(x, b);
}

/// Or-ing a left-shifted word with a value that fits below the shift is the
/// same as adding it: the two operands occupy disjoint bits.
pub proof fn lemma_u64_shl_or_is_add(a: u64, b: u64, k: u64)
    by (bit_vector)
    requires
        k < 64,
        b < (1u64 << k),
    ensures
        ((a << k) | b) == (a << k) + b,
{
}

} // verus!
