//! The mathematical model of a packed identifier, and its laws.
//!
//! An identifier is three adjacent bit fields, high to low: the tick
//! (truncated to `time_bits`), the sequence (truncated to `sequence_bits`)
//! and the machine identifier (truncated to `machine_bits`).

use vstd::prelude::*;
use vstd::arithmetic::power2::*;
use vstd::arithmetic::div_mod::*;
use vstd::arithmetic::mul::*;

verus! {

/// The packed identifier as a natural number: each field reduced modulo its
/// width, then placed at its positional weight.
pub open spec fn pack_spec(tb: nat, mb: nat, sb: nat, tick: u64, seq: u64, mid: u64) -> nat {
    (tick as nat % pow2(tb)) * pow2(mb + sb) + (seq as nat % pow2(sb)) * pow2(mb) + mid as nat
        % pow2(mb)
}

/// The two low fields together stay below the weight of the tick field.
pub proof fn lemma_tail_bound(sb: nat, mb: nat, s: nat, m: nat)
    requires
        s < pow2(sb),
        m < pow2(mb),
    ensures
        s * pow2(mb) + m < pow2(mb + sb),
{
    lemma_pow2_pos(sb);
    lemma_pow2_pos(mb);
    lemma_mul_inequality(s as int, (pow2(sb) - 1) as int, pow2(mb) as int);
    lemma_mul_is_distributive_sub_other_way(pow2(mb) as int, pow2(sb) as int, 1);
    lemma_pow2_adds(sb, mb);
}

/// A packed value fits in `tb + mb + sb` bits.
pub proof fn lemma_pack_bound(tb: nat, mb: nat, sb: nat, tick: u64, seq: u64, mid: u64)
    ensures
        pack_spec(tb, mb, sb, tick, seq, mid) < pow2(tb + mb + sb),
{
    let t = tick as nat % pow2(tb);
    let s = seq as nat % pow2(sb);
    let m = mid as nat % pow2(mb);
    lemma_pow2_pos(tb);
    lemma_pow2_pos(sb);
    lemma_pow2_pos(mb);
    lemma_pow2_pos(mb + sb);
    lemma_mod_bound(tick as int, pow2(tb) as int);
    lemma_mod_bound(seq as int, pow2(sb) as int);
    lemma_mod_bound(mid as int, pow2(mb) as int);
    lemma_tail_bound(sb, mb, s, m);
    lemma_mul_inequality(t as int, (pow2(tb) - 1) as int, pow2(mb + sb) as int);
    lemma_mul_is_distributive_sub_other_way(pow2(mb + sb) as int, pow2(tb) as int, 1);
    lemma_pow2_adds(tb, mb + sb);
}

/// Law: packing is strictly monotone in `(tick, sequence)` order, as long as
/// both values fit their fields. A later tick, or a later sequence within the
/// same tick, always yields a larger raw value.
pub proof fn lemma_pack_strictly_increases(
    tb: nat,
    mb: nat,
    sb: nat,
    t1: u64,
    s1: u64,
    t2: u64,
    s2: u64,
    mid: u64,
)
    requires
        t1 < pow2(tb),
        t2 < pow2(tb),
        s1 < pow2(sb),
        s2 < pow2(sb),
        t2 > t1 || (t2 == t1 && s2 > s1),
    ensures
        pack_spec(tb, mb, sb, t2, s2, mid) > pack_spec(tb, mb, sb, t1, s1, mid),
{
    let a = pow2(mb + sb);
    let b = pow2(mb);
    let m = mid as nat % b;
    lemma_pow2_pos(tb);
    lemma_pow2_pos(sb);
    lemma_pow2_pos(mb);
    lemma_pow2_pos(mb + sb);
    lemma_small_mod(t1 as nat, pow2(tb));
    lemma_small_mod(t2 as nat, pow2(tb));
    lemma_small_mod(s1 as nat, pow2(sb));
    lemma_small_mod(s2 as nat, pow2(sb));
    lemma_mod_bound(mid as int, b as int);
    if t2 > t1 {
        // pack1 < (t1 + 1) * a  <=  t2 * a  <=  pack2
        lemma_tail_bound(sb, mb, s1 as nat, m);
        lemma_mul_is_distributive_add_other_way(a as int, t1 as int, 1);
        lemma_mul_inequality((t1 + 1) as int, t2 as int, a as int);
    } else {
        // ticks equal: pack2 - pack1 == (s2 - s1) * b > m - m == 0
        lemma_mul_is_distributive_add_other_way(b as int, s1 as int, 1);
        lemma_mul_inequality((s1 + 1) as int, s2 as int, b as int);
    }
}

/// Law: packing is injective on in-range fields. Two packed values can only
/// be equal if their ticks, their sequences and their masked machine
/// identifiers all agree; in particular, workers with distinct masked machine
/// identifiers never collide.
pub proof fn lemma_pack_injective(
    tb: nat,
    mb: nat,
    sb: nat,
    t1: u64,
    s1: u64,
    m1: u64,
    t2: u64,
    s2: u64,
    m2: u64,
)
    requires
        t1 < pow2(tb),
        t2 < pow2(tb),
        s1 < pow2(sb),
        s2 < pow2(sb),
        pack_spec(tb, mb, sb, t1, s1, m1) == pack_spec(tb, mb, sb, t2, s2, m2),
    ensures
        t1 == t2,
        s1 == s2,
        m1 as nat % pow2(mb) == m2 as nat % pow2(mb),
{
    let x = pack_spec(tb, mb, sb, t1, s1, m1);
    let a = pow2(mb + sb);
    let b = pow2(mb);
    let r1 = (s1 as nat % pow2(sb)) * b + m1 as nat % b;
    let r2 = (s2 as nat % pow2(sb)) * b + m2 as nat % b;
    lemma_pow2_pos(sb);
    lemma_pow2_pos(mb);
    lemma_pow2_pos(mb + sb);
    lemma_small_mod(t1 as nat, pow2(tb));
    lemma_small_mod(t2 as nat, pow2(tb));
    lemma_small_mod(s1 as nat, pow2(sb));
    lemma_small_mod(s2 as nat, pow2(sb));
    lemma_mod_bound(m1 as int, b as int);
    lemma_mod_bound(m2 as int, b as int);
    lemma_tail_bound(sb, mb, s1 as nat, m1 as nat % b);
    lemma_tail_bound(sb, mb, s2 as nat, m2 as nat % b);
    lemma_fundamental_div_mod_converse(x as int, a as int, t1 as int, r1 as int);
    lemma_fundamental_div_mod_converse(x as int, a as int, t2 as int, r2 as int);
    lemma_fundamental_div_mod_converse(r1 as int, b as int, s1 as int, (m1 as nat % b) as int);
    lemma_fundamental_div_mod_converse(r2 as int, b as int, s2 as int, (m2 as nat % b) as int);
}

/// Law: the low `mb` bits of every packed value are the masked machine
/// identifier, whatever the tick and sequence are.
pub proof fn lemma_pack_machine_field(tb: nat, mb: nat, sb: nat, tick: u64, seq: u64, mid: u64)
    ensures
        pack_spec(tb, mb, sb, tick, seq, mid) % pow2(mb) == mid as nat % pow2(mb),
{
    let x = pack_spec(tb, mb, sb, tick, seq, mid);
    let t = tick as nat % pow2(tb);
    let s = seq as nat % pow2(sb);
    let m = mid as nat % pow2(mb);
    let b = pow2(mb);
    lemma_pow2_pos(tb);
    lemma_pow2_pos(sb);
    lemma_pow2_pos(mb);
    lemma_mod_bound(mid as int, b as int);
    lemma_pow2_adds(sb, mb);
    assert(t * pow2(mb + sb) == (t * pow2(sb)) * b) by {
        lemma_mul_is_associative(t as int, pow2(sb) as int, b as int);
    }
    assert((t * pow2(sb)) * b + s * b == (t * pow2(sb) + s) * b) by {
        lemma_mul_is_distributive_add_other_way(b as int, (t * pow2(sb)) as int, s as int);
    }
    lemma_fundamental_div_mod_converse(x as int, b as int, (t * pow2(sb) + s) as int, m as int);
}

/// Law: when the three widths sum to at most 63 bits, every packed value is
/// below `2^63`, so its signed 64-bit reading is never negative.
pub proof fn lemma_pack_fits_i64(tb: nat, mb: nat, sb: nat, tick: u64, seq: u64, mid: u64)
    requires
        tb + mb + sb <= 63,
    ensures
        pack_spec(tb, mb, sb, tick, seq, mid) < pow2(63),
{
    lemma_pack_bound(tb, mb, sb, tick, seq, mid);
    if tb + mb + sb < 63 {
        lemma_pow2_strictly_increases(tb + mb + sb, 63);
    }
}

} // verus!
