//! The identifier-generation worker: layout configuration, clock
//! quantization, and the compound `{last_tick, sequence}` state machine.

use vstd::prelude::*;
use vstd::arithmetic::power2::{pow2, lemma_pow2_pos, lemma_pow2_adds, lemma_pow2_strictly_increases, lemma2_to64, lemma2_to64_rest};
use vstd::arithmetic::div_mod::lemma_mod_bound;
use vstd::arithmetic::mul::{lemma_mul_inequality, lemma_mul_is_distributive_sub_other_way};
use vstd::bits::{lemma_u64_shl_is_mul, lemma_u64_pow2_no_overflow, lemma_u128_shr_is_div};
use crate::mask::{mask, mask_spec, lemma_mask_is_mod, lemma_u64_shl_or_is_add};
use crate::pack::{pack_spec, lemma_tail_bound, lemma_pack_strictly_increases, lemma_pack_injective, lemma_pack_machine_field, lemma_pack_fits_i64};
use crate::id::{FastId, signed_of};
use crate::guid::{guid_fields, guid_time_low, guid_time_mid, guid_time_high_and_version, guid_tail};
use std::time::SystemTime;

verus! {

/// Default reference instant for tick zero, in nanoseconds since the Unix
/// epoch.
pub const DEFAULT_EPOCH: u64 = 1527811200000000000;

/// The abstract state of a worker: the configured field widths, machine
/// identifier and epoch, and the mutable compound `{last_tick, sequence}`
/// generation state.
pub ghost struct WorkerView {
    pub time_bits: nat,
    pub machine_bits: nat,
    pub sequence_bits: nat,
    pub machine_id: u64,
    pub epoch: u64,
    pub last_tick: u64,
    pub sequence: u64,
}

impl WorkerView {
    /// Well-formedness: the three widths fit a non-negative signed 64-bit
    /// layout, the sequence width leaves room for the 14-bit UUID
    /// clock-sequence fold, and the sequence counter is within its field.
    pub open spec fn wf(self) -> bool {
        &&& self.time_bits + self.machine_bits + self.sequence_bits <= 63
        &&& self.sequence_bits <= 14
        &&& self.sequence <= mask_spec(self.sequence_bits)
    }

    /// The immutable configuration agrees with `other`'s.
    pub open spec fn same_config(self, other: WorkerView) -> bool {
        &&& self.time_bits == other.time_bits
        &&& self.machine_bits == other.machine_bits
        &&& self.sequence_bits == other.sequence_bits
        &&& self.machine_id == other.machine_id
        &&& self.epoch == other.epoch
    }

    /// The raw value this worker packs for a given tick and sequence.
    pub open spec fn packed(self, tick: u64, seq: u64) -> nat {
        pack_spec(
            self.time_bits,
            self.machine_bits,
            self.sequence_bits,
            tick,
            seq,
            self.machine_id,
        )
    }
}

/// Quantization of a wall-clock reading: nanoseconds elapsed since the epoch
/// (clamped to zero for readings before it), divided by `2^20`, truncated to
/// 64 bits.
pub open spec fn tick_of(now: u128, epoch: u64) -> u64 {
    let elapsed: nat = if now >= epoch {
        (now - epoch) as nat
    } else {
        0
    };
    ((elapsed / 0x100000) % 0x1_0000_0000_0000_0000) as u64
}

/// An identifier-generation worker. The packing layout is fixed at
/// construction; each `next_id_at_tick` step advances the compound
/// `{last_tick, sequence}` state and packs the three fields.
pub struct FastIdWorker {
    time_bits: usize,
    machine_bits: usize,
    sequence_bits: usize,
    placeholder_bits: usize,
    time_mask: u64,
    machine_mask: u64,
    sequence_mask: u64,
    placeholder_mask: u64,
    machine_id: u64,
    epoch: u64,
    last_tick: u64,
    sequence: u64,
}

impl View for FastIdWorker {
    type V = WorkerView;

    closed spec fn view(&self) -> WorkerView {
        WorkerView {
            time_bits: self.time_bits as nat,
            machine_bits: self.machine_bits as nat,
            sequence_bits: self.sequence_bits as nat,
            machine_id: self.machine_id,
            epoch: self.epoch,
            last_tick: self.last_tick,
            sequence: self.sequence,
        }
    }
}

impl FastIdWorker {
    /// Internal invariant: the view is well-formed and the stored masks are
    /// exactly the masks derived from the stored widths.
    pub closed spec fn inv(&self) -> bool {
        &&& self@.wf()
        &&& self.time_mask == mask_spec(self.time_bits as nat)
        &&& self.machine_mask == mask_spec(self.machine_bits as nat)
        &&& self.sequence_mask == mask_spec(self.sequence_bits as nat)
        &&& self.placeholder_bits == 14 - self.sequence_bits
        &&& self.placeholder_mask == mask_spec(self.placeholder_bits as nat)
    }

    /// A worker with the default layout of 40 time bits, 16 machine bits and
    /// 7 sequence bits, and the default epoch.
    pub fn new(machine_id: u64) -> (r: Self)
        ensures
            r.inv(),
            r@ == (WorkerView {
                time_bits: 40,
                machine_bits: 16,
                sequence_bits: 7,
                machine_id: machine_id,
                epoch: DEFAULT_EPOCH,
                last_tick: 0,
                sequence: 0,
            }),
    {
        FastIdWorker::with_bits(40, 16, 7, machine_id)
    }

    /// A worker with the given field widths and the default epoch.
    pub fn with_bits(
        time_bits: usize,
        machine_bits: usize,
        sequence_bits: usize,
        machine_id: u64,
    ) -> (r: Self)
        requires
            time_bits + machine_bits + sequence_bits <= 63,
            sequence_bits <= 14,
        ensures
            r.inv(),
            r@ == (WorkerView {
                time_bits: time_bits as nat,
                machine_bits: machine_bits as nat,
                sequence_bits: sequence_bits as nat,
                machine_id: machine_id,
                epoch: DEFAULT_EPOCH,
                last_tick: 0,
                sequence: 0,
            }),
    {
        FastIdWorker::with_bits_and_epoch(
            time_bits,
            machine_bits,
            sequence_bits,
            machine_id,
            DEFAULT_EPOCH,
        )
    }

    /// A fully configured worker. Construction validates the layout: the
    /// three widths must sum to at most 63 bits, so every packed value reads
    /// as a non-negative signed integer, and the sequence width must fit the
    /// 14-bit UUID clock-sequence field. The machine identifier is not
    /// validated; it is truncated to `machine_bits` at pack time.
    pub fn with_bits_and_epoch(
        time_bits: usize,
        machine_bits: usize,
        sequence_bits: usize,
        machine_id: u64,
        timestamp: u64,
    ) -> (r: Self)
        requires
            time_bits + machine_bits + sequence_bits <= 63,
            sequence_bits <= 14,
        ensures
            r.inv(),
            r@ == (WorkerView {
                time_bits: time_bits as nat,
                machine_bits: machine_bits as nat,
                sequence_bits: sequence_bits as nat,
                machine_id: machine_id,
                epoch: timestamp,
                last_tick: 0,
                sequence: 0,
            }),
    {
        let time_mask = mask(time_bits);
        let machine_mask = mask(machine_bits);
        let sequence_mask = mask(sequence_bits);
        let placeholder_bits = 14 - sequence_bits;
        let placeholder_mask = mask(placeholder_bits);
        FastIdWorker {
            time_bits,
            machine_bits,
            sequence_bits,
            placeholder_bits,
            time_mask,
            machine_mask,
            sequence_mask,
            placeholder_mask,
            machine_id,
            epoch: timestamp,
            last_tick: 0,
            sequence: 0,
        }
    }

    /// Packs the three fields into one word: the masked tick above the masked
    /// sequence above the masked machine identifier.
    fn pack(&self, tick: u64, seq: u64) -> (r: u64)
        requires
            self.inv(),
        ensures
            r == self@.packed(tick, seq),
    {
        let tb = self.time_bits;
        let mb = self.machine_bits;
        let sb = self.sequence_bits;
        let t = tick & self.time_mask;
        let s = seq & self.sequence_mask;
        let m = self.machine_id & self.machine_mask;
        proof {
            lemma_pow2_pos(tb as nat);
            lemma_pow2_pos(sb as nat);
            lemma_pow2_pos(mb as nat);
            lemma_pow2_pos((mb + sb) as nat);
            lemma_mask_is_mod(tick, tb as nat);
            lemma_mask_is_mod(seq, sb as nat);
            lemma_mask_is_mod(self.machine_id, mb as nat);
            lemma_mod_bound(tick as int, pow2(tb as nat) as int);
            lemma_mod_bound(seq as int, pow2(sb as nat) as int);
            lemma_mod_bound(self.machine_id as int, pow2(mb as nat) as int);
            // Every field, shifted to its position, stays within 63 bits.
            lemma_pow2_adds(sb as nat, mb as nat);
            lemma_pow2_adds(tb as nat, (mb + sb) as nat);
            if ((tb + mb + sb) as nat) < 63 {
                lemma_pow2_strictly_increases((tb + mb + sb) as nat, 63);
            }
            if ((mb + sb) as nat) < 63 {
                lemma_pow2_strictly_increases((mb + sb) as nat, 63);
            }
            lemma2_to64();
            lemma2_to64_rest();
            lemma_mul_inequality(s as int, (pow2(sb as nat) - 1) as int, pow2(mb as nat) as int);
            lemma_mul_is_distributive_sub_other_way(
                pow2(mb as nat) as int,
                pow2(sb as nat) as int,
                1,
            );
            lemma_mul_inequality(
                t as int,
                (pow2(tb as nat) - 1) as int,
                pow2((mb + sb) as nat) as int,
            );
            lemma_mul_is_distributive_sub_other_way(
                pow2((mb + sb) as nat) as int,
                pow2(tb as nat) as int,
                1,
            );
            lemma_u64_shl_is_mul(s, mb as u64);
            lemma_u64_shl_is_mul(t, (mb + sb) as u64);
            // The one-shifted masks bound what sits below each field.
            lemma_u64_pow2_no_overflow(mb as nat);
            lemma_u64_pow2_no_overflow((mb + sb) as nat);
            lemma_u64_shl_is_mul(1u64, mb as u64);
            lemma_u64_shl_is_mul(1u64, (mb + sb) as u64);
            lemma_u64_shl_or_is_add(s, m, mb as u64);
            lemma_tail_bound(sb as nat, mb as nat, s as nat, m as nat);
            lemma_u64_shl_or_is_add(t, (s << (mb as u64)) | m, (mb + sb) as u64);
        }
        (t << ((mb + sb) as u64)) | ((s << (mb as u64)) | m)
    }

    /// Reads the wall clock and quantizes it to ticks since the configured
    /// epoch. The reading itself is outside the library's control; the result
    /// is the quantization of some reading.
    pub fn get_current_timestamp(&self) -> (r: u64)
        ensures
            exists|now: u128| r == tick_of(now, self@.epoch),
    {
        let now = now_unix_nanos();
        let r = tick_from_nanos(now, self.epoch);
        proof {
            assert(r == tick_of(now, self@.epoch));
        }
        r
    }

    /// One step of the generation protocol at an observed tick: advance to a
    /// newer tick and restart the sequence, reuse the current tick window
    /// while sequence space remains (also when the observed tick has
    /// regressed, keeping the emitted time field monotone), or report
    /// exhaustion with the state unchanged.
    pub fn next_id_at_tick(&mut self, tick: u64) -> (r: Option<FastId>)
        requires
            old(self).inv(),
        ensures
            final(self).inv(),
            final(self)@.wf(),
            final(self)@.same_config(old(self)@),
            (r is Some) <==> (tick > old(self)@.last_tick || old(self)@.sequence < mask_spec(
                old(self)@.sequence_bits,
            )),
            r is None ==> final(self)@ == old(self)@,
            tick > old(self)@.last_tick ==> final(self)@.last_tick == tick && final(self)@.sequence == 0,
            (tick <= old(self)@.last_tick && old(self)@.sequence < mask_spec(
                old(self)@.sequence_bits,
            )) ==> final(self)@.last_tick == old(self)@.last_tick && final(self)@.sequence == old(self)@.sequence + 1,
            r matches Some(id) ==> id@ == final(self)@.packed(
                final(self)@.last_tick,
                final(self)@.sequence,
            ),
            r matches Some(id) ==> id.guid_parts() == (
                guid_time_low(final(self)@.last_tick),
                guid_time_mid(final(self)@.last_tick),
                guid_time_high_and_version(final(self)@.last_tick),
                guid_tail(
                    final(self)@.sequence,
                    final(self)@.last_tick,
                    final(self)@.machine_id,
                    (14 - final(self)@.sequence_bits) as u64,
                ),
            ),
    {
        if tick > self.last_tick {
            self.last_tick = tick;
            self.sequence = 0;
        } else if self.sequence < self.sequence_mask {
            self.sequence = self.sequence + 1;
        } else {
            return None;
        }
        let raw = self.pack(self.last_tick, self.sequence);
        let (d1, d2, d3, d4) = guid_fields(
            self.last_tick,
            self.sequence,
            self.machine_id,
            self.placeholder_bits,
            self.placeholder_mask,
        );
        Some(FastId::from_parts(raw, d1, d2, d3, d4))
    }
}

/// Relies on std::time::SystemTime::now, read via duration_since as
/// nanoseconds since the Unix epoch; a reading before the Unix epoch is
/// clamped to zero.
#[verifier::external_body]
fn now_unix_nanos() -> u128 {
    match SystemTime::now().duration_since(SystemTime::UNIX_EPOCH) {
        Ok(d) => d.as_nanos(),
        Err(_) => 0,
    }
}

/// Quantizes a wall-clock reading to a tick count since the given epoch.
pub fn tick_from_nanos(now: u128, epoch: u64) -> (r: u64)
    ensures
        r == tick_of(now, epoch),
{
    let e = epoch as u128;
    let elapsed: u128 = if now >= e {
        now - e
    } else {
        0
    };
    let shifted = elapsed >> 20u128;
    proof {
        lemma_u128_shr_is_div(elapsed, 20);
        lemma2_to64();
        assert(#[verifier::truncate] (shifted as u64) == shifted % 0x1_0000_0000_0000_0000)
            by (bit_vector);
    }
    #[verifier::truncate] (shifted as u64)
}

/// Law: within one worker whose ticks stay inside the time field, one
/// generation step (a tick advance that restarts the sequence, or a sequence
/// increment within a tick) yields a strictly larger raw value.
pub proof fn lemma_step_strictly_increases(v1: WorkerView, v2: WorkerView)
    requires
        v1.wf(),
        v2.wf(),
        v2.same_config(v1),
        v1.last_tick < pow2(v1.time_bits),
        v2.last_tick < pow2(v1.time_bits),
        (v2.last_tick > v1.last_tick && v2.sequence == 0) || (v2.last_tick == v1.last_tick
            && v2.sequence == v1.sequence + 1),
    ensures
        v2.packed(v2.last_tick, v2.sequence) > v1.packed(v1.last_tick, v1.sequence),
{
    lemma_sequence_in_field(v1);
    lemma_sequence_in_field(v2);
    lemma_pack_strictly_increases(
        v1.time_bits,
        v1.machine_bits,
        v1.sequence_bits,
        v1.last_tick,
        v1.sequence,
        v2.last_tick,
        v2.sequence,
        v1.machine_id,
    );
}

/// Law: two identifiers packed under one layout collide only if their ticks,
/// sequences and masked machine identifiers all agree; workers with distinct
/// masked machine identifiers therefore never collide, and one worker never
/// repeats a `(tick, sequence)` pair's value.
pub proof fn lemma_packed_unique(
    v1: WorkerView,
    v2: WorkerView,
    t1: u64,
    s1: u64,
    t2: u64,
    s2: u64,
)
    requires
        v1.wf(),
        v2.wf(),
        v1.time_bits == v2.time_bits,
        v1.machine_bits == v2.machine_bits,
        v1.sequence_bits == v2.sequence_bits,
        t1 < pow2(v1.time_bits),
        t2 < pow2(v1.time_bits),
        s1 < pow2(v1.sequence_bits),
        s2 < pow2(v1.sequence_bits),
        v1.packed(t1, s1) == v2.packed(t2, s2),
    ensures
        t1 == t2,
        s1 == s2,
        v1.machine_id as nat % pow2(v1.machine_bits) == v2.machine_id as nat % pow2(
            v1.machine_bits,
        ),
{
    lemma_pack_injective(
        v1.time_bits,
        v1.machine_bits,
        v1.sequence_bits,
        t1,
        s1,
        v1.machine_id,
        t2,
        s2,
        v2.machine_id,
    );
}

/// Law: the low `machine_bits` of every packed value equal the worker's
/// masked machine identifier.
pub proof fn lemma_packed_machine_field(v: WorkerView, tick: u64, seq: u64)
    ensures
        v.packed(tick, seq) % pow2(v.machine_bits) == v.machine_id as nat % pow2(v.machine_bits),
{
    lemma_pack_machine_field(v.time_bits, v.machine_bits, v.sequence_bits, tick, seq, v.machine_id);
}

/// Law: every value a well-formed worker packs is below `2^63`, so its
/// signed 64-bit reading is never negative.
pub proof fn lemma_packed_non_negative(v: WorkerView, tick: u64, seq: u64)
    requires
        v.wf(),
    ensures
        v.packed(tick, seq) < pow2(63),
        signed_of(v.packed(tick, seq) as u64) >= 0,
{
    lemma_pack_fits_i64(v.time_bits, v.machine_bits, v.sequence_bits, tick, seq, v.machine_id);
    lemma2_to64();
    lemma2_to64_rest();
    assert(v.packed(tick, seq) < 0x8000_0000_0000_0000);
    assert(signed_of(v.packed(tick, seq) as u64) == v.packed(tick, seq));
}

/// A well-formed worker's sequence counter fits strictly within its field.
pub proof fn lemma_sequence_in_field(v: WorkerView)
    requires
        v.wf(),
    ensures
        v.sequence < pow2(v.sequence_bits),
{
    lemma_u64_pow2_no_overflow(v.sequence_bits);
}

} // verus!
