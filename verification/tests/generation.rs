use fastid::{FastId, FastIdWorker};

/// Spins like the generation entry point: read a fresh tick on every attempt
/// and retry while the current tick's sequence space is exhausted.
fn generate(worker: &mut FastIdWorker) -> FastId {
    loop {
        let tick = worker.get_current_timestamp();
        if let Some(id) = worker.next_id_at_tick(tick) {
            return id;
        }
    }
}

#[test]
fn can_generate_id() {
    let mut worker = FastIdWorker::new(u64::MAX);
    let id = generate(&mut worker);

    assert_eq!(id.to_binary(), format!("{:#064b}", id.as_i64()));
    assert_eq!(id.to_decimal(), format!("{}", id.as_i64()));
}

#[test]
fn can_generate_many_ids() {
    let mut worker = FastIdWorker::new(u64::MAX);

    let mut last_id = generate(&mut worker);
    for _ in 0..1000 {
        let id = generate(&mut worker);
        assert!(id.as_i64() > last_id.as_i64());
        last_id = id;
    }
}

#[test]
fn many_ids_are_pairwise_distinct() {
    let mut worker = FastIdWorker::new(7);
    let mut seen = std::collections::HashSet::new();
    for _ in 0..1000 {
        let id = generate(&mut worker);
        assert!(seen.insert(id.as_u64()));
    }
}

#[test]
fn default_worker_ids_are_non_negative() {
    let mut worker = FastIdWorker::new(1);
    for _ in 0..300 {
        let id = generate(&mut worker);
        assert!(id.as_i64() >= 0);
    }
}

#[test]
fn machine_field_holds_masked_machine_id() {
    // 4 machine bits; the identifier 0xAB is truncated to 0xB.
    let mut worker = FastIdWorker::with_bits_and_epoch(10, 4, 2, 0xAB, 0);
    for _ in 0..50 {
        let id = generate(&mut worker);
        assert_eq!(id.as_u64() & 0xF, 0xB);
    }
}

#[test]
fn frozen_tick_fills_sequence_then_waits() {
    let mut worker = FastIdWorker::with_bits_and_epoch(10, 4, 2, 3, 0);

    let expected = [
        (5 << 6) | (0 << 4) | 3,
        (5 << 6) | (1 << 4) | 3,
        (5 << 6) | (2 << 4) | 3,
        (5 << 6) | (3 << 4) | 3,
    ];
    for want in expected {
        let id = worker.next_id_at_tick(5).expect("sequence space left at tick 5");
        assert_eq!(id.as_i64(), want);
    }

    // The fifth request at tick 5 must not produce a value.
    assert!(worker.next_id_at_tick(5).is_none());
    assert!(worker.next_id_at_tick(5).is_none());

    // Once the tick advances, generation resumes with sequence zero.
    let id = worker.next_id_at_tick(6).expect("fresh tick reopens the window");
    assert_eq!(id.as_i64(), (6 << 6) | 3);
}

#[test]
fn regressed_tick_keeps_time_field_monotone() {
    let mut worker = FastIdWorker::with_bits_and_epoch(10, 4, 2, 1, 0);
    let first = worker.next_id_at_tick(9).unwrap();
    assert_eq!(first.as_i64(), (9 << 6) | 1);
    // The clock reads an earlier tick: the stale tick is kept and the
    // sequence advances.
    let second = worker.next_id_at_tick(4).unwrap();
    assert_eq!(second.as_i64(), (9 << 6) | (1 << 4) | 1);
    assert!(second.as_i64() > first.as_i64());
}

#[test]
fn tick_quantization_divides_by_two_to_the_twentieth() {
    assert_eq!(fastid::worker::tick_from_nanos(0, 0), 0);
    assert_eq!(fastid::worker::tick_from_nanos(0x100000 * 7 + 5, 0), 7);
    assert_eq!(fastid::worker::tick_from_nanos(0x100000 - 1, 0), 0);
    // A reading before the epoch clamps to tick zero.
    assert_eq!(fastid::worker::tick_from_nanos(5, 1000), 0);
    assert_eq!(fastid::worker::tick_from_nanos(0x100000 * 3 + 10, 10), 3);
}

#[test]
fn mask_widths() {
    assert_eq!(fastid::mask(0), 0);
    assert_eq!(fastid::mask(1), 1);
    assert_eq!(fastid::mask(7), 127);
    assert_eq!(fastid::mask(16), 0xFFFF);
    assert_eq!(fastid::mask(63), u64::MAX >> 1);
    assert_eq!(fastid::mask(64), u64::MAX);
    assert_eq!(fastid::mask(100), u64::MAX);
}
