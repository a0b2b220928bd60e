use fastid::codec::{encode_base62, encode_base64};
use fastid::FastIdWorker;

#[test]
fn base62_known_value() {
    // base62::encode(1337) is "LZ"; the library pads it to eleven characters.
    assert_eq!(encode_base62(1337), "000000000LZ");
    assert_eq!(encode_base62(0), "00000000000");
}

#[test]
fn base62_round_trips() {
    for n in [0u64, 1, 61, 62, 1337, 0x8000_0000_0000_0000, u64::MAX] {
        let text = encode_base62(n);
        assert_eq!(text.len(), 11);
        assert_eq!(base62::decode(&text).unwrap(), n as u128);
    }
}

#[test]
fn base64_known_value() {
    assert_eq!(encode_base64(1), "AQAAAAAAAAA=");
    assert_eq!(encode_base64(0), "AAAAAAAAAAA=");
}

#[test]
fn base64_round_trips() {
    for n in [0u64, 1, 255, 0xDEAD_BEEF, 0x8000_0000_0000_0000, u64::MAX] {
        let text = encode_base64(n);
        assert_eq!(text.len(), 12);
        let bytes = base64::Engine::decode(&base64::engine::general_purpose::STANDARD, &text)
            .unwrap();
        assert_eq!(bytes, n.to_le_bytes());
    }
}

#[test]
fn generated_id_text_forms_round_trip() {
    let mut worker = FastIdWorker::with_bits_and_epoch(10, 4, 2, 3, 0);
    let id = worker.next_id_at_tick(5).unwrap();
    assert_eq!(id.as_i64(), (5 << 6) | 3);

    assert_eq!(base62::decode(&id.to_base62()).unwrap(), id.as_u64() as u128);
    let bytes = base64::Engine::decode(
        &base64::engine::general_purpose::STANDARD,
        &id.to_base64(),
    )
    .unwrap();
    assert_eq!(bytes, id.as_u64().to_le_bytes());

    assert_eq!(id.to_decimal(), ((5 << 6) | 3).to_string());
    assert_eq!(id.to_binary(), format!("{:#064b}", (5 << 6) | 3));
}

#[test]
fn guid_carries_captured_fields() {
    let mut worker = FastIdWorker::with_bits_and_epoch(10, 4, 2, 3, 0);
    let id = worker.next_id_at_tick(5).unwrap();
    let guid = id.as_guid();

    // tick 5, sequence 0, machine id 3, placeholder width 12:
    // clock_seq = (0 << 12) | (5 & 0xFFF) = 5.
    let (time_low, time_mid, time_high_and_version, tail) = guid.as_fields();
    assert_eq!(time_low, 5);
    assert_eq!(time_mid, 0);
    assert_eq!(time_high_and_version, 0x1000);
    assert_eq!(tail, &[0x80, 5, 0, 0, 0, 0, 0, 3]);
}

#[test]
fn guid_folds_sequence_into_clock_seq() {
    let mut worker = FastIdWorker::with_bits_and_epoch(10, 4, 2, 0xFFFF, 0);
    worker.next_id_at_tick(5).unwrap();
    let id = worker.next_id_at_tick(5).unwrap();
    let guid = id.as_guid();

    // tick 5, sequence 1: clock_seq = (1 << 12) | 5 = 0x1005, so the high
    // byte is 0x10 under the variant bits and the low byte is 5. The node
    // field holds the low 48 bits of the machine identifier, big-endian.
    let (_, _, _, tail) = guid.as_fields();
    assert_eq!(tail, &[0x90, 5, 0, 0, 0, 0, 0xFF, 0xFF]);
}
