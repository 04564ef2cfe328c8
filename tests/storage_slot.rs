use bridge_shared::storage_slot::calculate_storage_slot;

fn expected(encoding: &[u8]) -> [u8; 32] {
    keccak_hash::keccak(encoding).0
}

fn word(tail: &[u8]) -> [u8; 32] {
    let mut w = [0u8; 32];
    w[32 - tail.len()..].copy_from_slice(tail);
    w
}

fn with_key(header: &[u8], key: [u8; 32], slot_bytes: &[u8]) -> Vec<u8> {
    let mut v = header.to_vec();
    v.push(0xa0);
    v.extend_from_slice(&key);
    v.extend_from_slice(slot_bytes);
    v
}

#[test]
fn zeroth_mapping_slot() {
    let key = [7u8; 32];
    let enc = with_key(&[0xe2], key, &[0x80]);
    assert_eq!(calculate_storage_slot(&key, &word(&[])), expected(&enc));
    assert_ne!(calculate_storage_slot(&key, &word(&[])), key);
}

#[test]
fn small_and_multi_byte_slots() {
    let key = [1u8; 32];
    assert_eq!(calculate_storage_slot(&key, &word(&[5])), expected(&with_key(&[0xe2], key, &[0x05])));
    assert_eq!(calculate_storage_slot(&key, &word(&[0x80])), expected(&with_key(&[0xe3], key, &[0x81, 0x80])));
    assert_eq!(
        calculate_storage_slot(&key, &word(&[0x01, 0x00])),
        expected(&with_key(&[0xe4], key, &[0x82, 0x01, 0x00]))
    );
}

#[test]
fn full_width_slot_uses_long_list_header() {
    let key = [3u8; 32];
    let slot = [0xffu8; 32];
    let mut tail = vec![0xa0];
    tail.extend_from_slice(&slot);
    let enc = with_key(&[0xf8, 66], key, &tail);
    assert_eq!(calculate_storage_slot(&key, &slot), expected(&enc));
}
