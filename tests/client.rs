use finality_party::client::{get_session_period, Keys};

#[test]
fn keys_split_in_halves() {
    let bytes: Vec<u8> = (0..64u8).collect();
    let keys = Keys::from_bytes(&bytes);
    let aura: Vec<u8> = (0..32u8).collect();
    let aleph: Vec<u8> = (32..64u8).collect();
    assert_eq!(keys.aura.to_vec(), aura);
    assert_eq!(keys.aleph.to_vec(), aleph);
}

#[test]
fn session_period_is_little_endian() {
    assert_eq!(get_session_period(&vec![0x84, 0x03, 0, 0]), 900);
    assert_eq!(get_session_period(&vec![1, 0, 0, 0, 9, 9]), 1);
    assert_eq!(get_session_period(&vec![0xff, 0xff, 0xff, 0xff]), u32::MAX);
    assert_eq!(get_session_period(&vec![0, 0, 0, 1]), 1 << 24);
}
