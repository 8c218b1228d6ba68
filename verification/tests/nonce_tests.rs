use mirrorx_core::nonce::NonceValue;

#[test]
fn first_nonce_is_initial_plus_one_little_endian() {
    let mut seq = NonceValue::new(5);
    let nonce = seq.advance().unwrap();
    assert_eq!(nonce, vec![6, 0, 0, 0, 0, 0, 0, 0, 0, 0, 0, 0]);
}

#[test]
fn nonces_are_twelve_bytes_zero_extended() {
    let mut seq = NonceValue::new(0);
    for _ in 0..10 {
        let nonce = seq.advance().unwrap();
        assert_eq!(nonce.len(), 12);
        assert_eq!(&nonce[6..], &[0, 0, 0, 0, 0, 0]);
    }
}

#[test]
fn consecutive_nonces_are_distinct() {
    let mut seq = NonceValue::new(0xDEAD_BEEF);
    let mut seen = Vec::new();
    for _ in 0..1000 {
        let nonce = seq.advance().unwrap();
        assert!(!seen.contains(&nonce));
        seen.push(nonce);
    }
}

#[test]
fn counter_masks_to_low_48_bits() {
    // An initial offset with bits above the 48-bit emission window: only the
    // low 48 bits of the counter appear in the nonce.
    let mut seq = NonceValue::new(0xFFFF_0000_0000_0001);
    let nonce = seq.advance().unwrap();
    assert_eq!(nonce, vec![2, 0, 0, 0, 0, 0, 0, 0, 0, 0, 0, 0]);
}

#[test]
fn two_directions_never_share_a_nonce_space_by_offset() {
    let mut a = NonceValue::new(0);
    let mut b = NonceValue::new(1 << 24);
    for _ in 0..100 {
        let na = a.advance().unwrap();
        let nb = b.advance().unwrap();
        assert_ne!(na, nb);
    }
}
