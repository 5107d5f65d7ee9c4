use powmine::block::digest_satisfies;

fn digest_with_tail(tail: &[u8]) -> Vec<u8> {
    let mut d = vec![0xffu8; 32 - tail.len()];
    d.extend_from_slice(tail);
    d
}

#[test]
fn test_difficulty_zero_always_accepts() {
    let all_ones = vec![0xffu8; 32];
    assert!(digest_satisfies(&all_ones, 0));
    let all_zeros = vec![0u8; 32];
    assert!(digest_satisfies(&all_zeros, 0));
}

#[test]
fn test_difficulty_not_a_multiple_of_eight() {
    // Difficulty 13: the last byte must be zero and the low five bits of
    // the byte before it must be zero too.
    let ok = digest_with_tail(&[0b1110_0000, 0x00]);
    assert!(digest_satisfies(&ok, 13));
    let bad_low_bit = digest_with_tail(&[0b0001_0000, 0x00]);
    assert!(!digest_satisfies(&bad_low_bit, 13));
    let bad_last_byte = digest_with_tail(&[0b1110_0000, 0x01]);
    assert!(!digest_satisfies(&bad_last_byte, 13));
}

#[test]
fn test_difficulty_sixteen() {
    let ok = digest_with_tail(&[0xab, 0x00, 0x00]);
    assert!(digest_satisfies(&ok, 16));
    let bad = digest_with_tail(&[0xab, 0x01, 0x00]);
    assert!(!digest_satisfies(&bad, 16));
}

#[test]
fn test_difficulty_twenty_four() {
    let ok = digest_with_tail(&[0x00, 0x00, 0x00]);
    assert!(digest_satisfies(&ok, 24));
    // Valid at sixteen trailing zero bits, but not at twenty-four.
    let bad = digest_with_tail(&[0xab, 0x00, 0x00]);
    assert!(digest_satisfies(&bad, 16));
    assert!(!digest_satisfies(&bad, 24));
}
