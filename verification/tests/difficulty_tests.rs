use pow20_miner::difficulty::passes;

#[test]
fn zero_difficulty_always_passes() {
    assert!(passes(&vec![0xde, 0xad, 0xbe, 0xef], 0));
    assert!(passes(&vec![], 0));
    assert!(passes(&vec![0xff; 32], 0));
}

#[test]
fn two_leading_zero_nibbles_pass_difficulty_two() {
    // 0x00 0x3f ...: first two nibbles are zero, the third is 3.
    let mut digest = vec![0x00, 0x3f];
    digest.extend(std::iter::repeat(0xab).take(30));
    assert!(passes(&digest, 2));
    assert!(!passes(&digest, 3));
}

#[test]
fn nonzero_first_nibble_fails() {
    let mut digest = vec![0x01];
    digest.extend(std::iter::repeat(0x00).take(31));
    // High nibble of 0x01 is zero, the low nibble is 1.
    assert!(passes(&digest, 1));
    assert!(!passes(&digest, 2));
    let digest2 = vec![0x10; 32];
    assert!(!passes(&digest2, 1));
}

#[test]
fn nibbles_scan_across_byte_boundaries() {
    // 0x00 0x0f: nibbles are 0, 0, 0, 15.
    let digest = vec![0x00, 0x0f];
    assert!(passes(&digest, 3));
    assert!(!passes(&digest, 4));
}

#[test]
fn difficulty_beyond_digest_is_rejected_not_out_of_bounds() {
    let digest = vec![0x00, 0x00];
    assert!(passes(&digest, 4));
    assert!(!passes(&digest, 5));
    assert!(!passes(&vec![], 1));
}

#[test]
fn negative_difficulty_passes_like_zero() {
    assert!(passes(&vec![0xff], -1));
}
