use pow20_miner::wire::{hex_decode, hex_encode};

#[test]
fn encode_matches_reference_encoder() {
    let bytes = vec![0x00, 0xff, 0x3a, 0x7b];
    assert_eq!(hex_encode(&bytes), hex::encode(&bytes));
    assert_eq!(hex_encode(&vec![]), hex::encode(Vec::<u8>::new()));
}

#[test]
fn round_trip_empty() {
    let bytes: Vec<u8> = vec![];
    let encoded = hex_encode(&bytes);
    assert_eq!(encoded, "");
    assert_eq!(hex_decode(&encoded), Some(bytes));
}

#[test]
fn round_trip_single_byte() {
    let bytes = vec![0xa5];
    let encoded = hex_encode(&bytes);
    assert_eq!(encoded, "a5");
    assert_eq!(hex_decode(&encoded), Some(bytes));
}

#[test]
fn round_trip_max_challenge_length() {
    // The longest challenge the preimage buffer admits: 56 bytes.
    let bytes: Vec<u8> = (0..56u8).map(|i| i.wrapping_mul(37).wrapping_add(11)).collect();
    let encoded = hex_encode(&bytes);
    assert_eq!(encoded.len(), 112);
    assert_eq!(hex_decode(&encoded), Some(bytes));
}

#[test]
fn decode_known_value() {
    assert_eq!(hex_decode("00ff"), Some(vec![0x00, 0xff]));
}

#[test]
fn decode_accepts_uppercase() {
    assert_eq!(hex_decode("00FF"), Some(vec![0x00, 0xff]));
    assert_eq!(hex_decode("DeAd"), Some(vec![0xde, 0xad]));
}

#[test]
fn decode_rejects_odd_length() {
    assert_eq!(hex_decode("0"), None);
    assert_eq!(hex_decode("00f"), None);
}

#[test]
fn decode_rejects_non_hex_characters() {
    assert_eq!(hex_decode("0g"), None);
    assert_eq!(hex_decode("zz"), None);
    assert_eq!(hex_decode("0x00"), None);
}
