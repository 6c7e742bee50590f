use dhtmsg::hexcodec::{decode_hex, encode_hex, HexError};
use dhtmsg::identity::{derive_infohash, key_from_identity_bytes, random_hex_id};

#[test]
fn decodes_concrete_identity() {
    assert_eq!(decode_hex("ab01"), Ok(vec![0xAB, 0x01]));
}

#[test]
fn concrete_identity_key_is_fixed() {
    let key = derive_infohash("ab01").unwrap();
    assert_eq!(
        key.to_bytes(),
        [
            24, 143, 113, 170, 235, 230, 178, 136, 61, 193, 105, 132, 79, 235, 113, 51, 250, 90,
            13, 36
        ]
    );
    assert_eq!(key.to_hex(), "188f71aaebe6b2883dc169844feb7133fa5a0d24");
}

#[test]
fn derive_is_deterministic() {
    let first = derive_infohash("00112233445566778899aabbccddeeff").unwrap();
    let second = derive_infohash("00112233445566778899aabbccddeeff").unwrap();
    assert_eq!(first, second);
}

#[test]
fn derive_accepts_either_case() {
    assert_eq!(derive_infohash("AB01").unwrap(), derive_infohash("ab01").unwrap());
}

#[test]
fn empty_identity_hashes_empty_bytes() {
    let key = derive_infohash("").unwrap();
    assert_eq!(key.to_hex(), "da39a3ee5e6b4b0d3255bfef95601890afd80709");
}

#[test]
fn derive_matches_key_of_raw_bytes() {
    assert_eq!(derive_infohash("ab01").unwrap(), key_from_identity_bytes(&[0xAB, 0x01]));
}

#[test]
fn odd_length_is_rejected() {
    assert_eq!(derive_infohash("abc"), Err(HexError::OddLength));
    assert_eq!(decode_hex("1"), Err(HexError::OddLength));
}

#[test]
fn non_hex_character_is_rejected() {
    assert_eq!(
        derive_infohash("zz"),
        Err(HexError::InvalidHexCharacter { c: 'z', index: 0 })
    );
    assert_eq!(
        decode_hex("0g12"),
        Err(HexError::InvalidHexCharacter { c: 'g', index: 1 })
    );
}

#[test]
fn encode_gives_lowercase_pairs() {
    assert_eq!(encode_hex(&[0x00, 0x0F, 0xAB, 0xFF]), "000fabff");
    assert_eq!(encode_hex(&[]), "");
}

#[test]
fn random_identity_is_valid_hex() {
    let id = random_hex_id();
    assert_eq!(id.len(), 32);
    let raw = decode_hex(&id).unwrap();
    assert_eq!(raw.len(), 16);
    assert_eq!(encode_hex(&raw), id);
    assert!(derive_infohash(&id).is_ok());
}
