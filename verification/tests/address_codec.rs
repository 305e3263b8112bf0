use sha2::Digest;
use sovtoken::address::{decode_address, encode_address, validate_address};
use sovtoken::errors::AddressError;

const B58_ALPHABET: &str = "123456789ABCDEFGHJKLMNPQRSTUVWXYZabcdefghijkmnopqrstuvwxyz";

fn sample_key() -> Vec<u8> {
    (0u8..32).map(|i| i.wrapping_mul(7).wrapping_add(3)).collect()
}

#[test]
fn encode_then_decode_returns_key() {
    let key = sample_key();
    let addr = encode_address(&key);
    assert_eq!(decode_address(&addr).unwrap(), key);
    assert!(validate_address(&addr).is_ok());
}

#[test]
fn encode_produces_prefixed_base58_text() {
    let key = vec![7u8; 32];
    let addr = encode_address(&key);
    assert!(addr.starts_with("pay:sov:"));
    let body = &addr[8..];
    assert!(!body.is_empty());
    assert!(body.chars().all(|c| B58_ALPHABET.contains(c)));
}

#[test]
fn decode_then_encode_returns_address() {
    let key = sample_key();
    let addr = encode_address(&key);
    let decoded = decode_address(&addr).unwrap();
    assert_eq!(encode_address(&decoded), addr);
}

#[test]
fn checksum_bit_flips_are_rejected() {
    let key = sample_key();
    let digest = sha2::Sha256::digest(&key);
    let mut payload: Vec<u8> = key.clone();
    payload.extend_from_slice(&digest[..4]);
    // The unmodified payload is the valid address.
    let good = format!("pay:sov:{}", bs58::encode(&payload).into_string());
    assert!(validate_address(&good).is_ok());
    // Flipping any bit of the 4 checksum bytes must fail the check.
    for byte in 32..36 {
        for bit in 0..8 {
            let mut bad = payload.clone();
            bad[byte] ^= 1u8 << bit;
            let addr = format!("pay:sov:{}", bs58::encode(&bad).into_string());
            assert_eq!(validate_address(&addr), Err(AddressError::BadChecksum));
        }
    }
}

#[test]
fn missing_or_inexact_prefix_is_rejected() {
    let key = sample_key();
    let addr = encode_address(&key);
    let body = &addr[8..];
    assert_eq!(validate_address(body), Err(AddressError::MissingPrefix));
    assert_eq!(
        validate_address(&format!("pay:sob:{}", body)),
        Err(AddressError::MissingPrefix)
    );
    assert_eq!(
        validate_address(&format!("PAY:SOV:{}", body)),
        Err(AddressError::MissingPrefix)
    );
    assert_eq!(
        validate_address(&format!(" {}", addr)),
        Err(AddressError::MissingPrefix)
    );
    assert_eq!(validate_address("pay:sov"), Err(AddressError::MissingPrefix));
}

#[test]
fn bad_base58_characters_are_rejected() {
    assert_eq!(
        validate_address("pay:sov:0OIl"),
        Err(AddressError::BadBase58)
    );
}

#[test]
fn wrong_payload_length_is_rejected() {
    let short = bs58::encode(&[1u8; 10]).into_string();
    assert_eq!(
        validate_address(&format!("pay:sov:{}", short)),
        Err(AddressError::BadLength)
    );
    // An empty body decodes to no bytes at all.
    assert_eq!(validate_address("pay:sov:"), Err(AddressError::BadLength));
}

#[test]
fn trailing_whitespace_is_rejected() {
    let key = sample_key();
    let addr = encode_address(&key);
    assert!(validate_address(&format!("{} ", addr)).is_err());
}
