use hemion::chain::ChainId;
use hemion::ids::{format_id, generate_id, generate_key_for_chain, parse_private_key_hex, strip_0x};

#[test]
fn generated_ids_are_32_random_bytes_in_hex() {
    let a = generate_id();
    let b = generate_id();
    assert_ne!(a, b);
    assert_eq!(a.len(), 66);
    assert!(a.starts_with("0x"));
    assert_eq!(hex::decode(&a[2..]).unwrap().len(), 32);
    let key = generate_key_for_chain(ChainId::new("solana"));
    assert_eq!(parse_private_key_hex(&key).unwrap().len(), 32);
}

#[test]
fn private_keys_are_exactly_32_bytes() {
    assert_eq!(parse_private_key_hex(&"01".repeat(32)), Ok([1; 32]));
    assert_eq!(parse_private_key_hex("0x0102").unwrap_err(), "Private key must be 32 bytes, got 2");
    assert!(parse_private_key_hex("0xzz").unwrap_err().starts_with("Invalid hex: "));
    assert_eq!(strip_0x("0x0x12"), "0x12");
    assert_eq!(format_id(&[0x0f; 32]), format!("0x{}", "0f".repeat(32)));
}

#[test]
fn hex_refusals_carry_the_decoder_message() {
    assert_eq!(parse_private_key_hex("0g").unwrap_err(), "Invalid hex: Invalid character 'g' at position 1");
    assert_eq!(parse_private_key_hex("0x123").unwrap_err(), "Invalid hex: Odd number of digits");
    assert_eq!(
        hemion::ids::parse_sanad_id("0xabzz").unwrap_err(),
        "invalid Sanad ID hex: Invalid character 'z' at position 2"
    );
}
