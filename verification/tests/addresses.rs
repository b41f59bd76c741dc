use workspace_engine::address::{Address, AddressError};

#[test]
fn decode_reads_byte_pairs() {
    let text = "000102030405060708090a0b0c0d0e0f10111213";
    let address = Address::decode(text).unwrap();
    let expected: Vec<u8> = (0u8..20).collect();
    assert_eq!(address.as_bytes(), expected.as_slice());
}

#[test]
fn decode_accepts_both_letter_cases() {
    let lower = Address::decode("00000000000000000000000000000000000000ff").unwrap();
    let upper = Address::decode("00000000000000000000000000000000000000FF").unwrap();
    let mixed = Address::decode("00000000000000000000000000000000000000Ff").unwrap();
    assert_eq!(lower.as_bytes()[19], 255);
    assert_eq!(lower, upper);
    assert_eq!(lower, mixed);
}

#[test]
fn decode_rejects_wrong_length() {
    assert_eq!(Address::decode("").unwrap_err(), AddressError::IncorrectLength);
    assert_eq!(Address::decode("00").unwrap_err(), AddressError::IncorrectLength);
    let too_long = "0".repeat(41);
    assert_eq!(
        Address::decode(&too_long).unwrap_err(),
        AddressError::IncorrectLength
    );
}

#[test]
fn decode_rejects_non_hex_characters() {
    let bad = "000000000000000000000000000000000000000g";
    assert_eq!(Address::decode(bad).unwrap_err(), AddressError::FailedDecodeHex);
    let spaced = "0000000000000000000000000000000000000 00";
    assert_eq!(
        Address::decode(spaced).unwrap_err(),
        AddressError::FailedDecodeHex
    );
}

#[test]
fn encode_zero_address() {
    let zero = Address::zero();
    assert_eq!(zero.encode(), "0".repeat(40));
    assert_eq!(zero.as_bytes(), [0u8; 20].as_slice());
}

#[test]
fn encode_is_lowercase_and_decodes_back() {
    let text = "deadbeef00000000000000000000000000000bad";
    let address = Address::decode(text).unwrap();
    assert_eq!(address.encode(), text);
    let upper = Address::decode("DEADBEEF00000000000000000000000000000BAD").unwrap();
    assert_eq!(upper.encode(), text);
    let rebuilt = Address::decode(&address.encode()).unwrap();
    assert_eq!(rebuilt, address);
}
