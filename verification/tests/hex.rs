use nanalive_link_receiver::hex::{
    decode_fixed, decode_hex_bounded, decode_hex_nibble, encode_hex, HexError,
};

#[test]
fn non_ascii_hex_is_rejected_without_panicking() {
    let result = decode_hex_bounded("aéx", 8);
    assert!(result.is_err());
}

#[test]
fn what_is_encoded_is_decoded_again() {
    let bytes: Vec<u8> = (0..=255).collect();
    let text = encode_hex(&bytes);
    assert_eq!(&text[..8], "00010203");
    assert_eq!(&text[508..], "feff");
    assert_eq!(decode_hex_bounded(&text, 256), Ok(bytes));
    assert_eq!(decode_fixed::<4>("DEADbeef"), Ok([0xde, 0xad, 0xbe, 0xef]));
    assert_eq!(encode_hex(&[]), "");
}

#[test]
fn each_hex_refusal_has_its_message() {
    assert_eq!(decode_hex_bounded("abc", 8), Err(HexError::Size));
    assert_eq!(decode_hex_bounded("aabb", 1), Err(HexError::Size));
    assert_eq!(decode_hex_bounded("ag", 1), Err(HexError::Character));
    assert_eq!(decode_fixed::<2>("aa"), Err(HexError::Length));
    assert_eq!(HexError::Size.text(), "hex field exceeds its allowed size");
    assert_eq!(HexError::Character.text(), "hex field contains invalid characters");
    assert_eq!(HexError::Length.text(), "hex field has an invalid length");
    assert_eq!(decode_hex_nibble(b'F'), Ok(15));
    assert_eq!(decode_hex_nibble(b'/'), Err(HexError::Character));
    assert_eq!(decode_hex_nibble(b':'), Err(HexError::Character));
    assert_eq!(decode_hex_nibble(b'@'), Err(HexError::Character));
    assert_eq!(decode_hex_nibble(b'`'), Err(HexError::Character));
}
