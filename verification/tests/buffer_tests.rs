use typst_shared::buffer::Base16ByteArray;
use typst_shared::buffer::CVec;
use typst_shared::buffer::ThickBytePtr;

#[test]
fn buffer_round_trip() {
    let bytes = vec![0u8, 1, 2, 250, 255];
    let handle = CVec::wrap(bytes.clone());
    assert_eq!(handle.unwrap(), bytes);
}

#[test]
fn buffer_round_trip_empty() {
    let handle = CVec::<u8>::wrap(Vec::new());
    assert_eq!(handle.unwrap(), Vec::<u8>::new());
}

#[test]
fn thick_byte_ptr_carries_utf8() {
    let handle = ThickBytePtr::from_str(String::from("grüß dich"));
    assert_eq!(handle.to_str().unwrap(), "grüß dich");
}

#[test]
fn thick_byte_ptr_null_is_empty() {
    let handle = ThickBytePtr::null();
    assert_eq!(handle.0.len(), 0);
    assert_eq!(handle.0.unwrap(), Vec::<u8>::new());
}

#[test]
fn thick_byte_ptr_rejects_invalid_utf8() {
    let handle = ThickBytePtr(CVec::wrap(vec![0xffu8, 0xfe]));
    assert!(handle.to_str().is_none());
}

#[test]
fn hex_encoding_matches_reference() {
    let payload = Base16ByteArray(b"Hello world!".to_vec());
    assert_eq!(payload.to_hex(), "48656c6c6f20776f726c6421");
    let empty = Base16ByteArray(Vec::new());
    assert_eq!(empty.to_hex(), "");
    let bytes = Base16ByteArray(vec![1u8, 2, 3, 15, 16]);
    assert_eq!(bytes.to_hex(), "0102030f10");
}

#[test]
fn hex_decoding_accepts_both_cases() {
    let decoded = Base16ByteArray::from_hex("0102030F10").unwrap();
    assert_eq!(decoded.0, vec![1u8, 2, 3, 15, 16]);
    let decoded = Base16ByteArray::from_hex("f9b4ca").unwrap();
    assert_eq!(decoded.0, vec![0xf9u8, 0xb4, 0xca]);
}

#[test]
fn hex_decoding_rejects_bad_input() {
    assert!(Base16ByteArray::from_hex("123").is_err());
    assert!(Base16ByteArray::from_hex("zz").is_err());
}

#[test]
fn hex_round_trip() {
    let payload = Base16ByteArray(vec![0u8, 127, 128, 255]);
    let text = payload.to_hex();
    let back = Base16ByteArray::from_hex(text.as_str()).unwrap();
    assert_eq!(back.0, vec![0u8, 127, 128, 255]);
}
