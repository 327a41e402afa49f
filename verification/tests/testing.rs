use blockchain_handshake::testing::{decode_bytes, encode_bytes, try_decode_bytes};

#[test]
fn base64_without_padding() {
    assert_eq!(encode_bytes(&[]), "");
    assert_eq!(encode_bytes(&[0xf9, 0xbe, 0xb4, 0xd9]), "+b602Q");
    assert_eq!(decode_bytes("+b602Q"), vec![0xf9, 0xbe, 0xb4, 0xd9]);
    let bytes: Vec<u8> = (0..=255).collect();
    assert_eq!(decode_bytes(&encode_bytes(&bytes)), bytes);
}

#[test]
fn invalid_base64_is_refused() {
    assert_eq!(try_decode_bytes("+b602Q=="), None);
    assert_eq!(try_decode_bytes("!!"), None);
    assert_eq!(try_decode_bytes("AAIAAAAAAAAA"), Some(vec![0, 2, 0, 0, 0, 0, 0, 0, 0]));
}
