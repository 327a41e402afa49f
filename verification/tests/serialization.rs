use blockchain_handshake::address::IpAddress;
use blockchain_handshake::error::Error;
use blockchain_handshake::message::Port;
use blockchain_handshake::serialization::{
    ByteReader, CompactSizeUint, DeserializePayload, SerializePayload, Timestamp,
};
use std::time::{SystemTime, UNIX_EPOCH};

fn roundtrip<T: SerializePayload + DeserializePayload>(value: &T) -> T {
    let mut buffer = vec![];
    value.serialize(&mut buffer).unwrap();
    let mut reader = ByteReader::new(&buffer);
    let back = T::deserialize(&mut reader).unwrap();
    assert_eq!(reader.remaining(), 0);
    back
}

#[test]
fn test_serde_u8() {
    let original_value: u8 = rand::random();
    assert_eq!(original_value, roundtrip(&original_value));
}

#[test]
fn test_serde_u16() {
    let original_value: u16 = rand::random();
    assert_eq!(original_value, roundtrip(&original_value));
}

#[test]
fn test_serde_u32() {
    let original_value: u32 = rand::random();
    assert_eq!(original_value, roundtrip(&original_value));
}

#[test]
fn test_serde_u64() {
    let original_value: u64 = rand::random();
    assert_eq!(original_value, roundtrip(&original_value));
}

#[test]
fn test_serde_i32() {
    let original_value: i32 = rand::random();
    assert_eq!(original_value, roundtrip(&original_value));
}

#[test]
fn test_serde_bool() {
    for original_value in [false, true] {
        assert_eq!(original_value, roundtrip(&original_value));
    }
}

#[test]
fn test_deserialize_invalid_bool() {
    let buffer = [0x02u8];
    let error = bool::deserialize(&mut ByteReader::new(&buffer)).unwrap_err();
    assert_eq!(error, Error::InvalidBool(2));
}

#[test]
fn test_serde_port() {
    let original_value: Port = Port(rand::random());
    assert_eq!(original_value, roundtrip(&original_value));
}

#[test]
fn test_serde_ipv4() {
    let original_value = IpAddress::V4([rand::random(), rand::random(), rand::random(), rand::random()]);
    assert_eq!(original_value, roundtrip(&original_value));
}

#[test]
fn test_serde_ipv6() {
    let segments: [u16; 8] = [
        rand::random(),
        rand::random(),
        rand::random(),
        rand::random(),
        rand::random(),
        rand::random(),
        rand::random(),
        rand::random(),
    ];
    let mut octets = [0u8; 16];
    for (i, segment) in segments.iter().enumerate() {
        octets[2 * i] = (segment >> 8) as u8;
        octets[2 * i + 1] = *segment as u8;
    }
    let original_value = IpAddress::V6(octets);
    assert_eq!(original_value, roundtrip(&original_value));
}

#[test]
fn test_serde_system_time() {
    let seconds = SystemTime::now().duration_since(UNIX_EPOCH).unwrap().as_secs();
    let original_value = Timestamp(seconds as i64);
    let deserialized_value = roundtrip(&original_value);
    assert_eq!(original_value.0, deserialized_value.0);
}

#[test]
fn test_serde_empty_string() {
    let original_value = "".to_string();
    assert_eq!(original_value, roundtrip(&original_value));
}

#[test]
fn test_serde_non_empty_string() {
    let original_value = "Hello".to_string();
    assert_eq!(original_value, roundtrip(&original_value));
}

#[test]
fn integers_are_little_endian_and_port_big_endian() {
    let mut buffer = vec![];
    0x0102u16.serialize(&mut buffer).unwrap();
    0x01020304u32.serialize(&mut buffer).unwrap();
    0x0102030405060708u64.serialize(&mut buffer).unwrap();
    (-2i32).serialize(&mut buffer).unwrap();
    Port(0x208D).serialize(&mut buffer).unwrap();
    assert_eq!(
        buffer,
        vec![
            0x02, 0x01, 0x04, 0x03, 0x02, 0x01, 0x08, 0x07, 0x06, 0x05, 0x04, 0x03, 0x02, 0x01,
            0xFE, 0xFF, 0xFF, 0xFF, 0x20, 0x8D
        ]
    );
}

#[test]
fn compact_size_encodings() {
    let cases: Vec<(u64, Vec<u8>)> = vec![
        (0, vec![0x00]),
        (0xFC, vec![0xFC]),
        (0xFD, vec![0xFD, 0xFD, 0x00]),
        (0xFFFF, vec![0xFD, 0xFF, 0xFF]),
        (0x10000, vec![0xFE, 0x00, 0x00, 0x01, 0x00]),
        (0xFFFF_FFFF, vec![0xFE, 0xFF, 0xFF, 0xFF, 0xFF]),
        (0x1_0000_0000, vec![0xFD, 0, 0, 0, 0, 1, 0, 0, 0]),
    ];
    for (value, expected) in cases {
        let mut buffer = vec![];
        CompactSizeUint(value).serialize(&mut buffer).unwrap();
        assert_eq!(buffer, expected, "encoding of {value:#x}");
    }
}

#[test]
fn compact_size_roundtrip_up_to_u32_max() {
    for value in [0u64, 1, 0xFC, 0xFD, 0xFFFF, 0x10000, 0xFFFF_FFFF] {
        let mut buffer = vec![];
        CompactSizeUint(value).serialize(&mut buffer).unwrap();
        let mut reader = ByteReader::new(&buffer);
        assert_eq!(CompactSizeUint::deserialize(&mut reader).unwrap().0, value);
        assert_eq!(reader.remaining(), 0);
    }
}

#[test]
fn compact_size_above_u32_max_reads_back_as_two_bytes() {
    let mut buffer = vec![];
    CompactSizeUint(0x1_0000_0005).serialize(&mut buffer).unwrap();
    let mut reader = ByteReader::new(&buffer);
    assert_eq!(CompactSizeUint::deserialize(&mut reader).unwrap().0, 5);
    assert_eq!(reader.position(), 3);
}

#[test]
fn compact_size_eight_byte_marker() {
    let buffer = [0xFF, 1, 2, 3, 4, 5, 6, 7, 8];
    let value = CompactSizeUint::deserialize(&mut ByteReader::new(&buffer)).unwrap();
    assert_eq!(value.0, 0x0807060504030201);
}

#[test]
fn short_input_fails_and_moves_to_the_end() {
    let buffer = [1u8, 2, 3];
    let mut reader = ByteReader::new(&buffer);
    assert_eq!(u32::deserialize(&mut reader).unwrap_err(), Error::UnexpectedEnd);
    assert_eq!(reader.position(), 3);
    let mut empty = ByteReader::new(&[]);
    assert_eq!(u8::deserialize(&mut empty).unwrap_err(), Error::UnexpectedEnd);
}

#[test]
fn string_with_invalid_utf8_is_refused() {
    let buffer = [2u8, 0xC3, 0x28];
    let mut reader = ByteReader::new(&buffer);
    assert_eq!(String::deserialize(&mut reader).unwrap_err(), Error::InvalidUtf8);
    assert_eq!(reader.position(), 3);
}

#[test]
fn string_longer_than_input_is_refused() {
    let buffer = [5u8, b'a', b'b'];
    let error = String::deserialize(&mut ByteReader::new(&buffer)).unwrap_err();
    assert_eq!(error, Error::UnexpectedEnd);
}

#[test]
fn string_length_counts_utf8_bytes() {
    let mut buffer = vec![];
    "é".to_string().serialize(&mut buffer).unwrap();
    assert_eq!(buffer, vec![2, 0xC3, 0xA9]);
    assert_eq!(roundtrip(&"héllo wörld".to_string()), "héllo wörld");
}

#[test]
fn timestamp_before_epoch_is_refused() {
    let mut buffer = vec![];
    assert_eq!(Timestamp(-1).serialize(&mut buffer).unwrap_err(), Error::TimestampBeforeEpoch(-1));
    assert!(buffer.is_empty());
}

#[test]
fn timestamp_beyond_clock_range_is_refused() {
    let buffer = u64::MAX.to_le_bytes();
    let error = Timestamp::deserialize(&mut ByteReader::new(&buffer)).unwrap_err();
    assert_eq!(error, Error::TimestampOutOfRange(u64::MAX));
    let buffer = (i64::MAX as u64).to_le_bytes();
    assert_eq!(Timestamp::deserialize(&mut ByteReader::new(&buffer)).unwrap().0, i64::MAX);
}

#[test]
fn ipv4_is_written_as_mapped_ipv6() {
    let mut buffer = vec![];
    IpAddress::V4([1, 2, 3, 4]).serialize(&mut buffer).unwrap();
    assert_eq!(buffer, vec![0, 0, 0, 0, 0, 0, 0, 0, 0, 0, 0xFF, 0xFF, 1, 2, 3, 4]);
}

#[test]
fn mapped_ipv6_reads_back_as_ipv4() {
    let mut octets = [0u8; 16];
    octets[10] = 0xFF;
    octets[11] = 0xFF;
    octets[12..].copy_from_slice(&[9, 8, 7, 6]);
    assert_eq!(roundtrip(&IpAddress::V6(octets)), IpAddress::V4([9, 8, 7, 6]));
}
