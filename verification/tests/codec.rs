use corda_rpc::amqp::Any;
use corda_rpc::de::Deserializer;
use corda_rpc::ser::Serializer;
use corda_rpc::{Error, Expected, InvalidFormatCode};

#[test]
fn primitive_round_trips() {
    let mut s = Serializer::new();
    s.serialize_bool(true);
    s.serialize_bool(false);
    s.serialize_u8(7);
    s.serialize_u16(0x1234);
    s.serialize_u32(0);
    s.serialize_u32(5);
    s.serialize_u32(70_000);
    s.serialize_u64(0);
    s.serialize_u64(200);
    s.serialize_u64(1 << 40);
    s.serialize_i8(-3);
    s.serialize_i16(-2000);
    s.serialize_i32(9);
    s.serialize_i32(-9);
    s.serialize_i64(250);
    s.serialize_i64(-250);
    let bytes = s.into_vec();
    let mut d = Deserializer::from_bytes(bytes.as_slice());
    assert_eq!(d.parse_bool().unwrap(), true);
    assert_eq!(d.parse_bool().unwrap(), false);
    assert_eq!(d.parse_u8().unwrap(), 7);
    assert_eq!(d.parse_u16().unwrap(), 0x1234);
    assert_eq!(d.parse_u32().unwrap(), 0);
    assert_eq!(d.parse_u32().unwrap(), 5);
    assert_eq!(d.parse_u32().unwrap(), 70_000);
    assert_eq!(d.parse_u64().unwrap(), 0);
    assert_eq!(d.parse_u64().unwrap(), 200);
    assert_eq!(d.parse_u64().unwrap(), 1 << 40);
    assert_eq!(d.parse_i8().unwrap(), -3);
    assert_eq!(d.parse_i16().unwrap(), -2000);
    assert_eq!(d.parse_i32().unwrap(), 9);
    assert_eq!(d.parse_i32().unwrap(), -9);
    assert_eq!(d.parse_i64().unwrap(), 250);
    assert_eq!(d.parse_i64().unwrap(), -250);
    assert!(d.at_end());
}

#[test]
fn minimum_width_forms() {
    // a u32 of zero is one byte, a small u32 two, a wide u32 five
    let mut s = Serializer::new();
    s.serialize_u32(0);
    assert_eq!(s.into_vec(), vec![0x43]);
    let mut s = Serializer::new();
    s.serialize_u32(9);
    assert_eq!(s.into_vec(), vec![0x52, 9]);
    let mut s = Serializer::new();
    s.serialize_u32(256);
    assert_eq!(s.into_vec(), vec![0x70, 0, 0, 1, 0]);
    // an i32 in [0, 256) is exactly two bytes: the 0x54 code and the value
    for v in [0i32, 1, 127, 255] {
        let mut s = Serializer::new();
        s.serialize_i32(v);
        assert_eq!(s.into_vec(), vec![0x54, v as u8]);
    }
    // outside that range the wide form is chosen
    let mut s = Serializer::new();
    s.serialize_i32(-1);
    assert_eq!(s.into_vec(), vec![0x71, 0xff, 0xff, 0xff, 0xff]);
}

#[test]
fn variable_width_round_trips() {
    let mut s = Serializer::new();
    s.serialize_str(b"hello").unwrap();
    s.serialize_symbol(b"PLAIN").unwrap();
    s.serialize_bytes(b"\x00\x01\x02").unwrap();
    let long = vec![0x61u8; 300];
    s.serialize_str(long.as_slice()).unwrap();
    let bytes = s.into_vec();
    assert_eq!(&bytes[..7], b"\xa1\x05hello");
    let mut d = Deserializer::from_bytes(bytes.as_slice());
    assert_eq!(d.parse_str().unwrap(), b"hello".to_vec());
    assert_eq!(d.parse_str().unwrap(), b"PLAIN".to_vec());
    assert_eq!(d.parse_bytes().unwrap(), b"\x00\x01\x02".to_vec());
    assert_eq!(d.parse_str().unwrap(), long);
    assert!(d.at_end());
}

#[test]
fn error_unexpected_end() {
    let mut d = Deserializer::from_bytes(&[]);
    assert_eq!(d.parse_u32(), Err(Error::UnexpectedEnd));
    let mut d = Deserializer::from_bytes(&[0x70, 0x00]);
    assert_eq!(d.parse_u32(), Err(Error::UnexpectedEnd));
}

#[test]
fn error_invalid_format_code() {
    let mut d = Deserializer::from_bytes(&[0x41]);
    assert_eq!(
        d.parse_u32(),
        Err(Error::InvalidFormatCode(InvalidFormatCode::new(Expected::U32, 0x41)))
    );
    let mut d = Deserializer::from_bytes(&[0x99, 0x00]);
    assert_eq!(
        d.parse_str(),
        Err(Error::InvalidFormatCode(InvalidFormatCode::new(Expected::Str, 0x99)))
    );
}

#[test]
fn error_invalid_data_on_bad_compound() {
    // a 1-byte list whose size field is zero cannot carry its own count
    let mut d = Deserializer::from_bytes(&[0xc0, 0x00, 0x00]);
    assert_eq!(d.composite(), Err(Error::InvalidData));
}

#[test]
fn error_trailing_characters() {
    // a SASL frame with a byte left over after its composite
    let buf = b"\x02\x01\x00\x00\x00SD\xc0\x03\x01P\x00\xff";
    assert_eq!(
        corda_rpc::proto::Frame::decode(buf),
        Err(Error::TrailingCharacters)
    );
}

#[test]
fn map_count_is_even() {
    // the count field of an encoded map is twice the number of entries
    let entries: Vec<(Vec<u8>, Vec<u8>)> = vec![
        (b"k1".to_vec(), b"v1".to_vec()),
        (b"k2".to_vec(), b"v2".to_vec()),
        (b"k3".to_vec(), b"v3".to_vec()),
    ];
    let mut s = Serializer::new();
    corda_rpc::amqp::encode_elem_map(&mut s, &entries).unwrap();
    let bytes = s.into_vec();
    assert_eq!(bytes[0], 0xd1);
    let count = u32::from_be_bytes([bytes[5], bytes[6], bytes[7], bytes[8]]);
    assert_eq!(count, 6);
    assert_eq!(count % 2, 0);
    // an odd wire count is a framing error
    let mut d = Deserializer::from_bytes(&[0xc1, 0x04, 0x03, 0xa1, 0x01, 0x61]);
    assert_eq!(
        corda_rpc::amqp::parse_elem_map::<(Vec<u8>, Vec<u8>)>(&mut d),
        Err(Error::InvalidData)
    );
}

#[test]
fn compound_count_matches_declared_fields() {
    // an encoded Open always declares its nine fields
    let open = corda_rpc::amqp::Open {
        container_id: b"c".to_vec(),
        ..Default::default()
    };
    let mut s = Serializer::new();
    open.encode(&mut s).unwrap();
    let bytes = s.into_vec();
    // descriptor (3 bytes), 0xd0, 4-byte size, then the 4-byte count
    assert_eq!(bytes[..4].to_vec(), vec![0x00, 0x53, 0x10, 0xd0]);
    let count = u32::from_be_bytes([bytes[8], bytes[9], bytes[10], bytes[11]]);
    assert_eq!(count, 9);
}

#[test]
fn length_prefix_matches_frame_length() {
    let frame = corda_rpc::proto::Frame::Amqp(corda_rpc::amqp::Frame {
        channel: 3,
        extended_header: None,
        performative: corda_rpc::amqp::Performative::Close(corda_rpc::amqp::Close {
            error: None,
        }),
        message: None,
    });
    let bytes = frame.to_vec().unwrap();
    let len = u32::from_be_bytes([bytes[0], bytes[1], bytes[2], bytes[3]]);
    assert_eq!(len as usize, bytes.len());
}

#[test]
fn frame_decode_consumes_exact_length() {
    let codec = corda_rpc::proto::Codec;
    let mut buf: Vec<u8> = Vec::new();
    buf.extend_from_slice(b"\x00\x00\x00\x10\x02\x01\x00\x00\x00SD\xc0\x03\x01P\x00");
    buf.extend_from_slice(b"tail");
    let n_before = buf.len();
    let f = codec.decode(&mut buf).unwrap().unwrap();
    assert!(matches!(f, corda_rpc::proto::Frame::Sasl(_)));
    assert_eq!(n_before - buf.len(), 0x10);
    assert_eq!(buf, b"tail".to_vec());
    // a partial frame asks for more bytes and consumes nothing
    let mut buf: Vec<u8> = b"\x00\x00\x00\x10\x02\x01".to_vec();
    assert_eq!(codec.decode(&mut buf).unwrap(), None);
    assert_eq!(buf.len(), 6);
}

#[test]
fn any_values_round_trip() {
    let mut s = Serializer::new();
    Any::Null.encode(&mut s).unwrap();
    Any::I8(-5).encode(&mut s).unwrap();
    Any::I32(17).encode(&mut s).unwrap();
    Any::I64(-1).encode(&mut s).unwrap();
    Any::Str(b"hi".to_vec()).encode(&mut s).unwrap();
    let bytes = s.into_vec();
    let mut d = Deserializer::from_bytes(bytes.as_slice());
    assert_eq!(Any::decode(&mut d).unwrap(), Any::Null);
    assert_eq!(Any::decode(&mut d).unwrap(), Any::I8(-5));
    assert_eq!(Any::decode(&mut d).unwrap(), Any::I32(17));
    assert_eq!(Any::decode(&mut d).unwrap(), Any::I64(-1));
    assert_eq!(Any::decode(&mut d).unwrap(), Any::Str(b"hi".to_vec()));
    assert!(d.at_end());
}
