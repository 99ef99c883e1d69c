use bytes::{Bytes, BytesMut};
use tsyncp::codec::length_delimited::{Error, LengthDelimitedCodec, MAX_FRAME_LENGTH};

#[test]
fn default_max_frame_length_is_8_mib() {
    assert_eq!(MAX_FRAME_LENGTH, 8 * 1024 * 1024);
}

type Result<T, E = Error> = std::result::Result<T, E>;

fn example_struct(field1: u64, field2_len: usize, tag: &str) -> serde_json::Value {
    let mut map = serde_json::Map::new();
    map.insert("example_field1".to_string(), serde_json::Value::from(field1));
    map.insert(
        "example_field2".to_string(),
        serde_json::Value::from("x".repeat(field2_len)),
    );
    let words: Vec<serde_json::Value> = (0..5)
        .map(|i| serde_json::Value::from(format!("{tag} word {i}")))
        .collect();
    map.insert(
        "example_field3".to_string(),
        serde_json::Value::Array(vec![
            serde_json::Value::from(tag.to_string()),
            serde_json::Value::Array(words),
        ]),
    );
    serde_json::Value::Object(map)
}

fn sentence(words: usize) -> String {
    let mut s = String::new();
    for i in 0..words {
        if i > 0 {
            s.push(' ');
        }
        s.push_str(["lorem", "ipsum", "dolor", "sit", "amet"][i % 5]);
    }
    s.push('.');
    s
}

#[test]
fn test_codec() -> Result<()> {
    let mut codec = LengthDelimitedCodec::new();
    let mut buffer = BytesMut::new();

    let faked1 = example_struct(1234, 1500, "first");
    let ser1: Bytes = serde_json::to_vec(&faked1).unwrap().into();
    codec.encode(ser1, &mut buffer)?;

    let faked2 = example_struct(42, 1999, "second");
    let ser2: Bytes = serde_json::to_vec(&faked2).unwrap().into();
    codec.encode(ser2, &mut buffer)?;

    let faked3: String = sentence(100000);
    codec.encode(faked3.clone().into_bytes().into(), &mut buffer)?;

    let faked4: Vec<String> = (0..10000).map(|i| sentence(5 + i % 7)).collect();
    codec.encode(serde_json::to_vec(&faked4).unwrap().into(), &mut buffer)?;

    let decoded = codec.decode(&mut buffer)?.unwrap();
    let deser: serde_json::Value = serde_json::from_slice(&decoded).unwrap();
    assert_eq!(deser, faked1);

    let decoded = codec.decode(&mut buffer)?.unwrap();
    let deser: serde_json::Value = serde_json::from_slice(&decoded).unwrap();
    assert_eq!(deser, faked2);

    let decoded = codec.decode(&mut buffer)?.unwrap();
    assert_eq!(decoded, faked3);

    let decoded = codec.decode(&mut buffer)?.unwrap();
    let deser: Vec<String> = serde_json::from_slice(&decoded).unwrap();
    assert_eq!(deser, faked4);

    Ok(())
}

fn test_encoded_bytes(len: usize, expected_header_len: usize) -> Result<()> {
    let mut codec = LengthDelimitedCodec::new();
    let mut buffer = BytesMut::new();

    let bytes = std::iter::repeat(b'c').take(len).collect::<Bytes>();
    codec.encode(bytes, &mut buffer)?;

    // check that encoded bytes' length is equal to expected header_len + len
    assert_eq!(buffer.len(), expected_header_len + len);

    // check that decoded bytes' length is equal to the encoded payload's len
    let decoded = codec.decode(&mut buffer)?.unwrap();
    assert_eq!(decoded.len(), len);

    Ok(())
}

#[test]
fn test_edge_cases() -> Result<()> {
    // 0 bytes should have 1 byte header + 0 bytes payload
    test_encoded_bytes(0, 1)?;

    // 1 byte should have 1 byte header + 1 byte payload
    test_encoded_bytes(1, 1)?;

    // 127 bytes should have 1 byte header + 127 bytes payload
    test_encoded_bytes(127, 1)?;

    // 128 bytes should have 2 byte header + 128 bytes payload
    test_encoded_bytes(128, 2)?;

    // 16383 bytes should have 2 byte header + 16383 bytes payload
    test_encoded_bytes(16383, 2)?;

    // 16384 bytes should have 3 byte header + 16384 bytes payload
    test_encoded_bytes(16384, 3)?;

    // 2097151 bytes should have 3 byte header + 2097151 bytes payload
    test_encoded_bytes(2097151, 3)?;

    // 2097152 bytes should have 4 byte header + 2097152 bytes payload
    test_encoded_bytes(2097152, 4)?;

    Ok(())
}

#[test]
fn header_bytes_follow_the_documented_layout() {
    let mut codec = LengthDelimitedCodec::new();
    let cases: Vec<(usize, Vec<u8>)> = vec![
        (100, vec![0b0110_0100]),
        (500, vec![0b1000_0001, 0b1111_0100]),
        (2_000_000, vec![0b1101_1110, 0b1000_0100, 0b1000_0000]),
    ];
    for (len, head) in cases {
        let mut buffer = BytesMut::new();
        codec
            .encode(Bytes::from(vec![7u8; len]), &mut buffer)
            .unwrap();
        assert_eq!(&buffer[..head.len()], &head[..]);
    }
}

#[test]
fn four_byte_head_for_large_frames() {
    let mut codec = LengthDelimitedCodec::with_max_frame_length(60_000_000);
    let mut buffer = BytesMut::new();
    codec
        .encode(Bytes::from(vec![1u8; 50_000_000]), &mut buffer)
        .unwrap();
    assert_eq!(&buffer[..4], &[0b1110_0010, 0b1111_1010, 0b1111_0000, 0b1000_0000]);
    let decoded = codec.decode(&mut buffer).unwrap().unwrap();
    assert_eq!(decoded.len(), 50_000_000);
    assert!(buffer.is_empty());
}

#[test]
fn encoding_a_too_long_frame_fails_and_writes_nothing() {
    let mut codec = LengthDelimitedCodec::with_max_frame_length(10);
    let mut buffer = BytesMut::from(&b"ab"[..]);
    match codec.encode(Bytes::from(vec![0u8; 11]), &mut buffer) {
        Err(Error::InvalidEncodingFrameLength { len, max_frame_length }) => {
            assert_eq!(len, 11);
            assert_eq!(max_frame_length, 10);
        }
        other => panic!("unexpected {other:?}"),
    }
    assert_eq!(&buffer[..], b"ab");
    assert!(codec.encode(Bytes::from(vec![0u8; 10]), &mut buffer).is_ok());
}

#[test]
fn decoding_a_too_long_head_fails_and_consumes_the_head() {
    let mut encoder = LengthDelimitedCodec::new();
    let mut buffer = BytesMut::new();
    encoder.encode(Bytes::from(vec![3u8; 200]), &mut buffer).unwrap();
    let mut decoder = LengthDelimitedCodec::with_max_frame_length(199);
    match decoder.decode(&mut buffer) {
        Err(Error::InvalidDecodingFrameLength { len, max_frame_length }) => {
            assert_eq!(len, 200);
            assert_eq!(max_frame_length, 199);
        }
        other => panic!("unexpected {other:?}"),
    }
    assert_eq!(buffer.len(), 200);
}

#[test]
fn decoding_is_incremental() {
    let mut encoder = LengthDelimitedCodec::new();
    let mut whole = BytesMut::new();
    encoder.encode(Bytes::from(vec![9u8; 300]), &mut whole).unwrap();
    encoder.encode(Bytes::from_static(b"next"), &mut whole).unwrap();
    let bytes = whole.to_vec();

    let mut decoder = LengthDelimitedCodec::new();
    let mut buffer = BytesMut::new();
    let mut frames = Vec::new();
    for b in bytes {
        buffer.extend_from_slice(&[b]);
        while let Some(frame) = decoder.decode(&mut buffer).unwrap() {
            frames.push(frame.to_vec());
        }
    }
    assert_eq!(frames, vec![vec![9u8; 300], b"next".to_vec()]);
    assert!(buffer.is_empty());
}

#[test]
fn empty_input_gives_nothing_and_is_left_alone() {
    let mut decoder = LengthDelimitedCodec::default();
    let mut buffer = BytesMut::new();
    assert!(decoder.decode(&mut buffer).unwrap().is_none());
    let mut partial = BytesMut::from(&[0b1000_0001u8][..]);
    assert!(decoder.decode(&mut partial).unwrap().is_none());
    assert_eq!(&partial[..], &[0b1000_0001u8]);
}

#[test]
fn io_errors_convert() {
    let e: Error = std::io::Error::new(std::io::ErrorKind::BrokenPipe, "gone").into();
    assert!(e.as_io().is_some());
    assert_eq!(e.into_io().unwrap().kind(), std::io::ErrorKind::BrokenPipe);
    let e = Error::InvalidDecodingFrameLength { len: 1, max_frame_length: 0 };
    assert!(e.as_io().is_none());
}

#[test]
fn frames_encoded_one_after_another_decode_in_order() {
    let payloads: Vec<Vec<u8>> = vec![vec![], vec![7u8; 127], vec![8u8; 128], vec![9u8; 16_384], b"tail".to_vec()];
    let mut codec = LengthDelimitedCodec::new();
    let mut buffer = BytesMut::new();
    for p in &payloads {
        codec.encode(Bytes::from(p.clone()), &mut buffer).unwrap();
    }
    buffer.extend_from_slice(b"\x85ab");
    let mut decoded = Vec::new();
    for _ in 0..payloads.len() {
        decoded.push(codec.decode(&mut buffer).unwrap().unwrap().to_vec());
    }
    assert_eq!(decoded, payloads);
    assert_eq!(&buffer[..], b"\x85ab");
}

#[test]
fn a_length_no_head_can_express_is_refused() {
    let mut codec = LengthDelimitedCodec::with_max_frame_length(usize::MAX);
    let mut buffer = BytesMut::from(&b"x"[..]);
    match codec.encode(Bytes::from(vec![0u8; 1 << 29]), &mut buffer) {
        Err(Error::InvalidEncodingFrameLength { len, max_frame_length }) => {
            assert_eq!(len, 1 << 29);
            assert_eq!(max_frame_length, usize::MAX);
        }
        other => panic!("unexpected {other:?}"),
    }
    assert_eq!(&buffer[..], b"x");
}
