use bytes::BytesMut;
use tsyncp::util::codec::{DecodeMethod, EmptyCodec, EncodeMethod};

#[test]
fn empty_codec_frames_the_empty_tuple_as_one_zero_byte() {
    let bytes = <EmptyCodec as EncodeMethod<()>>::encode(&()).unwrap();
    assert_eq!(&bytes[..], &[0u8]);
    let decoded: Result<(), std::io::Error> =
        <EmptyCodec as DecodeMethod<()>>::decode(BytesMut::from(&bytes[..]));
    assert!(decoded.is_ok());
}

#[test]
fn empty_codec_refuses_other_frames() {
    let e = <EmptyCodec as DecodeMethod<()>>::decode(BytesMut::from(&[1u8][..])).unwrap_err();
    assert_eq!(e.kind(), std::io::ErrorKind::InvalidData);
    let e = <EmptyCodec as DecodeMethod<()>>::decode(BytesMut::from(&[0u8, 0][..])).unwrap_err();
    assert_eq!(e.kind(), std::io::ErrorKind::InvalidData);
    assert!(<EmptyCodec as DecodeMethod<()>>::decode(BytesMut::new()).is_err());
}
