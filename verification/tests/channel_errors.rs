use bytes::BytesMut;
use std::io::ErrorKind;
use tsyncp::channel::errors::{SinkError, StreamError};
use tsyncp::channel::Channel;
use tsyncp::codec::length_delimited::Error as CodecError;
use tsyncp::multi_channel::errors::{SinkError as MultiSinkError, StreamError as MultiStreamError};
use tsyncp::util::codec::EmptyCodec;
use tsyncp::util::stream_pool::errors::{PollError, SinkErrors, SinkStep};
use tsyncp::util::SocketAddr;

fn addr(port: u16) -> SocketAddr {
    SocketAddr { is_ipv6: false, ip: 0x7f00_0001, port, flowinfo: 0, scope_id: 0 }
}

fn io(kind: ErrorKind) -> CodecError {
    CodecError::IoError { source: std::io::Error::new(kind, "io") }
}

fn ch() -> Channel<(), EmptyCodec, u8> {
    Channel::new(0u8, addr(1), addr(2))
}

#[test]
fn sink_result_tags_the_step_and_the_addresses() {
    let c = ch();
    assert!(c.sink_result(SinkStep::PollReady, Ok(())).is_ok());
    match c.sink_result(SinkStep::PollFlush, Err(io(ErrorKind::BrokenPipe))) {
        Err(e @ SinkError::PollFlush { .. }) => {
            assert_eq!(*e.local_addr(), addr(1));
            assert_eq!(*e.peer_addr(), addr(2));
            assert!(e.is_sink_error());
            assert!(!e.is_encode_error());
            assert!(e.as_io().is_some());
            assert!(e.is_broken_pipe());
            assert!(e.is_connection_error());
            assert!(!e.is_connection_reset());
        }
        other => panic!("unexpected {other:?}"),
    }
    assert!(matches!(c.sink_result(SinkStep::StartSend, Err(io(ErrorKind::Other))), Err(SinkError::StartSend { .. })));
    assert!(matches!(c.sink_result(SinkStep::PollReady, Err(io(ErrorKind::Other))), Err(SinkError::PollReady { .. })));
    assert!(matches!(c.sink_result(SinkStep::PollClose, Err(io(ErrorKind::Other))), Err(SinkError::PollClose { .. })));
}

#[test]
fn encode_item_encodes_with_the_codec() {
    let c = ch();
    let b = c.encode_item(&()).unwrap();
    assert_eq!(&b[..], &[0]);
}

#[test]
fn io_kinds_of_a_sink_error() {
    let c = ch();
    let kinds = [
        (ErrorKind::ConnectionReset, 0),
        (ErrorKind::ConnectionRefused, 1),
        (ErrorKind::ConnectionAborted, 2),
        (ErrorKind::NotConnected, 3),
        (ErrorKind::BrokenPipe, 4),
    ];
    for (kind, k) in kinds {
        let e = c.sink_result(SinkStep::StartSend, Err(io(kind))).unwrap_err();
        let flags = [
            e.is_connection_reset(),
            e.is_connection_refused(),
            e.is_connection_aborted(),
            e.is_not_connected(),
            e.is_broken_pipe(),
        ];
        for (i, f) in flags.iter().enumerate() {
            assert_eq!(*f, i == k);
        }
        assert!(e.is_connection_error());
    }
    let e = c.sink_result(SinkStep::StartSend, Err(io(ErrorKind::TimedOut))).unwrap_err();
    assert!(!e.is_connection_error());
    let e = c
        .sink_result(SinkStep::StartSend, Err(CodecError::InvalidEncodingFrameLength { len: 9, max_frame_length: 8 }))
        .unwrap_err();
    assert!(e.as_io().is_none());
    assert!(!e.is_connection_error());
}

#[test]
fn recv_ready_tags_the_addresses() {
    let mut c = ch();
    let f = c.recv();
    assert!(f.ready(None).is_none());
    assert!(matches!(f.ready(Some(Ok(BytesMut::from(&[0u8][..])))), Some(Ok(()))));
    match f.ready(Some(Err(io(ErrorKind::ConnectionReset)))) {
        Some(Err(e)) => {
            assert!(e.is_recv_error());
            assert!(e.is_connection_reset());
            assert_eq!(*e.local_addr(), addr(1));
            assert_eq!(*e.peer_addr(), addr(2));
        }
        other => panic!("unexpected {other:?}"),
    }
    match f.ready(Some(Ok(BytesMut::from(&[3u8][..])))) {
        Some(Err(e @ StreamError::ItemDecode { .. })) => {
            assert!(e.is_decode_error());
            assert!(e.as_io().is_none());
            assert!(!e.is_connection_error());
        }
        other => panic!("unexpected {other:?}"),
    }
    let f = c.recv().as_bytes();
    match f.ready(Some(Ok(BytesMut::from(&[3u8][..])))) {
        Some(Ok(b)) => assert_eq!(&b[..], &[3]),
        other => panic!("unexpected {other:?}"),
    }
    assert!(matches!(f.ready(Some(Err(io(ErrorKind::Other)))), Some(Err(StreamError::PollNext { .. }))));
}

#[test]
fn multi_stream_error_io_kinds() {
    let e: MultiStreamError<std::io::Error> = MultiStreamError::StreamError {
        addr: addr(5),
        source: PollError::PollNext { addr: addr(5), source: io(ErrorKind::NotConnected) },
    };
    assert!(e.is_not_connected());
    assert!(e.is_connection_error());
    assert!(!e.is_broken_pipe());
    assert_eq!(e.peer_addr(), Some(addr(5)));
    assert!(e.is_recv_error());
}

#[test]
fn multi_sink_error_io_errors_in_order() {
    let errors = vec![
        PollError::PollReady { addr: addr(1), source: io(ErrorKind::BrokenPipe) },
        PollError::StartSend { addr: addr(2), source: CodecError::InvalidEncodingFrameLength { len: 2, max_frame_length: 1 } },
        PollError::PollFlush { addr: addr(3), source: io(ErrorKind::ConnectionReset) },
    ];
    let e: MultiSinkError<std::io::Error> = MultiSinkError::SinkErrors { addr: addr(9), source: SinkErrors::new(errors) };
    let kinds: Vec<ErrorKind> = e.as_io_errors().iter().map(|e| e.kind()).collect();
    assert_eq!(kinds, vec![ErrorKind::BrokenPipe, ErrorKind::ConnectionReset]);
    let kinds: Vec<ErrorKind> = e.into_io_errors().iter().map(|e| e.kind()).collect();
    assert_eq!(kinds, vec![ErrorKind::BrokenPipe, ErrorKind::ConnectionReset]);
    let enc: MultiSinkError<std::io::Error> = MultiSinkError::ItemEncode { addr: addr(9), source: std::io::Error::new(ErrorKind::Other, "x") };
    assert!(enc.as_io_errors().is_empty());
    assert!(enc.into_io_errors().is_empty());
}

#[test]
fn poll_error_io_kinds() {
    let e = PollError::PollClose { addr: addr(6), source: io(ErrorKind::ConnectionAborted) };
    assert!(e.is_connection_aborted());
    assert!(e.is_connection_error());
    assert!(!e.is_connection_refused());
    assert_eq!(*e.peer_addr(), addr(6));
    let e = PollError::PollReady { addr: addr(6), source: io(ErrorKind::ConnectionRefused) };
    assert!(e.is_connection_refused());
    let e = PollError::StartSend { addr: addr(6), source: io(ErrorKind::WouldBlock) };
    assert!(!e.is_connection_error());
    assert!(e.as_io().is_some());
    let e = PollError::PollNext { addr: addr(6), source: CodecError::InvalidDecodingFrameLength { len: 10, max_frame_length: 1 } };
    assert!(!e.is_connection_error());
    assert!(e.into_io().is_none());
}
