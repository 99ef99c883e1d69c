use bytes::BytesMut;
use tsyncp::codec::length_delimited::Error as CodecError;
use tsyncp::util::split::Split;
use tsyncp::util::stream_pool::errors::{PollError, SinkErrors, SinkStep, StreamPoolError, UnsplitError};
use tsyncp::util::stream_pool::StreamPool;
use tsyncp::util::SocketAddr;

fn addr(port: u16) -> SocketAddr {
    SocketAddr { is_ipv6: false, ip: 0x7f00_0001, port, flowinfo: 0, scope_id: 0 }
}

fn io_err() -> CodecError {
    CodecError::IoError { source: std::io::Error::new(std::io::ErrorKind::ConnectionReset, "reset") }
}

fn ports<S, const N: usize>(p: &StreamPool<S, N>) -> Vec<u16> {
    p.addrs().iter().map(|a| a.port).collect()
}

#[derive(Debug, PartialEq)]
struct Conn(u32);

#[derive(Debug, PartialEq)]
struct ReadHalf(u32);

#[derive(Debug, PartialEq)]
struct WriteHalf(u32);

impl Split for Conn {
    type Left = ReadHalf;
    type Right = WriteHalf;
    type Error = String;

    fn split(self) -> (ReadHalf, WriteHalf) {
        (ReadHalf(self.0), WriteHalf(self.0))
    }

    fn unsplit(left: ReadHalf, right: WriteHalf) -> Result<Self, String> {
        if left.0 == right.0 {
            Ok(Conn(left.0))
        } else {
            Err(format!("{} != {}", left.0, right.0))
        }
    }
}

#[test]
fn push_stops_at_the_limit() {
    let mut pool: StreamPool<u32, 0> = StreamPool::with_limit(2);
    assert!(pool.push(1, addr(1)).is_ok());
    assert!(pool.push(2, addr(2)).is_ok());
    match pool.push(3, addr(3)) {
        Err(StreamPoolError::AddStreamLimitReached { limit }) => assert_eq!(limit, 2),
        other => panic!("unexpected {other:?}"),
    }
    assert_eq!(pool.len(), 2);
    assert_eq!(ports(&pool), vec![1, 2]);
    assert_eq!(pool.limit(), Some(2));
    assert!(pool.is_vec());
}

#[test]
fn array_pool_is_limited_by_its_const() {
    let mut pool: StreamPool<u32, 3> = StreamPool::<u32, 3>::array::<3>();
    assert!(pool.is_array());
    assert_eq!(pool.limit(), Some(3));
    for i in 0..3 {
        assert!(pool.push(i, addr(i as u16)).is_ok());
    }
    assert!(pool.push(9, addr(9)).is_err());
    let unlimited: StreamPool<u32, 0> = StreamPool::vec();
    assert_eq!(unlimited.limit(), None);
}

#[test]
fn swap_remove_moves_the_last_connection() {
    let mut pool: StreamPool<u32, 0> = StreamPool::vec();
    for i in 0..3u32 {
        pool.push(i, addr(i as u16)).unwrap();
    }
    assert_eq!(pool.swap_remove(0).map(|e| e.0), Some(0));
    assert_eq!(ports(&pool), vec![2, 1]);
    // a vec pool drops its last connection without handing it out
    assert!(pool.swap_remove(1).is_none());
    assert_eq!(ports(&pool), vec![2]);
    assert!(pool.swap_remove(5).is_none());
    assert_eq!(pool.len(), 1);

    let mut arr: StreamPool<u32, 4> = StreamPool::<u32, 4>::array::<4>();
    arr.push(7, addr(7)).unwrap();
    arr.push(8, addr(8)).unwrap();
    assert_eq!(arr.swap_remove(1).map(|e| e.0), Some(8));
    assert_eq!(arr.pop().map(|e| e.0), Some(7));
    assert!(arr.pop().is_none());
}

#[test]
fn get_and_get_mut() {
    let mut pool: StreamPool<u32, 0> = StreamPool::with_capacity(2);
    pool.push(5, addr(50)).unwrap();
    assert_eq!(pool.get(0).map(|e| e.0), Some(5));
    assert!(pool.get(1).is_none());
    if let Some(e) = pool.get_mut(0) {
        e.0 = 6;
    }
    assert_eq!(pool.get(0).map(|e| e.0), Some(6));
    assert!(pool.get_mut(3).is_none());
}

#[test]
fn poll_next_visits_round_robin() {
    let mut pool: StreamPool<u32, 0> = StreamPool::vec();
    for i in 0..3u32 {
        pool.push(i, addr(10 + i as u16)).unwrap();
    }
    assert_eq!(pool.poll_next_order(), vec![0, 1, 2]);

    let (item, a) = pool.poll_next_ready(1, Ok(BytesMut::from(&b"hi"[..])));
    assert_eq!(a.port, 11);
    assert_eq!(&item.unwrap()[..], b"hi");
    assert_eq!(pool.poll_next_order(), vec![2, 0, 1]);

    // a failing connection is removed, and the next poll starts at its index
    let (item, a) = pool.poll_next_ready(0, Err(io_err()));
    assert_eq!(a.port, 10);
    match item {
        Err(PollError::PollNext { addr, .. }) => assert_eq!(addr.port, 10),
        other => panic!("unexpected {other:?}"),
    }
    assert_eq!(ports(&pool), vec![12, 11]);
    assert_eq!(pool.poll_next_order(), vec![0, 1]);

    pool.poll_next_pending();
    assert_eq!(pool.poll_next_order(), vec![0, 1]);

    let empty: StreamPool<u32, 0> = StreamPool::vec();
    assert!(empty.poll_next_order().is_empty());
}

#[test]
fn poll_all_visits_every_connection_from_the_last() {
    let mut pool: StreamPool<u32, 0> = StreamPool::vec();
    for i in 0..3u32 {
        pool.push(i, addr(20 + i as u16)).unwrap();
    }
    assert!(pool.poll_all_start().is_none());
    let mut visited = Vec::new();
    while let Some(i) = pool.poll_all_next() {
        visited.push(i);
        let res = if i == 2 { Err(io_err()) } else { Ok(()) };
        pool.poll_all_ready(res, SinkStep::PollReady);
    }
    assert_eq!(visited, vec![2, 1, 0]);
    assert!(pool.finish_round().is_ok());
    assert_eq!(ports(&pool), vec![20, 21]);

    let errors = pool.drain_sink_res().unwrap_err();
    assert_eq!(errors.peer_addrs().iter().map(|a| a.port).collect::<Vec<_>>(), vec![22]);
    assert!(matches!(errors.errors()[0], PollError::PollReady { .. }));
    assert!(pool.drain_sink_res().is_ok());
}

#[test]
fn poll_all_resumes_where_it_stopped() {
    let mut pool: StreamPool<u32, 0> = StreamPool::vec();
    for i in 0..3u32 {
        pool.push(i, addr(i as u16)).unwrap();
    }
    assert!(pool.poll_all_start().is_none());
    assert_eq!(pool.poll_all_next(), Some(2));
    pool.poll_all_ready(Ok(()), SinkStep::PollFlush);
    // pending here: the next round goes on with connection 1
    assert!(pool.poll_all_start().is_none());
    assert_eq!(pool.poll_all_next(), Some(1));
}

#[test]
fn poll_all_on_an_empty_pool_gives_the_errors() {
    let mut pool: StreamPool<u32, 0> = StreamPool::vec();
    pool.push(1, addr(1)).unwrap();
    assert!(pool.poll_all_start().is_none());
    pool.poll_all_ready(Err(io_err()), SinkStep::PollClose);
    assert!(pool.poll_all_next().is_none());
    match pool.finish_round() {
        Err(e) => assert!(matches!(e.errors()[0], PollError::PollClose { .. })),
        Ok(()) => panic!("errors expected"),
    }
    match pool.poll_all_start() {
        Some(Ok(())) => {}
        other => panic!("unexpected {other:?}"),
    }
}

#[test]
fn settle_last_removes_failed_connections() {
    let mut pool: StreamPool<u32, 0> = StreamPool::vec();
    for i in 0..4u32 {
        pool.push(i, addr(30 + i as u16)).unwrap();
    }
    let mut indices = pool.get_indices(&|a: SocketAddr| a.port % 2 == 1);
    assert_eq!(indices, vec![1, 3]);
    pool.settle_last(&mut indices, Err(io_err()), SinkStep::StartSend);
    assert_eq!(indices, vec![1]);
    pool.settle_last(&mut indices, Ok(()), SinkStep::StartSend);
    assert!(indices.is_empty());
    assert_eq!(ports(&pool), vec![30, 31, 32]);
    let errs = pool.drain_sink_res().unwrap_err();
    assert!(matches!(errs.errors()[0], PollError::StartSend { addr, .. } if addr.port == 33));
    assert_eq!(pool.all_indices(), vec![0, 1, 2]);
}

#[test]
fn split_and_unsplit_give_back_the_peers() {
    let mut pool: StreamPool<Conn, 0> = StreamPool::with_limit(5);
    for i in 0..4u32 {
        pool.push(Conn(i), addr(40 + i as u16)).unwrap();
    }
    let (r, w) = pool.split();
    assert_eq!(ports(&r), vec![43, 42, 41, 40]);
    assert_eq!(ports(&w), vec![43, 42, 41, 40]);
    assert_eq!(r.limit(), Some(5));
    let united = StreamPool::<Conn, 0>::unsplit(r, w).unwrap();
    assert_eq!(ports(&united), vec![40, 41, 42, 43]);
    assert_eq!(united.get(2).map(|e| e.0 .0), Some(2));
    assert_eq!(united.limit(), Some(5));
}

#[test]
fn unsplit_refuses_unequal_halves() {
    let mut a: StreamPool<Conn, 0> = StreamPool::vec();
    a.push(Conn(1), addr(1)).unwrap();
    let (r, _) = a.split();
    let w: StreamPool<WriteHalf, 0> = StreamPool::vec();
    assert!(matches!(
        StreamPool::<Conn, 0>::unsplit(r, w),
        Err(UnsplitError::RWUnequal)
    ));

    let mut b: StreamPool<Conn, 0> = StreamPool::vec();
    b.push(Conn(1), addr(1)).unwrap();
    let (r, _) = b.split();
    let mut w: StreamPool<WriteHalf, 0> = StreamPool::vec();
    w.push(WriteHalf(2), addr(1)).unwrap();
    assert!(matches!(
        StreamPool::<Conn, 0>::unsplit(r, w),
        Err(UnsplitError::Unsplit { .. })
    ));
}

#[test]
fn unsplit_refuses_halves_of_other_peers() {
    let mut a: StreamPool<Conn, 0> = StreamPool::vec();
    a.push(Conn(1), addr(1)).unwrap();
    a.push(Conn(2), addr(2)).unwrap();
    let (r, _) = a.split();
    let mut w: StreamPool<WriteHalf, 0> = StreamPool::vec();
    w.push(WriteHalf(1), addr(1)).unwrap();
    w.push(WriteHalf(2), addr(3)).unwrap();
    assert!(matches!(
        StreamPool::<Conn, 0>::unsplit(r, w),
        Err(UnsplitError::RWUnequal)
    ));
}

#[test]
fn unsplit_pairs_halves_by_peer_whatever_their_order() {
    let mut a: StreamPool<Conn, 0> = StreamPool::vec();
    for i in 0..3u32 {
        a.push(Conn(i), addr(50 + i as u16)).unwrap();
    }
    let (r, _) = a.split();
    let mut w: StreamPool<WriteHalf, 0> = StreamPool::vec();
    w.push(WriteHalf(1), addr(51)).unwrap();
    w.push(WriteHalf(0), addr(50)).unwrap();
    w.push(WriteHalf(2), addr(52)).unwrap();
    let united = StreamPool::<Conn, 0>::unsplit(r, w).unwrap();
    assert_eq!(ports(&united), vec![50, 51, 52]);
    assert_eq!(united.get(0).map(|e| e.0 .0), Some(0));
    assert_eq!(united.get(1).map(|e| e.0 .0), Some(1));
    assert_eq!(united.get(2).map(|e| e.0 .0), Some(2));
}

#[test]
fn sink_errors_give_their_io_errors_in_order() {
    let errs = SinkErrors::new(vec![
        PollError::StartSend { addr: addr(1), source: io_err() },
        PollError::PollFlush {
            addr: addr(2),
            source: CodecError::InvalidDecodingFrameLength { len: 9, max_frame_length: 8 },
        },
        PollError::PollClose {
            addr: addr(3),
            source: CodecError::IoError { source: std::io::Error::new(std::io::ErrorKind::BrokenPipe, "pipe") },
        },
    ]);
    let kinds: Vec<std::io::ErrorKind> = errs.as_io_errors().iter().map(|e| e.kind()).collect();
    assert_eq!(kinds, vec![std::io::ErrorKind::ConnectionReset, std::io::ErrorKind::BrokenPipe]);
    let kinds: Vec<std::io::ErrorKind> = errs.into_io_errors().iter().map(|e| e.kind()).collect();
    assert_eq!(kinds, vec![std::io::ErrorKind::ConnectionReset, std::io::ErrorKind::BrokenPipe]);
}

#[test]
fn receives_are_served_round_robin_while_all_are_ready() {
    let mut pool: StreamPool<u32, 0> = StreamPool::vec();
    for i in 0..4u32 {
        pool.push(i, addr(60 + i as u16)).unwrap();
    }
    // start the cursor at connection 2
    let _ = pool.poll_next_ready(1, Ok(BytesMut::from(&b"x"[..])));
    let mut served = Vec::new();
    for _ in 0..8 {
        let first = pool.poll_next_order()[0];
        let (_, a) = pool.poll_next_ready(first, Ok(BytesMut::from(&b"x"[..])));
        served.push(a.port);
    }
    assert_eq!(served, vec![62, 63, 60, 61, 62, 63, 60, 61]);
}
