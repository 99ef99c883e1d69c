use bytes::BytesMut;
use tsyncp::codec::length_delimited::Error as CodecError;
use tsyncp::multi_channel::builder::TcpSettings;
use tsyncp::multi_channel::errors::{SinkError, StreamError, UnsplitError};
use tsyncp::multi_channel::send::{contains_addr, FilteredAction, State};
use tsyncp::multi_channel::{channel_on, Channel};
use tsyncp::util::codec::EmptyCodec;
use tsyncp::util::listener::UnsplitError as ListenerUnsplitError;
use tsyncp::util::split::Split;
use tsyncp::util::stream_pool::errors::{PollError, SinkStep, UnsplitError as PoolUnsplitError};
use tsyncp::util::{SocketAddr, TcpStreamSettings};

fn addr(port: u16) -> SocketAddr {
    SocketAddr { is_ipv6: false, ip: 0x7f00_0001, port, flowinfo: 0, scope_id: 0 }
}

fn reset() -> CodecError {
    CodecError::IoError { source: std::io::Error::new(std::io::ErrorKind::ConnectionReset, "reset") }
}

#[derive(Debug)]
struct Lst(u32);

impl Split for Lst {
    type Left = Lst;
    type Right = Lst;
    type Error = ListenerUnsplitError;

    fn split(self) -> (Lst, Lst) {
        (Lst(self.0), Lst(self.0))
    }

    fn unsplit(left: Lst, right: Lst) -> Result<Lst, ListenerUnsplitError> {
        if left.0 == right.0 {
            Ok(Lst(left.0))
        } else {
            Err(ListenerUnsplitError::ArcPtrUnequal)
        }
    }
}

#[derive(Debug, PartialEq)]
struct Conn(u16);

impl Split for Conn {
    type Left = Conn;
    type Right = Conn;
    type Error = String;

    fn split(self) -> (Conn, Conn) {
        (Conn(self.0), Conn(self.0))
    }

    fn unsplit(left: Conn, right: Conn) -> Result<Conn, String> {
        Ok(Conn(left.0.max(right.0)))
    }
}

type Ch = Channel<(), EmptyCodec, 0, Lst, Conn>;

fn settings() -> TcpStreamSettings {
    TcpStreamSettings { nodelay: Some(true), ttl: None }
}

fn channel(limit: Option<usize>, ports: &[u16]) -> Ch {
    let mut ch: Ch = Channel::new(Lst(1), addr(8000), limit, settings());
    for p in ports {
        ch.stream_pool_mut().push(Conn(*p), addr(*p)).unwrap();
    }
    ch
}

fn peer_ports(v: Vec<SocketAddr>) -> Vec<u16> {
    v.iter().map(|a| a.port).collect()
}

#[test]
fn new_channel_is_empty() {
    let ch = channel(Some(3), &[]);
    assert_eq!(ch.len(), 0);
    assert_eq!(ch.limit(), Some(3));
    assert!(!ch.is_full());
    assert_eq!(*ch.local_addr(), addr(8000));
    assert_eq!(*ch.stream_config(), settings());
    assert!(ch.peer_addrs().is_empty());
    let arr: Channel<(), EmptyCodec, 4, Lst, Conn> = Channel::new(Lst(1), addr(8000), None, settings());
    assert_eq!(arr.limit(), Some(4));
}

#[test]
fn channel_is_full_at_its_limit() {
    let ch = channel(Some(2), &[1, 2]);
    assert_eq!(ch.len(), 2);
    assert!(ch.is_full());
    assert_eq!(peer_ports(ch.peer_addrs()), vec![1, 2]);
    let unlimited = channel(None, &[1, 2, 3]);
    assert!(!unlimited.is_full());
}

#[test]
fn split_and_unsplit_give_back_the_channel() {
    let ch = channel(None, &[1, 2, 3]);
    let (r, w) = ch.split();
    assert_eq!(*r.local_addr(), addr(8000));
    assert_eq!(*w.local_addr(), addr(8000));
    assert_eq!(peer_ports(r.peer_addrs()), vec![3, 2, 1]);
    assert_eq!(peer_ports(w.peer_addrs()), vec![3, 2, 1]);
    let ch = Ch::unsplit(r, w).unwrap();
    assert_eq!(peer_ports(ch.peer_addrs()), vec![1, 2, 3]);
    assert_eq!(*ch.stream_config(), settings());
}

#[test]
fn unsplit_refuses_other_local_addrs() {
    let (r, _) = channel(None, &[1]).split();
    let other: Ch = Channel::new(Lst(1), addr(9000), None, settings());
    let (_, w) = other.split();
    match Ch::unsplit(r, w) {
        Err(UnsplitError::UnequalLocalAddr { l_local_addr, r_local_addr }) => {
            assert_eq!(l_local_addr, addr(8000));
            assert_eq!(r_local_addr, addr(9000));
        }
        other => panic!("unexpected {other:?}"),
    }
}

#[test]
fn unsplit_refuses_other_stream_settings() {
    let (r, _) = channel(None, &[1]).split();
    let other: Ch = Channel::new(Lst(1), addr(8000), None, TcpStreamSettings { nodelay: None, ttl: Some(3) });
    let (_, w) = other.split();
    assert!(matches!(Ch::unsplit(r, w), Err(UnsplitError::UnequalStreamConfig)));
}

#[test]
fn unsplit_refuses_other_listeners_and_pools() {
    let (r, _) = channel(None, &[1]).split();
    let other: Ch = Channel::new(Lst(2), addr(8000), None, settings());
    let (_, w) = other.split();
    assert!(matches!(
        Ch::unsplit(r, w),
        Err(UnsplitError::ListenerUnsplitError { source: ListenerUnsplitError::ArcPtrUnequal })
    ));
    let (r, _) = channel(None, &[1, 2]).split();
    let (_, w) = channel(None, &[1]).split();
    assert!(matches!(
        Ch::unsplit(r, w),
        Err(UnsplitError::StreamPoolUnsplitError { source: PoolUnsplitError::RWUnequal })
    ));
}

#[test]
fn channel_on_has_no_settings() {
    let b = channel_on::<&str, (), EmptyCodec>("localhost:8000");
    let (a, limit, t) = b.into_parts();
    assert_eq!(a, "localhost:8000");
    assert_eq!(limit, None);
    assert_eq!(t.reuseaddr, None);
    assert_eq!(t.stream_settings, TcpStreamSettings::default());
}

#[test]
fn builder_keeps_the_settings() {
    let b = channel_on::<&str, (), EmptyCodec>("localhost:8000")
        .limit(5)
        .set_tcp_nodelay(true)
        .set_tcp_ttl(9)
        .set_tcp_reuseaddr(true)
        .set_tcp_reuseport(false)
        .set_tcp_linger(None)
        .set_tcp_recv_buffer_size(10)
        .set_tcp_send_buffer_size(11);
    let (_, limit, t) = b.limit_const::<3>().into_parts();
    assert_eq!(limit, Some(5));
    assert_eq!(t.stream_settings, TcpStreamSettings { nodelay: Some(true), ttl: Some(9) });
    assert_eq!(t.reuseaddr, Some(true));
    assert_eq!(t.reuseport, Some(false));
    assert_eq!(t.linger, Some(None));
    assert_eq!(t.recv_buffer_size, Some(10));
    assert_eq!(t.send_buffer_size, Some(11));
    let fresh = TcpSettings::new();
    assert_eq!(fresh.send_buffer_size, None);
}

#[test]
fn accept_takes_one_unless_full() {
    let mut ch = channel(Some(2), &[1]);
    let mut f = ch.accept();
    assert!(f.should_accept());
    f.add(Conn(7), addr(7));
    assert_eq!(f.accepted(), 1);
    assert!(!f.should_accept());
    assert_eq!(ch.len(), 2);
    assert_eq!(peer_ports(ch.peer_addrs()), vec![1, 7]);
    let f = ch.accept();
    assert!(!f.should_accept());
}

#[test]
fn accept_num_and_to_limit_fit_the_room() {
    let mut ch = channel(Some(5), &[1, 2]);
    let f = ch.accept().num(10);
    assert!(f.should_accept());
    let mut f = f.to_limit();
    for p in 0..3u16 {
        assert!(f.should_accept());
        f.add(Conn(p), addr(100 + p));
    }
    assert!(!f.should_accept());
    assert_eq!(f.accepted(), 3);
    assert!(ch.is_full());

    let mut ch = channel(None, &[]);
    let mut f = ch.accept().num(2).handle(|_a: SocketAddr| {}).filter(|_a: SocketAddr| true);
    f.add(Conn(1), addr(1));
    f.add(Conn(2), addr(2));
    assert!(!f.should_accept());
    assert_eq!(ch.len(), 2);
}

#[test]
fn accept_with_future_takes_the_room_left() {
    let mut ch = channel(Some(4), &[1]);
    let mut w = ch.accept().with_future::<u8, ()>(5u8);
    assert!(!w.is_accept_done());
    assert!(w.accept_mut().should_accept());
    w.accept_mut().add(Conn(2), addr(2));
    w.accept_mut().add(Conn(3), addr(3));
    w.accept_mut().add(Conn(4), addr(4));
    assert!(!w.accept_mut().should_accept());
    assert_eq!(*w.fut_mut(), 5);
    assert_eq!(w.finish(3).unwrap(), 3);
    w.accept_done(Ok(2));
    assert!(w.is_accept_done());
    assert_eq!(w.finish(3).unwrap(), 2);
}

#[test]
fn recv_tags_errors_with_the_peer() {
    let mut ch = channel(None, &[1]);
    let f = ch.recv();
    assert!(f.ready(None).is_none());
    match f.ready(Some((Err(PollError::PollNext { addr: addr(1), source: reset() }), addr(1)))) {
        Some(Err(StreamError::StreamError { addr: a, source })) => {
            assert_eq!(a, addr(1));
            assert_eq!(source.peer_addr().port, 1);
        }
        other => panic!("unexpected {other:?}"),
    }
    assert!(matches!(f.ready(Some((Ok(BytesMut::from(&[0u8][..])), addr(1)))), Some(Ok(()))));
    match f.ready(Some((Ok(BytesMut::from(&[1u8, 2][..])), addr(1)))) {
        Some(Err(e)) => {
            assert!(e.is_decode_error());
            assert_eq!(*e.local_addr(), addr(1));
            assert_eq!(e.peer_addr(), None);
        }
        other => panic!("unexpected {other:?}"),
    }
}

#[test]
fn recv_variants_give_the_frame_and_the_peer() {
    let mut ch = channel(None, &[1]);
    let f = ch.recv().with_addr();
    match f.ready(Some((Ok(BytesMut::from(&[0u8][..])), addr(4)))) {
        Some(Ok(((), a))) => assert_eq!(a, addr(4)),
        other => panic!("unexpected {other:?}"),
    }
    let f = f.as_bytes();
    match f.ready(Some((Ok(BytesMut::from(&[5u8, 6][..])), addr(4)))) {
        Some(Ok((b, a))) => {
            assert_eq!(&b[..], &[5, 6]);
            assert_eq!(a, addr(4));
        }
        other => panic!("unexpected {other:?}"),
    }
    let f = ch.recv().as_bytes();
    match f.ready(Some((Ok(BytesMut::from(&[7u8][..])), addr(4)))) {
        Some(Ok(b)) => assert_eq!(&b[..], &[7]),
        other => panic!("unexpected {other:?}"),
    }
    let f = f.with_addr();
    assert!(f.ready(None).is_none());
}

#[test]
fn recv_accepting_counts_the_room() {
    let mut ch = channel(Some(3), &[1]);
    let mut f = ch.recv().accepting().num(1);
    assert!(f.count_mut().should_accept());
    f.count_mut().record(true);
    assert!(!f.count_mut().should_accept());
    assert_eq!(f.count_mut().finish().unwrap(), 1);
}

#[test]
fn send_goes_through_its_steps() {
    let mut ch = channel(None, &[1]);
    let mut f = ch.send(());
    assert_eq!(f.state(), State::Ready);
    f.advance();
    assert_eq!(f.state(), State::StartSend);
    let bytes = f.encode_item().unwrap();
    assert_eq!(&bytes[..], &[0]);
    f.advance();
    f.advance();
    assert_eq!(f.state(), State::Done);
    assert!(f.sink_result(Ok(())).is_ok());
}

#[test]
fn filtered_send_picks_and_settles() {
    let mut ch = channel(None, &[1, 2, 3]);
    let mut f = ch.send(()).filter(|a: SocketAddr| a.port != 2);
    assert_eq!(f.action(), FilteredAction::GetIndices);
    let passes: Vec<bool> = f.peer_addrs().iter().map(|a| (f.filter_ref())(*a)).collect();
    f.pick(&passes);
    f.complete();
    assert_eq!(f.action(), FilteredAction::PollReady);
    assert_eq!(f.next_index(), Some(2));
    f.settle(Err(reset()), SinkStep::PollReady);
    assert_eq!(f.next_index(), Some(0));
    f.settle(Ok(()), SinkStep::PollReady);
    assert_eq!(f.next_index(), None);
    f.complete();
    assert_eq!(f.action(), FilteredAction::StartSend);
    assert_eq!(&f.encode_item().unwrap()[..], &[0]);
    f.complete();
    assert_eq!(f.action(), FilteredAction::GetIndices);
    match f.finish() {
        Err(SinkError::SinkErrors { addr: a, source }) => {
            assert_eq!(a, addr(8000));
            assert_eq!(source.peer_addrs(), vec![addr(3)]);
        }
        other => panic!("unexpected {other:?}"),
    }
    assert!(f.finish().is_ok());
    assert_eq!(peer_ports(ch.peer_addrs()), vec![1, 2]);
}

#[test]
fn send_to_picks_the_given_peers() {
    let mut ch = channel(None, &[1, 2, 3]);
    let to = [addr(3), addr(1)];
    let mut f = ch.send(()).to(&to);
    let passes: Vec<bool> = f.peer_addrs().iter().map(|a| (f.filter_ref())(*a)).collect();
    assert_eq!(passes, vec![true, false, true]);
    f.pick(&passes);
    assert_eq!(f.next_index(), Some(2));
    assert!(contains_addr(&to, addr(1)));
    assert!(!contains_addr(&to, addr(2)));
}

#[test]
fn builder_to_limit_without_a_limit_targets_one_connection() {
    let a = channel_on::<&str, (), EmptyCodec>("localhost:8000").accept::<Lst, Conn>().num(4).to_limit();
    assert_eq!(a.target(None), 1);
    assert_eq!(a.target(Some(6)), 6);
    let a = channel_on::<&str, (), EmptyCodec>("localhost:8000").accept::<Lst, Conn>().num(4);
    assert_eq!(a.target(None), 4);
    assert_eq!(a.target(Some(6)), 4);
}
