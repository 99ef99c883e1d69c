use std::time::Duration;
use tsyncp::channel::errors::UnsplitError;
use tsyncp::util::split::Split;
use tsyncp::barrier::{barrier_on, waiter_to, Barrier, Waiter};
use tsyncp::broadcast::{receiver_to, sender_on};
use tsyncp::channel::{channel_on, channel_to, Channel};
use tsyncp::multi_channel::Channel as MultiChannel;
use tsyncp::util::codec::EmptyCodec;
use tsyncp::util::{SocketAddr, TcpStreamSettings};
use tsyncp::{broadcast, mpsc, spsc};

fn addr(port: u16) -> SocketAddr {
    SocketAddr { is_ipv6: false, ip: 0x7f00_0001, port, flowinfo: 0, scope_id: 0 }
}

fn single() -> Channel<u32, EmptyCodec, u8> {
    Channel::new(0u8, addr(1), addr(2))
}

fn multi() -> MultiChannel<u32, EmptyCodec, 0, u8, u8> {
    let mut ch = MultiChannel::new(0u8, addr(7), Some(2), TcpStreamSettings::default());
    ch.stream_pool_mut().push(1u8, addr(3)).unwrap();
    ch
}

#[test]
fn single_connection_wrappers_keep_the_addresses() {
    let s: mpsc::Sender<u32, EmptyCodec, u8> = single().into();
    assert_eq!(*s.local_addr(), addr(1));
    assert_eq!(*s.peer_addr(), addr(2));
    let c: Channel<u32, EmptyCodec, u8> = s.into();
    let r: broadcast::Receiver<u32, EmptyCodec, u8> = c.into();
    assert_eq!(*r.peer_addr(), addr(2));
    let mut s: spsc::Sender<u32, EmptyCodec, u8> = Channel::from(r).into();
    assert_eq!(*s.channel_mut().local_addr(), addr(1));
    let r: spsc::Receiver<u32, EmptyCodec, u8> = Channel::from(s).into();
    assert_eq!(*r.local_addr(), addr(1));
}

#[test]
fn multi_connection_wrappers_keep_the_pool() {
    let r: mpsc::Receiver<u32, EmptyCodec, 0, u8, u8> = multi().into();
    assert_eq!(r.len(), 1);
    assert_eq!(r.limit(), Some(2));
    assert!(!r.is_full());
    assert_eq!(*r.local_addr(), addr(7));
    assert_eq!(r.peer_addrs(), vec![addr(3)]);
    let mut s: broadcast::Sender<u32, EmptyCodec, 0, u8, u8> = MultiChannel::from(r).into();
    s.channel_mut().stream_pool_mut().push(2u8, addr(4)).unwrap();
    assert!(s.is_full());
    assert_eq!(s.peer_addrs(), vec![addr(3), addr(4)]);
}

#[test]
fn barrier_and_waiter() {
    let mut ch: MultiChannel<(), EmptyCodec, 0, u8, u8> = MultiChannel::new(0u8, addr(7), None, TcpStreamSettings::default());
    ch.stream_pool_mut().push(1u8, addr(3)).unwrap();
    let mut b = Barrier::new(ch.into());
    assert_eq!(b.len(), 1);
    assert_eq!(b.limit(), None);
    assert!(!b.is_full());
    assert_eq!(*b.local_addr(), addr(7));
    assert_eq!(b.peer_addrs(), vec![addr(3)]);
    assert_eq!(b.channel_mut().len(), 1);
    let w = Waiter::new(Channel::<(), EmptyCodec, u8>::new(0u8, addr(1), addr(2)));
    assert_eq!(*w.local_addr(), addr(1));
    assert_eq!(*w.peer_addr(), addr(2));
}

#[test]
fn listening_builders_keep_their_settings() {
    let b = barrier_on("localhost:8000").limit(3).set_tcp_ttl(4).set_tcp_nodelay(false);
    let (a, limit, t) = b.limit_const::<2>().into_inner().into_parts();
    assert_eq!(a, "localhost:8000");
    assert_eq!(limit, Some(3));
    assert_eq!(t.stream_settings, TcpStreamSettings { nodelay: Some(false), ttl: Some(4) });
    let b = sender_on::<&str, u32, EmptyCodec>("localhost:9000")
        .set_tcp_reuseaddr(true)
        .set_tcp_reuseport(true)
        .set_tcp_linger(Some(Duration::from_millis(5)))
        .set_tcp_recv_buffer_size(1)
        .set_tcp_send_buffer_size(2);
    let (_, limit, t) = b.into_inner().into_parts();
    assert_eq!(limit, None);
    assert_eq!(t.reuseaddr, Some(true));
    assert_eq!(t.reuseport, Some(true));
    assert_eq!(t.linger, Some(Some(Duration::from_millis(5))));
    assert_eq!(t.recv_buffer_size, Some(1));
    assert_eq!(t.send_buffer_size, Some(2));
    let (a, limit, _) = mpsc::receiver_on::<&str, u32, EmptyCodec>("x").into_parts();
    assert_eq!((a, limit), ("x", None));
}

#[test]
fn connecting_builders_keep_their_settings() {
    let b = waiter_to::<&str, u8>("localhost:8000")
        .retry(Duration::from_millis(10), 3)
        .set_tcp_nodelay(true)
        .set_tcp_ttl(5)
        .set_tcp_reuseaddr(false)
        .set_tcp_reuseport(true)
        .set_tcp_linger(None)
        .set_tcp_recv_buffer_size(6)
        .set_tcp_send_buffer_size(7);
    let (a, listening, retries, sleep, t, filter) = b.into_inner().into_parts();
    assert_eq!(a, "localhost:8000");
    assert!(!listening);
    assert_eq!(retries, Some(3));
    assert_eq!(sleep, Duration::from_millis(10));
    assert_eq!(t.nodelay, Some(true));
    assert_eq!(t.ttl, Some(5));
    assert_eq!(t.reuseaddr, Some(false));
    assert_eq!(t.reuseport, Some(true));
    assert_eq!(t.linger, Some(None));
    assert_eq!(t.recv_buffer_size, Some(6));
    assert_eq!(t.send_buffer_size, Some(7));
    assert!(filter(addr(1)));
    let (_, listening, retries, sleep, _, _) = receiver_to::<&str, u32, EmptyCodec, u8>("y").into_inner().into_parts();
    assert!(!listening);
    assert_eq!(retries, None);
    assert_eq!(sleep, Duration::from_millis(1000));
    let (_, listening, ..) = channel_on::<&str, u32, EmptyCodec, u8>("z").into_parts();
    assert!(listening);
    let (_, listening, ..) = channel_to::<&str, u32, EmptyCodec, u8>("z").into_parts();
    assert!(!listening);
    let (_, listening, ..) = mpsc::sender_to::<&str, u32, EmptyCodec, u8>("z").into_parts();
    assert!(!listening);
    let (_, listening, ..) = spsc::send_on::<&str, u32, EmptyCodec, u8>("z").into_inner().into_parts();
    assert!(listening);
    let (_, listening, ..) = spsc::recv_to::<&str, u32, EmptyCodec, u8>("z").into_inner().into_parts();
    assert!(!listening);
    let (_, listening, ..) = spsc::send_to::<&str, u32, EmptyCodec, u8>("z").into_inner().into_parts();
    assert!(!listening);
    let (_, listening, ..) = spsc::recv_on::<&str, u32, EmptyCodec, u8>("z").into_inner().into_parts();
    assert!(listening);
}

#[derive(Debug)]
struct Half(u8);

impl Split for Half {
    type Left = Half;
    type Right = Half;
    type Error = String;

    fn split(self) -> (Half, Half) {
        (Half(self.0), Half(self.0))
    }

    fn unsplit(left: Half, right: Half) -> Result<Half, String> {
        if left.0 == right.0 {
            Ok(Half(left.0))
        } else {
            Err(String::from("halves of different streams"))
        }
    }
}

#[test]
fn channel_splits_into_receiver_and_sender() {
    let ch: Channel<u32, EmptyCodec, Half> = Channel::new(Half(1), addr(1), addr(2));
    let (r, w) = ch.split();
    assert_eq!(*r.local_addr(), addr(1));
    assert_eq!(*w.peer_addr(), addr(2));
    let ch = Channel::<u32, EmptyCodec, Half>::unsplit(r, w).unwrap();
    assert_eq!(*ch.local_addr(), addr(1));
    assert_eq!(*ch.peer_addr(), addr(2));

    let (r, _) = Channel::<u32, EmptyCodec, Half>::new(Half(1), addr(1), addr(2)).split();
    let (_, w) = Channel::<u32, EmptyCodec, Half>::new(Half(1), addr(1), addr(3)).split();
    assert!(matches!(
        Channel::<u32, EmptyCodec, Half>::unsplit(r, w),
        Err(UnsplitError::UnequalPeerAddr { .. })
    ));
    let (r, _) = Channel::<u32, EmptyCodec, Half>::new(Half(1), addr(1), addr(2)).split();
    let (_, w) = Channel::<u32, EmptyCodec, Half>::new(Half(1), addr(4), addr(2)).split();
    assert!(matches!(
        Channel::<u32, EmptyCodec, Half>::unsplit(r, w),
        Err(UnsplitError::UnequalLocalAddr { .. })
    ));
    let (r, _) = Channel::<u32, EmptyCodec, Half>::new(Half(1), addr(1), addr(2)).split();
    let (_, w) = Channel::<u32, EmptyCodec, Half>::new(Half(2), addr(1), addr(2)).split();
    assert!(matches!(
        Channel::<u32, EmptyCodec, Half>::unsplit(r, w),
        Err(UnsplitError::FramedUnsplit { .. })
    ));
}
