use tsyncp::util::listener::{ConnQueue, QUEUE_CAPACITY};
use tsyncp::util::SocketAddr;

fn addr(port: u16) -> SocketAddr {
    SocketAddr { is_ipv6: true, ip: 1, port, flowinfo: 0, scope_id: 0 }
}

#[test]
fn queue_is_first_in_first_out() {
    let mut q: ConnQueue<u32, ()> = ConnQueue::new(QUEUE_CAPACITY);
    assert!(q.is_empty());
    q.push_back(1, addr(1), QUEUE_CAPACITY);
    q.push_back(2, addr(2), QUEUE_CAPACITY);
    assert_eq!(q.len(), 2);
    assert_eq!(q.pop_front().map(|e| e.0), Some(1));
    assert_eq!(q.pop_front().map(|e| (e.0, e.1.port)), Some((2, 2)));
    assert!(q.pop_front().is_none());
}

#[test]
fn a_full_queue_drops_its_oldest_connection() {
    let mut q: ConnQueue<u32, ()> = ConnQueue::new(16);
    for i in 0..3 {
        q.push_back(i, addr(i as u16), 2);
    }
    assert_eq!(q.len(), 2);
    assert_eq!(q.pop_front().map(|e| e.0), Some(1));
    assert_eq!(q.pop_front().map(|e| e.0), Some(2));
}

#[test]
fn the_waker_is_kept_until_taken() {
    let mut q: ConnQueue<u32, &'static str> = ConnQueue::new(8);
    assert!(q.take_waker().is_none());
    q.set_waker("first");
    q.set_waker("second");
    assert_eq!(q.take_waker(), Some("second"));
    assert!(q.take_waker().is_none());
    assert_eq!(QUEUE_CAPACITY, 1024);
}
