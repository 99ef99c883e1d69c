use tsyncp::multi_channel::accept::{is_full, AcceptCount, ChainedAcceptCount};

#[test]
fn a_new_accept_takes_one_connection_unless_full() {
    assert_eq!(AcceptCount::new(0, None).should_accept(), true);
    let full = AcceptCount::new(3, Some(3));
    assert!(!full.should_accept());
    assert!(is_full(3, Some(3)));
    assert!(!is_full(2, Some(3)));
    assert!(!is_full(100, None));
}

#[test]
fn num_is_bounded_by_the_room_left() {
    let mut c = AcceptCount::new(2, Some(5)).num(10, 2, Some(5));
    let mut taken = 0;
    while c.should_accept() {
        c.record(taken % 2 == 0);
        taken += 1;
    }
    assert_eq!(c.accepted(), 3);
    assert_eq!(taken, 5);

    let c = AcceptCount::new(0, None).num(7, 0, None);
    let mut c = c;
    for _ in 0..7 {
        assert!(c.should_accept());
        c.record(true);
    }
    assert!(!c.should_accept());
}

#[test]
fn to_limit_takes_all_the_room() {
    let mut c = AcceptCount::new(1, Some(4)).to_limit(1, Some(4));
    let mut n = 0;
    while c.should_accept() {
        c.record(true);
        n += 1;
    }
    assert_eq!(n, 3);
}

#[test]
fn with_future_counts() {
    // with a limit and one asked for: all the room
    let mut c = AcceptCount::new(1, Some(4)).with_future(1, Some(4));
    let mut n = 0;
    while c.should_accept() {
        c.record(true);
        n += 1;
    }
    assert_eq!(n, 3);
    // with a limit and more asked for than there is room: the room
    let mut c = AcceptCount::new(0, Some(4)).num(10, 0, Some(4)).with_future(2, Some(4));
    let mut n = 0;
    while c.should_accept() {
        c.record(true);
        n += 1;
    }
    assert_eq!(n, 2);
    // without a limit: as long as the other future runs
    let c = AcceptCount::new(0, None).with_future(0, None);
    assert!(c.should_accept());
}

#[test]
fn with_future_keeps_the_number_asked_for() {
    // without a limit, num(n) is kept: n connections, then only waiting
    let mut c = AcceptCount::new(0, None).num(3, 0, None).with_future(0, None);
    let mut n = 0;
    while c.should_accept() {
        c.record(true);
        n += 1;
    }
    assert_eq!(n, 3);
    // with a limit, num(1) takes one connection, not all the room
    let mut c = AcceptCount::new(0, Some(4)).num(1, 0, Some(4)).with_future(0, Some(4));
    c.record(true);
    assert!(!c.should_accept());
    // without a limit, to_limit takes a single connection
    let mut c = AcceptCount::new(0, None).to_limit(0, None).with_future(0, None);
    c.record(true);
    assert!(!c.should_accept());
}

#[test]
fn to_limit_without_a_limit_takes_one_connection() {
    let mut c = AcceptCount::new(2, None).num(10, 2, None).to_limit(2, None);
    assert!(c.should_accept());
    c.record(true);
    assert!(!c.should_accept());
    assert_eq!(c.accepted(), 1);
}

#[test]
fn chained_accept_counts_until_its_number_or_an_error() {
    let mut c: ChainedAcceptCount<String> = ChainedAcceptCount::new(1, Some(3));
    c.record(true);
    assert!(c.should_accept());
    c.record(false);
    c.record(true);
    assert!(!c.should_accept());
    assert_eq!(c.finish(), Ok(2));

    let mut c: ChainedAcceptCount<String> = ChainedAcceptCount::new(0, None).num(5);
    c.record(true);
    c.fail("boom".to_string());
    assert!(!c.should_accept());
    assert_eq!(c.finish(), Err("boom".to_string()));

    let c: ChainedAcceptCount<String> = ChainedAcceptCount::new(0, None);
    assert!(c.should_accept());
    let mut c: ChainedAcceptCount<String> = ChainedAcceptCount::new(0, Some(1)).num(4);
    c.record(true);
    assert!(!c.should_accept());
}
