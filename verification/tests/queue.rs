use netclock::display::DisplayCommad;
use netclock::queue::{DisplayQueue, QUEUE_CAPACITY};
use netclock::timestamp::Timestamp;

fn show(secs: i64) -> DisplayCommad {
    DisplayCommad::ShowTime(Timestamp::from_unix_seconds(secs).expect("representable"))
}

#[test]
fn new_queue_is_empty() {
    let mut queue = DisplayQueue::new();
    assert_eq!(QUEUE_CAPACITY, 8);
    assert_eq!(queue.capacity(), 8);
    assert_eq!(queue.len(), 0);
    assert!(queue.is_empty());
    assert!(!queue.is_full());
    assert_eq!(queue.try_receive(), None);
    assert_eq!(queue.len(), 0);
}

#[test]
fn requests_are_received_in_the_order_sent() {
    let mut queue = DisplayQueue::new();
    assert_eq!(queue.try_send(show(1)), Ok(()));
    assert_eq!(queue.try_send(DisplayCommad::Clear), Ok(()));
    assert_eq!(queue.try_send(show(3)), Ok(()));
    assert_eq!(queue.len(), 3);
    assert_eq!(queue.try_receive(), Some(show(1)));
    assert_eq!(queue.try_send(show(4)), Ok(()));
    assert_eq!(queue.try_receive(), Some(DisplayCommad::Clear));
    assert_eq!(queue.try_receive(), Some(show(3)));
    assert_eq!(queue.try_receive(), Some(show(4)));
    assert_eq!(queue.try_receive(), None);
}

#[test]
fn full_queue_hands_the_request_back() {
    let mut queue = DisplayQueue::new();
    for i in 0..8 {
        assert!(!queue.is_full());
        assert_eq!(queue.try_send(show(i)), Ok(()));
        assert_eq!(queue.len(), (i + 1) as usize);
    }
    assert!(queue.is_full());
    assert_eq!(queue.try_send(show(8)), Err(show(8)));
    assert_eq!(queue.try_send(DisplayCommad::Clear), Err(DisplayCommad::Clear));
    assert_eq!(queue.len(), 8);
    // Nothing was lost or reordered.
    for i in 0..8 {
        assert_eq!(queue.try_receive(), Some(show(i)));
    }
    assert_eq!(queue.try_receive(), None);
}

#[test]
fn a_receive_frees_a_slot_for_the_waiting_sender() {
    let mut queue = DisplayQueue::new();
    for i in 0..8 {
        queue.try_send(show(i)).expect("room");
    }
    let kept = match queue.try_send(show(100)) {
        Err(back) => back,
        Ok(()) => panic!("a full queue took a request"),
    };
    assert_eq!(queue.try_receive(), Some(show(0)));
    assert!(!queue.is_full());
    assert_eq!(queue.try_send(kept), Ok(()));
    assert!(queue.is_full());
    for i in 1..8 {
        assert_eq!(queue.try_receive(), Some(show(i)));
    }
    assert_eq!(queue.try_receive(), Some(show(100)));
    assert!(queue.is_empty());
}

#[test]
fn queue_never_holds_more_than_its_capacity() {
    let mut queue = DisplayQueue::new();
    let mut sent = 0i64;
    let mut received = 0i64;
    for round in 0..200i64 {
        // Three attempts to send for every attempt to receive, then the reverse.
        let sends = if round % 20 < 10 { 3 } else { 1 };
        let receives = if round % 20 < 10 { 1 } else { 3 };
        for _ in 0..sends {
            if queue.try_send(show(sent)).is_ok() {
                sent += 1;
            }
            assert!(queue.len() <= QUEUE_CAPACITY);
        }
        for _ in 0..receives {
            if let Some(command) = queue.try_receive() {
                assert_eq!(command, show(received));
                received += 1;
            }
            assert!(queue.len() <= QUEUE_CAPACITY);
        }
        assert_eq!(queue.len() as i64, sent - received);
    }
}
