use netclock::channel::{TimeChannel, TimeReader};
use netclock::timestamp::Timestamp;

fn stamp(secs: i64) -> Timestamp {
    Timestamp::from_unix_seconds(secs).expect("representable")
}

#[test]
fn new_channel_is_empty() {
    let channel = TimeChannel::new();
    assert_eq!(channel.latest(), None);
    let mut reader = channel.reader();
    assert_eq!(reader.try_changed(&channel), None);
}

#[test]
fn publish_overwrites_the_slot() {
    let mut channel = TimeChannel::new();
    channel.publish(stamp(1));
    assert_eq!(channel.latest(), Some(stamp(1)));
    channel.publish(stamp(2));
    assert_eq!(channel.latest(), Some(stamp(2)));
    channel.publish(stamp(-7));
    assert_eq!(channel.latest(), Some(stamp(-7)));
}

#[test]
fn reader_is_handed_a_value_once() {
    let mut channel = TimeChannel::new();
    let mut reader = TimeReader::new();
    channel.publish(stamp(10));
    assert_eq!(reader.try_changed(&channel), Some(stamp(10)));
    assert_eq!(reader.try_changed(&channel), None);
    assert_eq!(reader.try_changed(&channel), None);
    channel.publish(stamp(11));
    assert_eq!(reader.try_changed(&channel), Some(stamp(11)));
    assert_eq!(reader.try_changed(&channel), None);
}

#[test]
fn reader_that_misses_two_publishes_sees_only_the_latest() {
    let mut channel = TimeChannel::new();
    let mut reader = TimeReader::new();
    channel.publish(stamp(100));
    assert_eq!(reader.try_changed(&channel), Some(stamp(100)));
    channel.publish(stamp(200));
    channel.publish(stamp(300));
    assert_eq!(reader.try_changed(&channel), Some(stamp(300)));
    assert_eq!(reader.try_changed(&channel), None);
}

#[test]
fn readers_are_independent() {
    let mut channel = TimeChannel::new();
    let mut fast = TimeReader::new();
    let mut slow = TimeReader::new();
    channel.publish(stamp(1));
    assert_eq!(fast.try_changed(&channel), Some(stamp(1)));
    channel.publish(stamp(2));
    assert_eq!(fast.try_changed(&channel), Some(stamp(2)));
    channel.publish(stamp(3));
    assert_eq!(fast.try_changed(&channel), Some(stamp(3)));
    assert_eq!(slow.try_changed(&channel), Some(stamp(3)));
    assert_eq!(slow.try_changed(&channel), None);
    assert_eq!(fast.try_changed(&channel), None);
}

#[test]
fn republishing_the_observed_value_wakes_nobody() {
    let mut channel = TimeChannel::new();
    let mut reader = TimeReader::new();
    channel.publish(stamp(42));
    assert_eq!(reader.try_changed(&channel), Some(stamp(42)));
    channel.publish(stamp(42));
    assert_eq!(reader.try_changed(&channel), None);
    channel.publish(stamp(43));
    channel.publish(stamp(42));
    assert_eq!(reader.try_changed(&channel), None);
}

#[test]
fn late_reader_sees_the_current_value() {
    let mut channel = TimeChannel::new();
    channel.publish(stamp(5));
    channel.publish(stamp(6));
    let mut reader = channel.reader();
    assert_eq!(reader.try_changed(&channel), Some(stamp(6)));
}
