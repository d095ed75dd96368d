use channel_broker::{BroadcastChannel, WatchChannel};
use tokio::sync::broadcast::error::TryRecvError;

#[test]
fn broadcast_reader_sees_later_messages() {
    let chan: BroadcastChannel<u32> = BroadcastChannel::new(4);
    chan.send(1);
    let mut reader = chan.new_reader();
    chan.send(2);
    chan.send(3);
    assert_eq!(reader.try_recv(), Ok(2));
    assert_eq!(reader.try_recv(), Ok(3));
    assert_eq!(reader.try_recv(), Err(TryRecvError::Empty));
}

#[test]
fn broadcast_reaches_every_reader() {
    let chan: BroadcastChannel<String> = BroadcastChannel::new(8);
    let mut first = chan.new_reader();
    let mut second = chan.new_reader();
    chan.send("hello".to_owned());
    assert_eq!(first.try_recv().unwrap(), "hello");
    assert_eq!(second.try_recv().unwrap(), "hello");
}

#[test]
fn broadcast_publisher_reaches_reader() {
    let chan: BroadcastChannel<u8> = BroadcastChannel::new(1);
    let mut reader = chan.new_reader();
    let publisher = chan.new_publisher();
    assert!(publisher.send(42).unwrap() >= 1);
    assert_eq!(reader.try_recv(), Ok(42));
}

#[test]
fn broadcast_send_without_readers_succeeds() {
    let chan: BroadcastChannel<u8> = BroadcastChannel::new(2);
    chan.send(1);
    chan.send(2);
    chan.send(3);
}

#[test]
fn watch_read_gives_initial_value() {
    let chan: WatchChannel<String> = WatchChannel::new("idle".to_owned());
    assert_eq!(chan.read(), "idle");
}

#[test]
fn watch_read_gives_latest_update() {
    let chan: WatchChannel<u32> = WatchChannel::new(0);
    chan.update(1);
    chan.update(2);
    assert_eq!(chan.read(), 2);
}

#[test]
fn watch_reader_and_publisher_share_value() {
    let chan: WatchChannel<u32> = WatchChannel::new(5);
    let reader = chan.new_reader();
    let publisher = chan.new_publisher();
    publisher.send(6).unwrap();
    assert_eq!(*reader.borrow(), 6);
    assert_eq!(chan.read(), 6);
}

#[test]
fn watch_update_after_read_in_same_thread() {
    let chan: WatchChannel<u32> = WatchChannel::new(1);
    let seen = chan.read();
    chan.update(seen + 1);
    let again = chan.read();
    chan.update(again * 10);
    assert_eq!(chan.read(), 20);
}

#[test]
fn broadcast_reader_lags_beyond_capacity() {
    let chan: BroadcastChannel<u32> = BroadcastChannel::new(2);
    let mut reader = chan.new_reader();
    chan.send(1);
    chan.send(2);
    chan.send(3);
    assert_eq!(reader.try_recv(), Err(TryRecvError::Lagged(1)));
    assert_eq!(reader.try_recv(), Ok(2));
    assert_eq!(reader.try_recv(), Ok(3));
}
