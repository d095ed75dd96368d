use channel_broker::std_channels::{received_message, send_outcome};
use channel_broker::{RecvFailure, SendFailure, StdMpscChannel, SyncChannel};

#[test]
fn std_channel_delivers_in_order() {
    let chan: StdMpscChannel<u32> = StdMpscChannel::new();
    chan.send(1);
    chan.send(2);
    chan.send(3);
    assert_eq!(chan.recv(), 1);
    assert_eq!(chan.try_recv(), Some(2));
    assert_eq!(chan.recv(), 3);
    assert_eq!(chan.try_recv(), None);
}

#[test]
fn std_channel_try_recv_on_empty_is_none() {
    let chan: StdMpscChannel<String> = StdMpscChannel::default();
    assert_eq!(chan.try_recv(), None);
}

#[test]
fn std_channel_publisher_reaches_receiver() {
    let chan: StdMpscChannel<&'static str> = StdMpscChannel::new();
    let publisher = chan.new_publisher();
    publisher.send("from publisher").unwrap();
    chan.send("from channel");
    assert_eq!(chan.try_recv(), Some("from publisher"));
    assert_eq!(chan.try_recv(), Some("from channel"));
}

#[test]
fn std_channel_survives_dropped_publisher() {
    let chan: StdMpscChannel<u8> = StdMpscChannel::new();
    drop(chan.new_publisher());
    chan.send(9);
    assert_eq!(chan.recv(), 9);
    assert_eq!(chan.try_recv(), None);
}

#[test]
fn sync_channel_full_hands_message_back() {
    let chan: SyncChannel<u32> = SyncChannel::new(1);
    assert_eq!(chan.try_send(10), Ok(()));
    assert_eq!(chan.try_send(20), Err(20));
    assert_eq!(chan.recv(), 10);
    assert_eq!(chan.try_send(30), Ok(()));
    assert_eq!(chan.try_recv(), Some(30));
    assert_eq!(chan.try_recv(), None);
}

#[test]
fn sync_channel_rendezvous_refuses_without_receiver() {
    let chan: SyncChannel<u32> = SyncChannel::new(0);
    assert_eq!(chan.try_send(1), Err(1));
    assert_eq!(chan.try_recv(), None);
}

#[test]
fn sync_channel_blocking_send_within_bound() {
    let chan: SyncChannel<u32> = SyncChannel::new(2);
    chan.send(4);
    chan.send(5);
    assert_eq!(chan.try_send(6), Err(6));
    assert_eq!(chan.recv(), 4);
    assert_eq!(chan.recv(), 5);
}

#[test]
fn sync_channel_publisher_shares_buffer() {
    let chan: SyncChannel<u32> = SyncChannel::new(1);
    let publisher = chan.new_publisher();
    publisher.try_send(7).unwrap();
    assert_eq!(chan.try_send(8), Err(8));
    assert_eq!(chan.recv(), 7);
}

#[test]
fn received_message_maps_outcomes() {
    assert_eq!(received_message(Ok::<u32, RecvFailure>(5)), Some(5));
    assert_eq!(received_message(Err::<u32, RecvFailure>(RecvFailure::Empty)), None);
}

#[test]
fn send_outcome_maps_outcomes() {
    assert_eq!(send_outcome(Ok::<(), SendFailure<u32>>(())), Ok(()));
    assert_eq!(send_outcome(Err::<(), SendFailure<u32>>(SendFailure::Full(7))), Err(7));
}

#[test]
fn sync_channel_holds_exactly_its_bound() {
    let chan: SyncChannel<u32> = SyncChannel::new(2);
    assert_eq!(chan.try_send(1), Ok(()));
    assert_eq!(chan.try_send(2), Ok(()));
    assert_eq!(chan.try_send(3), Err(3));
    assert_eq!(chan.try_recv(), Some(1));
    assert_eq!(chan.try_send(4), Ok(()));
    assert_eq!(chan.try_send(5), Err(5));
}
