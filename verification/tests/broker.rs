use std::any::TypeId;

use channel_broker::{ChannelBroker, ChannelDef, Family};

struct Events;
struct State;
struct Jobs;

impl ChannelDef for Events {
    type Message = &'static str;
}

impl ChannelDef for State {
    type Message = String;
}

impl ChannelDef for Jobs {
    type Message = u64;
}

#[test]
fn default_broker_has_nothing() {
    let broker = ChannelBroker::default();
    assert!(broker.channel_maybe::<Events>().is_none());
    assert!(broker.sync_channel_maybe::<Events>().is_none());
    assert!(broker.broadcast_maybe::<Events>().is_none());
    assert!(broker.watch_maybe::<State>().is_none());
    assert!(broker.entry(Family::StdMpsc, &TypeId::of::<Events>()).is_none());
}

#[test]
fn added_channel_is_found_under_its_marker() {
    let broker = ChannelBroker::default().add_channel::<Jobs>();
    let chan = broker.channel_maybe::<Jobs>().expect("registered");
    chan.send(11);
    assert_eq!(broker.channel_maybe::<Jobs>().unwrap().recv(), 11);
    assert!(broker.channel_maybe::<Events>().is_none());
    assert!(broker.entry(Family::StdMpsc, &TypeId::of::<Jobs>()).is_some());
    assert!(broker.entry(Family::StdMpsc, &TypeId::of::<Events>()).is_none());
}

#[test]
fn families_are_kept_apart() {
    let broker = ChannelBroker::default().add_channel::<Jobs>();
    assert!(broker.sync_channel_maybe::<Jobs>().is_none());
    assert!(broker.entry(Family::Sync, &TypeId::of::<Jobs>()).is_none());
    let broker = broker.add_sync_channel::<Jobs>(2);
    assert!(broker.channel_maybe::<Jobs>().is_some());
    assert!(broker.sync_channel_maybe::<Jobs>().is_some());
}

#[test]
fn re_adding_replaces_the_channel() {
    let broker = ChannelBroker::default().add_channel::<Jobs>();
    broker.channel_maybe::<Jobs>().unwrap().send(1);
    let broker = broker.add_channel::<Jobs>();
    assert_eq!(broker.channel_maybe::<Jobs>().unwrap().try_recv(), None);
}

#[test]
fn sync_channel_registered_with_bound() {
    let broker = ChannelBroker::default().add_sync_channel::<Jobs>(1);
    let chan = broker.sync_channel_maybe::<Jobs>().unwrap();
    assert_eq!(chan.try_send(1), Ok(()));
    assert_eq!(chan.try_send(2), Err(2));
}

#[test]
fn broadcast_and_watch_registered() {
    let broker = ChannelBroker::default()
        .add_broadcast::<Events>(16)
        .add_watch::<State>("idle".to_owned());
    let mut events = broker.broadcast_maybe::<Events>().unwrap().new_reader();
    broker.broadcast_maybe::<Events>().unwrap().send("job finished");
    assert_eq!(events.try_recv().unwrap(), "job finished");
    let state = broker.watch_maybe::<State>().unwrap();
    assert_eq!(state.read(), "idle");
    state.new_publisher().send("processed job finished".to_owned()).unwrap();
    assert_eq!(broker.watch_maybe::<State>().unwrap().read(), "processed job finished");
    assert!(broker.watch_maybe::<Events>().is_none());
    assert!(broker.broadcast_maybe::<State>().is_none());
}

#[test]
fn mutable_accessors_reach_registered_channels() {
    let mut broker = ChannelBroker::default()
        .add_broadcast::<Events>(4)
        .add_watch::<State>(String::new());
    assert!(broker.broadcast_mut_maybe::<Events>().is_some());
    assert!(broker.broadcast_mut_maybe::<State>().is_none());
    broker.watch_mut_maybe::<State>().unwrap().update("next".to_owned());
    assert_eq!(broker.watch_maybe::<State>().unwrap().read(), "next");
    assert!(broker.watch_mut_maybe::<Jobs>().is_none());
}

#[test]
fn keyed_entries_follow_registration() {
    let broker = ChannelBroker::default()
        .add_watch::<State>(String::new())
        .add_watch::<Jobs>(0);
    assert!(broker.entry(Family::Watch, &TypeId::of::<State>()).is_some());
    assert!(broker.entry(Family::Watch, &TypeId::of::<Jobs>()).is_some());
    assert!(broker.entry(Family::Watch, &TypeId::of::<Events>()).is_none());
    assert!(broker.entry(Family::Broadcast, &TypeId::of::<State>()).is_none());
}
