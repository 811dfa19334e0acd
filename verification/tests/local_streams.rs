use aurora_streams::broadcast_streams::{
    broadcast_step, subscribe_failure_message, BroadcastChannel, BroadcastChannels,
};
use aurora_streams::channels::{RecvEvent, Step};
use aurora_streams::errors::{AuroraBroadcastError, AuroraWatchError};
use aurora_streams::watch_streams::{watch_step, WatchChannel, WatchChannels, WatchEvent};

#[test]
fn broadcast_create_is_idempotent() {
    let mut c = BroadcastChannels::new();
    assert!(c.create_channel("b".to_string()));
    assert!(!c.create_channel("b".to_string()));
    assert!(c.subscribe("b").is_ok());
}

#[test]
fn broadcast_subscribe_unknown_is_not_found() {
    let c = BroadcastChannels::new();
    assert_eq!(
        c.subscribe("b").err(),
        Some(AuroraBroadcastError::ChannelNotFound("b".to_string()))
    );
}

#[test]
fn broadcast_forward_reaches_subscribers() {
    let mut c = BroadcastChannels::new();
    c.create_channel("b".to_string());
    let mut rx1 = c.subscribe("b").unwrap().receiver;
    let mut rx2 = c.subscribe("b").unwrap().receiver;
    assert!(c.forward("b", "Hello, Broadcast Streams!".to_string()));
    assert_eq!(rx1.try_recv().unwrap(), "Hello, Broadcast Streams!");
    assert_eq!(rx2.try_recv().unwrap(), "Hello, Broadcast Streams!");
    assert!(!c.forward("other", "x".to_string()));
}

#[test]
fn broadcast_forward_without_subscriber_is_dropped() {
    let mut c = BroadcastChannels::new();
    c.create_channel("b".to_string());
    assert!(c.forward("b", "early".to_string()));
    let mut rx = c.subscribe("b").unwrap().receiver;
    assert!(rx.try_recv().is_err());
}

#[test]
fn new_broadcast_channel_has_no_receiver() {
    let ch = BroadcastChannel::new();
    assert_eq!(ch.sender.receiver_count(), 0);
}

#[test]
fn broadcast_step_decisions() {
    assert_eq!(
        broadcast_step(RecvEvent::Message("m".to_string())),
        Step::Deliver("m".to_string())
    );
    assert_eq!(broadcast_step(RecvEvent::Lagged(5)), Step::Skip);
    assert_eq!(broadcast_step(RecvEvent::Closed), Step::Stop);
}

#[test]
fn subscribe_failure_text() {
    assert_eq!(
        subscribe_failure_message("b", "Channel does not exist"),
        "Failed to subscribe to channel 'b': Channel does not exist"
    );
}

#[test]
fn watch_create_is_idempotent() {
    let mut c = WatchChannels::new();
    assert!(c.create_channel("w".to_string()));
    assert!(!c.create_channel("w".to_string()));
    assert!(c.subscribe("w").is_ok());
}

#[test]
fn watch_subscribe_unknown_is_not_found() {
    let c = WatchChannels::new();
    assert_eq!(
        c.subscribe("w").err(),
        Some(AuroraWatchError::ChannelNotFound("w".to_string()))
    );
}

#[test]
fn watch_forward_updates_latest_value() {
    let mut c = WatchChannels::new();
    c.create_channel("w".to_string());
    let mut rx = c.subscribe("w").unwrap().receiver;
    assert!(!rx.has_changed().unwrap());
    assert!(c.forward("w", "one".to_string()));
    assert!(c.forward("w", "two".to_string()));
    assert!(rx.has_changed().unwrap());
    assert_eq!(*rx.borrow_and_update(), "two");
}

#[test]
fn watch_forward_before_subscriber_is_lost() {
    let mut c = WatchChannels::new();
    c.create_channel("w".to_string());
    assert!(c.forward("w", "early".to_string()));
    let rx = c.subscribe("w").unwrap().receiver;
    assert_eq!(*rx.borrow(), "");
}

#[test]
fn new_watch_channel_holds_empty_text() {
    let ch = WatchChannel::new();
    assert_eq!(*ch.sender.borrow(), "");
    assert_eq!(ch.sender.receiver_count(), 0);
}

#[test]
fn watch_step_decisions() {
    assert_eq!(
        watch_step(WatchEvent::Changed("v".to_string())),
        Step::Deliver("v".to_string())
    );
    assert_eq!(watch_step(WatchEvent::Closed), Step::Stop);
}
