use aurora_streams::backend::{next_message_from, InMemoryChannels};
use aurora_streams::channels::RecvEvent;

#[test]
fn publish_to_unknown_channel_reaches_no_one() {
    let mut b = InMemoryChannels::new();
    assert_eq!(b.publish("nobody", "hello"), 0);
}

#[test]
fn subscriber_receives_published_message() {
    let mut b = InMemoryChannels::new();
    let mut rx = b.subscribe("news").receiver;
    assert_eq!(b.publish("news", "hello"), 1);
    assert_eq!(rx.try_recv().unwrap(), "hello");
}

#[test]
fn every_subscriber_shares_one_channel() {
    let mut b = InMemoryChannels::new();
    let mut rx1 = b.subscribe("news").receiver;
    let mut rx2 = b.subscribe("news").receiver;
    assert_eq!(b.publish("news", "x"), 2);
    assert_eq!(rx1.try_recv().unwrap(), "x");
    assert_eq!(rx2.try_recv().unwrap(), "x");
}

#[test]
fn publish_without_live_receiver_reaches_no_one() {
    let mut b = InMemoryChannels::new();
    let rx = b.subscribe("news").receiver;
    drop(rx);
    assert_eq!(b.publish("news", "lost"), 0);
    // the channel stays open: a new subscriber gets later messages
    let mut rx = b.subscribe("news").receiver;
    assert_eq!(b.publish("news", "kept"), 1);
    assert_eq!(rx.try_recv().unwrap(), "kept");
}

#[test]
fn channels_are_separate() {
    let mut b = InMemoryChannels::new();
    let mut a = b.subscribe("a").receiver;
    let mut c = b.subscribe("c").receiver;
    assert_eq!(b.publish("a", "for a"), 1);
    assert_eq!(a.try_recv().unwrap(), "for a");
    assert!(c.try_recv().is_err());
}

#[test]
fn message_stream_decisions() {
    assert_eq!(next_message_from(RecvEvent::Message("m".to_string())), Some("m".to_string()));
    assert_eq!(next_message_from(RecvEvent::Lagged(3)), None);
    assert_eq!(next_message_from(RecvEvent::Closed), None);
}
