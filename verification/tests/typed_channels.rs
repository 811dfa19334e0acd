use aurora_streams::channels::Step;
use aurora_streams::errors::AuroraBroadcastError;
use aurora_streams::streams::{typed_step, TypedChannelTable};
use std::any::TypeId;

#[derive(Debug, PartialEq)]
struct Frame {
    id: u32,
}

#[test]
fn created_channel_accepts_its_type() {
    let mut table = TypedChannelTable::new();
    assert_eq!(table.create_channel::<Frame>("setpoints".to_string()), Ok(()));
    assert_eq!(table.channel_for::<Frame>("setpoints"), Ok(()));
}

#[test]
fn taken_name_is_refused() {
    let mut table = TypedChannelTable::new();
    assert_eq!(table.create_channel::<String>("commands".to_string()), Ok(()));
    let second = table.create_channel::<u32>("commands".to_string());
    assert_eq!(
        second,
        Err(AuroraBroadcastError::PubSubError(
            "Channel 'commands' already exists".to_string()
        ))
    );
    // the first binding stands
    assert_eq!(table.channel_for::<String>("commands"), Ok(()));
    assert_eq!(
        table.channel_for::<u32>("commands"),
        Err(AuroraBroadcastError::TypeMismatch("commands".to_string()))
    );
}

#[test]
fn unknown_channel_not_found() {
    let table = TypedChannelTable::new();
    assert_eq!(
        table.channel_for::<String>("alerts"),
        Err(AuroraBroadcastError::ChannelNotFound("alerts".to_string()))
    );
}

#[test]
fn other_type_is_refused() {
    let mut table = TypedChannelTable::new();
    table.create_channel::<Frame>("frames".to_string()).unwrap();
    assert_eq!(
        table.channel_for::<String>("frames"),
        Err(AuroraBroadcastError::TypeMismatch("frames".to_string()))
    );
}

#[test]
fn create_leaves_other_channels() {
    let mut table = TypedChannelTable::new();
    table.create_channel::<String>("alerts".to_string()).unwrap();
    table.create_channel::<Frame>("frames".to_string()).unwrap();
    assert_eq!(table.channel_for::<String>("alerts"), Ok(()));
    assert_eq!(table.channel_for::<Frame>("frames"), Ok(()));
    assert_eq!(
        table.channel_for::<Frame>("alerts"),
        Err(AuroraBroadcastError::TypeMismatch("alerts".to_string()))
    );
}

#[test]
fn register_and_route_by_type_id() {
    let mut table = TypedChannelTable::new();
    let s = TypeId::of::<String>();
    let n = TypeId::of::<u64>();
    assert_eq!(table.register("a".to_string(), s), Ok(()));
    assert_eq!(table.route("a", &s), Ok(()));
    assert_eq!(
        table.route("a", &n),
        Err(AuroraBroadcastError::TypeMismatch("a".to_string()))
    );
    assert_eq!(
        table.route("b", &s),
        Err(AuroraBroadcastError::ChannelNotFound("b".to_string()))
    );
    assert_eq!(
        table.register("a".to_string(), n),
        Err(AuroraBroadcastError::PubSubError("Channel 'a' already exists".to_string()))
    );
}

#[test]
fn typed_step_decisions() {
    assert_eq!(typed_step::<u32>("c", None), Step::Stop);
    assert_eq!(typed_step("c", Some(Ok(7u32))), Step::Deliver(7u32));
    assert_eq!(
        typed_step::<u32>("c", Some(Err("expected value at line 1 column 1".to_string()))),
        Step::Report(
            "Failed to deserialize message on channel 'c': expected value at line 1 column 1"
                .to_string()
        )
    );
}
