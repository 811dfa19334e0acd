use aurora_streams::errors::{already_exists_message, AuroraBroadcastError, AuroraWatchError};

#[test]
fn broadcast_error_texts() {
    assert_eq!(
        AuroraBroadcastError::ChannelNotFound("alerts".to_string()).to_string(),
        "Channel not found: alerts"
    );
    assert_eq!(
        AuroraBroadcastError::TypeMismatch("alerts".to_string()).to_string(),
        "Type mismatch for channel: alerts"
    );
    assert_eq!(
        AuroraBroadcastError::PubSubError("boom".to_string()).to_string(),
        "PubSub error: boom"
    );
}

#[test]
fn watch_error_texts() {
    assert_eq!(
        AuroraWatchError::ChannelNotFound("w".to_string()).to_string(),
        "Channel not found: w"
    );
    assert_eq!(
        AuroraWatchError::TypeMismatch("w".to_string()).to_string(),
        "Type mismatch for channel: w"
    );
    assert_eq!(
        AuroraWatchError::PubSubError("down".to_string()).to_string(),
        "PubSub error: down"
    );
}

#[test]
fn backend_failures_become_pubsub_errors() {
    assert_eq!(
        AuroraBroadcastError::from_backend("channel closed".to_string()),
        AuroraBroadcastError::PubSubError("channel closed".to_string())
    );
    assert_eq!(
        AuroraWatchError::from_backend("Channel does not exist".to_string()),
        AuroraWatchError::PubSubError("Channel does not exist".to_string())
    );
}

#[test]
fn already_exists_text() {
    assert_eq!(already_exists_message("setpoints"), "Channel 'setpoints' already exists");
    assert_eq!(already_exists_message(""), "Channel '' already exists");
}
