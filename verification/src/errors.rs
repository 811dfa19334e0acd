//! The two error families of the library and the text each error prints.

use vstd::prelude::*;
use vstd::string::*;

verus! {

/// What an error says, with its payload as a sequence of characters.
/// Both error families share these three shapes.
pub enum FaultView {
    ChannelNotFound(Seq<char>),
    TypeMismatch(Seq<char>),
    PubSubError(Seq<char>),
}

/// The text an error prints: a fixed prefix followed by its payload.
pub open spec fn fault_text(f: FaultView) -> Seq<char> {
    match f {
        FaultView::ChannelNotFound(n) => "Channel not found: "@ + n,
        FaultView::TypeMismatch(n) => "Type mismatch for channel: "@ + n,
        FaultView::PubSubError(m) => "PubSub error: "@ + m,
    }
}

/// The text of the error that refuses to create a channel twice.
pub open spec fn already_exists_text(name: Seq<char>) -> Seq<char> {
    "Channel '"@ + name + "' already exists"@
}

/// Builds `prefix` followed by `body`.
fn prefixed(prefix: &str, body: &str) -> (text: String)
    ensures
        text@ == prefix@ + body@,
{
    let mut text = String::from_str(prefix);
    text.append(body);
    text
}

/// Builds the text `Channel '<name>' already exists`.
pub fn already_exists_message(name: &str) -> (text: String)
    ensures
        text@ == already_exists_text(name@),
{
    let mut text = prefixed("Channel '", name);
    text.append("' already exists");
    text
}

/// Errors of the typed streams and of the broadcast streams.
#[derive(Debug, Clone, PartialEq, Eq)]
pub enum AuroraBroadcastError {
    ChannelNotFound(String),
    TypeMismatch(String),
    PubSubError(String),
}

impl View for AuroraBroadcastError {
    type V = FaultView;

    open spec fn view(&self) -> FaultView {
        match self {
            AuroraBroadcastError::ChannelNotFound(n) => FaultView::ChannelNotFound(n@),
            AuroraBroadcastError::TypeMismatch(n) => FaultView::TypeMismatch(n@),
            AuroraBroadcastError::PubSubError(m) => FaultView::PubSubError(m@),
        }
    }
}

impl AuroraBroadcastError {
    /// The error a failing backend call is reported as.
    pub fn from_backend(message: String) -> (e: Self)
        ensures
            e@ == FaultView::PubSubError(message@),
    {
        AuroraBroadcastError::PubSubError(message)
    }

    /// The text this error prints.
    pub fn to_string(&self) -> (text: String)
        ensures
            text@ == fault_text(self@),
    {
        match self {
            AuroraBroadcastError::ChannelNotFound(n) => prefixed("Channel not found: ", n.as_str()),
            AuroraBroadcastError::TypeMismatch(n) => prefixed("Type mismatch for channel: ", n.as_str()),
            AuroraBroadcastError::PubSubError(m) => prefixed("PubSub error: ", m.as_str()),
        }
    }
}

/// Errors of the watch streams.
#[derive(Debug, Clone, PartialEq, Eq)]
pub enum AuroraWatchError {
    ChannelNotFound(String),
    TypeMismatch(String),
    PubSubError(String),
}

impl View for AuroraWatchError {
    type V = FaultView;

    open spec fn view(&self) -> FaultView {
        match self {
            AuroraWatchError::ChannelNotFound(n) => FaultView::ChannelNotFound(n@),
            AuroraWatchError::TypeMismatch(n) => FaultView::TypeMismatch(n@),
            AuroraWatchError::PubSubError(m) => FaultView::PubSubError(m@),
        }
    }
}

impl AuroraWatchError {
    /// The error a failing backend call is reported as.
    pub fn from_backend(message: String) -> (e: Self)
        ensures
            e@ == FaultView::PubSubError(message@),
    {
        AuroraWatchError::PubSubError(message)
    }

    /// The text this error prints.
    pub fn to_string(&self) -> (text: String)
        ensures
            text@ == fault_text(self@),
    {
        match self {
            AuroraWatchError::ChannelNotFound(n) => prefixed("Channel not found: ", n.as_str()),
            AuroraWatchError::TypeMismatch(n) => prefixed("Type mismatch for channel: ", n.as_str()),
            AuroraWatchError::PubSubError(m) => prefixed("PubSub error: ", m.as_str()),
        }
    }
}

} // verus!
