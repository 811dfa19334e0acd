//! Broadcast streams: named local broadcast channels fed from the backend,
//! each handing every message to all of its current subscribers.

use crate::channels::{BroadcastLog, BroadcastHandOff, SendLog, Subscription, broadcast_capacity, lookup_spec, with_channel, broadcast_send, broadcast_subscribe, open_broadcast, RecvEvent, Step, CHANNEL_CAPACITY};
use crate::errors::AuroraBroadcastError;
use tokio::sync::broadcast;
use vstd::hash_map::StringHashMap;
use vstd::prelude::*;
use vstd::string::*;

verus! {

/// The text reported when the backend refuses a subscription to `name`.
pub open spec fn subscribe_failure_text(name: Seq<char>, err: Seq<char>) -> Seq<char> {
    "Failed to subscribe to channel '"@ + name + "': "@ + err
}

/// Builds the text reported when the backend refuses a subscription to `name`.
pub fn subscribe_failure_message(name: &str, err: &str) -> (text: String)
    ensures
        text@ == subscribe_failure_text(name@, err@),
{
    let mut text = String::from_str("Failed to subscribe to channel '");
    text.append(name);
    text.append("': ");
    text.append(err);
    text
}

/// A local broadcast channel.
pub struct BroadcastChannel {
    pub sender: broadcast::Sender<String>,
}

impl BroadcastChannel {
    /// A channel opened to buffer `CHANNEL_CAPACITY` messages, with no receiver
    /// yet.
    pub fn new() -> (c: Self)
        ensures
            broadcast_capacity(c.sender) == CHANNEL_CAPACITY,
    {
        let mut log: BroadcastLog = SendLog::new();
        let (sender, _first) = open_broadcast(CHANNEL_CAPACITY, &mut log);
        BroadcastChannel { sender }
    }
}

/// The broadcast channels, by name.
pub struct BroadcastChannels {
    channels: StringHashMap<BroadcastChannel>,
    handed: BroadcastLog,
}

impl View for BroadcastChannels {
    type V = Map<Seq<char>, BroadcastChannel>;

    closed spec fn view(&self) -> Map<Seq<char>, BroadcastChannel> {
        self.channels@
    }
}

impl BroadcastChannels {
    /// Every channel's sender was opened through this table's record, so every
    /// send on it is recorded there.
    #[verifier::type_invariant]
    spec fn senders_recorded(self) -> bool {
        forall|k: Seq<char>| #[trigger] self.channels@.contains_key(k) ==> self.handed.owns().contains(self.channels@[k].sender)
    }

    /// Every message these channels have handed to tokio, oldest first.
    pub closed spec fn hand_offs(&self) -> Seq<BroadcastHandOff> {
        self.handed.entries()
    }

    /// No channel, and nothing sent yet.
    pub fn new() -> (c: Self)
        ensures
            c@ == Map::<Seq<char>, BroadcastChannel>::empty(),
            c.hand_offs() == Seq::<BroadcastHandOff>::empty(),
    {
        BroadcastChannels { channels: StringHashMap::new(), handed: SendLog::new() }
    }

    /// Creates the channel `name`, buffering `CHANNEL_CAPACITY` messages, unless
    /// it exists, and tells whether it was new (a new channel still needs its
    /// feed from the backend). An existing channel is kept as it is; every other
    /// channel is untouched.
    pub fn create_channel(&mut self, name: String) -> (created: bool)
        ensures
            created == !old(self)@.contains_key(name@),
            !created ==> final(self)@ == old(self)@,
            final(self)@ == old(self)@.insert(name@, final(self)@[name@]),
            final(self)@.dom() == with_channel(old(self)@.dom(), name@),
            final(self).hand_offs() == old(self).hand_offs(),
            created ==> broadcast_capacity(final(self)@[name@].sender) == CHANNEL_CAPACITY,
    {
        proof {
            use_type_invariant(&*self);
        }
        if self.channels.contains_key(name.as_str()) {
            return false;
        }
        let (sender, _first) = open_broadcast(CHANNEL_CAPACITY, &mut self.handed);
        let mut channels = StringHashMap::new();
        std::mem::swap(&mut channels, &mut self.channels);
        channels.insert(name, BroadcastChannel { sender });
        self.channels = channels;
        true
    }

    /// Passes a message from the backend to the local channel `name`, if that
    /// channel exists, and tells whether it did: the message is sent on that
    /// channel's own sender, and a send that finds no subscriber is dropped. An
    /// unknown name sends nothing. The channels stay as they were.
    pub fn forward(&mut self, name: &str, message: String) -> (known: bool)
        ensures
            known == old(self)@.contains_key(name@),
            final(self)@ == old(self)@,
            known ==> exists|reached: nat|
                final(self).hand_offs() == old(self).hand_offs().push((old(self)@[name@].sender, message@, reached)),
            !known ==> final(self).hand_offs() == old(self).hand_offs(),
    {
        proof {
            use_type_invariant(&*self);
        }
        match self.channels.get(name) {
            Some(channel) => {
                let ghost text = message@;
                let sent = broadcast_send(&channel.sender, message, &mut self.handed);
                proof {
                    let reached = match sent {
                        Ok(n) => n as nat,
                        Err(_) => 0nat,
                    };
                    assert(self.hand_offs() == old(self).hand_offs().push((old(self)@[name@].sender, text, reached)));
                }
                true
            },
            None => false,
        }
    }

    /// Subscribes to the local channel `name`; an unknown name is refused. The
    /// receiver reads that channel's own sender, and nothing is sent.
    pub fn subscribe(&self, name: &str) -> (r: Result<Subscription<broadcast::Receiver<String>, broadcast::Sender<String>>, AuroraBroadcastError>)
        ensures
            lookup_spec(self@.dom(), name@) == match r {
                Ok(_) => Ok(()),
                Err(e) => Err(e@),
            },
            r matches Ok(s) ==> s.from() == self@[name@].sender,
    {
        match self.channels.get(name) {
            Some(channel) => Ok(broadcast_subscribe(&channel.sender)),
            None => Err(AuroraBroadcastError::ChannelNotFound(name.to_owned())),
        }
    }
}

/// What a broadcast subscription does with one event of its receiver: a message
/// goes to the callback, a lag is skipped, and a closed channel ends the loop.
pub fn broadcast_step(event: RecvEvent) -> (s: Step<String>)
    ensures
        match event {
            RecvEvent::Message(text) => s == Step::Deliver(text),
            RecvEvent::Lagged(_) => s is Skip,
            RecvEvent::Closed => s is Stop,
        },
{
    match event {
        RecvEvent::Message(text) => Step::Deliver(text),
        RecvEvent::Lagged(_) => Step::Skip,
        RecvEvent::Closed => Step::Stop,
    }
}

} // verus!
