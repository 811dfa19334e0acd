//! The in-memory backend: one broadcast channel per name, opened the first
//! time someone subscribes to that name. Publishing is fire-and-forget: a
//! message for a name nobody listens to is taken and reaches no one.

use crate::channels::{
    broadcast_capacity, broadcast_send, broadcast_subscribe, open_broadcast, with_channel, BroadcastHandOff,
    BroadcastLog, RecvEvent, SendLog, Subscription, CHANNEL_CAPACITY,
};
use tokio::sync::broadcast;
use vstd::hash_map::StringHashMap;
use vstd::prelude::*;
use vstd::string::*;

verus! {

/// What publishing `message` to `channel` hands to tokio, among the open
/// channels `m`: the message on that channel's sender, or nothing at all when
/// nobody has opened the channel.
pub open spec fn hand_off_spec(
    m: Map<Seq<char>, broadcast::Sender<String>>,
    channel: Seq<char>,
    message: Seq<char>,
) -> Option<(broadcast::Sender<String>, Seq<char>)> {
    if m.contains_key(channel) {
        Some((m[channel], message))
    } else {
        None
    }
}

/// The channels of the in-memory backend, by name.
pub struct InMemoryChannels {
    channels: StringHashMap<broadcast::Sender<String>>,
    handed: BroadcastLog,
}

impl View for InMemoryChannels {
    type V = Map<Seq<char>, broadcast::Sender<String>>;

    closed spec fn view(&self) -> Map<Seq<char>, broadcast::Sender<String>> {
        self.channels@
    }
}

impl InMemoryChannels {
    /// Every channel's sender was opened through this backend's record, so
    /// every send on it is recorded there.
    #[verifier::type_invariant]
    spec fn senders_recorded(self) -> bool {
        forall|k: Seq<char>| #[trigger] self.channels@.contains_key(k) ==> self.handed.owns().contains(self.channels@[k])
    }

    /// Every message this backend has handed to tokio, oldest first.
    pub closed spec fn hand_offs(&self) -> Seq<BroadcastHandOff> {
        self.handed.entries()
    }

    /// A backend with no channel, that has sent nothing yet.
    pub fn new() -> (b: Self)
        ensures
            b@ == Map::<Seq<char>, broadcast::Sender<String>>::empty(),
            b.hand_offs() == Seq::<BroadcastHandOff>::empty(),
    {
        InMemoryChannels { channels: StringHashMap::new(), handed: SendLog::new() }
    }

    /// Sends `message` on the channel `channel` and returns how many receivers
    /// tokio reported it reached. Publishing never fails: a channel nobody has
    /// opened takes no send at all and reaches no one (0), and a send that finds
    /// every receiver gone reaches no one either (0). The channels stay as they
    /// were.
    pub fn publish(&mut self, channel: &str, message: &str) -> (reached: usize)
        ensures
            final(self)@ == old(self)@,
            match hand_off_spec(old(self)@, channel@, message@) {
                Some((sender, text)) => final(self).hand_offs() == old(self).hand_offs().push(
                    (sender, text, reached as nat),
                ),
                None => final(self).hand_offs() == old(self).hand_offs() && reached == 0,
            },
    {
        proof {
            use_type_invariant(&*self);
        }
        match self.channels.get(channel) {
            Some(sender) => match broadcast_send(sender, message.to_owned(), &mut self.handed) {
                Ok(n) => n,
                Err(_) => 0,
            },
            None => 0,
        }
    }

    /// Subscribes to the channel `channel`, opening it first, to buffer
    /// `CHANNEL_CAPACITY` messages, when it is not open yet. An open channel is
    /// kept as it is; every other channel is untouched, and nothing is sent. The
    /// receiver reads the channel now stored under `channel`.
    pub fn subscribe(&mut self, channel: &str) -> (s: Subscription<broadcast::Receiver<String>, broadcast::Sender<String>>)
        ensures
            old(self)@.contains_key(channel@) ==> final(self)@ == old(self)@,
            !old(self)@.contains_key(channel@) ==> broadcast_capacity(final(self)@[channel@]) == CHANNEL_CAPACITY,
            final(self)@ == old(self)@.insert(channel@, final(self)@[channel@]),
            final(self)@.dom() == with_channel(old(self)@.dom(), channel@),
            final(self).hand_offs() == old(self).hand_offs(),
            s.from() == final(self)@[channel@],
    {
        proof {
            use_type_invariant(&*self);
        }
        if let Some(sender) = self.channels.get(channel) {
            return broadcast_subscribe(sender);
        }
        let (sender, _first) = open_broadcast(CHANNEL_CAPACITY, &mut self.handed);
        let s = broadcast_subscribe(&sender);
        let mut channels = StringHashMap::new();
        std::mem::swap(&mut channels, &mut self.channels);
        channels.insert(channel.to_owned(), sender);
        self.channels = channels;
        s
    }
}

/// What the backend's message stream yields for one event of its receiver: the
/// message, or the end of the stream for both a lag and a closed channel.
pub fn next_message_from(event: RecvEvent) -> (m: Option<String>)
    ensures
        match event {
            RecvEvent::Message(text) => m == Some(text),
            _ => m is None,
        },
{
    match event {
        RecvEvent::Message(text) => Some(text),
        _ => None,
    }
}

} // verus!
