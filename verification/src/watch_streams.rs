//! Watch streams: named local watch channels fed from the backend, each
//! holding the latest message and waking its subscribers when it changes.

use crate::channels::{WatchLog, WatchHandOff, SendLog, Subscription, lookup_spec, watch_initial_value, with_channel, open_watch, watch_send, watch_subscribe, Step};
use crate::errors::AuroraWatchError;
use tokio::sync::watch;
use vstd::hash_map::StringHashMap;
use vstd::prelude::*;

verus! {

/// A local watch channel.
pub struct WatchChannel {
    pub sender: watch::Sender<String>,
}

impl WatchChannel {
    /// A channel opened with the empty text, with no receiver yet.
    pub fn new() -> (c: Self)
        ensures
            watch_initial_value(c.sender) == Seq::<char>::empty(),
    {
        let mut log: WatchLog = SendLog::new();
        let (sender, _first) = open_watch(String::new(), &mut log);
        WatchChannel { sender }
    }
}

/// The watch channels, by name.
pub struct WatchChannels {
    channels: StringHashMap<WatchChannel>,
    handed: WatchLog,
}

impl View for WatchChannels {
    type V = Map<Seq<char>, WatchChannel>;

    closed spec fn view(&self) -> Map<Seq<char>, WatchChannel> {
        self.channels@
    }
}

/// What a watch subscription does once its receiver wakes: with the current
/// value when the value changed, with nothing when every sender is gone.
#[derive(Debug, Clone, PartialEq, Eq)]
pub enum WatchEvent {
    Changed(String),
    Closed,
}

impl WatchChannels {
    /// Every channel's sender was opened through this table's record, so every
    /// send on it is recorded there.
    #[verifier::type_invariant]
    spec fn senders_recorded(self) -> bool {
        forall|k: Seq<char>| #[trigger] self.channels@.contains_key(k) ==> self.handed.owns().contains(self.channels@[k].sender)
    }

    /// Every message these channels have handed to tokio, oldest first.
    pub closed spec fn hand_offs(&self) -> Seq<WatchHandOff> {
        self.handed.entries()
    }

    /// No channel, and nothing sent yet.
    pub fn new() -> (c: Self)
        ensures
            c@ == Map::<Seq<char>, WatchChannel>::empty(),
            c.hand_offs() == Seq::<WatchHandOff>::empty(),
    {
        WatchChannels { channels: StringHashMap::new(), handed: SendLog::new() }
    }

    /// Creates the channel `name`, opened with the empty text, unless it exists,
    /// and tells whether it was new (a new channel still needs its feed from the
    /// backend). An existing channel is kept as it is; every other channel is
    /// untouched.
    pub fn create_channel(&mut self, name: String) -> (created: bool)
        ensures
            created == !old(self)@.contains_key(name@),
            !created ==> final(self)@ == old(self)@,
            final(self)@ == old(self)@.insert(name@, final(self)@[name@]),
            final(self)@.dom() == with_channel(old(self)@.dom(), name@),
            final(self).hand_offs() == old(self).hand_offs(),
            created ==> watch_initial_value(final(self)@[name@].sender) == Seq::<char>::empty(),
    {
        proof {
            use_type_invariant(&*self);
        }
        if self.channels.contains_key(name.as_str()) {
            return false;
        }
        let (sender, _first) = open_watch(String::new(), &mut self.handed);
        let mut channels = StringHashMap::new();
        std::mem::swap(&mut channels, &mut self.channels);
        channels.insert(name, WatchChannel { sender });
        self.channels = channels;
        true
    }

    /// Passes a message from the backend to the local channel `name`, if that
    /// channel exists, and tells whether it did: the message is sent on that
    /// channel's own sender, and a send that finds no subscriber is dropped. An
    /// unknown name sends nothing. The channels stay as they were.
    pub fn forward(&mut self, name: &str, message: String) -> (known: bool)
        ensures
            known == old(self)@.contains_key(name@),
            final(self)@ == old(self)@,
            known ==> final(self).hand_offs() == old(self).hand_offs().push((old(self)@[name@].sender, message@)),
            !known ==> final(self).hand_offs() == old(self).hand_offs(),
    {
        proof {
            use_type_invariant(&*self);
        }
        match self.channels.get(name) {
            Some(channel) => {
                let _ = watch_send(&channel.sender, message, &mut self.handed);
                true
            },
            None => false,
        }
    }

    /// Subscribes to the local channel `name`; an unknown name is refused. The
    /// receiver reads that channel's own sender, and nothing is sent.
    pub fn subscribe(&self, name: &str) -> (r: Result<Subscription<watch::Receiver<String>, watch::Sender<String>>, AuroraWatchError>)
        ensures
            lookup_spec(self@.dom(), name@) == match r {
                Ok(_) => Ok(()),
                Err(e) => Err(e@),
            },
            r matches Ok(s) ==> s.from() == self@[name@].sender,
    {
        match self.channels.get(name) {
            Some(channel) => Ok(watch_subscribe(&channel.sender)),
            None => Err(AuroraWatchError::ChannelNotFound(name.to_owned())),
        }
    }
}

/// What a watch subscription does when its receiver wakes: the current value
/// goes to the callback, and a closed channel ends the loop.
pub fn watch_step(event: WatchEvent) -> (s: Step<String>)
    ensures
        match event {
            WatchEvent::Changed(text) => s == Step::Deliver(text),
            WatchEvent::Closed => s is Stop,
        },
{
    match event {
        WatchEvent::Changed(text) => Step::Deliver(text),
        WatchEvent::Closed => Step::Stop,
    }
}

} // verus!
