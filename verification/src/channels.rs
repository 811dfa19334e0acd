//! The tokio channel handles the library holds, the events a subscription
//! loop reacts to, and the step it takes next.

use crate::errors::FaultView;
use std::any::TypeId;
use tokio::sync::broadcast;
use tokio::sync::watch;
use vstd::prelude::*;

verus! {

/// How many messages a broadcast channel of the library buffers.
pub const CHANNEL_CAPACITY: usize = 100;

#[verifier::external_type_specification]
#[verifier::external_body]
#[verifier::reject_recursive_types(T)]
pub struct ExBroadcastSender<T>(broadcast::Sender<T>);

#[verifier::external_type_specification]
#[verifier::external_body]
#[verifier::reject_recursive_types(T)]
pub struct ExBroadcastReceiver<T>(broadcast::Receiver<T>);

#[verifier::external_type_specification]
#[verifier::external_body]
#[verifier::reject_recursive_types(T)]
pub struct ExWatchSender<T>(watch::Sender<T>);

#[verifier::external_type_specification]
#[verifier::external_body]
#[verifier::reject_recursive_types(T)]
pub struct ExWatchReceiver<T>(watch::Receiver<T>);

#[verifier::external_type_specification]
#[verifier::external_body]
pub struct ExTypeId(TypeId);

/// The capacity a broadcast channel was opened with: the number of messages it
/// was asked to buffer, which stays fixed for the channel's life (tokio rounds
/// the buffer it allocates up to a power of two; this is the capacity asked for).
pub uninterp spec fn broadcast_capacity(sender: broadcast::Sender<String>) -> nat;

/// The value a watch channel was opened with. It stays fixed for the channel's
/// life; the value the channel holds later changes with every send.
pub uninterp spec fn watch_initial_value(sender: watch::Sender<String>) -> Seq<char>;

/// The record of every message the library has handed to tokio's send
/// through one table of channels, in order, together with the senders the
/// table opened. Both are private to this module: only a new, empty record, the
/// wrappers that open a channel and the send wrappers below change them. A send
/// must go through the record that opened its sender, and each sender is opened
/// with exactly one record, so the record holds every send ever made on the
/// senders it owns.
#[verifier::reject_recursive_types(S)]
pub struct SendLog<S, E> {
    owned: Ghost<Set<S>>,
    entries: Ghost<Seq<E>>,
}

impl<S, E> SendLog<S, E> {
    /// The senders opened through this record.
    pub closed spec fn owns(&self) -> Set<S> {
        self.owned@
    }

    /// The hand-offs recorded so far, oldest first.
    pub closed spec fn entries(&self) -> Seq<E> {
        self.entries@
    }

    /// A record with no sender and no hand-off.
    pub fn new() -> (log: Self)
        ensures
            log.owns() == Set::<S>::empty(),
            log.entries() == Seq::<E>::empty(),
    {
        SendLog { owned: Ghost(Set::empty()), entries: Ghost(Seq::empty()) }
    }
}

/// A receiver together with the sender it was subscribed from. Only the
/// subscribe wrappers below make one, so `from` is the channel the receiver
/// really belongs to.
pub struct Subscription<R, S> {
    pub receiver: R,
    from: Ghost<S>,
}

impl<R, S> Subscription<R, S> {
    /// The sender whose channel `receiver` reads.
    pub closed spec fn from(&self) -> S {
        self.from@
    }
}

/// A hand-off to a broadcast channel: its sender, the message, and how many
/// receivers tokio reported it reached (0 when the send failed).
pub type BroadcastHandOff = (broadcast::Sender<String>, Seq<char>, nat);

/// A hand-off to a watch channel: its sender and the value.
pub type WatchHandOff = (watch::Sender<String>, Seq<char>);

/// The record kept by a table of broadcast channels.
pub type BroadcastLog = SendLog<broadcast::Sender<String>, BroadcastHandOff>;

/// The record kept by a table of watch channels.
pub type WatchLog = SendLog<watch::Sender<String>, WatchHandOff>;

/// The messages handed to the broadcast sender `sender`, in order, among the
/// hand-offs `log`.
pub open spec fn broadcast_messages_to(log: Seq<BroadcastHandOff>, sender: broadcast::Sender<String>) -> Seq<Seq<char>>
    decreases log.len(),
{
    if log.len() == 0 {
        Seq::empty()
    } else if log.last().0 == sender {
        broadcast_messages_to(log.drop_last(), sender).push(log.last().1)
    } else {
        broadcast_messages_to(log.drop_last(), sender)
    }
}

/// The values handed to the watch sender `sender`, in order, among the
/// hand-offs `log`.
pub open spec fn watch_values_to(log: Seq<WatchHandOff>, sender: watch::Sender<String>) -> Seq<Seq<char>>
    decreases log.len(),
{
    if log.len() == 0 {
        Seq::empty()
    } else if log.last().0 == sender {
        watch_values_to(log.drop_last(), sender).push(log.last().1)
    } else {
        watch_values_to(log.drop_last(), sender)
    }
}

/// One more hand-off adds its message to the messages of its own sender and
/// to no other sender's.
pub proof fn lemma_broadcast_messages_push(log: Seq<BroadcastHandOff>, e: BroadcastHandOff, sender: broadcast::Sender<String>)
    ensures
        broadcast_messages_to(log.push(e), sender) == if e.0 == sender {
            broadcast_messages_to(log, sender).push(e.1)
        } else {
            broadcast_messages_to(log, sender)
        },
{
    assert(log.push(e).drop_last() =~= log);
}

/// One more hand-off adds its value to the values of its own sender and to no
/// other sender's.
pub proof fn lemma_watch_values_push(log: Seq<WatchHandOff>, e: WatchHandOff, sender: watch::Sender<String>)
    ensures
        watch_values_to(log.push(e), sender) == if e.0 == sender {
            watch_values_to(log, sender).push(e.1)
        } else {
            watch_values_to(log, sender)
        },
{
    assert(log.push(e).drop_last() =~= log);
}

/// Calls `tokio::sync::broadcast::channel` and enters the new sender in `log`.
/// tokio panics when the capacity is zero or exceeds `usize::MAX / 2`, so those
/// capacities are excluded. The sender is claimed to belong to a channel opened
/// with the capacity given; nothing else is claimed of the two handles.
#[verifier::external_body]
pub(crate) fn open_broadcast(capacity: usize, log: &mut BroadcastLog) -> (ends: (broadcast::Sender<String>, broadcast::Receiver<String>))
    requires
        0 < capacity <= usize::MAX / 2,
    ensures
        broadcast_capacity(ends.0) == capacity,
        final(log).owns() == old(log).owns().insert(ends.0),
        final(log).entries() == old(log).entries(),
    no_unwind
{
    let ends = broadcast::channel(capacity);
    log.owned = Ghost(log.owned@.insert(ends.0));
    ends
}

/// Calls `tokio::sync::broadcast::Sender::send` and records the hand-off in
/// `log`. Whether the send succeeds depends on how many receivers are alive at
/// that moment, so only what tokio's source shows of every outcome is claimed: a
/// success reports at least one receiver, and a failure is the `SendError`, whose
/// text is `channel closed`.
#[verifier::external_body]
pub(crate) fn broadcast_send(
    sender: &broadcast::Sender<String>,
    message: String,
    log: &mut BroadcastLog,
) -> (r: Result<usize, String>)
    requires
        old(log).owns().contains(*sender),
    ensures
        final(log).owns() == old(log).owns(),
        final(log).entries() == old(log).entries().push(
            (
                *sender,
                message@,
                match r {
                    Ok(n) => n as nat,
                    Err(_) => 0nat,
                },
            ),
        ),
        match r {
            Ok(n) => n >= 1,
            Err(text) => text@ == "channel closed"@,
        },
    no_unwind
{
    let text = Ghost(message@);
    let r = match sender.send(message) {
        Ok(n) => Ok(n),
        Err(e) => Err(e.to_string()),
    };
    log.entries = Ghost(log.entries@.push((*sender, text@, match r { Ok(n) => n as nat, Err(_) => 0nat })));
    r
}

/// Calls `tokio::sync::broadcast::Sender::subscribe` and pairs the receiver with
/// the sender it was subscribed from.
#[verifier::external_body]
pub(crate) fn broadcast_subscribe(sender: &broadcast::Sender<String>) -> (s: Subscription<
    broadcast::Receiver<String>,
    broadcast::Sender<String>,
>)
    ensures
        s.from() == *sender,
{
    Subscription { receiver: sender.subscribe(), from: Ghost(*sender) }
}

/// Calls `tokio::sync::watch::channel` and enters the new sender in `log`.
/// The sender is claimed to belong to a channel opened with `init`; nothing
/// else is claimed of the two handles.
#[verifier::external_body]
pub(crate) fn open_watch(init: String, log: &mut WatchLog) -> (ends: (watch::Sender<String>, watch::Receiver<String>))
    ensures
        watch_initial_value(ends.0) == init@,
        final(log).owns() == old(log).owns().insert(ends.0),
        final(log).entries() == old(log).entries(),
    no_unwind
{
    let ends = watch::channel(init);
    log.owned = Ghost(log.owned@.insert(ends.0));
    ends
}

/// Calls `tokio::sync::watch::Sender::send` and records the hand-off in `log`.
/// The send fails when no receiver is alive, which depends on other tasks, so
/// only the text of its `SendError`, `channel closed`, is claimed.
#[verifier::external_body]
pub(crate) fn watch_send(
    sender: &watch::Sender<String>,
    value: String,
    log: &mut WatchLog,
) -> (r: Result<(), String>)
    requires
        old(log).owns().contains(*sender),
    ensures
        final(log).owns() == old(log).owns(),
        final(log).entries() == old(log).entries().push((*sender, value@)),
        match r {
            Ok(()) => true,
            Err(text) => text@ == "channel closed"@,
        },
    no_unwind
{
    log.entries = Ghost(log.entries@.push((*sender, value@)));
    match sender.send(value) {
        Ok(()) => Ok(()),
        Err(e) => Err(e.to_string()),
    }
}

/// Calls `tokio::sync::watch::Sender::subscribe` and pairs the receiver with the
/// sender it was subscribed from.
#[verifier::external_body]
pub(crate) fn watch_subscribe(sender: &watch::Sender<String>) -> (s: Subscription<
    watch::Receiver<String>,
    watch::Sender<String>,
>)
    ensures
        s.from() == *sender,
{
    Subscription { receiver: sender.subscribe(), from: Ghost(*sender) }
}

/// The identifier of the type `T`: one fixed value for each type, of which
/// nothing else is known here.
pub open spec fn type_key<T: ?Sized + 'static>() -> TypeId {
    vstd::pervasive::arbitrary::<(TypeId, std::marker::PhantomData<T>)>().0
}

/// Calls `std::any::TypeId::of`. Its result depends on the type parameter
/// alone, so it is claimed to be the one fixed identifier of `T`; nothing is
/// claimed of how the identifiers of two types compare.
#[verifier::external_body]
pub(crate) fn type_id_of<T: ?Sized + 'static>() -> (id: TypeId)
    ensures
        id == type_key::<T>(),
{
    TypeId::of::<T>()
}

/// Calls `==` on two `std::any::TypeId`s: equal identifiers stand for the same
/// type, so the comparison is claimed to be equality of the two values.
#[verifier::external_body]
pub(crate) fn same_type(a: &TypeId, b: &TypeId) -> (r: bool)
    ensures
        r == (*a == *b),
{
    *a == *b
}

/// The names of the channels once `name` has been created or opened: every
/// channel stays, and `name` is among them.
pub open spec fn with_channel(names: Set<Seq<char>>, name: Seq<char>) -> Set<Seq<char>> {
    names.insert(name)
}

/// Looking up `name` among the local channels: found, or refused as not found.
pub open spec fn lookup_spec(names: Set<Seq<char>>, name: Seq<char>) -> Result<(), FaultView> {
    if names.contains(name) {
        Ok(())
    } else {
        Err(FaultView::ChannelNotFound(name))
    }
}

/// What a broadcast receiver reported: a message, a count of messages it fell
/// behind by, or that every sender is gone.
#[derive(Debug, Clone, PartialEq, Eq)]
pub enum RecvEvent {
    Message(String),
    Lagged(u64),
    Closed,
}

/// What a subscription loop does next.
#[derive(Debug, Clone, PartialEq, Eq)]
pub enum Step<T> {
    /// Hand the value to the subscriber's callback.
    Deliver(T),
    /// Report the text on the error stream and keep going.
    Report(String),
    /// Wait for the next event.
    Skip,
    /// End the loop.
    Stop,
}

} // verus!
