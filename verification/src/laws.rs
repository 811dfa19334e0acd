//! Properties of the library that span several operations.

use crate::backend::{hand_off_spec, InMemoryChannels};
use crate::broadcast_streams::BroadcastChannels;
use crate::channels::{
    broadcast_messages_to, lemma_broadcast_messages_push, lemma_watch_values_push, lookup_spec, type_key,
    watch_values_to, with_channel,
};
use crate::errors::{already_exists_text, AuroraBroadcastError, FaultView};
use crate::streams::{create_spec, outcome_view, route_spec, TypedChannelTable};
use crate::watch_streams::WatchChannels;
use tokio::sync::watch;
use std::any::TypeId;
use tokio::sync::broadcast;
use vstd::prelude::*;

verus! {

/// A typed channel that was just created accepts messages of the type it was
/// created for.
pub proof fn law_created_channel_accepts_its_type(m: Map<Seq<char>, TypeId>, name: Seq<char>, ty: TypeId)
    requires
        create_spec(m, name, ty).1 is Ok,
    ensures
        route_spec(create_spec(m, name, ty).0, name, ty) == Ok::<(), FaultView>(()),
{
}

/// Creating a typed channel under a taken name is refused with
/// `Channel '<name>' already exists`, whatever the type, and changes nothing.
pub proof fn law_taken_name_refused(m: Map<Seq<char>, TypeId>, name: Seq<char>, first: TypeId, second: TypeId)
    requires
        create_spec(m, name, first).1 is Ok,
    ensures
        create_spec(create_spec(m, name, first).0, name, second) == (
            create_spec(m, name, first).0,
            Err::<(), FaultView>(FaultView::PubSubError(already_exists_text(name))),
        ),
{
}

/// Publishing or subscribing to a name that was never created is refused as
/// not found, whatever the message type.
pub proof fn law_unknown_channel_not_found(m: Map<Seq<char>, TypeId>, name: Seq<char>, ty: TypeId)
    requires
        !m.contains_key(name),
    ensures
        route_spec(m, name, ty) == Err::<(), FaultView>(FaultView::ChannelNotFound(name)),
{
}

/// A typed channel refuses messages of any type other than the one it was
/// created for.
pub proof fn law_other_type_refused(m: Map<Seq<char>, TypeId>, name: Seq<char>, ty: TypeId, other: TypeId)
    requires
        create_spec(m, name, ty).1 is Ok,
        other != ty,
    ensures
        route_spec(create_spec(m, name, ty).0, name, other) == Err::<(), FaultView>(FaultView::TypeMismatch(name)),
{
}

/// Creating a typed channel leaves the routing of every other name as it was.
pub proof fn law_create_leaves_other_channels(
    m: Map<Seq<char>, TypeId>,
    name: Seq<char>,
    ty: TypeId,
    other_name: Seq<char>,
    other_ty: TypeId,
)
    requires
        other_name != name,
    ensures
        route_spec(create_spec(m, name, ty).0, other_name, other_ty) == route_spec(m, other_name, other_ty),
{
}

/// Once a channel of the in-memory backend has been subscribed to, every
/// later publish to that name hands its message to the very sender the
/// subscription reads from (`InMemoryChannels::subscribe` ensures
/// `s.from() == final@[channel]`, and `publish` records its send through
/// `hand_off_spec`); a name nobody opened receives nothing.
pub proof fn law_publish_reaches_subscribed_sender(
    m: Map<Seq<char>, broadcast::Sender<String>>,
    channel: Seq<char>,
    subscribed_from: broadcast::Sender<String>,
    message: Seq<char>,
)
    ensures
        hand_off_spec(m.insert(channel, subscribed_from), channel, message) == Some((subscribed_from, message)),
        !m.contains_key(channel) ==> hand_off_spec(m, channel, message) is None,
{
}

/// Creating or opening a channel twice is the same as doing it once, and it
/// never removes a channel.
pub proof fn law_channel_creation_idempotent(names: Set<Seq<char>>, name: Seq<char>)
    ensures
        with_channel(with_channel(names, name), name) == with_channel(names, name),
        names.subset_of(with_channel(names, name)),
{
    assert(with_channel(with_channel(names, name), name) =~= with_channel(names, name));
}

/// A local broadcast or watch channel that has been created can be subscribed
/// to; one that never was is refused as not found.
pub proof fn law_created_channel_subscribable(names: Set<Seq<char>>, name: Seq<char>)
    ensures
        lookup_spec(with_channel(names, name), name) == Ok::<(), FaultView>(()),
        !names.contains(name) ==> lookup_spec(names, name) == Err::<(), FaultView>(FaultView::ChannelNotFound(name)),
{
}


/// A typed channel lookup for the message type `T` (what `channel_for::<T>`
/// returns, by its contract) succeeds exactly when the table binds the name to
/// the identifier of `T`; a name bound to any other type is refused as a type
/// mismatch, and an unknown name as not found.
pub proof fn law_lookup_succeeds_only_for_the_bound_type<T: ?Sized + 'static>(
    table: TypedChannelTable,
    name: Seq<char>,
    r: Result<(), AuroraBroadcastError>,
)
    requires
        outcome_view(r) == route_spec(table@, name, type_key::<T>()),
    ensures
        r is Ok <==> (table@.contains_key(name) && table@[name] == type_key::<T>()),
        table@.contains_key(name) && table@[name] != type_key::<T>() ==> outcome_view(r) == Err::<(), FaultView>(
            FaultView::TypeMismatch(name),
        ),
        !table@.contains_key(name) ==> outcome_view(r) == Err::<(), FaultView>(FaultView::ChannelNotFound(name)),
{
}

/// Creating a typed channel for `T` (by the contract of `create_channel::<T>`)
/// and then looking it up for `T` (by the contract of `channel_for::<T>`): a
/// successful creation binds the name to the identifier of `T` and changes no
/// other name, so the lookup succeeds; a refused creation changes nothing.
pub proof fn law_channel_created_for_a_type_accepts_that_type<T: ?Sized + 'static>(
    before: TypedChannelTable,
    after: TypedChannelTable,
    name: Seq<char>,
    created: Result<(), AuroraBroadcastError>,
    looked_up: Result<(), AuroraBroadcastError>,
)
    requires
        (after@, outcome_view(created)) == create_spec(before@, name, type_key::<T>()),
        outcome_view(looked_up) == route_spec(after@, name, type_key::<T>()),
    ensures
        created is Ok ==> after@ == before@.insert(name, type_key::<T>()) && looked_up is Ok,
        created is Err ==> after@ == before@,
        created is Ok <==> !before@.contains_key(name),
{
}

/// A publish on the in-memory backend (by its contract) hands the message to
/// tokio exactly once, on the sender of the channel it names, and nothing to
/// any other sender; a name nobody opened gets nothing. So a receiver that
/// subscribed to that channel (its `from()` is the channel's sender) is sent
/// the message once, and every other receiver is sent nothing.
pub proof fn law_publish_sends_once_on_its_channel(
    before: InMemoryChannels,
    after: InMemoryChannels,
    channel: Seq<char>,
    message: Seq<char>,
    reached: nat,
)
    requires
        after@ == before@,
        match hand_off_spec(before@, channel, message) {
            Some((sender, text)) => after.hand_offs() == before.hand_offs().push((sender, text, reached)),
            None => after.hand_offs() == before.hand_offs() && reached == 0,
        },
    ensures
        forall|s: broadcast::Sender<String>|
            #[trigger] broadcast_messages_to(after.hand_offs(), s) == if before@.contains_key(channel) && s
                == before@[channel] {
                broadcast_messages_to(before.hand_offs(), s).push(message)
            } else {
                broadcast_messages_to(before.hand_offs(), s)
            },
{
    assert forall|s: broadcast::Sender<String>|
        #[trigger] broadcast_messages_to(after.hand_offs(), s) == if before@.contains_key(channel) && s
            == before@[channel] {
            broadcast_messages_to(before.hand_offs(), s).push(message)
        } else {
            broadcast_messages_to(before.hand_offs(), s)
        } by {
        if before@.contains_key(channel) {
            lemma_broadcast_messages_push(before.hand_offs(), (before@[channel], message, reached), s);
        }
    }
}

/// A forward on the broadcast channels (by its contract) hands the message to
/// tokio exactly once, on the sender of the named channel, and nothing to any
/// other sender; an unknown name gets nothing.
pub proof fn law_broadcast_forward_sends_once_on_its_channel(
    before: BroadcastChannels,
    after: BroadcastChannels,
    name: Seq<char>,
    message: Seq<char>,
    known: bool,
)
    requires
        known == before@.contains_key(name),
        after@ == before@,
        known ==> exists|reached: nat|
            after.hand_offs() == before.hand_offs().push((before@[name].sender, message, reached)),
        !known ==> after.hand_offs() == before.hand_offs(),
    ensures
        forall|s: broadcast::Sender<String>|
            #[trigger] broadcast_messages_to(after.hand_offs(), s) == if known && s == before@[name].sender {
                broadcast_messages_to(before.hand_offs(), s).push(message)
            } else {
                broadcast_messages_to(before.hand_offs(), s)
            },
{
    if known {
        let reached = choose|reached: nat|
            after.hand_offs() == before.hand_offs().push((before@[name].sender, message, reached));
        assert forall|s: broadcast::Sender<String>|
            #[trigger] broadcast_messages_to(after.hand_offs(), s) == if s == before@[name].sender {
                broadcast_messages_to(before.hand_offs(), s).push(message)
            } else {
                broadcast_messages_to(before.hand_offs(), s)
            } by {
            lemma_broadcast_messages_push(before.hand_offs(), (before@[name].sender, message, reached), s);
        }
    }
}

/// A forward on the watch channels (by its contract) hands the value to tokio
/// exactly once, on the sender of the named channel, and nothing to any other
/// sender; an unknown name gets nothing.
pub proof fn law_watch_forward_sends_once_on_its_channel(
    before: WatchChannels,
    after: WatchChannels,
    name: Seq<char>,
    message: Seq<char>,
    known: bool,
)
    requires
        known == before@.contains_key(name),
        after@ == before@,
        known ==> after.hand_offs() == before.hand_offs().push((before@[name].sender, message)),
        !known ==> after.hand_offs() == before.hand_offs(),
    ensures
        forall|s: watch::Sender<String>|
            #[trigger] watch_values_to(after.hand_offs(), s) == if known && s == before@[name].sender {
                watch_values_to(before.hand_offs(), s).push(message)
            } else {
                watch_values_to(before.hand_offs(), s)
            },
{
    if known {
        assert forall|s: watch::Sender<String>|
            #[trigger] watch_values_to(after.hand_offs(), s) == if s == before@[name].sender {
                watch_values_to(before.hand_offs(), s).push(message)
            } else {
                watch_values_to(before.hand_offs(), s)
            } by {
            lemma_watch_values_push(before.hand_offs(), (before@[name].sender, message), s);
        }
    }
}

/// Creating a watch channel (by its contract) sends nothing on any sender, so
/// no existing channel's value or subscribers change; creating a name that
/// already exists leaves every channel, its sender included, as it was.
pub proof fn law_watch_create_sends_nothing(before: WatchChannels, after: WatchChannels, name: Seq<char>, created: bool)
    requires
        created == !before@.contains_key(name),
        !created ==> after@ == before@,
        after@ == before@.insert(name, after@[name]),
        after.hand_offs() == before.hand_offs(),
    ensures
        forall|s: watch::Sender<String>| #[trigger] watch_values_to(after.hand_offs(), s) == watch_values_to(before.hand_offs(), s),
        !created ==> after@[name] == before@[name],
        forall|k: Seq<char>| k != name && #[trigger] before@.contains_key(k) ==> after@.contains_key(k) && after@[k] == before@[k],
{
}

/// Creating a broadcast channel (by its contract) sends nothing on any sender;
/// creating a name that already exists leaves every channel as it was.
pub proof fn law_broadcast_create_sends_nothing(
    before: BroadcastChannels,
    after: BroadcastChannels,
    name: Seq<char>,
    created: bool,
)
    requires
        created == !before@.contains_key(name),
        !created ==> after@ == before@,
        after@ == before@.insert(name, after@[name]),
        after.hand_offs() == before.hand_offs(),
    ensures
        forall|s: broadcast::Sender<String>|
            #[trigger] broadcast_messages_to(after.hand_offs(), s) == broadcast_messages_to(before.hand_offs(), s),
        !created ==> after@[name] == before@[name],
        forall|k: Seq<char>| k != name && #[trigger] before@.contains_key(k) ==> after@.contains_key(k) && after@[k] == before@[k],
{
}

} // verus!
