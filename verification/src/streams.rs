//! The registry of typed channels: each channel name is bound to the type of
//! message it was created for, and every publish and subscribe is routed
//! through it.

use crate::channels::{same_type, type_id_of, type_key, Step};
use crate::errors::{already_exists_message, already_exists_text, AuroraBroadcastError, FaultView};
use std::any::TypeId;
use vstd::hash_map::StringHashMap;
use vstd::prelude::*;
use vstd::string::*;

verus! {

/// The outcome of an operation that returns nothing on success, by its view.
pub open spec fn outcome_view(r: Result<(), AuroraBroadcastError>) -> Result<(), FaultView> {
    match r {
        Ok(()) => Ok(()),
        Err(e) => Err(e@),
    }
}

/// Creating `name` for the type `ty`: refused when the name is taken, else the
/// name is bound to `ty`.
pub open spec fn create_spec(m: Map<Seq<char>, TypeId>, name: Seq<char>, ty: TypeId) -> (Map<Seq<char>, TypeId>, Result<(), FaultView>) {
    if m.contains_key(name) {
        (m, Err(FaultView::PubSubError(already_exists_text(name))))
    } else {
        (m.insert(name, ty), Ok(()))
    }
}

/// Routing a message of type `ty` to `name`: the channel must exist and must
/// have been created for that type.
pub open spec fn route_spec(m: Map<Seq<char>, TypeId>, name: Seq<char>, ty: TypeId) -> Result<(), FaultView> {
    if !m.contains_key(name) {
        Err(FaultView::ChannelNotFound(name))
    } else if m[name] != ty {
        Err(FaultView::TypeMismatch(name))
    } else {
        Ok(())
    }
}

/// The text reported when a message on `name` cannot be decoded.
pub open spec fn decode_failure_text(name: Seq<char>, err: Seq<char>) -> Seq<char> {
    "Failed to deserialize message on channel '"@ + name + "': "@ + err
}

/// Channel names and the type each was created for.
pub struct TypedChannelTable {
    channels: StringHashMap<TypeId>,
}

impl View for TypedChannelTable {
    type V = Map<Seq<char>, TypeId>;

    closed spec fn view(&self) -> Map<Seq<char>, TypeId> {
        self.channels@
    }
}

impl TypedChannelTable {
    /// A table with no channel.
    pub fn new() -> (t: Self)
        ensures
            t@ == Map::<Seq<char>, TypeId>::empty(),
    {
        TypedChannelTable { channels: StringHashMap::new() }
    }

    /// Binds `name` to the type `ty`, or refuses because the name is taken.
    pub fn register(&mut self, name: String, ty: TypeId) -> (r: Result<(), AuroraBroadcastError>)
        ensures
            (final(self)@, outcome_view(r)) == create_spec(old(self)@, name@, ty),
    {
        if self.channels.contains_key(name.as_str()) {
            return Err(AuroraBroadcastError::PubSubError(already_exists_message(name.as_str())));
        }
        self.channels.insert(name, ty);
        Ok(())
    }

    /// Decides whether a message of type `ty` may go to `name`.
    pub fn route(&self, name: &str, ty: &TypeId) -> (r: Result<(), AuroraBroadcastError>)
        ensures
            outcome_view(r) == route_spec(self@, name@, *ty),
    {
        match self.channels.get(name) {
            None => Err(AuroraBroadcastError::ChannelNotFound(name.to_owned())),
            Some(bound) => {
                if same_type(bound, ty) {
                    Ok(())
                } else {
                    Err(AuroraBroadcastError::TypeMismatch(name.to_owned()))
                }
            },
        }
    }

    /// Creates the channel `name` for messages of type `T`. A taken name is
    /// refused and the table is left as it was; otherwise the name is added and
    /// every other channel keeps its type.
    pub fn create_channel<T: ?Sized + 'static>(&mut self, name: String) -> (r: Result<(), AuroraBroadcastError>)
        ensures
            old(self)@.contains_key(name@) ==> final(self)@ == old(self)@ && outcome_view(r) == Err::<(), FaultView>(
                FaultView::PubSubError(already_exists_text(name@)),
            ),
            !old(self)@.contains_key(name@) ==> r is Ok && final(self)@ == old(self)@.insert(name@, final(self)@[name@]),
            (final(self)@, outcome_view(r)) == create_spec(old(self)@, name@, type_key::<T>()),
    {
        let ty = type_id_of::<T>();
        self.register(name, ty)
    }

    /// Checks that `name` exists and was created for messages of type `T`, as
    /// publishing and subscribing both do first.
    pub fn channel_for<T: ?Sized + 'static>(&self, name: &str) -> (r: Result<(), AuroraBroadcastError>)
        ensures
            !self@.contains_key(name@) ==> outcome_view(r) == Err::<(), FaultView>(FaultView::ChannelNotFound(name@)),
            self@.contains_key(name@) ==> r is Ok || outcome_view(r) == Err::<(), FaultView>(FaultView::TypeMismatch(name@)),
            outcome_view(r) == route_spec(self@, name@, type_key::<T>()),
    {
        let ty = type_id_of::<T>();
        self.route(name, &ty)
    }
}

/// What a typed subscription does with the next item of its message stream:
/// a decoded value is handed to the callback, a decoding failure is reported
/// and the loop goes on, and the end of the stream ends the loop.
pub fn typed_step<T>(channel_name: &str, next: Option<Result<T, String>>) -> (s: Step<T>)
    ensures
        match next {
            None => s is Stop,
            Some(Ok(v)) => s == Step::Deliver(v),
            Some(Err(e)) => (s matches Step::Report(text) && text@ == decode_failure_text(channel_name@, e@)),
        },
{
    match next {
        None => Step::Stop,
        Some(Ok(v)) => Step::Deliver(v),
        Some(Err(e)) => {
            let mut text = String::from_str("Failed to deserialize message on channel '");
            text.append(channel_name);
            text.append("': ");
            text.append(e.as_str());
            Step::Report(text)
        },
    }
}

} // verus!
