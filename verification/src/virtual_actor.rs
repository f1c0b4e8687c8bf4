//! Virtual actors: what they are, how they are created, how messages reach
//! them, and what can go wrong on the way.

use vstd::prelude::*;

use crate::persistence::StatePersistenceError;
use crate::virtual_registry::VirtualActorRegistryError;

verus! {

/// Why a virtual actor could not be created.
#[derive(Debug)]
pub enum VirtualActorFactoryError {
    StatePersistenceError(StatePersistenceError),
}

/// A virtual actor: a kind (its type name) and an id within that kind.
pub trait VirtualActor: Sized {
    /// Creates actors of this type.
    type Factory: VirtualActorFactory<Self>;

    /// The name of the actor type.
    fn name() -> &'static str;

    /// The id of this actor.
    fn id(&self) -> String;
}

/// A message that virtual actors of some type handle, by name.
pub trait VirtualMessage {
    /// The name of the message type.
    fn name() -> &'static str;
}

/// Creates the virtual actor with a given id, restoring its state.
pub trait VirtualActorFactory<V> {
    fn create(&self, id: String) -> Result<V, VirtualActorFactoryError>;
}

/// Ask a virtual actor to save its state and stop.
#[derive(Debug, Clone, Copy)]
pub struct StopRequest;

/// Why a virtual actor could not stop cleanly.
#[derive(Debug)]
pub enum StopRequestError {
    StateSaveError(StatePersistenceError),
}

/// Why a message could not be put in an actor's mailbox.
#[derive(Debug, Clone, Copy, PartialEq, Eq)]
pub enum SendErrorWrapper {
    Full,
    Closed,
}

/// Why a message to a virtual actor failed.
#[derive(Debug)]
pub enum VirtualActorSendError {
    SendError(SendErrorWrapper),
    /// The mailbox failed (the message says why).
    MailboxError(String),
    /// The local actor is gone.
    MissingLocalActor,
}

/// Why an HTTP request to a virtual actor failed.
#[derive(Debug)]
pub enum HandlerError {
    VirtualActorSendError(VirtualActorSendError),
    VirtualActorRegistryError(VirtualActorRegistryError),
    /// The mailbox failed (the message says why).
    MailboxError(String),
}

/// The address to send to, when the local actor is still alive; the error
/// the send ends with otherwise.
pub fn live_local_actor<A>(upgraded: Option<A>) -> (r: Result<A, VirtualActorSendError>)
    ensures
        match upgraded {
            Some(a) => r == Ok::<A, VirtualActorSendError>(a),
            None => r matches Err(e) && e is MissingLocalActor,
        },
{
    match upgraded {
        Some(a) => Ok(a),
        None => Err(VirtualActorSendError::MissingLocalActor),
    }
}

/// The HTTP route of messages of type `message` to actors of type `actor`:
/// `/actor/{actor}/{id}/{message}`, where `{id}` is taken from the request.
pub open spec fn handler_path(actor: Seq<char>, message: Seq<char>) -> Seq<char> {
    "/actor/"@ + actor + "/{id}/"@ + message
}

/// The HTTP route of messages of type `message` to actors of type `actor`.
pub fn handler_path_of(actor: &str, message: &str) -> (path: String)
    ensures
        path@ == handler_path(actor@, message@),
{
    let mut path = String::new();
    crate::text::append_str(&mut path, "/actor/");
    crate::text::append_str(&mut path, actor);
    crate::text::append_str(&mut path, "/{id}/");
    crate::text::append_str(&mut path, message);
    path
}

} // verus!
