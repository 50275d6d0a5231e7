//! What a runtime supplies to the protocol core: its actors and its storage.
//!
//! These traits are implemented by runtimes; the protocol decisions of this
//! crate take the facts they return as arguments, so nothing is assumed of
//! their behaviour.

use vstd::prelude::*;

use crate::follow::PendingFollow;
use crate::http_signatures::ActorKeyPair;
use crate::iri::Iri;
use crate::vocab::{Actor, Note};

verus! {

/// Looks up local actors.
pub trait ActorDispatcher {
    type Error;

    /// The local actor with this user name or identifier text, if any.
    fn get_actor(&self, identifier: &str) -> Result<Option<Actor>, Self::Error>;

    /// The local actor with this identifier, if any.
    fn get_actor_by_id(&self, actor_id: &Iri) -> Result<Option<Actor>, Self::Error>;
}

/// Finds actors by an identifier text.
pub trait ActorProvider {
    type Error;

    /// Whether `found` is an answer this runtime may give for `identifier`;
    /// each runtime says what its lookups return.
    spec fn finds(&self, identifier: Seq<char>, found: Result<Option<Actor>, Self::Error>) -> bool;

    fn find_actor(&self, identifier: &str) -> (found: Result<Option<Actor>, Self::Error>)
        ensures
            self.finds(identifier@, found),
    ;
}

/// Asks `runtime` for the actor with this identifier text, and hands back
/// its answer.
pub fn find_actor<R: ActorProvider>(runtime: &R, identifier: &str) -> (found: Result<
    Option<Actor>,
    R::Error,
>)
    ensures
        runtime.finds(identifier@, found),
{
    runtime.find_actor(identifier)
}

/// A store, with the error its operations fail with.
pub trait Storage {
    type Error;
}

/// The relationships and keys a server keeps.
pub trait ServerStorage: Storage {
    fn store_follower(&self, follower: &Actor, following: &Iri) -> Result<(), Self::Error>;

    fn load_actor_key_pair(&self, actor_id: &Iri) -> Result<Option<ActorKeyPair>, Self::Error>;

    fn remove_follower(&self, follower: &Iri, following: &Iri) -> Result<(), Self::Error>;

    fn list_followers(&self, following: &Iri) -> Result<Vec<Iri>, Self::Error>;

    fn store_pending_follow(&self, follow: &PendingFollow) -> Result<(), Self::Error>;

    fn load_pending_follow(&self, follow_activity: &Iri) -> Result<
        Option<PendingFollow>,
        Self::Error,
    >;

    /// Confirms `expected` only if that exact relationship is still pending.
    fn confirm_pending_follow(&self, expected: &PendingFollow) -> Result<bool, Self::Error>;
}

/// Keeps local Notes.
pub trait NoteStore: Storage {
    fn store_note(&self, note: &Note) -> Result<(), Self::Error>;
}

/// Lists the followers a Note is delivered to.
pub trait FollowerDeliveryStore: ServerStorage {
    fn list_follower_actors(&self, local_actor: &Iri) -> Result<Vec<Actor>, Self::Error>;
}

} // verus!
