//! Resolving remote actors: the checks made before, during and after an
//! actor document is fetched.
//!
//! A runtime asks [`check_actor_url`] before it sends the request, checks
//! the response with [`check_actor_response`] and each body chunk with
//! [`body_within_limit`], parses the JSON into an [`ActorDocument`], and
//! turns it into the actor with [`actor_from_document`].

use vstd::prelude::*;

use crate::config::OutboundAddressPolicy;
use crate::iri::Iri;
use crate::negotiation::{is_activitypub_content_type, is_activitypub_content_type_spec};
use crate::network::{
    check_outbound_url, outbound_url_verdict, IpAddress, OutboundUrlError,
    UrlParts,
};
use crate::outbound::is_success_status;
use crate::vocab::{
    view_opt, Actor, ActorType, ActorView, CryptographicKey, Endpoints, Reference,
};

verus! {

/// The largest actor document accepted, in bytes.
pub const MAX_ACTOR_BODY_SIZE: usize = 1_048_576;

/// The `Accept` header of actor requests.
pub const ACTIVITYPUB_ACCEPT: &'static str = "application/activity+json, application/ld+json; profile=\"https://www.w3.org/ns/activitystreams\"";

/// Why a remote actor could not be resolved.
#[derive(Debug)]
pub enum ActorResolveError {
    /// The HTTP client could not be built.
    BuildClient(reqwest::Error),
    /// The actor identifier is not an `http` or `https` URL with a host and
    /// no credentials.
    InvalidActorId(String),
    /// The actor identifier names a non-public address.
    PrivateActorAddress { actor: String, address: IpAddress },
    /// The request failed.
    Request(reqwest::Error),
    /// The server answered with a status outside 200 to 299.
    UnsuccessfulStatus { actor: String, status: u16 },
    /// The response is not an ActivityPub document.
    UnsupportedContentType(String),
    /// The response exceeds [`MAX_ACTOR_BODY_SIZE`].
    ResponseTooLarge,
    /// The response is not an actor document.
    Deserialize(serde_json::Error),
    /// The document describes another actor.
    ActorIdMismatch { requested: String, returned: String },
}

/// Checks the identifier of an actor about to be fetched.
pub fn check_actor_url(actor_id: &Iri, policy: OutboundAddressPolicy) -> (verdict: Result<
    UrlParts,
    ActorResolveError,
>)
    ensures
        match outbound_url_verdict(actor_id@, policy) {
            Ok(v) => verdict matches Ok(p) && p@ == v,
            Err(OutboundUrlError::Invalid) => verdict matches Err(
                ActorResolveError::InvalidActorId(s),
            ) && s@ == actor_id@,
            Err(OutboundUrlError::PrivateAddress(a)) => verdict matches Err(
                ActorResolveError::PrivateActorAddress { actor: s, address },
            ) && s@ == actor_id@ && address == a,
        },
{
    match check_outbound_url(actor_id.as_str(), policy) {
        Ok(parts) => Ok(parts),
        Err(OutboundUrlError::Invalid) => Err(
            ActorResolveError::InvalidActorId(actor_id.as_str().to_owned()),
        ),
        Err(OutboundUrlError::PrivateAddress(address)) => Err(
            ActorResolveError::PrivateActorAddress { actor: actor_id.as_str().to_owned(), address },
        ),
    }
}

/// The verdict on the head of an actor response: a success status, an
/// ActivityPub content type (an absent one counts as empty), and no
/// declared length beyond the limit, checked in that order.
pub open spec fn actor_response_verdict(
    status: u16,
    content_type: Seq<char>,
    content_length: Option<u64>,
) -> Result<(), u8> {
    if !is_success_status(status) {
        Err(0)
    } else if !is_activitypub_content_type_spec(content_type) {
        Err(1)
    } else if content_length matches Some(n) && n > MAX_ACTOR_BODY_SIZE {
        Err(2)
    } else {
        Ok(())
    }
}

/// Checks the status, content type and declared length of an actor
/// response.
pub fn check_actor_response(
    actor_id: &Iri,
    status: u16,
    content_type: &str,
    content_length: Option<u64>,
) -> (verdict: Result<(), ActorResolveError>)
    ensures
        match actor_response_verdict(status, content_type@, content_length) {
            Ok(()) => verdict is Ok,
            Err(0) => verdict matches Err(ActorResolveError::UnsuccessfulStatus { actor: s, status: t })
                && s@ == actor_id@ && t == status,
            Err(1) => verdict matches Err(ActorResolveError::UnsupportedContentType(t)) && t@
                == content_type@,
            Err(_) => verdict matches Err(ActorResolveError::ResponseTooLarge),
        },
{
    if !(200 <= status && status <= 299) {
        return Err(
            ActorResolveError::UnsuccessfulStatus { actor: actor_id.as_str().to_owned(), status },
        );
    }
    if !is_activitypub_content_type(content_type) {
        return Err(ActorResolveError::UnsupportedContentType(content_type.to_owned()));
    }
    match content_length {
        Some(n) => if n > MAX_ACTOR_BODY_SIZE as u64 {
            return Err(ActorResolveError::ResponseTooLarge);
        },
        None => {},
    }
    Ok(())
}

/// Whether a body of `received` bytes may take a further chunk of `chunk`
/// bytes.
pub fn body_within_limit(received: usize, chunk: usize) -> (within: bool)
    ensures
        within == (received + chunk <= MAX_ACTOR_BODY_SIZE),
{
    received.saturating_add(chunk) <= MAX_ACTOR_BODY_SIZE
}

/// An actor document as a remote server publishes it.
#[derive(Debug, PartialEq, Eq)]
pub struct ActorDocument {
    pub kind: ActorType,
    pub id: Iri,
    pub inbox: Iri,
    pub outbox: Iri,
    pub preferred_username: Option<String>,
    pub name: Option<String>,
    pub endpoints: Option<Endpoints>,
    pub public_key: Option<Reference<CryptographicKey>>,
}

/// The actor that a document with these fields describes: no JSON-LD
/// context and no followers collection.
pub open spec fn document_actor(document: ActorDocument) -> ActorView {
    ActorView {
        context: None,
        kind: document.kind,
        id: document.id@,
        inbox: document.inbox@,
        outbox: document.outbox@,
        followers: None,
        preferred_username: view_opt(document.preferred_username),
        name: view_opt(document.name),
        endpoints: view_opt(document.endpoints),
        public_key: view_opt(document.public_key),
    }
}

impl ActorDocument {
    /// The actor the document describes.
    pub fn into_actor(self) -> (actor: Actor)
        ensures
            actor@ == document_actor(self),
    {
        Actor {
            context: None,
            kind: self.kind,
            id: self.id,
            inbox: self.inbox,
            outbox: self.outbox,
            followers: None,
            preferred_username: self.preferred_username,
            name: self.name,
            endpoints: self.endpoints,
            public_key: self.public_key,
        }
    }
}

/// Turns a fetched document into the requested actor; a document that
/// describes another actor is refused.
pub fn actor_from_document(document: ActorDocument, requested: &Iri) -> (actor: Result<
    Actor,
    ActorResolveError,
>)
    ensures
        document.id@ == requested@ ==> (actor matches Ok(a) && a@ == document_actor(document)),
        document.id@ != requested@ ==> (actor matches Err(
            ActorResolveError::ActorIdMismatch { requested: r, returned: d },
        ) && r@ == requested@ && d@ == document.id@),
{
    let actor = document.into_actor();
    if !actor.id.same(requested) {
        return Err(
            ActorResolveError::ActorIdMismatch {
                requested: requested.as_str().to_owned(),
                returned: actor.id.as_str().to_owned(),
            },
        );
    }
    Ok(actor)
}

/// The key that a fetched key-identifier document yields: the document
/// itself when it is a key, or else the key that an actor document embeds;
/// none when it is neither.
pub fn fetched_key(key_document: Option<CryptographicKey>, actor_key: Option<Reference<CryptographicKey>>) -> (key: Option<CryptographicKey>)
    ensures
        match key_document {
            Some(k) => key matches Some(r) && r@ == k@,
            None => match actor_key {
                Some(Reference::Object(k)) => key matches Some(r) && r@ == (*k)@,
                _ => key is None,
            },
        },
{
    match key_document {
        Some(k) => Some(k),
        None => match actor_key {
            Some(Reference::Object(k)) => Some(*k),
            _ => None,
        },
    }
}

/// The actor resolved from a document keeps everything the document says:
/// its type, identifier, inbox, outbox, names, endpoints and public key, each
/// as given; it has no JSON-LD context and no followers collection.
pub proof fn lemma_document_actor_keeps_fields(document: ActorDocument)
    ensures
        document_actor(document).kind == document.kind,
        document_actor(document).id == document.id@,
        document_actor(document).inbox == document.inbox@,
        document_actor(document).outbox == document.outbox@,
        document_actor(document).preferred_username == match document.preferred_username {
            Some(n) => Some(n@),
            None => None::<Seq<char>>,
        },
        document_actor(document).name == match document.name {
            Some(n) => Some(n@),
            None => None::<Seq<char>>,
        },
        document_actor(document).endpoints == match document.endpoints {
            Some(e) => Some(e@),
            None => None,
        },
        document_actor(document).public_key == match document.public_key {
            Some(k) => Some(k@),
            None => None,
        },
        document_actor(document).context is None,
        document_actor(document).followers is None,
{
}

} // verus!
