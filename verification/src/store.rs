//! What the runtime store keeps: follower relationships and their inboxes.

use vstd::prelude::*;

use crate::http_signatures::KeyError;
use crate::iri::{is_absolute_iri, Iri};
use crate::text::str_eq;
use crate::vocab::{view_opt, Actor, ActorView, Reference, ReferenceView};
use crate::follow::{actor_ref_id, reference_id};

verus! {

#[verifier::external_type_specification]
#[verifier::external_body]
pub struct ExSqliteError(rusqlite::Error);

/// Why a store operation failed.
#[derive(Debug)]
pub enum StoreError {
    /// The database failed.
    Sqlite(rusqlite::Error),
    /// A stored object could not be encoded or decoded.
    Json(serde_json::Error),
    /// A stored identifier is not an IRI.
    InvalidIri(String),
    /// The object type cannot be stored.
    UnsupportedObjectType,
    /// A stored object has a type that cannot be loaded.
    UnsupportedStoredObjectType(String),
    /// A stored key pair does not decode.
    ActorKey(KeyError),
}

/// A stored follower relationship.
#[derive(Debug, PartialEq, Eq)]
pub struct StoredFollower {
    pub follower: Iri,
    pub following: Iri,
    pub inbox: Option<Iri>,
    pub shared_inbox: Option<Iri>,
}

/// The model of a [`StoredFollower`].
pub ghost struct StoredFollowerView {
    pub follower: Seq<char>,
    pub following: Seq<char>,
    pub inbox: Option<Seq<char>>,
    pub shared_inbox: Option<Seq<char>>,
}

impl View for StoredFollower {
    type V = StoredFollowerView;

    open spec fn view(&self) -> StoredFollowerView {
        StoredFollowerView {
            follower: self.follower@,
            following: self.following@,
            inbox: view_opt(self.inbox),
            shared_inbox: view_opt(self.shared_inbox),
        }
    }
}

/// The inbox of an embedded actor; an identifier alone gives none.
pub open spec fn actor_ref_inbox(reference: ReferenceView<ActorView>) -> Option<Seq<char>> {
    match reference {
        ReferenceView::Id(_) => None,
        ReferenceView::Object(actor) => Some(actor.inbox),
    }
}

/// The shared inbox of an embedded actor, if it publishes one.
pub open spec fn actor_ref_shared_inbox(reference: ReferenceView<ActorView>) -> Option<Seq<char>> {
    match reference {
        ReferenceView::Id(_) => None,
        ReferenceView::Object(actor) => match actor.endpoints {
            Some(endpoints) => endpoints.shared_inbox,
            None => None,
        },
    }
}

/// A follower relationship to write, and whether its inboxes replace the
/// stored ones: they do when the follower was embedded, and an identifier
/// alone leaves the stored inboxes as they are.
#[derive(Debug, PartialEq, Eq)]
pub struct FollowerRecord {
    pub follower: StoredFollower,
    pub refresh_inboxes: bool,
}

/// The record that storing `follower` as a follower of `following` writes.
pub open spec fn follower_record_spec(
    follower: ReferenceView<ActorView>,
    following: ReferenceView<ActorView>,
) -> (StoredFollowerView, bool) {
    (
        StoredFollowerView {
            follower: actor_ref_id(follower),
            following: actor_ref_id(following),
            inbox: actor_ref_inbox(follower),
            shared_inbox: actor_ref_shared_inbox(follower),
        },
        follower is Object,
    )
}

/// The record that storing `follower` as a follower of `following` writes.
pub fn follower_record(follower: &Reference<Actor>, following: &Reference<Actor>) -> (record:
    FollowerRecord)
    ensures
        (record.follower@, record.refresh_inboxes) == follower_record_spec(follower@, following@),
{
    let (inbox, shared_inbox) = match follower {
        Reference::Id(_) => (None, None),
        Reference::Object(actor) => (
            Some(actor.inbox.clone()),
            match &actor.endpoints {
                Some(endpoints) => match &endpoints.shared_inbox {
                    Some(shared) => Some(shared.clone()),
                    None => None,
                },
                None => None,
            },
        ),
    };
    FollowerRecord {
        follower: StoredFollower {
            follower: reference_id(follower).clone(),
            following: reference_id(following).clone(),
            inbox,
            shared_inbox,
        },
        refresh_inboxes: matches!(follower, Reference::Object(_)),
    }
}

/// Reads a stored identifier back as an IRI.
pub fn parse_stored_iri(value: String) -> (iri: Result<Iri, StoreError>)
    ensures
        is_absolute_iri(value@) ==> (iri matches Ok(i) && i@ == value@),
        !is_absolute_iri(value@) ==> (iri matches Err(StoreError::InvalidIri(v)) && v@ == value@),
{
    match Iri::parse(value.as_str()) {
        Some(i) => Ok(i),
        None => Err(StoreError::InvalidIri(value)),
    }
}

/// Reads an optional stored identifier back as an IRI.
pub fn parse_optional_stored_iri(value: Option<String>) -> (iri: Result<Option<Iri>, StoreError>)
    ensures
        match value {
            None => iri matches Ok(None),
            Some(v) => if is_absolute_iri(v@) {
                iri matches Ok(Some(i)) && i@ == v@
            } else {
                iri matches Err(StoreError::InvalidIri(w)) && w@ == v@
            },
        },
{
    match value {
        None => Ok(None),
        Some(v) => match parse_stored_iri(v) {
            Ok(i) => Ok(Some(i)),
            Err(e) => Err(e),
        },
    }
}

/// The stored type name of Notes, the one object type the store keeps.
pub const NOTE_OBJECT_TYPE: &'static str = "Note";

/// Checks the type name of a stored object before it is decoded.
pub fn check_stored_object_type(object_type: &str) -> (verdict: Result<(), StoreError>)
    ensures
        object_type@ == NOTE_OBJECT_TYPE@ ==> verdict is Ok,
        object_type@ != NOTE_OBJECT_TYPE@ ==> (verdict matches Err(
            StoreError::UnsupportedStoredObjectType(t),
        ) && t@ == object_type@),
{
    if str_eq(object_type, NOTE_OBJECT_TYPE) {
        Ok(())
    } else {
        Err(StoreError::UnsupportedStoredObjectType(object_type.to_owned()))
    }
}

} // verus!
