use feder::actor_fetch::{
    actor_from_document, body_within_limit, check_actor_response, check_actor_url, fetched_key,
    ActorDocument, ActorResolveError, MAX_ACTOR_BODY_SIZE,
};
use feder::config::OutboundAddressPolicy;
use feder::iri::Iri;
use feder::store::{
    check_stored_object_type, follower_record, parse_optional_stored_iri, parse_stored_iri,
    StoreError,
};
use feder::vocab::{Actor, ActorType, CryptographicKey, Endpoints, Reference};

fn store_iri(value: &str) -> Iri {
    Iri::parse(value).expect("valid test IRI")
}

#[test]
fn follower_records_refresh_inboxes_only_for_embedded_actors() {
    let local = store_iri("https://local.example/users/alice");
    let mut bob = Actor::person(
        store_iri("https://remote.example/users/bob"),
        store_iri("https://remote.example/users/bob/inbox"),
        store_iri("https://remote.example/users/bob/outbox"),
    );
    bob.endpoints = Some(Endpoints { shared_inbox: Some(store_iri("https://remote.example/inbox")) });

    let record = follower_record(&Reference::object(bob), &Reference::id(local.clone()));
    assert!(record.refresh_inboxes);
    assert_eq!(record.follower.follower.as_str(), "https://remote.example/users/bob");
    assert_eq!(record.follower.following, local);
    assert_eq!(record.follower.inbox, Some(store_iri("https://remote.example/users/bob/inbox")));
    assert_eq!(record.follower.shared_inbox, Some(store_iri("https://remote.example/inbox")));

    let by_id = follower_record(
        &Reference::id(store_iri("https://remote.example/users/bob")),
        &Reference::id(local),
    );
    assert!(!by_id.refresh_inboxes);
    assert_eq!(by_id.follower.inbox, None);
    assert_eq!(by_id.follower.shared_inbox, None);
}

#[test]
fn stored_identifiers_must_be_iris() {
    assert!(parse_stored_iri("https://remote.example/users/bob".to_string()).is_ok());
    assert!(matches!(
        parse_stored_iri("not an iri".to_string()),
        Err(StoreError::InvalidIri(ref value)) if value == "not an iri"
    ));
    assert!(matches!(parse_optional_stored_iri(None), Ok(None)));
    assert!(check_stored_object_type("Note").is_ok());
    assert!(matches!(
        check_stored_object_type("Person"),
        Err(StoreError::UnsupportedStoredObjectType(ref kind)) if kind == "Person"
    ));
}

#[test]
fn actor_urls_and_responses_are_checked() {
    let id = store_iri("https://remote.example/users/bob");
    assert!(check_actor_url(&id, OutboundAddressPolicy::PublicOnly).is_ok());
    assert!(matches!(
        check_actor_url(&store_iri("http://127.0.0.1/users/bob"), OutboundAddressPolicy::PublicOnly),
        Err(ActorResolveError::PrivateActorAddress { .. })
    ));
    assert!(matches!(
        check_actor_url(&store_iri("mailto:bob@remote.example"), OutboundAddressPolicy::PublicOnly),
        Err(ActorResolveError::InvalidActorId(_))
    ));

    assert!(check_actor_response(&id, 200, "application/activity+json", Some(10)).is_ok());
    assert!(matches!(
        check_actor_response(&id, 404, "application/activity+json", None),
        Err(ActorResolveError::UnsuccessfulStatus { status: 404, .. })
    ));
    assert!(matches!(
        check_actor_response(&id, 200, "text/html", None),
        Err(ActorResolveError::UnsupportedContentType(ref t)) if t == "text/html"
    ));
    assert!(matches!(
        check_actor_response(&id, 200, "application/ld+json", Some(MAX_ACTOR_BODY_SIZE as u64 + 1)),
        Err(ActorResolveError::ResponseTooLarge)
    ));
    assert!(body_within_limit(MAX_ACTOR_BODY_SIZE - 10, 10));
    assert!(!body_within_limit(MAX_ACTOR_BODY_SIZE - 10, 11));
    assert!(!body_within_limit(usize::MAX, 1));
}

#[test]
fn fetched_documents_must_describe_the_requested_actor() {
    let document = ActorDocument {
        kind: ActorType::Service,
        id: store_iri("https://remote.example/users/bot"),
        inbox: store_iri("https://remote.example/users/bot/inbox"),
        outbox: store_iri("https://remote.example/users/bot/outbox"),
        preferred_username: Some("bot".to_string()),
        name: None,
        endpoints: None,
        public_key: None,
    };
    let actor = actor_from_document(document, &store_iri("https://remote.example/users/bot"))
        .expect("matching actor");
    assert_eq!(actor.kind, ActorType::Service);
    assert_eq!(actor.context, None);
    assert_eq!(actor.preferred_username.as_deref(), Some("bot"));

    let other = ActorDocument {
        kind: ActorType::Person,
        id: store_iri("https://remote.example/users/mallory"),
        inbox: store_iri("https://remote.example/users/mallory/inbox"),
        outbox: store_iri("https://remote.example/users/mallory/outbox"),
        preferred_username: None,
        name: None,
        endpoints: None,
        public_key: None,
    };
    assert!(matches!(
        actor_from_document(other, &store_iri("https://remote.example/users/bob")),
        Err(ActorResolveError::ActorIdMismatch { ref requested, ref returned })
            if requested == "https://remote.example/users/bob"
                && returned == "https://remote.example/users/mallory"
    ));
}

#[test]
fn a_fetched_key_comes_from_a_key_document_or_an_embedded_key() {
    let key = |id: &str| {
        CryptographicKey::new(
            store_iri(id),
            store_iri("https://remote.example/users/bob"),
            "PEM".to_string(),
        )
    };
    let direct = fetched_key(Some(key("https://remote.example/keys/1")), None).expect("key");
    assert_eq!(direct.id.as_str(), "https://remote.example/keys/1");
    let embedded =
        fetched_key(None, Some(Reference::object(key("https://remote.example/users/bob#main-key"))))
            .expect("embedded key");
    assert_eq!(embedded.id.as_str(), "https://remote.example/users/bob#main-key");
    assert!(fetched_key(None, Some(Reference::id(store_iri("https://remote.example/keys/1")))).is_none());
    assert!(fetched_key(None, None).is_none());
}
