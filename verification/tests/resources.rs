use feder::iri::Iri;
use feder::resources::{
    check_local_user, followers_collection, followers_iri_of, resource_preflight, local_actor,
    main_key_id, note_id, visible_note, webfinger_response, WebFingerQuery,
};
use feder::vocab::{Context, Note, Reference, References};
use feder::store::StoredFollower;

fn res_iri(value: &str) -> Iri {
    Iri::parse(value).expect("valid test IRI")
}

#[test]
fn webfinger_answers_only_the_local_account() {
    let actor_id = res_iri("https://local.example/users/alice");
    let response = webfinger_response(
        WebFingerQuery { resource: Some("acct:alice@local.example".to_string()) },
        "alice",
        "local.example",
        &actor_id,
    )
    .expect("local account");
    assert_eq!(response.subject, "acct:alice@local.example");
    assert_eq!(response.aliases, vec!["https://local.example/users/alice".to_string()]);
    assert_eq!(response.links.len(), 1);
    assert_eq!(response.links[0].rel, "self");
    assert_eq!(response.links[0].media_type, "application/activity+json");
    assert_eq!(response.links[0].href, "https://local.example/users/alice");

    assert_eq!(
        webfinger_response(WebFingerQuery { resource: None }, "alice", "local.example", &actor_id)
            .err(),
        Some(400)
    );
    assert_eq!(
        webfinger_response(
            WebFingerQuery { resource: Some("acct:bob@local.example".to_string()) },
            "alice",
            "local.example",
            &actor_id,
        )
        .err(),
        Some(404)
    );
}

#[test]
fn only_the_local_user_is_served() {
    assert_eq!(check_local_user("alice", "alice"), Ok(()));
    assert_eq!(check_local_user("bob", "alice"), Err(404));
    assert_eq!(resource_preflight("bob", "alice", true), Err(404));
    assert_eq!(resource_preflight("alice", "alice", false), Err(406));
    assert_eq!(resource_preflight("alice", "alice", true), Ok(()));
}

#[test]
fn followers_collection_lists_followers_in_order() {
    let followers = vec![
        StoredFollower {
            follower: res_iri("https://remote.example/users/bob"),
            following: res_iri("https://local.example/users/alice"),
            inbox: None,
            shared_inbox: None,
        },
        StoredFollower {
            follower: res_iri("https://remote.example/users/carol"),
            following: res_iri("https://local.example/users/alice"),
            inbox: Some(res_iri("https://remote.example/users/carol/inbox")),
            shared_inbox: None,
        },
    ];
    let id = res_iri("https://local.example/users/alice/followers");
    let collection = followers_collection(Some(&id), followers).expect("collection");
    assert_eq!(collection.id, id);
    assert_eq!(collection.total_items, 2);
    assert_eq!(
        collection.ordered_items,
        vec![res_iri("https://remote.example/users/bob"), res_iri("https://remote.example/users/carol")]
    );
    assert_eq!(followers_collection(None, Vec::new()).err(), Some(500));
}

#[test]
fn note_ids_live_under_the_actor() {
    let actor_id = res_iri("https://local.example/users/alice");
    assert_eq!(
        note_id(&actor_id, "1").map(|id| id.as_str().to_string()),
        Ok("https://local.example/users/alice/posts/1".to_string())
    );
    let with_slash = res_iri("https://local.example/users/alice/?q=1#frag");
    assert_eq!(
        note_id(&with_slash, "a b").map(|id| id.as_str().to_string()),
        Ok("https://local.example/users/alice/posts/a%20b".to_string())
    );
    let opaque = res_iri("urn:example:alice");
    assert_eq!(note_id(&opaque, "1").err(), Some(500));
}

#[test]
fn local_actor_is_named_by_its_user() {
    let actor = local_actor(
        res_iri("https://local.example/users/alice"),
        res_iri("https://local.example/users/alice/inbox"),
        res_iri("https://local.example/users/alice/outbox"),
        "alice",
        "PEM",
    );
    assert_eq!(actor.preferred_username.as_deref(), Some("alice"));
    assert_eq!(actor.name.as_deref(), Some("alice"));
    assert_eq!(actor.id.as_str(), "https://local.example/users/alice");
}

#[test]
fn local_actor_publishes_followers_and_key() {
    let actor = local_actor(
        res_iri("http://127.0.0.1:3000/users/alice"),
        res_iri("http://127.0.0.1:3000/users/alice/inbox"),
        res_iri("http://127.0.0.1:3000/users/alice/outbox"),
        "alice",
        "PUBLIC PEM",
    );
    assert_eq!(
        actor.followers.as_ref().map(|f| f.as_str()),
        Some("http://127.0.0.1:3000/users/alice/followers")
    );
    match &actor.public_key {
        Some(Reference::Object(key)) => {
            assert_eq!(key.id.as_str(), "http://127.0.0.1:3000/users/alice#main-key");
            assert_eq!(key.owner.as_str(), "http://127.0.0.1:3000/users/alice");
            assert_eq!(key.public_key_pem, "PUBLIC PEM");
        }
        _ => panic!("the actor embeds its key"),
    }
    match actor.context.as_ref() {
        Some(Context::Iris(iris)) => assert_eq!(
            iris.iter().map(|i| i.as_str()).collect::<Vec<_>>(),
            vec!["https://www.w3.org/ns/activitystreams", "https://w3id.org/security/v1"]
        ),
        _ => panic!("the actor's context names both vocabularies"),
    }
}

#[test]
fn main_key_replaces_a_fragment() {
    assert_eq!(
        main_key_id(&res_iri("https://local.example/users/alice#old")).as_str(),
        "https://local.example/users/alice#main-key"
    );
    assert_eq!(
        followers_iri_of(&res_iri("https://local.example/users/alice")).as_str(),
        "https://local.example/users/alice/followers"
    );
}

#[test]
fn only_public_notes_are_served() {
    let mut note = Note::new(res_iri("https://local.example/users/alice/posts/1"));
    note.to = References::one(res_iri("https://remote.example/users/bob"));
    assert_eq!(visible_note(note.clone()).err(), Some(404));
    note.cc = References::one(res_iri("https://www.w3.org/ns/activitystreams#Public"));
    assert_eq!(visible_note(note.clone()).ok(), Some(note));
}
