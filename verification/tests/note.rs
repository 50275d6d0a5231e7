use feder::delivery::Recipients;
use feder::iri::Iri;
use feder::note::{create_note, is_public_note, CreateNoteInput, NoteRecipient};
use feder::vocab::{Actor, Note, Reference, References, PUBLIC_COLLECTION};

fn note_iri(value: &str) -> Iri {
    Iri::parse(value).expect("valid test IRI")
}

fn note_actor(id: &str) -> Actor {
    Actor::person(
        note_iri(id),
        note_iri(&format!("{id}/inbox")),
        note_iri(&format!("{id}/outbox")),
    )
}

#[test]
fn creates_note_and_create_activity_from_runtime_facts() {
    let mut local = note_actor("https://local.example/users/alice");
    local.followers = Some(note_iri("https://local.example/users/alice/followers"));
    let remote = note_iri("https://remote.example/users/bob");
    let input = CreateNoteInput {
        note_id: note_iri("https://local.example/posts/1"),
        create_id: note_iri("https://local.example/activities/create/1"),
        to: References::one(note_iri(PUBLIC_COLLECTION)),
        cc: References::many(vec![local.followers.clone().expect("followers"), remote.clone()]),
        content: "hello".to_string(),
        media_type: Some("text/html".to_string()),
        published: Some("2026-08-02T00:00:00Z".to_string()),
        url: Some(note_iri("https://local.example/@alice/1")),
    };

    let outcome = create_note(&local, input);

    assert_eq!(
        outcome.note.attributed_to,
        Some(Reference::id(local.id.clone()))
    );
    assert_eq!(outcome.note.content.as_deref(), Some("hello"));
    assert_eq!(
        outcome.activity.object,
        Reference::object(outcome.note.clone())
    );
    assert_eq!(outcome.activity.actor, Reference::id(local.id.clone()));
    assert_eq!(outcome.activity.to, outcome.note.to);
    assert_eq!(outcome.activity.cc, outcome.note.cc);
    assert_eq!(
        outcome.recipients,
        vec![
            NoteRecipient::Followers(local.id),
            NoteRecipient::Actor(remote),
        ]
    );
}

#[test]
fn deduplicates_note_recipients_and_skips_public_and_local_addresses() {
    let mut local = note_actor("https://local.example/users/alice");
    let followers = note_iri("https://local.example/users/alice/followers");
    local.followers = Some(followers.clone());
    let remote = note_iri("https://remote.example/users/bob");
    let outcome = create_note(
        &local,
        CreateNoteInput {
            note_id: note_iri("https://local.example/posts/1"),
            create_id: note_iri("https://local.example/activities/create/1"),
            to: References::many(vec![
                note_iri(PUBLIC_COLLECTION),
                local.id.clone(),
                followers.clone(),
                remote.clone(),
            ]),
            cc: References::many(vec![followers, remote.clone()]),
            content: "hello".to_string(),
            media_type: None,
            published: None,
            url: None,
        },
    );

    assert_eq!(
        outcome.recipients,
        vec![
            NoteRecipient::Followers(local.id),
            NoteRecipient::Actor(remote),
        ]
    );
}

#[test]
fn recognizes_public_note_addressing() {
    let mut public = Note::new(note_iri("https://local.example/posts/1"));
    public.cc = References::one(note_iri(PUBLIC_COLLECTION));
    let mut private = Note::new(note_iri("https://local.example/posts/2"));
    private.to = References::one(note_iri("https://remote.example/users/bob"));

    assert!(is_public_note(&public));
    assert!(!is_public_note(&private));
}

#[test]
fn note_without_followers_collection_addresses_followers_iri_as_an_actor() {
    let local = note_actor("https://local.example/users/carol");
    let followers = note_iri("https://local.example/users/carol/followers");
    let outcome = create_note(
        &local,
        CreateNoteInput {
            note_id: note_iri("https://local.example/posts/3"),
            create_id: note_iri("https://local.example/activities/create/3"),
            to: References::one(followers.clone()),
            cc: References::new(),
            content: "hi".to_string(),
            media_type: None,
            published: None,
            url: None,
        },
    );

    assert_eq!(outcome.recipients, vec![NoteRecipient::Actor(followers.clone())]);
    assert_eq!(
        Recipients::from_note_recipient(&outcome.recipients[0]),
        Recipients::Actor(followers)
    );
}

#[test]
fn inserting_a_context_twice_keeps_one_copy() {
    let mut actor = note_actor("https://local.example/users/dave");
    actor.set_public_key(Reference::id(note_iri("https://local.example/users/dave#main-key")));
    actor.set_public_key(Reference::id(note_iri("https://local.example/users/dave#main-key")));
    assert_eq!(
        actor.context,
        Some(feder::vocab::Context::many(vec![
            note_iri("https://www.w3.org/ns/activitystreams"),
            note_iri("https://w3id.org/security/v1"),
        ]))
    );
}
