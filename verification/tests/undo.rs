use feder::iri::Iri;
use feder::undo::{receive_undo_follow, UndoFollowError};
use feder::vocab::{Actor, Follow, Reference, Undo};

fn undo_iri(value: &str) -> Iri {
    Iri::parse(value).expect("valid test IRI")
}

fn undo_actor(id: &str) -> Actor {
    Actor::person(
        undo_iri(id),
        undo_iri(&format!("{id}/inbox")),
        undo_iri(&format!("{id}/outbox")),
    )
}

#[test]
fn receives_undo_for_embedded_follow() {
    let local = undo_actor("https://local.example/users/alice");
    let remote = undo_actor("https://remote.example/users/bob");
    let follow = Follow::new(
        undo_iri("https://remote.example/activities/follow/1"),
        Reference::id(remote.id.clone()),
        Reference::id(local.id.clone()),
    );
    let undo = Undo::new(
        undo_iri("https://remote.example/activities/undo/1"),
        Reference::id(remote.id.clone()),
        Reference::object(follow),
    );

    let outcome = receive_undo_follow(&local, &remote, undo).expect("valid Undo");

    assert_eq!(outcome.follower, remote.id);
    assert_eq!(outcome.following, local.id);
}

#[test]
fn rejects_linked_follow_and_wrong_actor_or_object() {
    let local = undo_actor("https://local.example/users/alice");
    let remote = undo_actor("https://remote.example/users/bob");
    let other = undo_actor("https://remote.example/users/mallory");
    let linked = Undo::new(
        undo_iri("https://remote.example/activities/undo/1"),
        Reference::id(remote.id.clone()),
        Reference::id(undo_iri("https://remote.example/activities/follow/1")),
    );
    let wrong_actor = Undo::new(
        undo_iri("https://remote.example/activities/undo/2"),
        Reference::id(other.id),
        Reference::object(Follow::new(
            undo_iri("https://remote.example/activities/follow/2"),
            Reference::id(remote.id.clone()),
            Reference::id(local.id.clone()),
        )),
    );
    let wrong_object = Undo::new(
        undo_iri("https://remote.example/activities/undo/3"),
        Reference::id(remote.id.clone()),
        Reference::object(Follow::new(
            undo_iri("https://remote.example/activities/follow/3"),
            Reference::id(remote.id.clone()),
            Reference::id(undo_iri("https://local.example/users/mallory")),
        )),
    );

    assert_eq!(
        receive_undo_follow(&local, &remote, linked),
        Err(UndoFollowError::LinkedFollow)
    );
    assert_eq!(
        receive_undo_follow(&local, &remote, wrong_actor),
        Err(UndoFollowError::WrongActor)
    );
    assert_eq!(
        receive_undo_follow(&local, &remote, wrong_object),
        Err(UndoFollowError::WrongObject)
    );
}
