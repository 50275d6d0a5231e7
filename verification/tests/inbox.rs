use feder::config::InboxAuthPolicy;
use feder::error::{inbox_failure_status, RuntimeError};
use feder::inbox::{
    accept_id_for_follow, follow_disposition, inbox_activity, inbox_preflight, signature_required,
    undo_disposition, FollowDisposition, InboxActivity, UndoDisposition,
};
use feder::iri::Iri;
use feder::outbound::SendError;
use feder::store::StoreError;
use feder::vocab::{Actor, Follow, Reference, Undo};

fn inbox_iri(value: &str) -> Iri {
    Iri::parse(value).expect("valid test IRI")
}

fn inbox_actor(id: &str) -> Actor {
    Actor::person(
        inbox_iri(id),
        inbox_iri(&format!("{id}/inbox")),
        inbox_iri(&format!("{id}/outbox")),
    )
}

#[test]
fn preflight_checks_user_and_content_type() {
    assert_eq!(inbox_preflight("bob", "alice", Some("application/activity+json")), Err(404));
    assert_eq!(inbox_preflight("alice", "alice", Some("text/html")), Err(415));
    assert_eq!(inbox_preflight("alice", "alice", None), Err(415));
    assert_eq!(inbox_preflight("alice", "alice", Some("application/activity+json")), Ok(()));
    assert_eq!(
        inbox_preflight(
            "alice",
            "alice",
            Some("application/ld+json; profile=\"https://www.w3.org/ns/activitystreams\"")
        ),
        Ok(())
    );
}

#[test]
fn signatures_are_required_unless_the_policy_allows_unsigned() {
    assert_eq!(signature_required(InboxAuthPolicy::RequireSigned, true), Ok(true));
    assert_eq!(signature_required(InboxAuthPolicy::RequireSigned, false), Err(401));
    assert_eq!(signature_required(InboxAuthPolicy::AllowUnsignedInsecureDev, false), Ok(false));
}

#[test]
fn activities_are_classified_by_type() {
    assert_eq!(inbox_activity(Some("Follow"), None), InboxActivity::Follow);
    assert_eq!(inbox_activity(Some("Undo"), Some("Follow")), InboxActivity::UndoFollow);
    assert_eq!(inbox_activity(Some("Undo"), Some("Like")), InboxActivity::Ignored);
    assert_eq!(inbox_activity(Some("Create"), None), InboxActivity::Ignored);
    assert_eq!(inbox_activity(None, None), InboxActivity::Ignored);
}

#[test]
fn follow_dispositions() {
    let local = inbox_actor("https://local.example/users/alice");
    let remote = inbox_actor("https://remote.example/users/bob");
    let other = inbox_actor("https://remote.example/users/mallory");
    let follow = Follow::new(
        inbox_iri("https://remote.example/activities/follow/1"),
        Reference::id(remote.id.clone()),
        Reference::id(local.id.clone()),
    );
    assert_eq!(follow_disposition(&follow, &local.id, Some(&remote)), FollowDisposition::Verified);
    assert_eq!(follow_disposition(&follow, &local.id, Some(&other)), FollowDisposition::Reject(401));
    assert_eq!(follow_disposition(&follow, &local.id, None), FollowDisposition::Resolve);
    assert_eq!(follow_disposition(&follow, &other.id, None), FollowDisposition::Ignore);
}

#[test]
fn undo_dispositions() {
    let local = inbox_actor("https://local.example/users/alice");
    let remote = inbox_actor("https://remote.example/users/bob");
    let other = inbox_actor("https://remote.example/users/mallory");
    let follow = Follow::new(
        inbox_iri("https://remote.example/activities/follow/1"),
        Reference::id(remote.id.clone()),
        Reference::id(local.id.clone()),
    );
    let undo = Undo::new(
        inbox_iri("https://remote.example/activities/undo/1"),
        Reference::id(remote.id.clone()),
        Reference::object(follow.clone()),
    );
    match undo_disposition(&undo, &local.id, Some(&remote)) {
        UndoDisposition::Remove(outcome) => {
            assert_eq!(outcome.follower, remote.id);
            assert_eq!(outcome.following, local.id);
        }
        other => panic!("unexpected {other:?}"),
    }
    assert_eq!(undo_disposition(&undo, &local.id, Some(&other)), UndoDisposition::Reject(401));
    assert_eq!(undo_disposition(&undo, &other.id, None), UndoDisposition::Ignore);
    let linked = Undo::new(
        inbox_iri("https://remote.example/activities/undo/2"),
        Reference::id(remote.id.clone()),
        Reference::id(follow.id.clone()),
    );
    assert_eq!(undo_disposition(&linked, &local.id, None), UndoDisposition::Ignore);
    let forged = Undo::new(
        inbox_iri("https://remote.example/activities/undo/3"),
        Reference::id(other.id.clone()),
        Reference::object(follow),
    );
    assert_eq!(undo_disposition(&forged, &local.id, None), UndoDisposition::Reject(401));
}

#[test]
fn accept_ids_percent_encode_the_follow() {
    let local = inbox_iri("https://local.example/users/alice");
    let follow = inbox_iri("https://remote.example/follows/1");
    let accept = accept_id_for_follow(&local, &follow).expect("accept id");
    assert_eq!(
        accept.as_str(),
        "https://local.example/users/alice#accepts/https%3A%2F%2Fremote%2Eexample%2Ffollows%2F1"
    );
}

#[test]
fn remote_failures_answer_bad_gateway() {
    let unsuccessful = RuntimeError::ActivitySender(SendError::UnsuccessfulStatus {
        inbox: "https://remote.example/inbox".to_string(),
        status: 500,
    });
    assert_eq!(inbox_failure_status(&unsuccessful), 502);
    let invalid = RuntimeError::ActivitySender(SendError::InvalidInbox("x".to_string()));
    assert_eq!(inbox_failure_status(&invalid), 500);
    let storage = RuntimeError::Storage(StoreError::UnsupportedObjectType);
    assert_eq!(inbox_failure_status(&storage), 500);
}
