//! Follow, Accept and pending-follow protocol decisions.
//!
//! Nothing here is retained or stored: each function returns a transient
//! outcome that a runtime persists and delivers.

use vstd::prelude::*;

use crate::iri::Iri;
use crate::vocab::{activity_view, Accept, ActivityView, Actor, ActorView, Follow, Reference, ReferenceView};

verus! {

/// The IRI that an actor reference names.
pub open spec fn actor_ref_id(r: ReferenceView<ActorView>) -> Seq<char> {
    match r {
        ReferenceView::Id(id) => id,
        ReferenceView::Object(actor) => actor.id,
    }
}

/// The IRI that a Follow reference names.
pub open spec fn follow_ref_id(r: ReferenceView<ActivityView<ActorView>>) -> Seq<char> {
    match r {
        ReferenceView::Id(id) => id,
        ReferenceView::Object(follow) => follow.id,
    }
}

/// The IRI that an actor reference names.
pub fn reference_id(reference: &Reference<Actor>) -> (id: &Iri)
    ensures
        id@ == actor_ref_id(reference@),
{
    match reference {
        Reference::Id(id) => id,
        Reference::Object(actor) => &actor.id,
    }
}

/// The IRI that a Follow reference names.
pub fn follow_reference_id(reference: &Reference<Follow>) -> (id: &Iri)
    ensures
        id@ == follow_ref_id(reference@),
{
    match reference {
        Reference::Id(id) => id,
        Reference::Object(follow) => &follow.id,
    }
}

/// The transient result of accepting one valid Follow activity: a runtime
/// persists `follower` and `following`, then delivers `accept` to
/// `recipient_inbox`.
#[derive(Debug, PartialEq, Eq)]
pub struct FollowOutcome {
    pub follower: Actor,
    pub following: Iri,
    pub accept: Accept,
    pub recipient_inbox: Iri,
}

/// A pending outbound Follow relationship for application-owned storage.
#[derive(Debug, PartialEq, Eq)]
pub struct PendingFollow {
    pub local_actor: Iri,
    pub remote_actor: Actor,
    pub follow_activity: Iri,
}

/// The model of a [`PendingFollow`].
pub ghost struct PendingFollowView {
    pub local_actor: Seq<char>,
    pub remote_actor: ActorView,
    pub follow_activity: Seq<char>,
}

impl View for PendingFollow {
    type V = PendingFollowView;

    open spec fn view(&self) -> PendingFollowView {
        PendingFollowView {
            local_actor: self.local_actor@,
            remote_actor: self.remote_actor@,
            follow_activity: self.follow_activity@,
        }
    }
}

impl Clone for PendingFollow {
    fn clone(&self) -> (copy: Self)
        ensures
            copy@ == self@,
    {
        PendingFollow {
            local_actor: self.local_actor.clone(),
            remote_actor: self.remote_actor.clone(),
            follow_activity: self.follow_activity.clone(),
        }
    }
}

/// The transient result of creating one outbound Follow: a runtime persists
/// `relationship` before delivering `activity` to the remote actor.
#[derive(Debug, PartialEq, Eq)]
pub struct CreateFollowOutcome {
    pub relationship: PendingFollow,
    pub activity: Follow,
}

/// The Follow that `local` sends to `remote` under `follow_id`.
pub open spec fn outbound_follow(
    local: ActorView,
    remote: ActorView,
    follow_id: Seq<char>,
) -> ActivityView<ActorView> {
    activity_view(follow_id, ReferenceView::Id(local.id), ReferenceView::Id(remote.id))
}

/// The relationship that `local` records when it follows `remote`.
pub open spec fn pending_follow(
    local: ActorView,
    remote: ActorView,
    follow_id: Seq<char>,
) -> PendingFollowView {
    PendingFollowView { local_actor: local.id, remote_actor: remote, follow_activity: follow_id }
}

/// Creates an outbound Follow from `local_actor` to `remote_actor` and the
/// pending relationship that awaits its Accept.
pub fn create_follow(local_actor: &Actor, remote_actor: &Actor, follow_id: Iri) -> (outcome:
    CreateFollowOutcome)
    ensures
        outcome.relationship@ == pending_follow(local_actor@, remote_actor@, follow_id@),
        outcome.activity@ == outbound_follow(local_actor@, remote_actor@, follow_id@),
{
    CreateFollowOutcome {
        relationship: PendingFollow {
            local_actor: local_actor.id.clone(),
            remote_actor: remote_actor.clone(),
            follow_activity: follow_id.clone(),
        },
        activity: Follow::new(
            follow_id,
            Reference::id(local_actor.id.clone()),
            Reference::id(remote_actor.id.clone()),
        ),
    }
}

/// Why an Accept does not confirm a pending Follow.
#[derive(Clone, Copy, Debug, PartialEq, Eq)]
pub enum AcceptFollowError {
    WrongActor,
    WrongFollow,
    WrongFollowActor,
    WrongFollowObject,
    WrongLocalActor,
}

impl AcceptFollowError {
    /// A human-readable description of the error.
    pub fn message(&self) -> (text: &'static str)
        ensures
            text@ == match self {
                AcceptFollowError::WrongActor => "Accept actor does not match remote actor"@,
                AcceptFollowError::WrongFollow => "Accept does not reference pending Follow"@,
                AcceptFollowError::WrongFollowActor => "accepted Follow actor does not match local actor"@,
                AcceptFollowError::WrongFollowObject => "accepted Follow does not target remote actor"@,
                AcceptFollowError::WrongLocalActor => "pending Follow does not belong to local actor"@,
            },
    {
        match self {
            AcceptFollowError::WrongActor => "Accept actor does not match remote actor",
            AcceptFollowError::WrongFollow => "Accept does not reference pending Follow",
            AcceptFollowError::WrongFollowActor => "accepted Follow actor does not match local actor",
            AcceptFollowError::WrongFollowObject => "accepted Follow does not target remote actor",
            AcceptFollowError::WrongLocalActor => "pending Follow does not belong to local actor",
        }
    }
}

/// The verdict on an Accept received by `local` from `remote` for `pending`.
/// The checks run in this order and the first failing one is reported.
pub open spec fn accept_follow_verdict(
    local: ActorView,
    remote: ActorView,
    pending: PendingFollowView,
    accept: ActivityView<ActivityView<ActorView>>,
) -> Result<(), AcceptFollowError> {
    if pending.local_actor != local.id {
        Err(AcceptFollowError::WrongLocalActor)
    } else if pending.remote_actor.id != remote.id || actor_ref_id(accept.actor) != remote.id {
        Err(AcceptFollowError::WrongActor)
    } else if follow_ref_id(accept.object) != pending.follow_activity {
        Err(AcceptFollowError::WrongFollow)
    } else {
        match accept.object {
            ReferenceView::Object(follow) => if actor_ref_id(follow.actor) != local.id {
                Err(AcceptFollowError::WrongFollowActor)
            } else if actor_ref_id(follow.object) != remote.id {
                Err(AcceptFollowError::WrongFollowObject)
            } else {
                Ok(())
            },
            ReferenceView::Id(_) => Ok(()),
        }
    }
}

/// Checks that `accept`, received by `local_actor` from `remote_actor`,
/// confirms exactly the `pending` Follow.
pub fn receive_accept_follow(
    local_actor: &Actor,
    remote_actor: &Actor,
    pending: &PendingFollow,
    accept: Accept,
) -> (verdict: Result<(), AcceptFollowError>)
    ensures
        verdict == accept_follow_verdict(local_actor@, remote_actor@, pending@, accept@),
{
    if !pending.local_actor.same(&local_actor.id) {
        return Err(AcceptFollowError::WrongLocalActor);
    }
    if !pending.remote_actor.id.same(&remote_actor.id) || !reference_id(&accept.actor).same(
        &remote_actor.id,
    ) {
        return Err(AcceptFollowError::WrongActor);
    }
    if !follow_reference_id(&accept.object).same(&pending.follow_activity) {
        return Err(AcceptFollowError::WrongFollow);
    }
    if let Reference::Object(follow) = &accept.object {
        if !reference_id(&follow.actor).same(&local_actor.id) {
            return Err(AcceptFollowError::WrongFollowActor);
        }
        if !reference_id(&follow.object).same(&remote_actor.id) {
            return Err(AcceptFollowError::WrongFollowObject);
        }
    }
    Ok(())
}

/// Why an incoming Follow is refused.
#[derive(Clone, Copy, Debug, PartialEq, Eq)]
pub enum FollowError {
    WrongActor,
    WrongObject,
}

impl FollowError {
    /// A human-readable description of the error.
    pub fn message(&self) -> (text: &'static str)
        ensures
            text@ == match self {
                FollowError::WrongActor => "Follow actor does not match remote actor"@,
                FollowError::WrongObject => "Follow does not target the local actor"@,
            },
    {
        match self {
            FollowError::WrongActor => "Follow actor does not match remote actor",
            FollowError::WrongObject => "Follow does not target the local actor",
        }
    }
}

/// The model of a [`FollowOutcome`].
pub ghost struct FollowOutcomeView {
    pub follower: ActorView,
    pub following: Seq<char>,
    pub accept: ActivityView<ActivityView<ActorView>>,
    pub recipient_inbox: Seq<char>,
}

impl View for FollowOutcome {
    type V = FollowOutcomeView;

    open spec fn view(&self) -> FollowOutcomeView {
        FollowOutcomeView {
            follower: self.follower@,
            following: self.following@,
            accept: self.accept@,
            recipient_inbox: self.recipient_inbox@,
        }
    }
}

/// What `local` answers to `follow` from `remote`, with `accept_id` naming
/// the Accept: the Accept embeds the Follow with its actor replaced by the
/// verified remote actor.
pub open spec fn follow_verdict(
    local: ActorView,
    remote: ActorView,
    follow: ActivityView<ActorView>,
    accept_id: Seq<char>,
) -> Result<FollowOutcomeView, FollowError> {
    if actor_ref_id(follow.object) != local.id {
        Err(FollowError::WrongObject)
    } else if actor_ref_id(follow.actor) != remote.id {
        Err(FollowError::WrongActor)
    } else {
        Ok(
            FollowOutcomeView {
                follower: remote,
                following: local.id,
                accept: activity_view(
                    accept_id,
                    ReferenceView::Id(local.id),
                    ReferenceView::Object(
                        ActivityView { actor: ReferenceView::Object(remote), ..follow },
                    ),
                ),
                recipient_inbox: remote.inbox,
            },
        )
    }
}

/// Accepts `follow`, sent by `remote_actor` to `local_actor`, answering with
/// an Accept named `accept_id` that embeds the verified Follow.
pub fn receive_follow(
    local_actor: &Actor,
    remote_actor: &Actor,
    follow: Follow,
    accept_id: Iri,
) -> (verdict: Result<FollowOutcome, FollowError>)
    ensures
        match verdict {
            Ok(outcome) => follow_verdict(local_actor@, remote_actor@, follow@, accept_id@) == Ok::<
                FollowOutcomeView,
                FollowError,
            >(outcome@),
            Err(e) => follow_verdict(local_actor@, remote_actor@, follow@, accept_id@) == Err::<
                FollowOutcomeView,
                FollowError,
            >(e),
        },
{
    let mut follow = follow;
    if !reference_id(&follow.object).same(&local_actor.id) {
        return Err(FollowError::WrongObject);
    }
    if !reference_id(&follow.actor).same(&remote_actor.id) {
        return Err(FollowError::WrongActor);
    }
    follow.actor = Reference::object(remote_actor.clone());
    Ok(
        FollowOutcome {
            follower: remote_actor.clone(),
            following: local_actor.id.clone(),
            accept: Accept::new(
                accept_id,
                Reference::id(local_actor.id.clone()),
                Reference::object(follow),
            ),
            recipient_inbox: remote_actor.inbox.clone(),
        },
    )
}

/// A Follow that `create_follow` produces is accepted by the followed actor,
/// and the Accept it answers with confirms the follower's pending relationship.
///
/// `bob` follows `alice`; each side holds its own copy of the other actor,
/// with the same identifier.
pub proof fn lemma_follow_handshake(
    bob: ActorView,
    alice_seen_by_bob: ActorView,
    alice: ActorView,
    bob_seen_by_alice: ActorView,
    follow_id: Seq<char>,
    accept_id: Seq<char>,
)
    requires
        alice_seen_by_bob.id == alice.id,
        bob_seen_by_alice.id == bob.id,
    ensures
        follow_verdict(
            alice,
            bob_seen_by_alice,
            outbound_follow(bob, alice_seen_by_bob, follow_id),
            accept_id,
        ) is Ok,
        accept_follow_verdict(
            bob,
            alice_seen_by_bob,
            pending_follow(bob, alice_seen_by_bob, follow_id),
            follow_verdict(
                alice,
                bob_seen_by_alice,
                outbound_follow(bob, alice_seen_by_bob, follow_id),
                accept_id,
            )->Ok_0.accept,
        ) == Ok::<(), AcceptFollowError>(()),
{
}

/// An Accept that embeds a Follow is confirmed only when that Follow was sent
/// by the local actor to the remote actor under the pending identifier.
pub proof fn lemma_accepted_follow_matches_pending(
    local: ActorView,
    remote: ActorView,
    pending: PendingFollowView,
    accept: ActivityView<ActivityView<ActorView>>,
)
    requires
        accept_follow_verdict(local, remote, pending, accept) is Ok,
    ensures
        pending.local_actor == local.id,
        pending.remote_actor.id == remote.id,
        actor_ref_id(accept.actor) == remote.id,
        follow_ref_id(accept.object) == pending.follow_activity,
        accept.object matches ReferenceView::Object(follow) ==> actor_ref_id(follow.actor)
            == local.id && actor_ref_id(follow.object) == remote.id,
{
}

/// A Follow is accepted exactly when it names the local actor as its object
/// and the verified remote actor as its actor. The Accept then carries the
/// identifier it was given, comes from the local actor, and embeds the
/// Follow with its own identifier and object and the remote actor; the
/// relationship is the remote actor following the local one, and the Accept
/// goes to the remote actor's inbox.
pub proof fn lemma_follow_acceptance(
    local: ActorView,
    remote: ActorView,
    follow: ActivityView<ActorView>,
    accept_id: Seq<char>,
)
    ensures
        follow_verdict(local, remote, follow, accept_id) is Ok <==> (actor_ref_id(follow.object)
            == local.id && actor_ref_id(follow.actor) == remote.id),
        follow_verdict(local, remote, follow, accept_id) matches Ok(o) ==> {
            &&& o.accept.id == accept_id
            &&& o.accept.actor == ReferenceView::<ActorView>::Id(local.id)
            &&& o.accept.object matches ReferenceView::Object(f) && f.id == follow.id && f.object
                == follow.object && f.actor == ReferenceView::<ActorView>::Object(remote)
            &&& o.follower == remote
            &&& o.following == local.id
            &&& o.recipient_inbox == remote.inbox
        },
{
}

} // verus!
