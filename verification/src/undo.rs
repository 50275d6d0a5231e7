//! Undo of a Follow.

use vstd::prelude::*;

use crate::follow::{actor_ref_id, reference_id};
use crate::iri::Iri;
use crate::vocab::{ActivityView, Actor, ActorView, Reference, ReferenceView, Undo};

verus! {

/// The transient result of undoing one valid Follow: a runtime passes
/// `follower` and `following` to its follower-removal capability.
#[derive(Debug, PartialEq, Eq)]
pub struct UndoFollowOutcome {
    pub follower: Iri,
    pub following: Iri,
}

/// Why an Undo of a Follow is refused.
#[derive(Clone, Copy, Debug, PartialEq, Eq)]
pub enum UndoFollowError {
    LinkedFollow,
    WrongActor,
    WrongObject,
}

impl UndoFollowError {
    /// A human-readable description of the error.
    pub fn message(&self) -> (text: &'static str)
        ensures
            text@ == match self {
                UndoFollowError::LinkedFollow => "Undo does not embed its Follow activity"@,
                UndoFollowError::WrongActor => "Undo actor does not own the embedded Follow"@,
                UndoFollowError::WrongObject => "undone Follow does not target local actor"@,
            },
    {
        match self {
            UndoFollowError::LinkedFollow => "Undo does not embed its Follow activity",
            UndoFollowError::WrongActor => "Undo actor does not own the embedded Follow",
            UndoFollowError::WrongObject => "undone Follow does not target local actor",
        }
    }
}

/// The verdict on `undo`, sent by `remote` to `local`: on success, the
/// identifiers of the follower to remove and of the followed actor.
pub open spec fn undo_follow_verdict(
    local: ActorView,
    remote: ActorView,
    undo: ActivityView<ActivityView<ActorView>>,
) -> Result<(Seq<char>, Seq<char>), UndoFollowError> {
    if actor_ref_id(undo.actor) != remote.id {
        Err(UndoFollowError::WrongActor)
    } else {
        match undo.object {
            ReferenceView::Id(_) => Err(UndoFollowError::LinkedFollow),
            ReferenceView::Object(follow) => if actor_ref_id(follow.actor) != remote.id {
                Err(UndoFollowError::WrongActor)
            } else if actor_ref_id(follow.object) != local.id {
                Err(UndoFollowError::WrongObject)
            } else {
                Ok((remote.id, local.id))
            },
        }
    }
}

/// Checks that `undo` withdraws a Follow that `remote_actor` sent to
/// `local_actor`; the Follow must be embedded.
pub fn receive_undo_follow(local_actor: &Actor, remote_actor: &Actor, undo: Undo) -> (verdict:
    Result<UndoFollowOutcome, UndoFollowError>)
    ensures
        match verdict {
            Ok(outcome) => undo_follow_verdict(local_actor@, remote_actor@, undo@) == Ok::<
                (Seq<char>, Seq<char>),
                UndoFollowError,
            >((outcome.follower@, outcome.following@)),
            Err(e) => undo_follow_verdict(local_actor@, remote_actor@, undo@) == Err::<
                (Seq<char>, Seq<char>),
                UndoFollowError,
            >(e),
        },
{
    if !reference_id(&undo.actor).same(&remote_actor.id) {
        return Err(UndoFollowError::WrongActor);
    }
    let follow = match undo.object {
        Reference::Object(follow) => follow,
        Reference::Id(_) => {
            return Err(UndoFollowError::LinkedFollow);
        },
    };
    if !reference_id(&follow.actor).same(&remote_actor.id) {
        return Err(UndoFollowError::WrongActor);
    }
    if !reference_id(&follow.object).same(&local_actor.id) {
        return Err(UndoFollowError::WrongObject);
    }
    Ok(UndoFollowOutcome { follower: remote_actor.id.clone(), following: local_actor.id.clone() })
}

/// An Undo from the follower that embeds a Follow which the local actor
/// accepted removes exactly the relationship that accepting it stored.
pub proof fn lemma_undo_removes_accepted_follow(
    local: ActorView,
    remote: ActorView,
    follow: ActivityView<ActorView>,
    accept_id: Seq<char>,
    undo_id: Seq<char>,
)
    requires
        crate::follow::follow_verdict(local, remote, follow, accept_id) is Ok,
    ensures
        ({
            let stored = crate::follow::follow_verdict(local, remote, follow, accept_id)->Ok_0;
            undo_follow_verdict(
                local,
                remote,
                crate::vocab::activity_view(
                    undo_id,
                    ReferenceView::Id(remote.id),
                    ReferenceView::Object(follow),
                ),
            ) == Ok::<(Seq<char>, Seq<char>), UndoFollowError>(
                (stored.follower.id, stored.following),
            )
        }),
{
}

} // verus!
