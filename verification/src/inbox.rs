//! Inbox decisions: which requests reach the protocol core and what an
//! incoming Follow or Undo becomes.
//!
//! A runtime reads the request, resolves remote actors and keys, and hands
//! the results to these functions; each returns either a status code to
//! answer with or what to do next.

use vstd::prelude::*;

use crate::config::InboxAuthPolicy;
use crate::follow::{actor_ref_id, reference_id};
use crate::iri::{is_absolute_iri, Iri};
use crate::negotiation::{activitypub_body_types, is_activitypub_body_type, mime_parse};
use crate::status::{INTERNAL_SERVER_ERROR, NOT_FOUND, UNAUTHORIZED, UNSUPPORTED_MEDIA_TYPE};
use crate::text::str_eq;
use crate::undo::UndoFollowOutcome;
use crate::vocab::{Actor, ActorView, Follow, Reference, ReferenceView, Undo};

verus! {

/// The verdict on an inbox request before its body is read: the inbox must
/// belong to the local user and the body must be an ActivityPub activity.
pub open spec fn preflight_verdict(
    username: Seq<char>,
    local_username: Seq<char>,
    content_type: Option<Seq<char>>,
) -> Result<(), u16> {
    if username != local_username {
        Err(NOT_FOUND)
    } else if !(content_type matches Some(t) && mime_parse(t) matches Some((essence, _))
        && activitypub_body_types().contains(essence)) {
        Err(UNSUPPORTED_MEDIA_TYPE)
    } else {
        Ok(())
    }
}

/// Checks an inbox request before its body is read.
pub fn inbox_preflight(username: &str, local_username: &str, content_type: Option<&str>) -> (verdict:
    Result<(), u16>)
    ensures
        verdict == preflight_verdict(
            username@,
            local_username@,
            match content_type {
                Some(t) => Some(t@),
                None => None,
            },
        ),
{
    if !str_eq(username, local_username) {
        return Err(NOT_FOUND);
    }
    if !is_activitypub_body_type(content_type) {
        return Err(UNSUPPORTED_MEDIA_TYPE);
    }
    Ok(())
}

/// Whether a request's signature must be verified before its activity is
/// handled: under `RequireSigned` it must, and an activity without an actor
/// is then refused.
pub fn signature_required(policy: InboxAuthPolicy, has_activity_actor: bool) -> (required: Result<
    bool,
    u16,
>)
    ensures
        required == match policy {
            InboxAuthPolicy::AllowUnsignedInsecureDev => Ok::<bool, u16>(false),
            InboxAuthPolicy::RequireSigned => if has_activity_actor {
                Ok::<bool, u16>(true)
            } else {
                Err::<bool, u16>(UNAUTHORIZED)
            },
        },
{
    match policy {
        InboxAuthPolicy::AllowUnsignedInsecureDev => Ok(false),
        InboxAuthPolicy::RequireSigned => if has_activity_actor {
            Ok(true)
        } else {
            Err(UNAUTHORIZED)
        },
    }
}

/// The kinds of activity an inbox handles.
#[derive(Clone, Copy, Debug, PartialEq, Eq, Structural)]
pub enum InboxActivity {
    /// A Follow.
    Follow,
    /// An Undo whose object is a Follow.
    UndoFollow,
    /// Anything else: acknowledged and ignored.
    Ignored,
}

/// Which kind of activity a body holds, by its `type` and its object's
/// `type`.
pub open spec fn inbox_activity_spec(
    activity_type: Option<Seq<char>>,
    object_type: Option<Seq<char>>,
) -> InboxActivity {
    if activity_type == Some("Follow"@) {
        InboxActivity::Follow
    } else if activity_type == Some("Undo"@) && object_type == Some("Follow"@) {
        InboxActivity::UndoFollow
    } else {
        InboxActivity::Ignored
    }
}

/// Classifies an incoming activity by its `type` and its object's `type`.
pub fn inbox_activity(activity_type: Option<&str>, object_type: Option<&str>) -> (kind:
    InboxActivity)
    ensures
        kind == inbox_activity_spec(
            match activity_type {
                Some(t) => Some(t@),
                None => None,
            },
            match object_type {
                Some(t) => Some(t@),
                None => None,
            },
        ),
{
    match activity_type {
        Some(t) => if str_eq(t, "Follow") {
            InboxActivity::Follow
        } else if str_eq(t, "Undo") {
            match object_type {
                Some(o) => if str_eq(o, "Follow") {
                    InboxActivity::UndoFollow
                } else {
                    InboxActivity::Ignored
                },
                None => InboxActivity::Ignored,
            }
        } else {
            InboxActivity::Ignored
        },
        None => InboxActivity::Ignored,
    }
}

/// What an inbox does with an incoming Follow.
#[derive(Debug, PartialEq, Eq)]
pub enum FollowDisposition {
    /// The Follow targets someone else: acknowledge it and do nothing.
    Ignore,
    /// Answer with this status code.
    Reject(u16),
    /// The Follow's actor is the verified signer; handle it as is.
    Verified,
    /// No signature was checked; the Follow's actor must be resolved first.
    Resolve,
}

/// What an inbox does with `follow` addressed to `local_id`, given the actor
/// whose signature was verified, if any.
pub open spec fn follow_disposition_spec(
    follow: crate::vocab::ActivityView<ActorView>,
    local_id: Seq<char>,
    verified: Option<ActorView>,
) -> FollowDisposition {
    if actor_ref_id(follow.object) != local_id {
        FollowDisposition::Ignore
    } else {
        match verified {
            Some(actor) => if actor_ref_id(follow.actor) != actor.id {
                FollowDisposition::Reject(UNAUTHORIZED)
            } else {
                FollowDisposition::Verified
            },
            None => FollowDisposition::Resolve,
        }
    }
}

/// Decides what an inbox does with an incoming Follow.
pub fn follow_disposition(follow: &Follow, local_id: &Iri, verified: Option<&Actor>) -> (disposition:
    FollowDisposition)
    ensures
        disposition == follow_disposition_spec(
            follow@,
            local_id@,
            match verified {
                Some(a) => Some(a@),
                None => None,
            },
        ),
{
    if !reference_id(&follow.object).same(local_id) {
        return FollowDisposition::Ignore;
    }
    match verified {
        Some(actor) => if !reference_id(&follow.actor).same(&actor.id) {
            FollowDisposition::Reject(UNAUTHORIZED)
        } else {
            FollowDisposition::Verified
        },
        None => FollowDisposition::Resolve,
    }
}

/// What an inbox does with an incoming Undo of a Follow.
#[derive(Debug, PartialEq, Eq)]
pub enum UndoDisposition {
    /// Acknowledge the Undo and do nothing.
    Ignore,
    /// Answer with this status code.
    Reject(u16),
    /// Remove this follower relationship.
    Remove(UndoFollowOutcome),
}

/// What an inbox does with `undo` addressed to `local_id`, given the actor
/// whose signature was verified, if any: a linked Follow is ignored, the
/// Undo's actor must be the Follow's actor and the verified signer, and a
/// Follow of someone else is ignored.
pub open spec fn undo_disposition_spec(
    undo: crate::vocab::ActivityView<crate::vocab::ActivityView<ActorView>>,
    local_id: Seq<char>,
    verified: Option<ActorView>,
) -> Option<Result<Option<(Seq<char>, Seq<char>)>, u16>> {
    match undo.object {
        ReferenceView::Id(_) => Some(Ok(None)),
        ReferenceView::Object(follow) => if actor_ref_id(undo.actor) != actor_ref_id(
            follow.actor,
        ) {
            Some(Err(UNAUTHORIZED))
        } else if verified matches Some(actor) && actor_ref_id(undo.actor) != actor.id {
            Some(Err(UNAUTHORIZED))
        } else if actor_ref_id(follow.object) != local_id {
            Some(Ok(None))
        } else {
            Some(Ok(Some((actor_ref_id(undo.actor), local_id))))
        },
    }
}

/// Decides what an inbox does with an incoming Undo of a Follow.
pub fn undo_disposition(undo: &Undo, local_id: &Iri, verified: Option<&Actor>) -> (disposition:
    UndoDisposition)
    ensures
        match undo_disposition_spec(
            undo@,
            local_id@,
            match verified {
                Some(a) => Some(a@),
                None => None,
            },
        ) {
            Some(Ok(None)) => disposition == UndoDisposition::Ignore,
            Some(Err(code)) => disposition == UndoDisposition::Reject(code),
            Some(Ok(Some((follower, following)))) => disposition matches UndoDisposition::Remove(o)
                && o.follower@ == follower && o.following@ == following,
            None => false,
        },
{
    let follow = match &undo.object {
        Reference::Object(follow) => follow,
        Reference::Id(_) => {
            return UndoDisposition::Ignore;
        },
    };
    let undo_actor_id = reference_id(&undo.actor);
    if !undo_actor_id.same(reference_id(&follow.actor)) {
        return UndoDisposition::Reject(UNAUTHORIZED);
    }
    match verified {
        Some(actor) => if !undo_actor_id.same(&actor.id) {
            return UndoDisposition::Reject(UNAUTHORIZED);
        },
        None => {},
    }
    if !reference_id(&follow.object).same(local_id) {
        return UndoDisposition::Ignore;
    }
    UndoDisposition::Remove(
        UndoFollowOutcome { follower: undo_actor_id.clone(), following: local_id.clone() },
    )
}

/// Whether `b` is an ASCII letter or digit.
pub open spec fn is_ascii_alphanumeric(b: u8) -> bool {
    (0x30 <= b <= 0x39) || (0x41 <= b <= 0x5a) || (0x61 <= b <= 0x7a)
}

/// An uppercase hexadecimal digit.
pub open spec fn hex_digit(v: u8) -> char {
    if v < 10 {
        ((v as u32) + 0x30) as char
    } else {
        ((v as u32) + 0x37) as char
    }
}

/// `bytes` percent-encoded with every byte but ASCII letters and digits
/// written as `%` and two uppercase hexadecimal digits.
pub open spec fn percent_encoded(bytes: Seq<u8>) -> Seq<char>
    decreases bytes.len(),
{
    if bytes.len() == 0 {
        Seq::empty()
    } else {
        let b = bytes.last();
        percent_encoded(bytes.drop_last()) + if is_ascii_alphanumeric(b) {
            seq![b as char]
        } else {
            seq!['%', hex_digit(b / 16), hex_digit(b % 16)]
        }
    }
}

/// Percent-encodes the UTF-8 bytes of `text` with the `NON_ALPHANUMERIC` set.
///
/// Trusted: `utf8_percent_encode(text, NON_ALPHANUMERIC)` writes ASCII
/// letters and digits as themselves and every other byte as `%XX` with
/// uppercase hexadecimal digits.
#[verifier::external_body]
fn percent_encode_non_alphanumeric(text: &str) -> (encoded: String)
    ensures
        encoded@ == percent_encoded(vstd::utf8::encode_utf8(text@)),
{
    percent_encoding::utf8_percent_encode(text, percent_encoding::NON_ALPHANUMERIC).to_string()
}

/// The identifier of the Accept that answers a Follow: the local actor's
/// identifier with the fragment `accepts/` and the percent-encoded Follow
/// identifier.
pub open spec fn accept_id_text(local_actor_id: Seq<char>, follow_id: Seq<char>) -> Seq<char> {
    local_actor_id + "#accepts/"@ + percent_encoded(vstd::utf8::encode_utf8(follow_id))
}

/// Names the Accept that answers a Follow; an identifier that is not an IRI
/// is a server error.
pub fn accept_id_for_follow(local_actor_id: &Iri, follow_id: &Iri) -> (accept_id: Result<Iri, u16>)
    ensures
        is_absolute_iri(accept_id_text(local_actor_id@, follow_id@)) ==> (accept_id matches Ok(i)
            && i@ == accept_id_text(local_actor_id@, follow_id@)),
        !is_absolute_iri(accept_id_text(local_actor_id@, follow_id@)) ==> accept_id == Err::<
            Iri,
            u16,
        >(INTERNAL_SERVER_ERROR),
{
    let encoded = percent_encode_non_alphanumeric(follow_id.as_str());
    let mut text = local_actor_id.as_str().to_owned();
    text.append("#accepts/");
    text.append(encoded.as_str());
    match Iri::parse(text.as_str()) {
        Some(i) => Ok(i),
        None => Err(INTERNAL_SERVER_ERROR),
    }
}

} // verus!
