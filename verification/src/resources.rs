//! The local resources a server publishes: WebFinger, the actor, its
//! followers collection and its Notes.

use vstd::prelude::*;

use crate::iri::{is_absolute_iri, Iri};
use crate::note::is_public_note;
use crate::outbound::ACTIVITY_JSON;
use crate::status::{BAD_REQUEST, INTERNAL_SERVER_ERROR, NOT_ACCEPTABLE, NOT_FOUND};
use crate::store::StoredFollower;
use crate::text::{chars_of, find, find_char, lemma_find_window, str_eq, string_of};
use crate::vocab::{
    context_with, Actor, ActorType, ActorView, ContextView, CryptographicKey, CryptographicKeyView,
    Note, OrderedCollection, OrderedCollectionView, Reference, ReferenceView,
    ACTIVITYSTREAMS_CONTEXT, PUBLIC_COLLECTION, SECURITY_CONTEXT,
};

verus! {

/// The IRI of an actor's followers collection: the actor's IRI followed by
/// `/followers`.
pub open spec fn followers_iri(actor_id: Seq<char>) -> Seq<char> {
    actor_id + "/followers"@
}

/// An IRI without its fragment: the text before the first `#`.
pub open spec fn without_fragment(iri: Seq<char>) -> Seq<char> {
    match find(iri, '#') {
        Some(i) => iri.take(i),
        None => iri,
    }
}

/// The identifier of an actor's signing key: the actor's IRI with the
/// fragment `main-key`.
pub open spec fn main_key_iri(actor_id: Seq<char>) -> Seq<char> {
    without_fragment(actor_id) + "#main-key"@
}

/// The followers collection IRI of the actor `actor_id`.
pub fn followers_iri_of(actor_id: &Iri) -> (iri: Iri)
    ensures
        iri@ == followers_iri(actor_id@),
{
    let mut text = actor_id.as_str().to_owned();
    text.append("/followers");
    // A slash and plain letters are allowed where the actor IRI ends, in its
    // path, query or fragment alike, so the result is an IRI too.
    Iri::known(text.as_str())
}

/// The identifier of the actor's signing key: the actor IRI with its
/// fragment set to `main-key`.
pub fn main_key_id(actor_id: &Iri) -> (iri: Iri)
    ensures
        iri@ == main_key_iri(actor_id@),
{
    let chars = chars_of(actor_id.as_str());
    let n = chars.len();
    let hash = find_char(chars.as_slice(), '#', 0, n);
    proof {
        lemma_find_window(chars@, '#', 0, n as int, match hash {
            Some(i) => Some(i as int),
            None => None::<int>,
        });
        assert(chars@.subrange(0, n as int) =~= chars@);
    }
    let end = match hash {
        Some(i) => i,
        None => n,
    };
    let mut text = string_of(chars.as_slice(), 0, end);
    assert(chars@.subrange(0, end as int) =~= without_fragment(actor_id@));
    text.append("#main-key");
    // The part before the fragment is an IRI, and `main-key` is a
    // valid fragment.
    Iri::known(text.as_str())
}

/// The local actor a runtime serves: a Person named by its user name, with
/// its followers collection and its public key published under
/// [`main_key_iri`].
pub fn local_actor(actor_id: Iri, inbox: Iri, outbox: Iri, username: &str, public_key_pem: &str) -> (actor: Actor)
    ensures
        actor@ == (ActorView {
            context: Some(
                context_with(
                    ContextView { single: true, iris: seq![ACTIVITYSTREAMS_CONTEXT@] },
                    SECURITY_CONTEXT@,
                ),
            ),
            followers: Some(followers_iri(actor_id@)),
            preferred_username: Some(username@),
            name: Some(username@),
            public_key: Some(
                ReferenceView::Object(
                    CryptographicKeyView {
                        id: main_key_iri(actor_id@),
                        owner: actor_id@,
                        public_key_pem: public_key_pem@,
                    },
                ),
            ),
            ..Actor::new_view(ActorType::Person, actor_id@, inbox@, outbox@)
        }),
{
    let followers = followers_iri_of(&actor_id);
    let key_id = main_key_id(&actor_id);
    let owner = actor_id.clone();
    let mut actor = Actor::person(actor_id, inbox, outbox);
    actor.followers = Some(followers);
    actor.preferred_username = Some(username.to_owned());
    actor.name = Some(username.to_owned());
    actor.set_public_key(
        Reference::object(CryptographicKey::new(key_id, owner, public_key_pem.to_owned())),
    );
    actor
}

/// Answers `404 Not Found` for any user but the local one.
pub fn check_local_user(username: &str, local_username: &str) -> (verdict: Result<(), u16>)
    ensures
        verdict == if username@ == local_username@ {
            Ok::<(), u16>(())
        } else {
            Err::<(), u16>(NOT_FOUND)
        },
{
    if str_eq(username, local_username) {
        Ok(())
    } else {
        Err(NOT_FOUND)
    }
}

/// The query of a WebFinger request.
#[derive(Debug, PartialEq, Eq)]
pub struct WebFingerQuery {
    pub resource: Option<String>,
}

/// A link of a WebFinger answer.
#[derive(Debug, PartialEq, Eq)]
pub struct WebFingerLink {
    pub rel: &'static str,
    pub media_type: &'static str,
    pub href: String,
}

/// A WebFinger answer.
#[derive(Debug, PartialEq, Eq)]
pub struct WebFingerResponse {
    pub subject: String,
    pub aliases: Vec<String>,
    pub links: Vec<WebFingerLink>,
}

/// The model of a [`WebFingerLink`]: relation, media type and target.
pub open spec fn link_view(link: WebFingerLink) -> (Seq<char>, Seq<char>, Seq<char>) {
    (link.rel@, link.media_type@, link.href@)
}

/// The account resource of the local user: `acct:` user `@` host.
pub open spec fn account_resource(username: Seq<char>, handle_host: Seq<char>) -> Seq<char> {
    "acct:"@ + username + "@"@ + handle_host
}

/// Answers a WebFinger query: `400 Bad Request` without a resource,
/// `404 Not Found` for any resource but the local account, and otherwise
/// the account with the actor as alias and `self` link.
pub fn webfinger_response(
    query: WebFingerQuery,
    username: &str,
    handle_host: &str,
    actor_id: &Iri,
) -> (answer: Result<WebFingerResponse, u16>)
    ensures
        match query.resource {
            None => answer == Err::<WebFingerResponse, u16>(BAD_REQUEST),
            Some(r) => if r@ != account_resource(username@, handle_host@) {
                answer == Err::<WebFingerResponse, u16>(NOT_FOUND)
            } else {
                answer matches Ok(w) && w.subject@ == r@ && w.aliases@.len() == 1
                    && w.aliases@[0]@ == actor_id@ && w.links@.len() == 1 && link_view(w.links@[0])
                    == ("self"@, ACTIVITY_JSON@, actor_id@)
            },
        },
{
    let resource = match query.resource {
        Some(r) => r,
        None => {
            return Err(BAD_REQUEST);
        },
    };
    let mut expected = "acct:".to_owned();
    expected.append(username);
    expected.append("@");
    expected.append(handle_host);
    if !str_eq(resource.as_str(), expected.as_str()) {
        return Err(NOT_FOUND);
    }
    let actor_text = actor_id.as_str().to_owned();
    let aliases = vec![actor_text.clone()];
    let links = vec![WebFingerLink { rel: "self", media_type: ACTIVITY_JSON, href: actor_text }];
    Ok(WebFingerResponse { subject: resource, aliases, links })
}

/// Answers a request for a local user's ActivityPub resource (the actor or
/// its followers collection) before it is built: `404 Not Found` for any
/// user but the local one, then `406 Not Acceptable` unless the client
/// accepts ActivityPub.
pub fn resource_preflight(username: &str, local_username: &str, accepts_activitypub: bool) -> (verdict:
    Result<(), u16>)
    ensures
        verdict == if username@ != local_username@ {
            Err::<(), u16>(NOT_FOUND)
        } else if !accepts_activitypub {
            Err::<(), u16>(NOT_ACCEPTABLE)
        } else {
            Ok::<(), u16>(())
        },
{
    check_local_user(username, local_username)?;
    if !accepts_activitypub {
        return Err(NOT_ACCEPTABLE);
    }
    Ok(())
}

/// The followers collection of the local actor: every stored follower, in
/// the store's order, counted; without a followers IRI the actor cannot
/// publish one.
pub fn followers_collection(collection_id: Option<&Iri>, followers: Vec<StoredFollower>) -> (collection:
    Result<OrderedCollection<Iri>, u16>)
    ensures
        match collection_id {
            None => collection == Err::<OrderedCollection<Iri>, u16>(INTERNAL_SERVER_ERROR),
            Some(id) => collection matches Ok(c) && c@ == (OrderedCollectionView {
                context: Some(ACTIVITYSTREAMS_CONTEXT@),
                id: id@,
                total_items: followers@.len() as u64,
                ordered_items: followers@.map_values(|f: StoredFollower| f.follower@),
            }),
        },
{
    let id = match collection_id {
        Some(id) => id.clone(),
        None => {
            return Err(INTERNAL_SERVER_ERROR);
        },
    };
    let n = followers.len();
    let mut items: Vec<Iri> = Vec::new();
    for k in 0..n
        invariant
            n == followers@.len(),
            items@.len() == k,
            forall|j: int| 0 <= j < k ==> #[trigger] items@[j]@ == followers@[j].follower@,
    {
        items.push(followers[k].follower.clone());
    }
    let total = n as u64;
    let collection = OrderedCollection::new(id, total, items);
    assert(items@.map_values(|t: Iri| t@) =~= followers@.map_values(|f: StoredFollower| f.follower@));
    Ok(collection)
}

/// The serialization `url` gives the URL text `text`, if it parses.
pub uninterp spec fn url_serialization(text: Seq<char>) -> Option<Seq<char>>;

/// The serialization of the URL `url` after `set_query(None)`.
pub uninterp spec fn url_query_cleared(url: Seq<char>) -> Option<Seq<char>>;

/// The serialization of the URL `url` after `set_fragment(None)`.
pub uninterp spec fn url_fragment_cleared(url: Seq<char>) -> Option<Seq<char>>;

/// The serialization of the URL `url` after `pop_if_empty` on its path
/// segments; none when the URL cannot be a base.
pub uninterp spec fn url_empty_segment_popped(url: Seq<char>) -> Option<Seq<char>>;

/// The serialization of the URL `url` after `push(segment)` on its path
/// segments; none when the URL cannot be a base.
pub uninterp spec fn url_segment_pushed(url: Seq<char>, segment: Seq<char>) -> Option<Seq<char>>;

/// Parses `text` as a URL and serializes it.
///
/// Trusted: `Url::parse` and `Url::as_str`; the result depends on the text
/// alone.
#[verifier::external_body]
fn serialize_url(text: &str) -> (url: Option<String>)
    ensures
        url matches Some(u) ==> url_serialization(text@) == Some(u@),
        url is None ==> url_serialization(text@) is None,
{
    Some(url::Url::parse(text).ok()?.as_str().to_owned())
}

/// Removes the query of the URL `url`.
///
/// Trusted: `Url::parse`, then `set_query(None)`, then `as_str`; the result
/// depends on the text alone.
#[verifier::external_body]
fn clear_url_query(url: &str) -> (cleared: Option<String>)
    ensures
        cleared matches Some(u) ==> url_query_cleared(url@) == Some(u@),
        cleared is None ==> url_query_cleared(url@) is None,
{
    let mut parsed = url::Url::parse(url).ok()?;
    parsed.set_query(None);
    Some(parsed.as_str().to_owned())
}

/// Removes the fragment of the URL `url`.
///
/// Trusted: `Url::parse`, then `set_fragment(None)`, then `as_str`; the
/// result depends on the text alone.
#[verifier::external_body]
fn clear_url_fragment(url: &str) -> (cleared: Option<String>)
    ensures
        cleared matches Some(u) ==> url_fragment_cleared(url@) == Some(u@),
        cleared is None ==> url_fragment_cleared(url@) is None,
{
    let mut parsed = url::Url::parse(url).ok()?;
    parsed.set_fragment(None);
    Some(parsed.as_str().to_owned())
}

/// Drops a trailing empty path segment of the URL `url`.
///
/// Trusted: `Url::parse`, then `path_segments_mut` (which fails for a URL
/// that cannot be a base) and `pop_if_empty`, then `as_str`; the result
/// depends on the text alone.
#[verifier::external_body]
fn pop_empty_url_segment(url: &str) -> (popped: Option<String>)
    ensures
        popped matches Some(u) ==> url_empty_segment_popped(url@) == Some(u@),
        popped is None ==> url_empty_segment_popped(url@) is None,
{
    let mut parsed = url::Url::parse(url).ok()?;
    parsed.path_segments_mut().ok()?.pop_if_empty();
    Some(parsed.as_str().to_owned())
}

/// Appends the path segment `segment`, percent-encoded, to the URL `url`.
///
/// Trusted: `Url::parse`, then `path_segments_mut` (which fails for a URL
/// that cannot be a base) and `push(segment)`, then `as_str`; the result
/// depends on the two texts alone.
#[verifier::external_body]
fn push_url_segment(url: &str, segment: &str) -> (pushed: Option<String>)
    ensures
        pushed matches Some(u) ==> url_segment_pushed(url@, segment@) == Some(u@),
        pushed is None ==> url_segment_pushed(url@, segment@) is None,
{
    let mut parsed = url::Url::parse(url).ok()?;
    parsed.path_segments_mut().ok()?.push(segment);
    Some(parsed.as_str().to_owned())
}

/// Chains an optional URL through a step.
pub open spec fn then_url(url: Option<Seq<char>>, step: spec_fn(Seq<char>) -> Option<Seq<char>>) -> Option<Seq<char>> {
    match url {
        Some(u) => step(u),
        None => None,
    }
}

/// The URL of a post under the actor's URL: the actor's URL without query
/// and fragment, a trailing empty path segment dropped, then the segments
/// `posts` and the post identifier; none where a step fails.
pub open spec fn post_url(actor_id: Seq<char>, post_id: Seq<char>) -> Option<Seq<char>> {
    let parsed = url_serialization(actor_id);
    let no_query = then_url(parsed, |u: Seq<char>| url_query_cleared(u));
    let bare = then_url(no_query, |u: Seq<char>| url_fragment_cleared(u));
    let popped = then_url(bare, |u: Seq<char>| url_empty_segment_popped(u));
    let posts = then_url(popped, |u: Seq<char>| url_segment_pushed(u, "posts"@));
    then_url(posts, |u: Seq<char>| url_segment_pushed(u, post_id))
}

/// Builds the URL of a post under the actor's URL, step by step as
/// [`post_url`] says.
fn post_url_of(actor_id: &str, post_id: &str) -> (url: Option<String>)
    ensures
        match post_url(actor_id@, post_id@) {
            Some(u) => url matches Some(s) && s@ == u,
            None => url is None,
        },
{
    let parsed = serialize_url(actor_id)?;
    let no_query = clear_url_query(parsed.as_str())?;
    let bare = clear_url_fragment(no_query.as_str())?;
    let popped = pop_empty_url_segment(bare.as_str())?;
    let posts = push_url_segment(popped.as_str(), "posts")?;
    push_url_segment(posts.as_str(), post_id)
}

/// The identifier of a local post: the actor's URL with the path segments
/// `posts` and the post identifier; anything that does not give an IRI is a
/// server error.
pub fn note_id(actor_id: &Iri, post_id: &str) -> (id: Result<Iri, u16>)
    ensures
        match post_url(actor_id@, post_id@) {
            Some(u) => if is_absolute_iri(u) {
                id matches Ok(i) && i@ == u
            } else {
                id == Err::<Iri, u16>(INTERNAL_SERVER_ERROR)
            },
            None => id == Err::<Iri, u16>(INTERNAL_SERVER_ERROR),
        },
{
    match post_url_of(actor_id.as_str(), post_id) {
        Some(u) => match Iri::parse(u.as_str()) {
            Some(i) => Ok(i),
            None => Err(INTERNAL_SERVER_ERROR),
        },
        None => Err(INTERNAL_SERVER_ERROR),
    }
}

/// Serves a stored Note only when it is public, addressed to the public
/// collection in `to` or `cc`: any other Note is `404 Not Found`.
pub fn visible_note(note: Note) -> (served: Result<Note, u16>)
    ensures
        if note.to@.contains(PUBLIC_COLLECTION@) || note.cc@.contains(PUBLIC_COLLECTION@) {
            served matches Ok(n) && n@ == note@
        } else {
            served == Err::<Note, u16>(NOT_FOUND)
        },
{
    if is_public_note(&note) {
        Ok(note)
    } else {
        Err(NOT_FOUND)
    }
}

} // verus!
