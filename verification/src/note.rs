//! Local Note creation and its delivery recipients.

use vstd::prelude::*;

use crate::iri::Iri;
use crate::vocab::{
    view_opt, Actor, ActorView, Create, CreateView, Note, NoteView, Reference, ReferenceView,
    References, ACTIVITYSTREAMS_CONTEXT, PUBLIC_COLLECTION,
};

verus! {

/// The public collection's IRI.
pub fn public_collection() -> (iri: Iri)
    ensures
        iri@ == PUBLIC_COLLECTION@,
{
    Iri::known(PUBLIC_COLLECTION)
}

/// Runtime-provided facts for constructing one local Note and its Create
/// activity. Identifiers and timestamps are inputs, so nothing here depends
/// on clocks or randomness.
#[derive(Debug, PartialEq, Eq)]
pub struct CreateNoteInput {
    pub note_id: Iri,
    pub create_id: Iri,
    pub to: References<Iri>,
    pub cc: References<Iri>,
    pub content: String,
    pub media_type: Option<String>,
    pub published: Option<String>,
    pub url: Option<Iri>,
}

/// One delivery target of a local Note: the local actor's followers, or one
/// addressed actor.
#[derive(Debug, PartialEq, Eq)]
pub enum NoteRecipient {
    Followers(Iri),
    Actor(Iri),
}

/// The model of a [`NoteRecipient`].
pub enum NoteRecipientView {
    Followers(Seq<char>),
    Actor(Seq<char>),
}

impl View for NoteRecipient {
    type V = NoteRecipientView;

    open spec fn view(&self) -> NoteRecipientView {
        match self {
            NoteRecipient::Followers(i) => NoteRecipientView::Followers(i@),
            NoteRecipient::Actor(i) => NoteRecipientView::Actor(i@),
        }
    }
}

/// The transient result of constructing one local Note: a runtime persists
/// `note`, then delivers `activity` to `recipients`.
#[derive(Debug, PartialEq, Eq)]
pub struct CreateNoteOutcome {
    pub note: Note,
    pub activity: Create<Note>,
    pub recipients: Vec<NoteRecipient>,
}

/// The delivery target that one address of a local actor's Note stands for:
/// none for the public collection or the actor itself, the followers for the
/// actor's followers collection, and otherwise the addressed actor.
pub open spec fn recipient_of(address: Seq<char>, local: ActorView) -> Option<NoteRecipientView> {
    if address == PUBLIC_COLLECTION@ || address == local.id {
        None
    } else if local.followers == Some(address) {
        Some(NoteRecipientView::Followers(local.id))
    } else {
        Some(NoteRecipientView::Actor(address))
    }
}

/// The delivery targets of `addresses`, in order of first appearance and
/// without repetition.
pub open spec fn recipients_of(addresses: Seq<Seq<char>>, local: ActorView) -> Seq<
    NoteRecipientView,
>
    decreases addresses.len(),
{
    if addresses.len() == 0 {
        Seq::empty()
    } else {
        let before = recipients_of(addresses.drop_last(), local);
        match recipient_of(addresses.last(), local) {
            None => before,
            Some(r) => if before.contains(r) {
                before
            } else {
                before.push(r)
            },
        }
    }
}

/// The Note that `create_note` builds for `local` from `input`.
pub open spec fn created_note(local: ActorView, input: CreateNoteInput) -> NoteView {
    NoteView {
        context: Some(ACTIVITYSTREAMS_CONTEXT@),
        id: input.note_id@,
        attributed_to: Some(ReferenceView::Id(local.id)),
        to: input.to@,
        cc: input.cc@,
        content: Some(input.content@),
        media_type: view_opt(input.media_type),
        published: view_opt(input.published),
        url: view_opt(input.url),
    }
}

fn recipient_for(address: &Iri, local_actor: &Actor, public: &Iri) -> (r: Option<NoteRecipient>)
    requires
        public@ == PUBLIC_COLLECTION@,
    ensures
        view_opt(r) == recipient_of(address@, local_actor@),
{
    if address.same(public) || address.same(&local_actor.id) {
        return None;
    }
    match &local_actor.followers {
        Some(followers) => if followers.same(address) {
            return Some(NoteRecipient::Followers(local_actor.id.clone()));
        },
        None => {},
    }
    Some(NoteRecipient::Actor(address.clone()))
}

fn contains_recipient(recipients: &Vec<NoteRecipient>, r: &NoteRecipient) -> (found: bool)
    ensures
        found == recipients@.map_values(|x: NoteRecipient| x@).contains(r@),
{
    let n = recipients.len();
    for k in 0..n
        invariant
            n == recipients@.len(),
            forall|j: int| 0 <= j < k ==> #[trigger] recipients@[j]@ != r@,
    {
        let same = match (&recipients[k], r) {
            (NoteRecipient::Followers(a), NoteRecipient::Followers(b)) => a.same(b),
            (NoteRecipient::Actor(a), NoteRecipient::Actor(b)) => a.same(b),
            _ => false,
        };
        if same {
            assert(recipients@.map_values(|x: NoteRecipient| x@)[k as int] == r@);
            return true;
        }
    }
    proof {
        let m = recipients@.map_values(|x: NoteRecipient| x@);
        if m.contains(r@) {
            let j = choose|j: int| 0 <= j < m.len() && m[j] == r@;
            assert(recipients@[j]@ == r@);
        }
    }
    false
}

/// Adds the delivery targets of `addresses` to `recipients`.
fn add_recipients(
    recipients: &mut Vec<NoteRecipient>,
    addresses: &[Iri],
    local_actor: &Actor,
    public: &Iri,
    Ghost(prior): Ghost<Seq<Seq<char>>>,
)
    requires
        public@ == PUBLIC_COLLECTION@,
        old(recipients)@.map_values(|x: NoteRecipient| x@) == recipients_of(prior, local_actor@),
    ensures
        final(recipients)@.map_values(|x: NoteRecipient| x@) == recipients_of(
            prior + addresses@.map_values(|i: Iri| i@),
            local_actor@,
        ),
{
    let n = addresses.len();
    for k in 0..n
        invariant
            n == addresses@.len(),
            public@ == PUBLIC_COLLECTION@,
            recipients@.map_values(|x: NoteRecipient| x@) == recipients_of(
                prior + addresses@.map_values(|i: Iri| i@).take(k as int),
                local_actor@,
            ),
    {
        let ghost all = prior + addresses@.map_values(|i: Iri| i@).take(k + 1);
        assert(all.drop_last() =~= prior + addresses@.map_values(|i: Iri| i@).take(k as int));
        assert(all.last() == addresses@[k as int]@);
        let r = recipient_for(&addresses[k], local_actor, public);
        match r {
            Some(r) => {
                if !contains_recipient(recipients, &r) {
                    let ghost before = recipients@;
                    recipients.push(r);
                    assert(recipients@.map_values(|x: NoteRecipient| x@) =~= before.map_values(
                        |x: NoteRecipient| x@,
                    ).push(r@));
                }
            },
            None => {},
        }
    }
    assert(addresses@.map_values(|i: Iri| i@).take(n as int) =~= addresses@.map_values(
        |i: Iri| i@,
    ));
}

/// Constructs a local Note attributed to `local_actor`, its Create activity
/// with the same addressing, and the Note's delivery recipients.
pub fn create_note(local_actor: &Actor, input: CreateNoteInput) -> (outcome: CreateNoteOutcome)
    ensures
        outcome.note@ == created_note(local_actor@, input),
        outcome.activity@ == (CreateView {
            context: Some(ACTIVITYSTREAMS_CONTEXT@),
            id: input.create_id@,
            actor: ReferenceView::Id(local_actor.id@),
            object: ReferenceView::Object(created_note(local_actor@, input)),
            to: input.to@,
            cc: input.cc@,
        }),
        outcome.recipients@.map_values(|x: NoteRecipient| x@) == recipients_of(
            input.to@ + input.cc@,
            local_actor@,
        ),
{
    let public = public_collection();
    let mut recipients: Vec<NoteRecipient> = Vec::new();
    assert(recipients@.map_values(|x: NoteRecipient| x@) =~= recipients_of(
        Seq::empty(),
        local_actor@,
    ));
    proof {
        input.to.lemma_view_is_items_view();
        input.cc.lemma_view_is_items_view();
    }
    add_recipients(&mut recipients, input.to.as_slice(), local_actor, &public, Ghost(Seq::empty()));
    assert(Seq::<Seq<char>>::empty() + input.to.items().map_values(|i: Iri| i@) =~= input.to@);
    add_recipients(&mut recipients, input.cc.as_slice(), local_actor, &public, Ghost(input.to@));
    assert(input.to@ + input.cc.items().map_values(|i: Iri| i@) =~= input.to@ + input.cc@);

    let ghost expected = created_note(local_actor@, input);
    let actor = Reference::id(local_actor.id.clone());
    let mut note = Note::new(input.note_id);
    note.attributed_to = Some(actor.clone());
    note.to = input.to;
    note.cc = input.cc;
    note.content = Some(input.content);
    note.media_type = input.media_type;
    note.published = input.published;
    note.url = input.url;
    assert(note@ == expected);

    let to = note.to.clone();
    let cc = note.cc.clone();
    let mut activity = Create::new(input.create_id, actor, Reference::object(note.clone()));
    activity.to = to;
    activity.cc = cc;
    CreateNoteOutcome { note, activity, recipients }
}

/// Whether `note` is addressed to the public collection, in `to` or `cc`.
pub fn is_public_note(note: &Note) -> (public: bool)
    ensures
        public == (note.to@.contains(PUBLIC_COLLECTION@) || note.cc@.contains(PUBLIC_COLLECTION@)),
{
    let public_iri = public_collection();
    proof {
        note.to.lemma_view_is_items_view();
        note.cc.lemma_view_is_items_view();
    }
    let to = note.to.as_slice();
    let n = to.len();
    for k in 0..n
        invariant
            n == to@.len(),
            to@ == note.to.items(),
            public_iri@ == PUBLIC_COLLECTION@,
            forall|j: int| 0 <= j < k ==> #[trigger] note.to@[j] != PUBLIC_COLLECTION@,
    {
        proof {
            note.to.lemma_view_is_items_view();
        }
        if to[k].same(&public_iri) {
            assert(note.to@[k as int] == PUBLIC_COLLECTION@);
            return true;
        }
    }
    let cc = note.cc.as_slice();
    let m = cc.len();
    for k in 0..m
        invariant
            m == cc@.len(),
            cc@ == note.cc.items(),
            public_iri@ == PUBLIC_COLLECTION@,
            forall|j: int| 0 <= j < note.to@.len() ==> #[trigger] note.to@[j] != PUBLIC_COLLECTION@,
            forall|j: int| 0 <= j < k ==> #[trigger] note.cc@[j] != PUBLIC_COLLECTION@,
    {
        proof {
            note.cc.lemma_view_is_items_view();
        }
        if cc[k].same(&public_iri) {
            assert(note.cc@[k as int] == PUBLIC_COLLECTION@);
            return true;
        }
    }
    proof {
        note.to.lemma_view_is_items_view();
        note.cc.lemma_view_is_items_view();
    }
    false
}

/// The recipients of a Note never repeat.
pub proof fn lemma_recipients_distinct(addresses: Seq<Seq<char>>, local: ActorView)
    ensures
        recipients_of(addresses, local).no_duplicates(),
    decreases addresses.len(),
{
    if addresses.len() > 0 {
        lemma_recipients_distinct(addresses.drop_last(), local);
    }
}

/// Every recipient of a Note stands for one of its addresses, and never for
/// the public collection or the author itself.
pub proof fn lemma_recipients_sound(addresses: Seq<Seq<char>>, local: ActorView)
    ensures
        forall|k: int|
            0 <= k < recipients_of(addresses, local).len() ==> exists|j: int|
                0 <= j < addresses.len() && recipient_of(addresses[j], local) == Some(
                    #[trigger] recipients_of(addresses, local)[k],
                ),
        !recipients_of(addresses, local).contains(NoteRecipientView::Actor(PUBLIC_COLLECTION@)),
        !recipients_of(addresses, local).contains(NoteRecipientView::Actor(local.id)),
    decreases addresses.len(),
{
    if addresses.len() > 0 {
        let prior = addresses.drop_last();
        lemma_recipients_sound(prior, local);
        let before = recipients_of(prior, local);
        let all = recipients_of(addresses, local);
        assert forall|k: int| 0 <= k < all.len() implies exists|j: int|
            0 <= j < addresses.len() && recipient_of(addresses[j], local) == Some(
                #[trigger] all[k],
            ) by {
            if k < before.len() {
                let j = choose|j: int|
                    0 <= j < prior.len() && recipient_of(prior[j], local) == Some(before[k]);
                assert(addresses[j] == prior[j]);
            } else {
                assert(addresses[addresses.len() - 1] == addresses.last());
            }
        }
        if all.contains(NoteRecipientView::Actor(PUBLIC_COLLECTION@)) {
            let k = choose|k: int| 0 <= k < all.len() && all[k] == NoteRecipientView::Actor(
                PUBLIC_COLLECTION@,
            );
            if k < before.len() {
                assert(before.contains(before[k]));
            }
        }
        if all.contains(NoteRecipientView::Actor(local.id)) {
            let k = choose|k: int| 0 <= k < all.len() && all[k] == NoteRecipientView::Actor(
                local.id,
            );
            if k < before.len() {
                assert(before.contains(before[k]));
            }
        }
    }
}

/// Every address of a Note other than the public collection and the author
/// itself is delivered to: its recipient is among the Note's recipients.
pub proof fn lemma_recipients_complete(addresses: Seq<Seq<char>>, local: ActorView)
    ensures
        forall|j: int|
            0 <= j < addresses.len() && (#[trigger] recipient_of(addresses[j], local)) is Some
                ==> recipients_of(addresses, local).contains(
                recipient_of(addresses[j], local)->Some_0,
            ),
    decreases addresses.len(),
{
    if addresses.len() > 0 {
        let prior = addresses.drop_last();
        lemma_recipients_complete(prior, local);
        let before = recipients_of(prior, local);
        let all = recipients_of(addresses, local);
        assert forall|j: int|
            0 <= j < addresses.len() && (#[trigger] recipient_of(addresses[j], local)) is Some
                implies all.contains(recipient_of(addresses[j], local)->Some_0) by {
            let r = recipient_of(addresses[j], local)->Some_0;
            if j < prior.len() {
                assert(prior[j] == addresses[j]);
                assert(before.contains(r));
                let k = choose|k: int| 0 <= k < before.len() && before[k] == r;
                assert(all[k] == r);
            } else {
                assert(addresses[j] == addresses.last());
                if !before.contains(r) {
                    assert(all[all.len() - 1] == r);
                } else {
                    let k = choose|k: int| 0 <= k < before.len() && before[k] == r;
                    assert(all[k] == r);
                }
            }
        }
    }
}

/// The Note created from an input carries every fact of the input as given:
/// its identifier, audience, content, media type, publication time and URL;
/// it is attributed to the local actor by identifier.
pub proof fn lemma_created_note_keeps_input(local: ActorView, input: CreateNoteInput)
    ensures
        created_note(local, input).id == input.note_id@,
        created_note(local, input).attributed_to == Some(ReferenceView::<ActorView>::Id(local.id)),
        created_note(local, input).to == input.to@,
        created_note(local, input).cc == input.cc@,
        created_note(local, input).content == Some(input.content@),
        created_note(local, input).media_type == match input.media_type {
            Some(m) => Some(m@),
            None => None::<Seq<char>>,
        },
        created_note(local, input).published == match input.published {
            Some(p) => Some(p@),
            None => None::<Seq<char>>,
        },
        created_note(local, input).url == match input.url {
            Some(u) => Some(u@),
            None => None::<Seq<char>>,
        },
{
}

} // verus!
