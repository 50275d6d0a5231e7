//! Minimal Activity Vocabulary types.
//!
//! These types model ActivityPub/ActivityStreams protocol data only. They do
//! not fetch remote objects, read or write storage, or deliver activities.
//! Each type has a view into a mathematical model of the same shape, with
//! IRIs and strings seen as character sequences; contracts are stated over
//! those views.

use vstd::prelude::*;

use crate::iri::Iri;

verus! {

/// The canonical Activity Streams JSON-LD context URL.
pub const ACTIVITYSTREAMS_CONTEXT: &'static str = "https://www.w3.org/ns/activitystreams";

/// The JSON-LD context for the security vocabulary used by actor public keys.
pub const SECURITY_CONTEXT: &'static str = "https://w3id.org/security/v1";

/// The special collection that addresses everyone.
pub const PUBLIC_COLLECTION: &'static str = "https://www.w3.org/ns/activitystreams#Public";

/// The view of an optional value.
pub open spec fn view_opt<T: View>(o: Option<T>) -> Option<T::V> {
    match o {
        Some(t) => Some(t@),
        None => None,
    }
}

/// Clones an optional IRI.
pub fn clone_opt_iri(o: &Option<Iri>) -> (copy: Option<Iri>)
    ensures
        view_opt(copy) == view_opt(*o),
{
    match o {
        Some(i) => Some(i.clone()),
        None => None,
    }
}

/// Clones an optional string.
pub fn clone_opt_string(o: &Option<String>) -> (copy: Option<String>)
    ensures
        view_opt(copy) == view_opt(*o),
{
    match o {
        Some(s) => Some(s.clone()),
        None => None,
    }
}

/// The model of a [`Reference`].
pub enum ReferenceView<V> {
    Id(Seq<char>),
    Object(V),
}

/// A non-scalar ActivityStreams property value: either an embedded object or
/// the object's IRI. Both forms stay explicit; nothing is dereferenced.
#[derive(Debug, PartialEq, Eq)]
pub enum Reference<T> {
    Id(Iri),
    Object(Box<T>),
}

impl<T: View> View for Reference<T> {
    type V = ReferenceView<T::V>;

    open spec fn view(&self) -> ReferenceView<T::V> {
        match self {
            Reference::Id(id) => ReferenceView::Id(id@),
            Reference::Object(object) => ReferenceView::Object((**object)@),
        }
    }
}

impl<T: View> Reference<T> {
    pub fn id(id: Iri) -> (r: Self)
        ensures
            r@ == ReferenceView::<T::V>::Id(id@),
    {
        Reference::Id(id)
    }

    pub fn object(object: T) -> (r: Self)
        ensures
            r@ == ReferenceView::<T::V>::Object(object@),
    {
        Reference::Object(Box::new(object))
    }
}

/// The model of [`References`]: the values in order.
impl<T: View> View for References<T> {
    type V = Seq<T::V>;

    closed spec fn view(&self) -> Seq<T::V> {
        self.values@.map_values(|t: T| t@)
    }
}

/// Zero or more ActivityStreams property values.
///
/// Empty values serialize as absent, one value as a scalar, and several
/// values as an array.
#[derive(Debug, PartialEq, Eq)]
pub struct References<T> {
    values: Vec<T>,
}

impl<T: View> References<T> {
    /// The values themselves, in order.
    pub closed spec fn items(&self) -> Seq<T> {
        self.values@
    }

    pub proof fn lemma_view_is_items_view(&self)
        ensures
            self@.len() == self.items().len(),
            forall|i: int| 0 <= i < self@.len() ==> #[trigger] self@[i] == self.items()[i]@,
    {
    }

    pub fn new() -> (r: Self)
        ensures
            r.items() == Seq::<T>::empty(),
            r@ == Seq::<T::V>::empty(),
    {
        let r = References { values: Vec::new() };
        assert(r@ =~= Seq::<T::V>::empty());
        r
    }

    pub fn one(value: T) -> (r: Self)
        ensures
            r.items() == seq![value],
            r@ == seq![value@],
    {
        let mut values = Vec::new();
        values.push(value);
        let r = References { values };
        assert(r@ =~= seq![value@]);
        r
    }

    pub fn many(values: Vec<T>) -> (r: Self)
        ensures
            r.items() == values@,
            r@ == values@.map_values(|t: T| t@),
    {
        References { values }
    }

    pub fn is_empty(&self) -> (empty: bool)
        ensures
            empty == (self@.len() == 0),
    {
        self.values.len() == 0
    }

    pub fn len(&self) -> (n: usize)
        ensures
            n == self@.len(),
    {
        self.values.len()
    }

    /// The values as a slice, in order.
    pub fn as_slice(&self) -> (values: &[T])
        ensures
            values@ == self.items(),
    {
        self.values.as_slice()
    }

    /// An iterator over the values, in order.
    pub fn iter(&self) -> (it: std::slice::Iter<'_, T>)
        ensures
            vstd::std_specs::slice::into_iter_elts(it) == self.items(),
    {
        let it = self.values.as_slice().iter();
        proof {
            broadcast use vstd::std_specs::slice::axiom_spec_slice_iter;
            assert(vstd::std_specs::slice::into_iter_elts(it) =~= self.items());
        }
        it
    }

    pub fn into_vec(self) -> (values: Vec<T>)
        ensures
            values@ == self.items(),
    {
        self.values
    }
}

impl<T: View> Default for References<T> {
    /// No values.
    fn default() -> (r: Self)
        ensures
            r@ == Seq::<T::V>::empty(),
    {
        References::new()
    }
}

impl Clone for References<Iri> {
    fn clone(&self) -> (copy: Self)
        ensures
            copy@ == self@,
    {
        let mut values: Vec<Iri> = Vec::new();
        let n = self.values.len();
        for i in 0..n
            invariant
                n == self.values@.len(),
                values@.len() == i,
                forall|j: int| 0 <= j < i ==> #[trigger] values@[j]@ == self.values@[j]@,
        {
            values.push(self.values[i].clone());
        }
        let copy = References { values };
        assert(copy@ =~= self@);
        copy
    }
}

/// The model of a [`Context`]: the context IRIs in order, and whether the
/// context is written as a single IRI.
pub ghost struct ContextView {
    pub single: bool,
    pub iris: Seq<Seq<char>>,
}

/// A JSON-LD context represented by one or more IRIs.
#[derive(Debug, PartialEq, Eq)]
pub enum Context {
    Iri(Iri),
    Iris(Vec<Iri>),
}

impl View for Context {
    type V = ContextView;

    open spec fn view(&self) -> ContextView {
        match self {
            Context::Iri(i) => ContextView { single: true, iris: seq![i@] },
            Context::Iris(v) => ContextView { single: false, iris: v@.map_values(|i: Iri| i@) },
        }
    }
}

/// Whether `iris` holds `iri`, compared by text.
pub fn contains_iri(iris: &Vec<Iri>, iri: &Iri) -> (found: bool)
    ensures
        found == iris@.map_values(|i: Iri| i@).contains(iri@),
{
    let n = iris.len();
    for k in 0..n
        invariant
            n == iris@.len(),
            forall|j: int| 0 <= j < k ==> #[trigger] iris@[j]@ != iri@,
    {
        if iris[k].same(iri) {
            assert(iris@.map_values(|i: Iri| i@)[k as int] == iri@);
            return true;
        }
    }
    proof {
        let m = iris@.map_values(|i: Iri| i@);
        if m.contains(iri@) {
            let j = choose|j: int| 0 <= j < m.len() && m[j] == iri@;
            assert(iris@[j]@ == iri@);
        }
    }
    false
}

/// The context after inserting `iri`, as [`Context::insert_iri`] computes it.
pub open spec fn context_with(c: ContextView, iri: Seq<char>) -> ContextView {
    if c.iris.contains(iri) {
        c
    } else {
        ContextView { single: false, iris: c.iris.push(iri) }
    }
}

/// Inserting an IRI into a context is idempotent, and afterwards the
/// context holds it, with every IRI it held before in the same order.
pub proof fn lemma_context_insert_idempotent(c: ContextView, iri: Seq<char>)
    ensures
        context_with(context_with(c, iri), iri) == context_with(c, iri),
        context_with(c, iri).iris.contains(iri),
        c.iris.is_prefix_of(context_with(c, iri).iris),
{
    let once = context_with(c, iri);
    if !c.iris.contains(iri) {
        assert(once.iris[once.iris.len() - 1] == iri);
    }
    assert(c.iris =~= once.iris.subrange(0, c.iris.len() as int));
}

impl Clone for Context {
    fn clone(&self) -> (copy: Self)
        ensures
            copy@ == self@,
    {
        match self {
            Context::Iri(i) => Context::Iri(i.clone()),
            Context::Iris(v) => {
                let mut values: Vec<Iri> = Vec::new();
                let n = v.len();
                for k in 0..n
                    invariant
                        n == v@.len(),
                        values@.len() == k,
                        forall|j: int| 0 <= j < k ==> #[trigger] values@[j]@ == v@[j]@,
                {
                    values.push(v[k].clone());
                }
                assert(values@.map_values(|i: Iri| i@) =~= v@.map_values(|i: Iri| i@));
                Context::Iris(values)
            },
        }
    }
}

impl Context {
    pub fn one(context: Iri) -> (c: Self)
        ensures
            c@ == (ContextView { single: true, iris: seq![context@] }),
    {
        Context::Iri(context)
    }

    pub fn many(contexts: Vec<Iri>) -> (c: Self)
        ensures
            c@ == (ContextView { single: false, iris: contexts@.map_values(|i: Iri| i@) }),
    {
        Context::Iris(contexts)
    }

    /// Adds `context` unless it is already present.
    pub fn insert_iri(&mut self, context: Iri)
        ensures
            final(self)@ == context_with(old(self)@, context@),
    {
        match self {
            Context::Iri(existing) => {
                if existing.same(&context) {
                    assert(seq![existing@].contains(context@)) by {
                        assert(seq![existing@][0] == context@);
                    }
                } else {
                    let mut values: Vec<Iri> = Vec::new();
                    values.push(existing.clone());
                    values.push(context);
                    assert(!seq![old(self)@.iris[0]].contains(context@));
                    *self = Context::Iris(values);
                    assert(self@.iris =~= old(self)@.iris.push(context@));
                }
            },
            Context::Iris(existing) => {
                if !contains_iri(existing, &context) {
                    let ghost before = existing@;
                    existing.push(context);
                    assert(existing@.map_values(|i: Iri| i@) =~= before.map_values(
                        |i: Iri| i@,
                    ).push(context@));
                }
            },
        }
    }
}

/// Generic ActivityStreams type markers; each has exactly one value.
#[derive(Clone, Copy, Debug, PartialEq, Eq)]
pub enum NoteType {
    Note,
}

#[derive(Clone, Copy, Debug, PartialEq, Eq)]
pub enum FollowType {
    Follow,
}

#[derive(Clone, Copy, Debug, PartialEq, Eq)]
pub enum AcceptType {
    Accept,
}

#[derive(Clone, Copy, Debug, PartialEq, Eq)]
pub enum UndoType {
    Undo,
}

#[derive(Clone, Copy, Debug, PartialEq, Eq)]
pub enum CreateType {
    Create,
}

#[derive(Clone, Copy, Debug, PartialEq, Eq)]
pub enum OrderedCollectionType {
    OrderedCollection,
}

/// The kinds of ActivityPub actors.
#[derive(Clone, Copy, Debug, PartialEq, Eq)]
pub enum ActorType {
    Application,
    Group,
    Organization,
    Person,
    Service,
}

/// The model of [`Endpoints`].
pub ghost struct EndpointsView {
    pub shared_inbox: Option<Seq<char>>,
}

/// ActivityPub actor endpoints.
#[derive(Debug, PartialEq, Eq)]
pub struct Endpoints {
    pub shared_inbox: Option<Iri>,
}

impl View for Endpoints {
    type V = EndpointsView;

    open spec fn view(&self) -> EndpointsView {
        EndpointsView { shared_inbox: view_opt(self.shared_inbox) }
    }
}

impl Clone for Endpoints {
    fn clone(&self) -> (copy: Self)
        ensures
            copy@ == self@,
    {
        Endpoints { shared_inbox: clone_opt_iri(&self.shared_inbox) }
    }
}

#[derive(Clone, Copy, Debug, PartialEq, Eq)]
pub enum CryptographicKeyType {
    CryptographicKey,
}

/// The model of a [`CryptographicKey`].
pub ghost struct CryptographicKeyView {
    pub id: Seq<char>,
    pub owner: Seq<char>,
    pub public_key_pem: Seq<char>,
}

/// A public key published by an ActivityPub actor.
#[derive(Debug, PartialEq, Eq)]
pub struct CryptographicKey {
    pub id: Iri,
    pub kind: CryptographicKeyType,
    pub owner: Iri,
    pub public_key_pem: String,
}

impl View for CryptographicKey {
    type V = CryptographicKeyView;

    open spec fn view(&self) -> CryptographicKeyView {
        CryptographicKeyView {
            id: self.id@,
            owner: self.owner@,
            public_key_pem: self.public_key_pem@,
        }
    }
}

impl Clone for CryptographicKey {
    fn clone(&self) -> (copy: Self)
        ensures
            copy@ == self@,
    {
        CryptographicKey {
            id: self.id.clone(),
            kind: self.kind,
            owner: self.owner.clone(),
            public_key_pem: self.public_key_pem.clone(),
        }
    }
}

impl CryptographicKey {
    pub fn new(id: Iri, owner: Iri, public_key_pem: String) -> (key: Self)
        ensures
            key@ == (CryptographicKeyView {
                id: id@,
                owner: owner@,
                public_key_pem: public_key_pem@,
            }),
    {
        CryptographicKey { id, kind: CryptographicKeyType::CryptographicKey, owner, public_key_pem }
    }
}

impl Clone for Reference<CryptographicKey> {
    fn clone(&self) -> (copy: Self)
        ensures
            copy@ == self@,
    {
        match self {
            Reference::Id(id) => Reference::Id(id.clone()),
            Reference::Object(key) => Reference::Object(Box::new((**key).clone())),
        }
    }
}

/// The model of an [`Actor`].
pub ghost struct ActorView {
    pub context: Option<ContextView>,
    pub kind: ActorType,
    pub id: Seq<char>,
    pub inbox: Seq<char>,
    pub outbox: Seq<char>,
    pub followers: Option<Seq<char>>,
    pub preferred_username: Option<Seq<char>>,
    pub name: Option<Seq<char>>,
    pub endpoints: Option<EndpointsView>,
    pub public_key: Option<ReferenceView<CryptographicKeyView>>,
}

/// A minimal ActivityPub actor.
#[derive(Debug, PartialEq, Eq)]
pub struct Actor {
    pub context: Option<Context>,
    pub kind: ActorType,
    pub id: Iri,
    pub inbox: Iri,
    pub outbox: Iri,
    pub followers: Option<Iri>,
    pub preferred_username: Option<String>,
    pub name: Option<String>,
    pub endpoints: Option<Endpoints>,
    pub public_key: Option<Reference<CryptographicKey>>,
}

impl View for Actor {
    type V = ActorView;

    open spec fn view(&self) -> ActorView {
        ActorView {
            context: view_opt(self.context),
            kind: self.kind,
            id: self.id@,
            inbox: self.inbox@,
            outbox: self.outbox@,
            followers: view_opt(self.followers),
            preferred_username: view_opt(self.preferred_username),
            name: view_opt(self.name),
            endpoints: view_opt(self.endpoints),
            public_key: view_opt(self.public_key),
        }
    }
}

impl Clone for Actor {
    fn clone(&self) -> (copy: Self)
        ensures
            copy@ == self@,
    {
        Actor {
            context: match &self.context {
                Some(c) => Some(c.clone()),
                None => None,
            },
            kind: self.kind,
            id: self.id.clone(),
            inbox: self.inbox.clone(),
            outbox: self.outbox.clone(),
            followers: clone_opt_iri(&self.followers),
            preferred_username: clone_opt_string(&self.preferred_username),
            name: clone_opt_string(&self.name),
            endpoints: match &self.endpoints {
                Some(e) => Some(e.clone()),
                None => None,
            },
            public_key: match &self.public_key {
                Some(k) => Some(k.clone()),
                None => None,
            },
        }
    }
}

impl Clone for Reference<Actor> {
    fn clone(&self) -> (copy: Self)
        ensures
            copy@ == self@,
    {
        match self {
            Reference::Id(id) => Reference::Id(id.clone()),
            Reference::Object(actor) => Reference::Object(Box::new((**actor).clone())),
        }
    }
}

/// The Activity Streams context IRI.
pub fn activitystreams_context() -> (iri: Iri)
    ensures
        iri@ == ACTIVITYSTREAMS_CONTEXT@,
{
    Iri::known(ACTIVITYSTREAMS_CONTEXT)
}

/// The security vocabulary context IRI.
pub fn security_context() -> (iri: Iri)
    ensures
        iri@ == SECURITY_CONTEXT@,
{
    Iri::known(SECURITY_CONTEXT)
}

impl Actor {
    pub fn person(id: Iri, inbox: Iri, outbox: Iri) -> (actor: Self)
        ensures
            actor@ == Actor::new_view(ActorType::Person, id@, inbox@, outbox@),
    {
        Self::new(ActorType::Person, id, inbox, outbox)
    }

    /// The model of a freshly constructed actor.
    pub open spec fn new_view(
        kind: ActorType,
        id: Seq<char>,
        inbox: Seq<char>,
        outbox: Seq<char>,
    ) -> ActorView {
        ActorView {
            context: Some(ContextView { single: true, iris: seq![ACTIVITYSTREAMS_CONTEXT@] }),
            kind,
            id,
            inbox,
            outbox,
            followers: None,
            preferred_username: None,
            name: None,
            endpoints: None,
            public_key: None,
        }
    }

    pub fn new(kind: ActorType, id: Iri, inbox: Iri, outbox: Iri) -> (actor: Self)
        ensures
            actor@ == Actor::new_view(kind, id@, inbox@, outbox@),
    {
        Actor {
            context: Some(Context::one(activitystreams_context())),
            kind,
            id,
            inbox,
            outbox,
            followers: None,
            preferred_username: None,
            name: None,
            endpoints: None,
            public_key: None,
        }
    }

    /// Publishes `public_key`, adding the security context to the actor's
    /// JSON-LD context (creating an Activity Streams context first if absent).
    pub fn set_public_key(&mut self, public_key: Reference<CryptographicKey>)
        ensures
            final(self)@ == (ActorView {
                context: Some(
                    context_with(
                        match old(self)@.context {
                            Some(c) => c,
                            None => ContextView {
                                single: true,
                                iris: seq![ACTIVITYSTREAMS_CONTEXT@],
                            },
                        },
                        SECURITY_CONTEXT@,
                    ),
                ),
                public_key: Some(public_key@),
                ..old(self)@
            }),
    {
        let mut context = match self.context.take() {
            Some(c) => c,
            None => Context::one(activitystreams_context()),
        };
        context.insert_iri(security_context());
        self.context = Some(context);
        self.public_key = Some(public_key);
    }
}

/// The model of a [`Note`].
pub ghost struct NoteView {
    pub context: Option<Seq<char>>,
    pub id: Seq<char>,
    pub attributed_to: Option<ReferenceView<ActorView>>,
    pub to: Seq<Seq<char>>,
    pub cc: Seq<Seq<char>>,
    pub content: Option<Seq<char>>,
    pub media_type: Option<Seq<char>>,
    pub published: Option<Seq<char>>,
    pub url: Option<Seq<char>>,
}

/// A minimal ActivityStreams Note object.
#[derive(Debug, PartialEq, Eq)]
pub struct Note {
    pub context: Option<Iri>,
    pub kind: NoteType,
    pub id: Iri,
    pub attributed_to: Option<Reference<Actor>>,
    pub to: References<Iri>,
    pub cc: References<Iri>,
    pub content: Option<String>,
    pub media_type: Option<String>,
    pub published: Option<String>,
    pub url: Option<Iri>,
}

impl View for Note {
    type V = NoteView;

    open spec fn view(&self) -> NoteView {
        NoteView {
            context: view_opt(self.context),
            id: self.id@,
            attributed_to: view_opt(self.attributed_to),
            to: self.to@,
            cc: self.cc@,
            content: view_opt(self.content),
            media_type: view_opt(self.media_type),
            published: view_opt(self.published),
            url: view_opt(self.url),
        }
    }
}

impl Clone for Note {
    fn clone(&self) -> (copy: Self)
        ensures
            copy@ == self@,
    {
        Note {
            context: clone_opt_iri(&self.context),
            kind: self.kind,
            id: self.id.clone(),
            attributed_to: match &self.attributed_to {
                Some(a) => Some(a.clone()),
                None => None,
            },
            to: self.to.clone(),
            cc: self.cc.clone(),
            content: clone_opt_string(&self.content),
            media_type: clone_opt_string(&self.media_type),
            published: clone_opt_string(&self.published),
            url: clone_opt_iri(&self.url),
        }
    }
}

impl Clone for Reference<Note> {
    fn clone(&self) -> (copy: Self)
        ensures
            copy@ == self@,
    {
        match self {
            Reference::Id(id) => Reference::Id(id.clone()),
            Reference::Object(note) => Reference::Object(Box::new((**note).clone())),
        }
    }
}

impl Note {
    pub fn new(id: Iri) -> (note: Self)
        ensures
            note@ == (NoteView {
                context: Some(ACTIVITYSTREAMS_CONTEXT@),
                id: id@,
                attributed_to: None,
                to: Seq::empty(),
                cc: Seq::empty(),
                content: None,
                media_type: None,
                published: None,
                url: None,
            }),
    {
        Note {
            context: Some(activitystreams_context()),
            kind: NoteType::Note,
            id,
            attributed_to: None,
            to: References::new(),
            cc: References::new(),
            content: None,
            media_type: None,
            published: None,
            url: None,
        }
    }
}

/// The model of an activity whose `actor` is an actor reference and whose
/// `object` is a reference to something of model `O`.
pub ghost struct ActivityView<O> {
    pub context: Option<Seq<char>>,
    pub id: Seq<char>,
    pub actor: ReferenceView<ActorView>,
    pub object: ReferenceView<O>,
}

/// The model of a fresh activity with the Activity Streams context.
pub open spec fn activity_view<O>(
    id: Seq<char>,
    actor: ReferenceView<ActorView>,
    object: ReferenceView<O>,
) -> ActivityView<O> {
    ActivityView { context: Some(ACTIVITYSTREAMS_CONTEXT@), id, actor, object }
}

/// A minimal Follow activity.
#[derive(Debug, PartialEq, Eq)]
pub struct Follow {
    pub context: Option<Iri>,
    pub kind: FollowType,
    pub id: Iri,
    pub actor: Reference<Actor>,
    pub object: Reference<Actor>,
}

impl View for Follow {
    type V = ActivityView<ActorView>;

    open spec fn view(&self) -> ActivityView<ActorView> {
        ActivityView {
            context: view_opt(self.context),
            id: self.id@,
            actor: self.actor@,
            object: self.object@,
        }
    }
}

impl Clone for Follow {
    fn clone(&self) -> (copy: Self)
        ensures
            copy@ == self@,
    {
        Follow {
            context: clone_opt_iri(&self.context),
            kind: self.kind,
            id: self.id.clone(),
            actor: self.actor.clone(),
            object: self.object.clone(),
        }
    }
}

impl Clone for Reference<Follow> {
    fn clone(&self) -> (copy: Self)
        ensures
            copy@ == self@,
    {
        match self {
            Reference::Id(id) => Reference::Id(id.clone()),
            Reference::Object(follow) => Reference::Object(Box::new((**follow).clone())),
        }
    }
}

impl Follow {
    pub fn new(id: Iri, actor: Reference<Actor>, object: Reference<Actor>) -> (follow: Self)
        ensures
            follow@ == activity_view(id@, actor@, object@),
    {
        Follow {
            context: Some(activitystreams_context()),
            kind: FollowType::Follow,
            id,
            actor,
            object,
        }
    }
}

/// A minimal Accept activity.
#[derive(Debug, PartialEq, Eq)]
pub struct Accept {
    pub context: Option<Iri>,
    pub kind: AcceptType,
    pub id: Iri,
    pub actor: Reference<Actor>,
    pub object: Reference<Follow>,
}

impl View for Accept {
    type V = ActivityView<ActivityView<ActorView>>;

    open spec fn view(&self) -> ActivityView<ActivityView<ActorView>> {
        ActivityView {
            context: view_opt(self.context),
            id: self.id@,
            actor: self.actor@,
            object: self.object@,
        }
    }
}

impl Clone for Accept {
    fn clone(&self) -> (copy: Self)
        ensures
            copy@ == self@,
    {
        Accept {
            context: clone_opt_iri(&self.context),
            kind: self.kind,
            id: self.id.clone(),
            actor: self.actor.clone(),
            object: self.object.clone(),
        }
    }
}

impl Accept {
    pub fn new(id: Iri, actor: Reference<Actor>, object: Reference<Follow>) -> (accept: Self)
        ensures
            accept@ == activity_view(id@, actor@, object@),
    {
        Accept {
            context: Some(activitystreams_context()),
            kind: AcceptType::Accept,
            id,
            actor,
            object,
        }
    }
}

/// A minimal Undo activity for a Follow.
#[derive(Debug, PartialEq, Eq)]
pub struct Undo {
    pub context: Option<Iri>,
    pub kind: UndoType,
    pub id: Iri,
    pub actor: Reference<Actor>,
    pub object: Reference<Follow>,
}

impl View for Undo {
    type V = ActivityView<ActivityView<ActorView>>;

    open spec fn view(&self) -> ActivityView<ActivityView<ActorView>> {
        ActivityView {
            context: view_opt(self.context),
            id: self.id@,
            actor: self.actor@,
            object: self.object@,
        }
    }
}

impl Clone for Undo {
    fn clone(&self) -> (copy: Self)
        ensures
            copy@ == self@,
    {
        Undo {
            context: clone_opt_iri(&self.context),
            kind: self.kind,
            id: self.id.clone(),
            actor: self.actor.clone(),
            object: self.object.clone(),
        }
    }
}

impl Undo {
    pub fn new(id: Iri, actor: Reference<Actor>, object: Reference<Follow>) -> (undo: Self)
        ensures
            undo@ == activity_view(id@, actor@, object@),
    {
        Undo { context: Some(activitystreams_context()), kind: UndoType::Undo, id, actor, object }
    }
}

/// The model of a [`Create`] activity.
pub ghost struct CreateView<O> {
    pub context: Option<Seq<char>>,
    pub id: Seq<char>,
    pub actor: ReferenceView<ActorView>,
    pub object: ReferenceView<O>,
    pub to: Seq<Seq<char>>,
    pub cc: Seq<Seq<char>>,
}

/// A minimal Create activity for a concrete object type, with its own
/// addressing.
#[derive(Debug, PartialEq, Eq)]
pub struct Create<T> {
    pub context: Option<Iri>,
    pub kind: CreateType,
    pub id: Iri,
    pub actor: Reference<Actor>,
    pub object: Reference<T>,
    pub to: References<Iri>,
    pub cc: References<Iri>,
}

impl<T: View> View for Create<T> {
    type V = CreateView<T::V>;

    open spec fn view(&self) -> CreateView<T::V> {
        CreateView {
            context: view_opt(self.context),
            id: self.id@,
            actor: self.actor@,
            object: self.object@,
            to: self.to@,
            cc: self.cc@,
        }
    }
}

impl Clone for Create<Note> {
    fn clone(&self) -> (copy: Self)
        ensures
            copy@ == self@,
    {
        Create {
            context: clone_opt_iri(&self.context),
            kind: self.kind,
            id: self.id.clone(),
            actor: self.actor.clone(),
            object: self.object.clone(),
            to: self.to.clone(),
            cc: self.cc.clone(),
        }
    }
}

impl<T: View> Create<T> {
    pub fn new(id: Iri, actor: Reference<Actor>, object: Reference<T>) -> (create: Self)
        ensures
            create@ == (CreateView {
                context: Some(ACTIVITYSTREAMS_CONTEXT@),
                id: id@,
                actor: actor@,
                object: object@,
                to: Seq::empty(),
                cc: Seq::empty(),
            }),
    {
        Create {
            context: Some(activitystreams_context()),
            kind: CreateType::Create,
            id,
            actor,
            object,
            to: References::new(),
            cc: References::new(),
        }
    }
}

/// The model of an [`OrderedCollection`].
pub ghost struct OrderedCollectionView<V> {
    pub context: Option<Seq<char>>,
    pub id: Seq<char>,
    pub total_items: u64,
    pub ordered_items: Seq<V>,
}

/// A minimal ActivityStreams ordered collection.
#[derive(Debug, PartialEq, Eq)]
pub struct OrderedCollection<T> {
    pub context: Option<Iri>,
    pub kind: OrderedCollectionType,
    pub id: Iri,
    pub total_items: u64,
    pub ordered_items: Vec<T>,
}

impl<T: View> View for OrderedCollection<T> {
    type V = OrderedCollectionView<T::V>;

    open spec fn view(&self) -> OrderedCollectionView<T::V> {
        OrderedCollectionView {
            context: view_opt(self.context),
            id: self.id@,
            total_items: self.total_items,
            ordered_items: self.ordered_items@.map_values(|t: T| t@),
        }
    }
}

impl<T: View> OrderedCollection<T> {
    pub fn new(id: Iri, total_items: u64, ordered_items: Vec<T>) -> (collection: Self)
        ensures
            collection@ == (OrderedCollectionView {
                context: Some(ACTIVITYSTREAMS_CONTEXT@),
                id: id@,
                total_items,
                ordered_items: ordered_items@.map_values(|t: T| t@),
            }),
    {
        OrderedCollection {
            context: Some(activitystreams_context()),
            kind: OrderedCollectionType::OrderedCollection,
            id,
            total_items,
            ordered_items,
        }
    }
}

} // verus!
