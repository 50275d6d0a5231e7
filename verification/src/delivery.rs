//! Delivery planning: which inboxes receive an outgoing activity.
//!
//! Followers collections are expanded first, so that an actor already
//! reached through a follower inbox is not resolved and sent to again; each
//! inbox receives at most one delivery, and a follower's shared inbox is
//! preferred over its personal one. A runtime walks the steps of
//! [`delivery_steps`], performs the storage reads and actor resolutions they
//! ask for, and records each result in a [`DeliveryPlan`].

use vstd::prelude::*;

use crate::iri::Iri;
use crate::note::{NoteRecipient, NoteRecipientView};
use crate::vocab::{view_opt, Actor, ActorView};

verus! {

/// A follower that can receive deliveries, as the follower store lists it.
#[derive(Debug, PartialEq, Eq)]
pub struct StoredRecipient {
    pub actor_id: Iri,
    pub inbox: Iri,
    pub shared_inbox: Option<Iri>,
}

/// The model of a [`StoredRecipient`].
pub ghost struct StoredRecipientView {
    pub actor_id: Seq<char>,
    pub inbox: Seq<char>,
    pub shared_inbox: Option<Seq<char>>,
}

impl View for StoredRecipient {
    type V = StoredRecipientView;

    open spec fn view(&self) -> StoredRecipientView {
        StoredRecipientView {
            actor_id: self.actor_id@,
            inbox: self.inbox@,
            shared_inbox: view_opt(self.shared_inbox),
        }
    }
}

/// The inbox that a follower is delivered to: its shared inbox when it has
/// one, else its own inbox.
pub open spec fn delivery_inbox(recipient: StoredRecipientView) -> Seq<char> {
    match recipient.shared_inbox {
        Some(shared) => shared,
        None => recipient.inbox,
    }
}

/// Where an outgoing activity is addressed.
#[derive(Debug, PartialEq, Eq)]
pub enum Recipients {
    /// One inbox, given directly.
    Inbox(Iri),
    /// An actor whose inbox must be resolved.
    Actor(Iri),
    /// The followers of a local actor.
    Followers(Iri),
}

/// The model of [`Recipients`].
pub enum RecipientsView {
    Inbox(Seq<char>),
    Actor(Seq<char>),
    Followers(Seq<char>),
}

impl View for Recipients {
    type V = RecipientsView;

    open spec fn view(&self) -> RecipientsView {
        match self {
            Recipients::Inbox(i) => RecipientsView::Inbox(i@),
            Recipients::Actor(i) => RecipientsView::Actor(i@),
            Recipients::Followers(i) => RecipientsView::Followers(i@),
        }
    }
}

impl Recipients {
    /// The recipients that a Note's delivery target stands for.
    pub fn from_note_recipient(recipient: &NoteRecipient) -> (recipients: Recipients)
        ensures
            recipients@ == match recipient@ {
                NoteRecipientView::Followers(i) => RecipientsView::Followers(i),
                NoteRecipientView::Actor(i) => RecipientsView::Actor(i),
            },
    {
        match recipient {
            NoteRecipient::Followers(i) => Recipients::Followers(i.clone()),
            NoteRecipient::Actor(i) => Recipients::Actor(i.clone()),
        }
    }
}

/// One step of delivery planning; `source` is the position of the
/// recipients that the step comes from.
#[derive(Debug, PartialEq, Eq)]
pub enum DeliveryStep {
    /// List the followers of `actor_id` and add each of them.
    ExpandFollowers { source: usize, actor_id: Iri },
    /// Add `inbox` as it is.
    DirectInbox { source: usize, inbox: Iri },
    /// Unless `actor_id` is already covered, resolve it and add its inbox.
    ResolveActor { source: usize, actor_id: Iri },
}

/// The model of a [`DeliveryStep`].
pub enum DeliveryStepView {
    ExpandFollowers { source: nat, actor_id: Seq<char> },
    DirectInbox { source: nat, inbox: Seq<char> },
    ResolveActor { source: nat, actor_id: Seq<char> },
}

impl View for DeliveryStep {
    type V = DeliveryStepView;

    open spec fn view(&self) -> DeliveryStepView {
        match self {
            DeliveryStep::ExpandFollowers { source, actor_id } => DeliveryStepView::ExpandFollowers {
                source: *source as nat,
                actor_id: actor_id@,
            },
            DeliveryStep::DirectInbox { source, inbox } => DeliveryStepView::DirectInbox {
                source: *source as nat,
                inbox: inbox@,
            },
            DeliveryStep::ResolveActor { source, actor_id } => DeliveryStepView::ResolveActor {
                source: *source as nat,
                actor_id: actor_id@,
            },
        }
    }
}

/// The models of a sequence of values.
pub open spec fn views<T: View>(s: Seq<T>) -> Seq<T::V> {
    s.map_values(|t: T| t@)
}

/// The expansion steps for the followers collections among `recipients`,
/// in order.
pub open spec fn follower_steps(recipients: Seq<RecipientsView>) -> Seq<DeliveryStepView>
    decreases recipients.len(),
{
    if recipients.len() == 0 {
        Seq::empty()
    } else {
        let last = (recipients.len() - 1) as nat;
        follower_steps(recipients.drop_last()) + match recipients.last() {
            RecipientsView::Followers(a) => seq![
                DeliveryStepView::ExpandFollowers { source: last, actor_id: a },
            ],
            _ => Seq::empty(),
        }
    }
}

/// The steps for the inboxes and actors among `recipients`, in order.
pub open spec fn direct_steps(recipients: Seq<RecipientsView>) -> Seq<DeliveryStepView>
    decreases recipients.len(),
{
    if recipients.len() == 0 {
        Seq::empty()
    } else {
        let last = (recipients.len() - 1) as nat;
        direct_steps(recipients.drop_last()) + match recipients.last() {
            RecipientsView::Inbox(i) => seq![DeliveryStepView::DirectInbox { source: last, inbox: i }],
            RecipientsView::Actor(a) => seq![
                DeliveryStepView::ResolveActor { source: last, actor_id: a },
            ],
            RecipientsView::Followers(_) => Seq::empty(),
        }
    }
}

/// The planning steps for `recipients`: every followers collection first,
/// then the inboxes and actors, each group in the recipients' order.
pub open spec fn delivery_steps_spec(recipients: Seq<RecipientsView>) -> Seq<DeliveryStepView> {
    follower_steps(recipients) + direct_steps(recipients)
}

/// Orders the planning steps for `recipients`.
pub fn delivery_steps(recipients: &[Recipients]) -> (steps: Vec<DeliveryStep>)
    ensures
        views(steps@) == delivery_steps_spec(views(recipients@)),
{
    let n = recipients.len();
    let mut followers: Vec<DeliveryStep> = Vec::new();
    let mut direct: Vec<DeliveryStep> = Vec::new();
    for k in 0..n
        invariant
            n == recipients@.len(),
            views(followers@) == follower_steps(views(recipients@.take(k as int))),
            views(direct@) == direct_steps(views(recipients@.take(k as int))),
    {
        let ghost before = views(recipients@.take(k as int));
        proof {
            assert(views(recipients@.take(k + 1)).drop_last() =~= before);
            assert(views(recipients@.take(k + 1)).last() == recipients@[k as int]@);
        }
        match &recipients[k] {
            Recipients::Followers(a) => {
                followers.push(DeliveryStep::ExpandFollowers { source: k, actor_id: a.clone() });
            },
            Recipients::Inbox(i) => {
                direct.push(DeliveryStep::DirectInbox { source: k, inbox: i.clone() });
            },
            Recipients::Actor(a) => {
                direct.push(DeliveryStep::ResolveActor { source: k, actor_id: a.clone() });
            },
        }
        assert(views(followers@) =~= follower_steps(views(recipients@.take(k + 1))));
        assert(views(direct@) =~= direct_steps(views(recipients@.take(k + 1))));
    }
    proof {
        assert(recipients@.take(n as int) =~= recipients@);
    }
    let ghost f = followers@;
    let ghost d = direct@;
    followers.append(&mut direct);
    assert(views(followers@) =~= views(f) + views(d));
    followers
}

/// The inbox that a Follow to `actor` is delivered to: the actor's shared
/// inbox when it publishes one, else its own inbox.
pub open spec fn actor_delivery_inbox(actor: ActorView) -> Seq<char> {
    match actor.endpoints {
        Some(endpoints) => match endpoints.shared_inbox {
            Some(shared) => shared,
            None => actor.inbox,
        },
        None => actor.inbox,
    }
}

/// Finds the inbox that a Follow to `actor` is delivered to.
pub fn delivery_inbox_of(actor: &Actor) -> (inbox: &Iri)
    ensures
        inbox@ == actor_delivery_inbox(actor@),
{
    match &actor.endpoints {
        Some(endpoints) => match &endpoints.shared_inbox {
            Some(shared) => shared,
            None => &actor.inbox,
        },
        None => &actor.inbox,
    }
}

/// Keeps the first failure of a batch: `error` is recorded only when no
/// failure was recorded before.
pub fn record_first_failure<E>(first: &mut Option<E>, error: E)
    ensures
        *final(first) == match *old(first) {
            Some(e) => Some(e),
            None => Some(error),
        },
{
    if first.is_none() {
        *first = Some(error);
    }
}

/// Why a batch of deliveries failed as a whole.
#[derive(Debug, PartialEq, Eq)]
pub enum DeliveryFailure<S, R> {
    /// A delivery failed.
    Send(S),
    /// A recipient could not be resolved.
    Resolve(R),
}

/// What a batch reports once every recipient has been attempted: its first
/// failed delivery, else its first failed resolution, else success.
pub fn batch_failure<S, R>(first_send_error: Option<S>, first_resolve_error: Option<R>) -> (failure:
    Option<DeliveryFailure<S, R>>)
    ensures
        failure == match (first_send_error, first_resolve_error) {
            (Some(s), _) => Some(DeliveryFailure::<S, R>::Send(s)),
            (None, Some(r)) => Some(DeliveryFailure::<S, R>::Resolve(r)),
            (None, None) => None,
        },
{
    match first_send_error {
        Some(s) => Some(DeliveryFailure::Send(s)),
        None => match first_resolve_error {
            Some(r) => Some(DeliveryFailure::Resolve(r)),
            None => None,
        },
    }
}

/// One planned delivery: the position of the recipients it came from and
/// the inbox it goes to.
#[derive(Debug, PartialEq, Eq)]
pub struct Delivery {
    pub source: usize,
    pub inbox: Iri,
}

/// The model of a [`Delivery`].
pub ghost struct DeliveryView {
    pub source: nat,
    pub inbox: Seq<char>,
}

impl View for Delivery {
    type V = DeliveryView;

    open spec fn view(&self) -> DeliveryView {
        DeliveryView { source: self.source as nat, inbox: self.inbox@ }
    }
}

/// The inboxes of planned deliveries, in order.
pub open spec fn planned_inboxes(deliveries: Seq<DeliveryView>) -> Seq<Seq<char>> {
    deliveries.map_values(|d: DeliveryView| d.inbox)
}

/// The model of a [`DeliveryPlan`]: the deliveries so far, and the actors
/// that they already reach.
pub ghost struct DeliveryPlanView {
    pub deliveries: Seq<DeliveryView>,
    pub covered: Seq<Seq<char>>,
}

impl DeliveryPlanView {
    /// The empty plan.
    pub open spec fn empty() -> DeliveryPlanView {
        DeliveryPlanView { deliveries: Seq::empty(), covered: Seq::empty() }
    }

    /// No inbox is planned twice.
    pub open spec fn wf(self) -> bool {
        planned_inboxes(self.deliveries).no_duplicates()
    }

    /// Whether a delivery to `inbox` is planned.
    pub open spec fn plans_inbox(self, inbox: Seq<char>) -> bool {
        planned_inboxes(self.deliveries).contains(inbox)
    }

    /// Whether `actor_id` still has to be resolved: no delivery reaches it
    /// yet.
    pub open spec fn needs_resolution(self, actor_id: Seq<char>) -> bool {
        !self.covered.contains(actor_id)
    }

    /// The plan with a delivery to `inbox`, unless one is planned already.
    pub open spec fn with_inbox(self, source: nat, inbox: Seq<char>) -> DeliveryPlanView {
        if self.plans_inbox(inbox) {
            self
        } else {
            DeliveryPlanView {
                deliveries: self.deliveries.push(DeliveryView { source, inbox }),
                covered: self.covered,
            }
        }
    }

    /// The plan with `actor_id` covered and a delivery to `inbox`.
    pub open spec fn with_covered_inbox(
        self,
        source: nat,
        actor_id: Seq<char>,
        inbox: Seq<char>,
    ) -> DeliveryPlanView {
        DeliveryPlanView { deliveries: self.deliveries, covered: self.covered.push(actor_id) }.with_inbox(
            source,
            inbox,
        )
    }
}

/// The deliveries planned so far for one outgoing batch.
pub struct DeliveryPlan {
    deliveries: Vec<Delivery>,
    covered: Vec<Iri>,
}

impl View for DeliveryPlan {
    type V = DeliveryPlanView;

    closed spec fn view(&self) -> DeliveryPlanView {
        DeliveryPlanView { deliveries: views(self.deliveries@), covered: views(self.covered@) }
    }
}

impl DeliveryPlan {
    /// An empty plan.
    pub fn new() -> (plan: DeliveryPlan)
        ensures
            plan@ == DeliveryPlanView::empty(),
            plan@.wf(),
    {
        let plan = DeliveryPlan { deliveries: Vec::new(), covered: Vec::new() };
        assert(plan@.deliveries =~= Seq::<DeliveryView>::empty());
        assert(plan@.covered =~= Seq::<Seq<char>>::empty());
        plan
    }

    /// Whether a delivery to `inbox` is planned.
    pub fn plans_inbox(&self, inbox: &Iri) -> (planned: bool)
        ensures
            planned == self@.plans_inbox(inbox@),
    {
        let n = self.deliveries.len();
        for k in 0..n
            invariant
                n == self.deliveries@.len(),
                forall|j: int| 0 <= j < k ==> self.deliveries@[j].inbox@ != inbox@,
        {
            if self.deliveries[k].inbox.same(inbox) {
                assert(planned_inboxes(self@.deliveries)[k as int] == inbox@);
                return true;
            }
        }
        assert forall|j: int| 0 <= j < planned_inboxes(self@.deliveries).len() implies planned_inboxes(
            self@.deliveries,
        )[j] != inbox@ by {
            assert(planned_inboxes(self@.deliveries)[j] == self.deliveries@[j].inbox@);
        }
        false
    }

    /// Whether `actor_id` still has to be resolved.
    pub fn needs_resolution(&self, actor_id: &Iri) -> (needed: bool)
        ensures
            needed == self@.needs_resolution(actor_id@),
    {
        let n = self.covered.len();
        for k in 0..n
            invariant
                n == self.covered@.len(),
                forall|j: int| 0 <= j < k ==> self.covered@[j]@ != actor_id@,
        {
            if self.covered[k].same(actor_id) {
                assert(self@.covered[k as int] == actor_id@);
                return false;
            }
        }
        assert forall|j: int| 0 <= j < self@.covered.len() implies self@.covered[j] != actor_id@ by {
            assert(self@.covered[j] == self.covered@[j]@);
        }
        true
    }

    /// Plans a delivery to `inbox` for the recipients at `source`, unless
    /// one is planned already.
    pub fn add_inbox(&mut self, source: usize, inbox: &Iri)
        requires
            old(self)@.wf(),
        ensures
            final(self)@ == old(self)@.with_inbox(source as nat, inbox@),
            final(self)@.wf(),
    {
        if !self.plans_inbox(inbox) {
            let ghost before = self@;
            self.deliveries.push(Delivery { source, inbox: inbox.clone() });
            proof {
                assert(self@.deliveries =~= before.deliveries.push(
                    DeliveryView { source: source as nat, inbox: inbox@ },
                ));
                assert(planned_inboxes(self@.deliveries) =~= planned_inboxes(before.deliveries).push(
                    inbox@,
                ));
            }
        }
    }

    /// Adds a follower listed for the followers collection at `source`: the
    /// follower is covered, and its delivery inbox is planned.
    pub fn add_follower_target(&mut self, source: usize, target: &StoredRecipient)
        requires
            old(self)@.wf(),
        ensures
            final(self)@ == old(self)@.with_covered_inbox(
                source as nat,
                target@.actor_id,
                delivery_inbox(target@),
            ),
            final(self)@.wf(),
    {
        let ghost before = self@;
        self.covered.push(target.actor_id.clone());
        assert(self@.covered =~= before.covered.push(target@.actor_id));
        match &target.shared_inbox {
            Some(shared) => self.add_inbox(source, shared),
            None => self.add_inbox(source, &target.inbox),
        }
    }

    /// Adds an actor resolved for the recipients at `source`: the actor is
    /// covered, and its inbox is planned.
    pub fn add_resolved_actor(&mut self, source: usize, actor_id: &Iri, inbox: &Iri)
        requires
            old(self)@.wf(),
        ensures
            final(self)@ == old(self)@.with_covered_inbox(source as nat, actor_id@, inbox@),
            final(self)@.wf(),
    {
        let ghost before = self@;
        self.covered.push(actor_id.clone());
        assert(self@.covered =~= before.covered.push(actor_id@));
        self.add_inbox(source, inbox);
    }

    /// The planned deliveries, in order.
    pub fn into_deliveries(self) -> (deliveries: Vec<Delivery>)
        ensures
            views(deliveries@) == self@.deliveries,
    {
        self.deliveries
    }

    /// The planned inboxes, in order.
    pub fn inboxes(&self) -> (inboxes: Vec<Iri>)
        ensures
            views(inboxes@) == planned_inboxes(self@.deliveries),
    {
        let n = self.deliveries.len();
        let mut inboxes: Vec<Iri> = Vec::new();
        for k in 0..n
            invariant
                n == self.deliveries@.len(),
                inboxes@.len() == k,
                forall|j: int| 0 <= j < k ==> #[trigger] inboxes@[j]@ == self.deliveries@[j].inbox@,
        {
            inboxes.push(self.deliveries[k].inbox.clone());
        }
        assert(views(inboxes@) =~= planned_inboxes(self@.deliveries));
        inboxes
    }
}

/// Adding an inbox to a plan keeps every inbox planned once, plans that
/// inbox, and keeps the deliveries planned before, in their order.
pub proof fn lemma_with_inbox(plan: DeliveryPlanView, source: nat, inbox: Seq<char>)
    requires
        plan.wf(),
    ensures
        plan.with_inbox(source, inbox).wf(),
        plan.with_inbox(source, inbox).plans_inbox(inbox),
        plan.deliveries.is_prefix_of(plan.with_inbox(source, inbox).deliveries),
        plan.with_inbox(source, inbox).covered == plan.covered,
{
    let next = plan.with_inbox(source, inbox);
    if !plan.plans_inbox(inbox) {
        assert(planned_inboxes(next.deliveries) =~= planned_inboxes(plan.deliveries).push(inbox));
        assert(planned_inboxes(next.deliveries).last() == inbox);
    }
    assert(plan.deliveries =~= next.deliveries.subrange(0, plan.deliveries.len() as int));
}

/// Once a follower or a resolved actor has been added, that actor needs no
/// resolution, and its inbox is planned exactly once.
pub proof fn lemma_covered_actor_not_resolved(
    plan: DeliveryPlanView,
    source: nat,
    actor_id: Seq<char>,
    inbox: Seq<char>,
)
    requires
        plan.wf(),
    ensures
        !plan.with_covered_inbox(source, actor_id, inbox).needs_resolution(actor_id),
        plan.with_covered_inbox(source, actor_id, inbox).plans_inbox(inbox),
        plan.with_covered_inbox(source, actor_id, inbox).wf(),
{
    let covered = DeliveryPlanView { deliveries: plan.deliveries, covered: plan.covered.push(actor_id) };
    lemma_with_inbox(covered, source, inbox);
    assert(covered.covered.last() == actor_id);
}

} // verus!
