use feder::delivery::{
    batch_failure, delivery_inbox_of, delivery_steps, record_first_failure, DeliveryFailure,
    DeliveryPlan, DeliveryStep, Recipients, StoredRecipient,
};
use feder::iri::Iri;
use feder::vocab::{Actor, Endpoints};

fn plan_iri(value: &str) -> Iri {
    Iri::parse(value).expect("valid test IRI")
}

#[test]
fn delivery_steps_expand_followers_first() {
    let recipients = vec![
        Recipients::Actor(plan_iri("https://remote.example/users/bob")),
        Recipients::Followers(plan_iri("https://local.example/users/alice")),
        Recipients::Inbox(plan_iri("https://remote.example/inbox")),
    ];
    let steps = delivery_steps(&recipients);
    assert_eq!(
        steps,
        vec![
            DeliveryStep::ExpandFollowers {
                source: 1,
                actor_id: plan_iri("https://local.example/users/alice"),
            },
            DeliveryStep::ResolveActor {
                source: 0,
                actor_id: plan_iri("https://remote.example/users/bob"),
            },
            DeliveryStep::DirectInbox { source: 2, inbox: plan_iri("https://remote.example/inbox") },
        ]
    );
}

#[test]
fn delivery_plan_prefers_shared_inboxes_and_sends_each_inbox_once() {
    let mut plan = DeliveryPlan::new();
    let bob = StoredRecipient {
        actor_id: plan_iri("https://remote.example/users/bob"),
        inbox: plan_iri("https://remote.example/users/bob/inbox"),
        shared_inbox: Some(plan_iri("https://remote.example/inbox")),
    };
    let carol = StoredRecipient {
        actor_id: plan_iri("https://remote.example/users/carol"),
        inbox: plan_iri("https://remote.example/users/carol/inbox"),
        shared_inbox: Some(plan_iri("https://remote.example/inbox")),
    };
    let dave = StoredRecipient {
        actor_id: plan_iri("https://other.example/users/dave"),
        inbox: plan_iri("https://other.example/users/dave/inbox"),
        shared_inbox: None,
    };
    plan.add_follower_target(0, &bob);
    plan.add_follower_target(0, &carol);
    plan.add_follower_target(0, &dave);

    assert!(!plan.needs_resolution(&plan_iri("https://remote.example/users/bob")));
    assert!(!plan.needs_resolution(&plan_iri("https://remote.example/users/carol")));
    assert!(plan.needs_resolution(&plan_iri("https://remote.example/users/erin")));
    assert_eq!(
        plan.inboxes(),
        vec![
            plan_iri("https://remote.example/inbox"),
            plan_iri("https://other.example/users/dave/inbox"),
        ]
    );

    plan.add_resolved_actor(
        1,
        &plan_iri("https://remote.example/users/erin"),
        &plan_iri("https://remote.example/users/erin/inbox"),
    );
    plan.add_inbox(2, &plan_iri("https://other.example/users/dave/inbox"));
    assert!(!plan.needs_resolution(&plan_iri("https://remote.example/users/erin")));
    assert!(plan.plans_inbox(&plan_iri("https://remote.example/users/erin/inbox")));

    let deliveries = plan.into_deliveries();
    assert_eq!(deliveries.len(), 3);
    assert_eq!(deliveries[2].source, 1);
    assert_eq!(deliveries[2].inbox, plan_iri("https://remote.example/users/erin/inbox"));
}

#[test]
fn follow_delivery_prefers_the_shared_inbox() {
    let mut actor = Actor::person(
        plan_iri("https://remote.example/users/bob"),
        plan_iri("https://remote.example/users/bob/inbox"),
        plan_iri("https://remote.example/users/bob/outbox"),
    );
    assert_eq!(delivery_inbox_of(&actor).as_str(), "https://remote.example/users/bob/inbox");
    actor.endpoints = Some(Endpoints { shared_inbox: Some(plan_iri("https://remote.example/inbox")) });
    assert_eq!(delivery_inbox_of(&actor).as_str(), "https://remote.example/inbox");
}

#[test]
fn batches_report_their_first_failure() {
    let mut first: Option<&str> = None;
    record_first_failure(&mut first, "one");
    record_first_failure(&mut first, "two");
    assert_eq!(first, Some("one"));

    assert_eq!(batch_failure(Some(1), Some("resolve")), Some(DeliveryFailure::Send(1)));
    assert_eq!(
        batch_failure::<u8, &str>(None, Some("resolve")),
        Some(DeliveryFailure::Resolve("resolve"))
    );
    assert_eq!(batch_failure::<u8, &str>(None, None), None);
}
