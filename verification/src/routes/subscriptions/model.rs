//! Subscriptions run against a store and a dispatch service that may fail,
//! and what holds of such runs.

use crate::collaborators::{EmailView, SubscriberStatus, Unavailable};
use crate::domain::validated;
use crate::ledger::{
    inserting_moves_nobody_back, only_moves_forward, subscribing_keeps_the_store_consistent, Ledger,
};
use crate::routes::subscriptions::{
    confirmation_email, confirmation_link, html_body, pending_subscriber, plain_body,
    response_status, subscribe_step, FormDataView, Fresh, SubscribeActionView,
    SubscribeErrorView, SubscribeEventView, SubscribeStateView,
};
use vstd::prelude::*;

verus! {

/// The collaborators as a subscription meets them.
pub struct World {
    /// What the store holds for good.
    pub committed: Ledger,
    /// What the store holds within the open transaction, if one is open.
    pub staged: Option<Ledger>,
    /// The emails that have been dispatched, in their order.
    pub outbox: Seq<EmailView>,
}

impl World {
    /// The world in which the store holds `ledger`, no transaction is open
    /// and no email has been dispatched.
    pub open spec fn at_rest(ledger: Ledger) -> World {
        World { committed: ledger, staged: None, outbox: Seq::empty() }
    }

    /// The world once an open transaction has been given up.
    pub open spec fn rolled_back(self) -> World {
        World { staged: None, ..self }
    }
}

/// What the collaborators make of `action`: the world afterwards, and the
/// event that reports the outcome. Where `available` is false, the
/// collaborator that is asked fails and does nothing.
///
/// The store takes a subscriber or a token only within a transaction, and
/// only if the identifier or the token is not in use: both are keys.
pub open spec fn perform(world: World, action: SubscribeActionView, available: bool) -> (
    World,
    SubscribeEventView,
) {
    let failed = SubscribeEventView::Done(Err(Unavailable));
    let done = SubscribeEventView::Done(Ok(()));
    match action {
        SubscribeActionView::BeginTransaction => if available {
            (World { staged: Some(world.committed), ..world }, done)
        } else {
            (world, failed)
        },
        SubscribeActionView::InsertSubscriber(subscriber) => match world.staged {
            Some(ledger) => if available && !ledger.holds_subscriber(subscriber.id) {
                (World { staged: Some(ledger.insert_subscriber(subscriber)), ..world }, done)
            } else {
                (world, failed)
            },
            None => (world, failed),
        },
        SubscribeActionView::StoreToken { subscription_token, subscriber_id } => match world.staged {
            Some(ledger) => if available && !ledger.subscription_tokens.dom().contains(
                subscription_token,
            ) {
                (
                    World {
                        staged: Some(ledger.store_token(subscription_token, subscriber_id)),
                        ..world
                    },
                    done,
                )
            } else {
                (world, failed)
            },
            None => (world, failed),
        },
        SubscribeActionView::Commit => match world.staged {
            Some(ledger) => if available {
                (World { committed: ledger, staged: None, ..world }, done)
            } else {
                (world.rolled_back(), failed)
            },
            None => (world, failed),
        },
        SubscribeActionView::SendEmail(email) => if available {
            (World { outbox: world.outbox.push(email), ..world }, done)
        } else {
            (world, failed)
        },
        SubscribeActionView::Respond(_) => (world.rolled_back(), done),
    }
}

/// Carries a subscription on from `state`, where `action` has been asked
/// for, until it answers or `steps` actions have been performed. The
/// action with the number `step` fails if `faults` holds that number. It
/// hands back the world in the end, and the answer if there is one.
pub open spec fn run(
    world: World,
    state: SubscribeStateView,
    action: SubscribeActionView,
    fresh: Fresh,
    faults: Set<nat>,
    step: nat,
    steps: nat,
) -> (World, Option<Result<(), SubscribeErrorView>>)
    decreases steps,
{
    match action {
        SubscribeActionView::Respond(response) => (world.rolled_back(), Some(response)),
        _ => if steps == 0 {
            (world, None)
        } else {
            let (after, event) = perform(world, action, !faults.contains(step));
            let (next, asked) = subscribe_step(state, event, fresh);
            run(after, next, asked, fresh, faults, step + 1, (steps - 1) as nat)
        },
    }
}

/// The subscription of `form` from the request to the answer, at a store
/// that holds `ledger`: the world afterwards, and the answer. The actions
/// are numbered from 0: the transaction is opened, the subscriber is stored,
/// the token is stored, the transaction is committed, the email is
/// dispatched.
pub open spec fn subscription(
    ledger: Ledger,
    form: FormDataView,
    base_url: Seq<char>,
    fresh: Fresh,
    faults: Set<nat>,
) -> (World, Option<Result<(), SubscribeErrorView>>) {
    let (state, action) = subscribe_step(
        SubscribeStateView::Idle,
        SubscribeEventView::Request { form, base_url },
        fresh,
    );
    run(World::at_rest(ledger), state, action, fresh, faults, 0, 5)
}

/// What the store holds once the subscriber of `form` and the token are
/// stored.
pub open spec fn subscribed(ledger: Ledger, form: FormDataView, fresh: Fresh) -> Ledger {
    ledger.insert_subscriber(
        pending_subscriber(validated(form)->Ok_0, fresh.subscriber_id, fresh.subscribed_at),
    ).store_token(fresh.subscription_token, fresh.subscriber_id)
}

/// Neither the identifier nor the token that the subscription draws is in
/// use.
pub open spec fn is_unused(ledger: Ledger, fresh: Fresh) -> bool {
    &&& !ledger.holds_subscriber(fresh.subscriber_id)
    &&& !ledger.subscription_tokens.dom().contains(fresh.subscription_token)
}

/// `needle` occurs in `haystack`.
pub open spec fn occurs_in(needle: Seq<char>, haystack: Seq<char>) -> bool {
    exists|i: int|
        0 <= i <= haystack.len() - needle.len() && #[trigger] haystack.subrange(
            i,
            i + needle.len(),
        ) == needle
}

/// A form that is not valid is answered with 400 and the message that
/// rejects it. Nothing is stored and nothing is dispatched.
pub proof fn invalid_form_is_rejected(
    ledger: Ledger,
    form: FormDataView,
    base_url: Seq<char>,
    fresh: Fresh,
    faults: Set<nat>,
)
    requires
        validated(form) is Err,
    ensures
        subscription(ledger, form, base_url, fresh, faults) == (
            World::at_rest(ledger),
            Some(
                Err::<(), SubscribeErrorView>(
                    SubscribeErrorView::ValidationError(validated(form)->Err_0),
                ),
            ),
        ),
        response_status(Err(SubscribeErrorView::ValidationError(validated(form)->Err_0))) == 400,
{
    reveal_with_fuel(run, 2);
}

/// Where nothing fails, a valid form is answered with 200. The store
/// then holds one more subscriber, who is pending, and one more token, which
/// is bound to that subscriber. One email has been dispatched: the one that
/// asks that subscriber to confirm with that token.
pub proof fn valid_form_is_subscribed(
    ledger: Ledger,
    form: FormDataView,
    base_url: Seq<char>,
    fresh: Fresh,
)
    requires
        validated(form) is Ok,
        is_unused(ledger, fresh),
    ensures
        subscription(ledger, form, base_url, fresh, Set::empty()) == (
            World {
                committed: subscribed(ledger, form, fresh),
                staged: None,
                outbox: seq![
                    confirmation_email(validated(form)->Ok_0, base_url, fresh.subscription_token),
                ],
            },
            Some(Ok::<(), SubscribeErrorView>(())),
        ),
        response_status(Ok(())) == 200,
        subscribed(ledger, form, fresh).subscriptions == ledger.subscriptions.push(
            pending_subscriber(validated(form)->Ok_0, fresh.subscriber_id, fresh.subscribed_at),
        ),
        subscribed(ledger, form, fresh).subscriptions.last().status == SubscriberStatus::Pending,
        subscribed(ledger, form, fresh).subscriptions.last().email == form.email,
        subscribed(ledger, form, fresh).subscriptions.last().name == form.name,
        subscribed(ledger, form, fresh).subscription_tokens.dom()
            == ledger.subscription_tokens.dom().insert(fresh.subscription_token),
        subscribed(ledger, form, fresh).subscriber_id_from_token(fresh.subscription_token) == Some(
            subscribed(ledger, form, fresh).subscriptions.last().id,
        ),
{
    reveal_with_fuel(run, 6);
    let outbox = Seq::<EmailView>::empty().push(
        confirmation_email(validated(form)->Ok_0, base_url, fresh.subscription_token),
    );
    assert(outbox =~= seq![
        confirmation_email(validated(form)->Ok_0, base_url, fresh.subscription_token),
    ]);
}

/// Both bodies of the email that asks to confirm hold the same link, and
/// that link holds the token.
pub proof fn both_bodies_carry_the_link(
    name: Seq<char>,
    base_url: Seq<char>,
    subscription_token: Seq<char>,
)
    ensures
        occurs_in(
            confirmation_link(base_url, subscription_token),
            html_body(name, confirmation_link(base_url, subscription_token)),
        ),
        occurs_in(
            confirmation_link(base_url, subscription_token),
            plain_body(name, confirmation_link(base_url, subscription_token)),
        ),
        occurs_in(subscription_token, confirmation_link(base_url, subscription_token)),
{
    let link = confirmation_link(base_url, subscription_token);
    let html = html_body(name, link);
    let plain = plain_body(name, link);
    let before_token = base_url + "/subscriptions/confirm?subscription_token="@;
    assert(link.subrange(
        before_token.len() as int,
        before_token.len() as int + subscription_token.len(),
    )
        =~= subscription_token);
    let before_html = "Welcome to the newsletter, "@ + name + "! Click <a href=\""@;
    assert(html.subrange(before_html.len() as int, before_html.len() as int + link.len()) =~= link);
    let before_plain = "Welcome to the newsletter, "@ + name
        + "! Click here to confirm your subscription: "@;
    assert(plain.subrange(before_plain.len() as int, before_plain.len() as int + link.len()) =~= link);
}

/// Whatever fails, the subscription answers, no transaction stays open, and
/// the store holds the new subscriber together with the token or neither of
/// them. It holds both if and only if nothing failed before the email was
/// to be dispatched, and the email is dispatched only then. The answer is
/// success if nothing failed at all, and 500 otherwise: also where the
/// subscriber and the token are stored and only the dispatch failed.
pub proof fn subscriber_and_token_are_stored_together(
    ledger: Ledger,
    form: FormDataView,
    base_url: Seq<char>,
    fresh: Fresh,
    faults: Set<nat>,
)
    requires
        validated(form) is Ok,
        is_unused(ledger, fresh),
    ensures
        ({
            let (world, response) = subscription(ledger, form, base_url, fresh, faults);
            let stored = !faults.contains(0) && !faults.contains(1) && !faults.contains(2)
                && !faults.contains(3);
            let sent = stored && !faults.contains(4);
            &&& world.staged is None
            &&& world.committed == if stored {
                subscribed(ledger, form, fresh)
            } else {
                ledger
            }
            &&& world.outbox == if sent {
                seq![confirmation_email(validated(form)->Ok_0, base_url, fresh.subscription_token)]
            } else {
                Seq::<EmailView>::empty()
            }
            &&& response is Some
            &&& response->0 is Ok <==> sent
            &&& response->0 is Err ==> response_status(response->0) == 500
            &&& only_moves_forward(ledger, world.committed)
            &&& ledger.is_consistent() ==> world.committed.is_consistent()
        }),
{
    reveal_with_fuel(run, 6);
    let outbox = Seq::<EmailView>::empty().push(
        confirmation_email(validated(form)->Ok_0, base_url, fresh.subscription_token),
    );
    assert(outbox =~= seq![
        confirmation_email(validated(form)->Ok_0, base_url, fresh.subscription_token),
    ]);
    let subscriber = pending_subscriber(
        validated(form)->Ok_0,
        fresh.subscriber_id,
        fresh.subscribed_at,
    );
    inserting_moves_nobody_back(ledger, subscriber);
    if ledger.is_consistent() {
        subscribing_keeps_the_store_consistent(ledger, subscriber, fresh.subscription_token);
    }
}

/// Where the store is consistent, the token of a subscription is the only
/// token that is bound to the new subscriber.
pub proof fn one_token_is_bound_to_the_new_subscriber(
    ledger: Ledger,
    form: FormDataView,
    fresh: Fresh,
    subscription_token: Seq<char>,
)
    requires
        validated(form) is Ok,
        is_unused(ledger, fresh),
        ledger.is_consistent(),
    ensures
        subscribed(ledger, form, fresh).subscriber_id_from_token(subscription_token) == Some(
            fresh.subscriber_id,
        ) <==> subscription_token == fresh.subscription_token,
{
    let subscriber = pending_subscriber(
        validated(form)->Ok_0,
        fresh.subscriber_id,
        fresh.subscribed_at,
    );
    subscribing_keeps_the_store_consistent(ledger, subscriber, fresh.subscription_token);
    assert(ledger.subscription_tokens.dom().contains(subscription_token)
        || !ledger.subscription_tokens.dom().contains(subscription_token));
}

} // verus!
