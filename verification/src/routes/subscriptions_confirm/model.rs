//! Confirmations run against a store that holds a given ledger and does
//! what it is asked, and what holds of such runs.

use crate::collaborators::SubscriberStatus;
use crate::ledger::{
    confirmed, confirming_keeps_the_store_consistent, confirming_moves_nobody_back,
    only_moves_forward, Ledger,
};
use crate::routes::subscriptions_confirm::{
    confirm_step, response_status, ConfirmActionView, ConfirmError, ConfirmEventView,
    ConfirmState,
};
use vstd::prelude::*;

verus! {

/// What a store that holds `ledger` makes of `action`: what it holds
/// afterwards, and the event that reports the outcome.
pub open spec fn perform(ledger: Ledger, action: ConfirmActionView) -> (Ledger, ConfirmEventView) {
    match action {
        ConfirmActionView::FindSubscriber { subscription_token } => (
            ledger,
            ConfirmEventView::Found(Ok(ledger.subscriber_id_from_token(subscription_token))),
        ),
        ConfirmActionView::ConfirmSubscriber { subscriber_id } => (
            ledger.confirm_subscriber(subscriber_id),
            ConfirmEventView::Done(Ok(())),
        ),
        ConfirmActionView::Respond(_) => (ledger, ConfirmEventView::Done(Ok(()))),
    }
}

/// Carries a confirmation on from `state`, where `action` has been asked
/// for, until it answers or `steps` actions have been performed. It hands
/// back what the store holds in the end, and the answer if there is one.
pub open spec fn run(ledger: Ledger, state: ConfirmState, action: ConfirmActionView, steps: nat) -> (
    Ledger,
    Option<Result<(), ConfirmError>>,
)
    decreases steps,
{
    match action {
        ConfirmActionView::Respond(response) => (ledger, Some(response)),
        _ => if steps == 0 {
            (ledger, None)
        } else {
            let (after, event) = perform(ledger, action);
            let (next, asked) = confirm_step(state, event);
            run(after, next, asked, (steps - 1) as nat)
        },
    }
}

/// The confirmation of `subscription_token` from the request to the answer:
/// what the store holds afterwards, and the answer.
pub open spec fn confirmation(ledger: Ledger, subscription_token: Seq<char>) -> (
    Ledger,
    Option<Result<(), ConfirmError>>,
) {
    let (state, action) = confirm_step(
        ConfirmState::Idle,
        ConfirmEventView::Request { subscription_token },
    );
    run(ledger, state, action, 2)
}

/// A token that is bound to no subscriber is answered with 401, and the
/// store holds what it held.
pub proof fn unknown_token_is_refused(ledger: Ledger, subscription_token: Seq<char>)
    requires
        ledger.subscriber_id_from_token(subscription_token) is None,
    ensures
        confirmation(ledger, subscription_token) == (
            ledger,
            Some(Err::<(), ConfirmError>(ConfirmError::AuthError)),
        ),
        response_status(Err(ConfirmError::AuthError)) == 401,
{
    reveal_with_fuel(run, 3);
}

/// A token that is bound to a subscriber is answered with 200, and
/// afterwards that subscriber is confirmed and every other subscriber is as
/// before.
pub proof fn known_token_confirms(ledger: Ledger, subscription_token: Seq<char>, subscriber_id: u128)
    requires
        ledger.subscriber_id_from_token(subscription_token) == Some(subscriber_id),
    ensures
        confirmation(ledger, subscription_token) == (
            ledger.confirm_subscriber(subscriber_id),
            Some(Ok::<(), ConfirmError>(())),
        ),
        response_status(Ok(())) == 200,
        confirmation(ledger, subscription_token).0.subscriptions.len()
            == ledger.subscriptions.len(),
        forall|i: int|
            0 <= i < ledger.subscriptions.len() ==> {
                let before = ledger.subscriptions[i];
                let after = #[trigger] confirmation(ledger, subscription_token).0.subscriptions[i];
                if before.id == subscriber_id {
                    after == confirmed(before) && after.status == SubscriberStatus::Confirmed
                } else {
                    after == before
                }
            },
{
    reveal_with_fuel(run, 3);
}

/// Confirming with the same token a second time gives the same answer and
/// leaves the store as the first confirmation left it.
pub proof fn confirming_twice_changes_nothing(ledger: Ledger, subscription_token: Seq<char>)
    ensures
        confirmation(confirmation(ledger, subscription_token).0, subscription_token)
            == confirmation(ledger, subscription_token),
{
    reveal_with_fuel(run, 3);
    match ledger.subscriber_id_from_token(subscription_token) {
        None => {},
        Some(subscriber_id) => {
            let once = ledger.confirm_subscriber(subscriber_id);
            assert(once.subscriber_id_from_token(subscription_token) == Some(subscriber_id));
            assert(once.confirm_subscriber(subscriber_id).subscriptions =~= once.subscriptions);
        },
    }
}

/// A confirmation always answers, and it never moves a subscriber back from
/// confirmed to pending. It keeps a consistent store consistent.
pub proof fn confirmation_moves_nobody_back(ledger: Ledger, subscription_token: Seq<char>)
    ensures
        confirmation(ledger, subscription_token).1 is Some,
        only_moves_forward(ledger, confirmation(ledger, subscription_token).0),
        ledger.is_consistent() ==> confirmation(ledger, subscription_token).0.is_consistent(),
{
    reveal_with_fuel(run, 3);
    match ledger.subscriber_id_from_token(subscription_token) {
        None => {},
        Some(subscriber_id) => {
            confirming_moves_nobody_back(ledger, subscriber_id);
            if ledger.is_consistent() {
                confirming_keeps_the_store_consistent(ledger, subscriber_id);
            }
        },
    }
}

} // verus!
