//! A model of what the store holds: the subscribers, the tokens and the
//! users. The services never see the store itself; their runs against this
//! model say what they do to it.

use crate::collaborators::{StoredCredentialsView, SubscriberStatus, SubscriberView};
use vstd::prelude::*;

verus! {

/// What the store holds.
pub struct Ledger {
    /// The subscribers, in the order in which they were stored.
    pub subscriptions: Seq<SubscriberView>,
    /// The subscriber to whom each token is bound.
    pub subscription_tokens: Map<Seq<char>, u128>,
    /// The users, by their names.
    pub users: Map<Seq<char>, StoredCredentialsView>,
}

/// `subscriber` once it is confirmed.
pub open spec fn confirmed(subscriber: SubscriberView) -> SubscriberView {
    SubscriberView { status: SubscriberStatus::Confirmed, ..subscriber }
}

impl Ledger {
    /// The ledger with one more subscriber.
    pub open spec fn insert_subscriber(self, subscriber: SubscriberView) -> Ledger {
        Ledger { subscriptions: self.subscriptions.push(subscriber), ..self }
    }

    /// The ledger with `subscription_token` bound to the subscriber
    /// `subscriber_id`.
    pub open spec fn store_token(self, subscription_token: Seq<char>, subscriber_id: u128) -> Ledger {
        Ledger {
            subscription_tokens: self.subscription_tokens.insert(subscription_token, subscriber_id),
            ..self
        }
    }

    /// The subscriber to whom `subscription_token` is bound, if it is bound
    /// to one.
    pub open spec fn subscriber_id_from_token(self, subscription_token: Seq<char>) -> Option<u128> {
        if self.subscription_tokens.dom().contains(subscription_token) {
            Some(self.subscription_tokens[subscription_token])
        } else {
            None
        }
    }

    /// The ledger with the subscriber `subscriber_id` marked as confirmed,
    /// whatever the status was before.
    pub open spec fn confirm_subscriber(self, subscriber_id: u128) -> Ledger {
        Ledger {
            subscriptions: self.subscriptions.map_values(
                |subscriber: SubscriberView|
                    if subscriber.id == subscriber_id {
                        confirmed(subscriber)
                    } else {
                        subscriber
                    },
            ),
            ..self
        }
    }

    /// The subscribers who have confirmed, in the order in which they were
    /// stored.
    pub open spec fn confirmed_subscribers(self) -> Seq<SubscriberView> {
        self.subscriptions.filter(
            |subscriber: SubscriberView| subscriber.status == SubscriberStatus::Confirmed,
        )
    }

    /// The addresses of the subscribers who have confirmed.
    pub open spec fn confirmed_addresses(self) -> Seq<Seq<char>> {
        self.confirmed_subscribers().map_values(|subscriber: SubscriberView| subscriber.email)
    }

    /// What the store holds about the user `username`, if there is such a
    /// user.
    pub open spec fn stored_credentials(self, username: Seq<char>) -> Option<
        StoredCredentialsView,
    > {
        if self.users.dom().contains(username) {
            Some(self.users[username])
        } else {
            None
        }
    }
}

impl Ledger {
    /// The store holds a subscriber with this identifier.
    pub open spec fn holds_subscriber(self, subscriber_id: u128) -> bool {
        exists|i: int|
            0 <= i < self.subscriptions.len() && (#[trigger] self.subscriptions[i]).id
                == subscriber_id
    }

    /// What the keys of the store see to: no two subscribers share an
    /// identifier, and every token is bound to a subscriber that the store
    /// holds.
    pub open spec fn is_consistent(self) -> bool {
        &&& forall|i: int, j: int|
            0 <= i < j < self.subscriptions.len() ==> (#[trigger] self.subscriptions[i]).id != (
            #[trigger] self.subscriptions[j]).id
        &&& forall|subscription_token: Seq<char>|
            self.subscription_tokens.dom().contains(subscription_token) ==> self.holds_subscriber(
                #[trigger] self.subscription_tokens[subscription_token],
            )
    }
}

/// No subscriber of `before` is missing from `after` or has moved back from
/// confirmed to pending, and nothing but the status of a subscriber has
/// changed.
pub open spec fn only_moves_forward(before: Ledger, after: Ledger) -> bool {
    &&& before.subscriptions.len() <= after.subscriptions.len()
    &&& forall|i: int|
        0 <= i < before.subscriptions.len() ==> {
            let old = #[trigger] before.subscriptions[i];
            let new = after.subscriptions[i];
            new == old || (old.status == SubscriberStatus::Pending && new == confirmed(old))
        }
}

/// Storing a subscriber moves no subscriber back.
pub proof fn inserting_moves_nobody_back(ledger: Ledger, subscriber: SubscriberView)
    ensures
        only_moves_forward(ledger, ledger.insert_subscriber(subscriber)),
{
}

/// Storing a token leaves the subscribers as they are.
pub proof fn storing_a_token_moves_nobody_back(
    ledger: Ledger,
    subscription_token: Seq<char>,
    subscriber_id: u128,
)
    ensures
        only_moves_forward(ledger, ledger.store_token(subscription_token, subscriber_id)),
{
}

/// Confirming a subscriber moves no subscriber back.
pub proof fn confirming_moves_nobody_back(ledger: Ledger, subscriber_id: u128)
    ensures
        only_moves_forward(ledger, ledger.confirm_subscriber(subscriber_id)),
{
    let after = ledger.confirm_subscriber(subscriber_id);
    assert forall|i: int| 0 <= i < ledger.subscriptions.len() implies {
        let old = #[trigger] ledger.subscriptions[i];
        let new = after.subscriptions[i];
        new == old || (old.status == SubscriberStatus::Pending && new == confirmed(old))
    } by {
        let old = ledger.subscriptions[i];
        if old.id == subscriber_id && old.status == SubscriberStatus::Confirmed {
            assert(confirmed(old) == old);
        }
    }
}

/// Moving forward is transitive: what holds of each step holds of a run.
pub proof fn moving_forward_is_transitive(first: Ledger, second: Ledger, third: Ledger)
    requires
        only_moves_forward(first, second),
        only_moves_forward(second, third),
    ensures
        only_moves_forward(first, third),
{
    assert forall|i: int| 0 <= i < first.subscriptions.len() implies {
        let old = #[trigger] first.subscriptions[i];
        let new = third.subscriptions[i];
        new == old || (old.status == SubscriberStatus::Pending && new == confirmed(old))
    } by {
        let a = first.subscriptions[i];
        let b = second.subscriptions[i];
        let c = third.subscriptions[i];
        assert(b == a || (a.status == SubscriberStatus::Pending && b == confirmed(a)));
        assert(c == b || (b.status == SubscriberStatus::Pending && c == confirmed(b)));
    }
}

/// Confirming a subscriber a second time changes nothing.
pub proof fn confirming_is_idempotent(ledger: Ledger, subscriber_id: u128)
    ensures
        ledger.confirm_subscriber(subscriber_id).confirm_subscriber(subscriber_id)
            == ledger.confirm_subscriber(subscriber_id),
{
    let once = ledger.confirm_subscriber(subscriber_id);
    let twice = once.confirm_subscriber(subscriber_id);
    assert(twice.subscriptions =~= once.subscriptions);
}

/// After a subscriber has been confirmed, every subscriber with that
/// identifier is confirmed, and every other subscriber is as before.
pub proof fn confirming_confirms(ledger: Ledger, subscriber_id: u128)
    ensures
        ledger.confirm_subscriber(subscriber_id).subscriptions.len() == ledger.subscriptions.len(),
        forall|i: int|
            0 <= i < ledger.subscriptions.len() ==> {
                let before = ledger.subscriptions[i];
                let after = #[trigger] ledger.confirm_subscriber(subscriber_id).subscriptions[i];
                if before.id == subscriber_id {
                    after == confirmed(before)
                } else {
                    after == before
                }
            },
{
}

/// Confirming a subscriber keeps the store consistent.
pub proof fn confirming_keeps_the_store_consistent(ledger: Ledger, subscriber_id: u128)
    requires
        ledger.is_consistent(),
    ensures
        ledger.confirm_subscriber(subscriber_id).is_consistent(),
{
    let after = ledger.confirm_subscriber(subscriber_id);
    assert forall|subscription_token: Seq<char>|
        after.subscription_tokens.dom().contains(
            subscription_token,
        ) implies after.holds_subscriber(#[trigger] after.subscription_tokens[subscription_token]) by {
        let bound = ledger.subscription_tokens[subscription_token];
        assert(ledger.holds_subscriber(bound));
        let i = choose|i: int|
            0 <= i < ledger.subscriptions.len() && (#[trigger] ledger.subscriptions[i]).id == bound;
        assert(after.subscriptions[i].id == bound);
    }
}

/// Storing a subscriber under an identifier that is not in use, and a token
/// that is not in use for that subscriber, keeps the store consistent. The
/// token is then the only one that is bound to the new subscriber.
pub proof fn subscribing_keeps_the_store_consistent(
    ledger: Ledger,
    subscriber: SubscriberView,
    subscription_token: Seq<char>,
)
    requires
        ledger.is_consistent(),
        !ledger.holds_subscriber(subscriber.id),
        !ledger.subscription_tokens.dom().contains(subscription_token),
    ensures
        ledger.insert_subscriber(subscriber).store_token(
            subscription_token,
            subscriber.id,
        ).is_consistent(),
        forall|other: Seq<char>|
            #![trigger ledger.subscription_tokens.dom().contains(other)]
            {
                let after = ledger.insert_subscriber(subscriber).store_token(
                    subscription_token,
                    subscriber.id,
                );
                after.subscriber_id_from_token(other) == Some(subscriber.id) <==> other
                    == subscription_token
            },
{
    let after = ledger.insert_subscriber(subscriber).store_token(subscription_token, subscriber.id);
    assert(after.subscriptions.last() == subscriber);
    assert forall|other: Seq<char>|
        after.subscription_tokens.dom().contains(other) implies after.holds_subscriber(
        #[trigger] after.subscription_tokens[other],
    ) by {
        if other == subscription_token {
            assert(after.subscriptions[after.subscriptions.len() - 1].id == subscriber.id);
        } else {
            let bound = ledger.subscription_tokens[other];
            assert(ledger.holds_subscriber(bound));
            let i = choose|i: int|
                0 <= i < ledger.subscriptions.len() && (#[trigger] ledger.subscriptions[i]).id
                    == bound;
            assert(after.subscriptions[i].id == bound);
        }
    }
    assert forall|other: Seq<char>|
        #![trigger ledger.subscription_tokens.dom().contains(other)]
        after.subscriber_id_from_token(other) == Some(subscriber.id) <==> other
            == subscription_token by {
        if other != subscription_token && ledger.subscription_tokens.dom().contains(other) {
            assert(ledger.holds_subscriber(ledger.subscription_tokens[other]));
        }
    }
}

} // verus!
