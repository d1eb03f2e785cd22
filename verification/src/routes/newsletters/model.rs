//! Publications run against a store that holds a given ledger and a
//! dispatch service that sends what it is handed, and what holds of such
//! runs.

use crate::collaborators::{EmailView, SubscriberStatus, SubscriberView};
use crate::domain::email_syntax_is_valid;
use crate::ledger::Ledger;
use crate::routes::newsletters::credentials::{
    basic_credentials, credentials_verdict, CredentialsView,
};
use crate::routes::newsletters::{
    deliver, issue_for, publish_step, response_status, valid_addresses, AuthFailure,
    BodyDataView, PublishActionView, PublishError, PublishEventView, PublishStateView,
};
use vstd::prelude::*;

verus! {

/// The event with which the collaborators answer `action`, where the store
/// holds `ledger` and nothing fails.
pub open spec fn perform(ledger: Ledger, action: PublishActionView) -> PublishEventView {
    match action {
        PublishActionView::FetchCredentials { username } => PublishEventView::Credentials(
            Ok(ledger.stored_credentials(username)),
        ),
        PublishActionView::FetchConfirmedSubscribers => PublishEventView::Subscribers(
            Ok(ledger.confirmed_addresses()),
        ),
        PublishActionView::SendEmail(_) => PublishEventView::Dispatched(Ok(())),
        PublishActionView::Respond(_) => PublishEventView::Dispatched(Ok(())),
    }
}

/// Carries a publication on from `state`, where `action` has been asked
/// for, until it answers or `steps` actions have been performed. It hands
/// back the emails that were dispatched, in their order, and the answer if
/// there is one.
pub open spec fn run(
    ledger: Ledger,
    state: PublishStateView,
    action: PublishActionView,
    steps: nat,
) -> (Seq<EmailView>, Option<Result<(), PublishError>>)
    decreases steps,
{
    match action {
        PublishActionView::Respond(response) => (Seq::empty(), Some(response)),
        _ => if steps == 0 {
            (Seq::empty(), None)
        } else {
            let (next, asked) = publish_step(state, perform(ledger, action));
            let (dispatched, response) = run(ledger, next, asked, (steps - 1) as nat);
            match action {
                PublishActionView::SendEmail(email) => (seq![email] + dispatched, response),
                _ => (dispatched, response),
            }
        },
    }
}

/// The publication of `issue` from the request to the answer: the emails
/// that were dispatched, and the answer.
pub open spec fn publication(
    ledger: Ledger,
    authorization: Option<Seq<u8>>,
    issue: BodyDataView,
) -> (Seq<EmailView>, Option<Result<(), PublishError>>) {
    let (state, action) = publish_step(
        PublishStateView::Idle,
        PublishEventView::Request { authorization, issue },
    );
    run(ledger, state, action, ledger.subscriptions.len() + 2)
}

/// The emails that carry `issue` to `recipients`, one for each.
pub open spec fn issues_for(recipients: Seq<Seq<char>>, issue: BodyDataView) -> Seq<EmailView> {
    Seq::new(recipients.len(), |i: int| issue_for(recipients[i], issue))
}

/// The store that holds `ledger` knows a user of the name in `credentials`
/// whose password hash matches the password in `credentials`.
pub open spec fn authenticates(ledger: Ledger, credentials: CredentialsView) -> bool {
    credentials_verdict(credentials, Ok(ledger.stored_credentials(credentials.username))) is Ok
}

/// A request whose header carries no credentials is answered with 401, and
/// no email is dispatched. A request without the header is such a request.
pub proof fn request_without_credentials_is_refused(
    ledger: Ledger,
    authorization: Option<Seq<u8>>,
    issue: BodyDataView,
)
    requires
        basic_credentials(authorization) is Err,
    ensures
        publication(ledger, authorization, issue) == (
            Seq::<EmailView>::empty(),
            Some(
                Err::<(), PublishError>(
                    PublishError::AuthError(basic_credentials(authorization)->Err_0),
                ),
            ),
        ),
        response_status(Err(PublishError::AuthError(basic_credentials(authorization)->Err_0)))
            == 401,
        authorization is None ==> basic_credentials(authorization) == Err::<
            CredentialsView,
            AuthFailure,
        >(AuthFailure::MissingHeader),
{
    reveal_with_fuel(run, 2);
}

/// A request whose credentials the store does not bear out, where the user
/// is not known or the password is wrong, is answered with 401, and no email
/// is dispatched.
pub proof fn wrong_credentials_are_refused(
    ledger: Ledger,
    authorization: Option<Seq<u8>>,
    issue: BodyDataView,
    credentials: CredentialsView,
    failure: AuthFailure,
)
    requires
        basic_credentials(authorization) == Ok::<CredentialsView, AuthFailure>(credentials),
        credentials_verdict(credentials, Ok(ledger.stored_credentials(credentials.username)))
            == Err::<u128, PublishError>(PublishError::AuthError(failure)),
    ensures
        publication(ledger, authorization, issue) == (
            Seq::<EmailView>::empty(),
            Some(Err::<(), PublishError>(PublishError::AuthError(failure))),
        ),
        response_status(Err(PublishError::AuthError(failure))) == 401,
        failure == AuthFailure::UnknownUsername || failure == AuthFailure::InvalidPassword,
{
    reveal_with_fuel(run, 3);
}

/// A delivery that has come to the recipient at `sent` goes on to the last
/// recipient, if it is given the steps for it, and then answers with
/// success.
pub proof fn delivery_reaches_every_recipient(
    ledger: Ledger,
    issue: BodyDataView,
    recipients: Seq<Seq<char>>,
    sent: nat,
    steps: nat,
)
    requires
        sent <= recipients.len(),
        steps >= recipients.len() - sent,
    ensures
        run(ledger, deliver(issue, recipients, sent).0, deliver(issue, recipients, sent).1, steps)
            == (issues_for(recipients, issue).skip(sent as int), Some(Ok::<(), PublishError>(()))),
    decreases recipients.len() - sent,
{
    reveal_with_fuel(run, 2);
    let (state, action) = deliver(issue, recipients, sent);
    if sent < recipients.len() {
        delivery_reaches_every_recipient(ledger, issue, recipients, sent + 1, (steps - 1) as nat);
        let rest = issues_for(recipients, issue).skip(sent as int + 1);
        assert(seq![issue_for(recipients[sent as int], issue)] + rest =~= issues_for(
            recipients,
            issue,
        ).skip(sent as int));
    } else {
        assert(issues_for(recipients, issue).skip(sent as int) =~= Seq::<EmailView>::empty());
    }
}

/// A request with credentials that the store bears out is answered with
/// 200, and the issue is dispatched once to each confirmed subscriber
/// whose stored address is valid, in the order in which they were stored,
/// and to nobody else.
pub proof fn issue_reaches_confirmed_subscribers(
    ledger: Ledger,
    authorization: Option<Seq<u8>>,
    issue: BodyDataView,
    credentials: CredentialsView,
)
    requires
        basic_credentials(authorization) == Ok::<CredentialsView, AuthFailure>(credentials),
        authenticates(ledger, credentials),
    ensures
        publication(ledger, authorization, issue) == (
            issues_for(valid_addresses(ledger.confirmed_addresses()), issue),
            Some(Ok::<(), PublishError>(())),
        ),
        response_status(Ok(())) == 200,
{
    reveal_with_fuel(run, 3);
    let recipients = valid_addresses(ledger.confirmed_addresses());
    let confirmed = ledger.confirmed_subscribers();
    assert(recipients.len() <= ledger.subscriptions.len()) by {
        ledger.confirmed_addresses().lemma_filter_len(
            |row: Seq<char>| email_syntax_is_valid(row),
        );
        ledger.subscriptions.lemma_filter_len(
            |subscriber: SubscriberView| subscriber.status == SubscriberStatus::Confirmed,
        );
    }
    delivery_reaches_every_recipient(ledger, issue, recipients, 0, ledger.subscriptions.len());
    assert(issues_for(recipients, issue).skip(0) =~= issues_for(recipients, issue));
}

/// Every subscriber among the confirmed ones is confirmed, and is a
/// subscriber that the store holds.
pub proof fn confirmed_subscribers_are_confirmed(ledger: Ledger, i: int)
    requires
        0 <= i < ledger.confirmed_subscribers().len(),
    ensures
        ledger.confirmed_subscribers()[i].status == SubscriberStatus::Confirmed,
        ledger.subscriptions.contains(ledger.confirmed_subscribers()[i]),
{
    let is_confirmed = |subscriber: SubscriberView|
        subscriber.status == SubscriberStatus::Confirmed;
    ledger.subscriptions.lemma_filter_pred(is_confirmed, i);
    assert(ledger.confirmed_subscribers().contains(ledger.confirmed_subscribers()[i]));
    ledger.subscriptions.lemma_filter_contains_rev(is_confirmed, ledger.confirmed_subscribers()[i]);
}

/// Where every address is valid, none is dropped.
pub proof fn valid_addresses_are_kept(rows: Seq<Seq<char>>)
    requires
        forall|i: int| 0 <= i < rows.len() ==> email_syntax_is_valid(#[trigger] rows[i]),
    ensures
        valid_addresses(rows) == rows,
    decreases rows.len(),
{
    reveal(Seq::filter);
    if rows.len() > 0 {
        valid_addresses_are_kept(rows.drop_last());
        assert(rows.drop_last().push(rows.last()) =~= rows);
    }
}

/// With credentials that the store bears out, nobody is sent the issue but
/// the confirmed subscribers: each email that is dispatched carries the
/// issue to the address of a subscriber whom the store holds as confirmed.
pub proof fn nobody_else_is_sent_the_issue(
    ledger: Ledger,
    authorization: Option<Seq<u8>>,
    issue: BodyDataView,
    credentials: CredentialsView,
    k: int,
)
    requires
        basic_credentials(authorization) == Ok::<CredentialsView, AuthFailure>(credentials),
        authenticates(ledger, credentials),
        0 <= k < publication(ledger, authorization, issue).0.len(),
    ensures
        exists|i: int|
            0 <= i < ledger.subscriptions.len() && (#[trigger] ledger.subscriptions[i]).status
                == SubscriberStatus::Confirmed && publication(ledger, authorization, issue).0[k]
                == issue_for(ledger.subscriptions[i].email, issue),
{
    issue_reaches_confirmed_subscribers(ledger, authorization, issue, credentials);
    let addresses = ledger.confirmed_addresses();
    let is_valid = |row: Seq<char>| email_syntax_is_valid(row);
    let recipient = valid_addresses(addresses)[k];
    assert(addresses.filter(is_valid).contains(recipient));
    addresses.lemma_filter_contains_rev(is_valid, recipient);
    let j = choose|j: int| 0 <= j < addresses.len() && addresses[j] == recipient;
    confirmed_subscribers_are_confirmed(ledger, j);
    let subscriber = ledger.confirmed_subscribers()[j];
    let i = choose|i: int| 0 <= i < ledger.subscriptions.len() && ledger.subscriptions[i] == subscriber;
    assert(ledger.subscriptions[i].status == SubscriberStatus::Confirmed);
}

/// With credentials that the store bears out, and where every stored
/// address is valid, the issue is dispatched exactly once for each confirmed
/// subscriber: the emails are as many as the confirmed subscribers, and
/// each goes to the subscriber in its place.
pub proof fn one_email_for_each_confirmed_subscriber(
    ledger: Ledger,
    authorization: Option<Seq<u8>>,
    issue: BodyDataView,
    credentials: CredentialsView,
)
    requires
        basic_credentials(authorization) == Ok::<CredentialsView, AuthFailure>(credentials),
        authenticates(ledger, credentials),
        forall|i: int|
            0 <= i < ledger.subscriptions.len() ==> email_syntax_is_valid(
                (#[trigger] ledger.subscriptions[i]).email,
            ),
    ensures
        publication(ledger, authorization, issue).1 == Some(Ok::<(), PublishError>(())),
        publication(ledger, authorization, issue).0.len() == ledger.confirmed_subscribers().len(),
        forall|k: int|
            0 <= k < ledger.confirmed_subscribers().len() ==> #[trigger] publication(
                ledger,
                authorization,
                issue,
            ).0[k] == issue_for(ledger.confirmed_subscribers()[k].email, issue),
{
    issue_reaches_confirmed_subscribers(ledger, authorization, issue, credentials);
    let addresses = ledger.confirmed_addresses();
    assert forall|j: int| 0 <= j < addresses.len() implies email_syntax_is_valid(
        #[trigger] addresses[j],
    ) by {
        confirmed_subscribers_are_confirmed(ledger, j);
        let subscriber = ledger.confirmed_subscribers()[j];
        let i = choose|i: int|
            0 <= i < ledger.subscriptions.len() && ledger.subscriptions[i] == subscriber;
        assert(email_syntax_is_valid(ledger.subscriptions[i].email));
    }
    valid_addresses_are_kept(addresses);
}

} // verus!
