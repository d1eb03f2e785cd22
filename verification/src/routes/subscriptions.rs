//! Subscribing: a new subscriber is stored as pending, together with a
//! token, and is sent an email with the link that confirms the subscription.

use crate::collaborators::{
    Email, EmailView, Subscriber, SubscriberStatus, SubscriberView, Timestamp, Unavailable,
};
use crate::domain::{validated, NewSubscriber, NewSubscriberView};
use crate::routes::MalformedRequest;
use chrono::Utc;
use rand::distributions::Alphanumeric;
use rand::rngs::ThreadRng;
use rand::{thread_rng, Rng};
use uuid::Uuid;
use vstd::prelude::*;

pub mod model;

verus! {

/// The handle to the random number generator of a thread. It is carried to
/// the calls that draw from it and nothing is read from it.
#[verifier::external_type_specification]
#[verifier::external_body]
pub struct ExThreadRng(ThreadRng);

/// What a person hands in to subscribe.
pub struct FormData {
    pub email: String,
    pub name: String,
}

/// The mathematical value of `FormData`.
pub struct FormDataView {
    pub email: Seq<char>,
    pub name: Seq<char>,
}

impl View for FormData {
    type V = FormDataView;

    open spec fn view(&self) -> FormDataView {
        FormDataView { email: self.email@, name: self.name@ }
    }
}

impl FormData {
    /// Puts a form together from the fields of a request. A request without
    /// a name or without an email address is malformed.
    pub fn from_fields(name: Option<String>, email: Option<String>) -> (result: Result<
        FormData,
        MalformedRequest,
    >)
        ensures
            result is Ok <==> name is Some && email is Some,
            result matches Ok(form) ==> form.name@ == name->0@ && form.email@ == email->0@,
    {
        match (name, email) {
            (Some(name), Some(email)) => Ok(FormData { email, name }),
            _ => Err(MalformedRequest),
        }
    }
}

/// The address under which the application is reached from outside.
pub struct ApplicationBaseUrl(pub String);

/// The number of characters of a subscription token.
pub const TOKEN_LENGTH: usize = 25;

/// A letter of the English alphabet or a digit, in ASCII.
pub open spec fn is_alphanumeric(c: char) -> bool {
    ('A' <= c && c <= 'Z') || ('a' <= c && c <= 'z') || ('0' <= c && c <= '9')
}

/// What every subscription token is: `TOKEN_LENGTH` letters and digits.
pub open spec fn is_subscription_token(token: Seq<char>) -> bool {
    &&& token.len() == TOKEN_LENGTH
    &&& forall|i: int| 0 <= i < token.len() ==> is_alphanumeric(#[trigger] token[i])
}

/// What every identifier that `Uuid::new_v4` makes has: the version 4 and
/// the variant of RFC 4122 in their places, whatever the other bits are.
pub open spec fn is_version_4(id: u128) -> bool {
    id & 0x0000_0000_0000_f000_c000_0000_0000_0000 == 0x0000_0000_0000_4000_8000_0000_0000_0000
}

/// What every reading of the clock has: it lies after the start of 1970, and
/// its nanoseconds stay below a full second.
pub open spec fn is_clock_reading(time: Timestamp) -> bool {
    time.seconds >= 0 && time.nanos < 1_000_000_000
}

/// Calls `rand::thread_rng`, which hands out a handle to the generator of
/// the current thread. It relies on an operating system that seeds the
/// generator.
#[verifier::external_body]
fn thread_generator() -> ThreadRng {
    thread_rng()
}

/// Calls `Rng::sample` with the distribution `Alphanumeric`.
///
/// Which byte comes back is up to chance; it is always one of the ASCII
/// letters and digits.
#[verifier::external_body]
fn sample_alphanumeric(rng: &mut ThreadRng) -> (byte: u8)
    ensures
        is_alphanumeric(byte as char),
{
    rng.sample(Alphanumeric)
}

/// Calls `String::push`, which appends one character.
#[verifier::external_body]
fn push_char(text: &mut String, c: char)
    ensures
        final(text)@ == old(text)@.push(c),
{
    text.push(c)
}

/// Calls `Uuid::new_v4` and hands back the identifier as a number.
///
/// The identifier is random but for the bits that hold the version and the
/// variant. It relies on an operating system that gives out randomness.
#[verifier::external_body]
fn new_v4() -> (id: u128)
    ensures
        is_version_4(id),
{
    Uuid::new_v4().as_u128()
}

/// Calls `Utc::now` and hands back the reading as a `Timestamp`.
///
/// The reading is taken from the system clock as a duration since the start
/// of 1970, so it is not negative, and its nanoseconds are those of a
/// duration. It relies on a system clock that is not set before 1970.
#[verifier::external_body]
fn now() -> (time: Timestamp)
    ensures
        is_clock_reading(time),
{
    let now = Utc::now();
    Timestamp { seconds: now.timestamp(), nanos: now.timestamp_subsec_nanos() }
}

/// The text that has, for each of the given bytes, the character of that
/// code point.
pub open spec fn text_of(samples: Seq<u8>) -> Seq<char> {
    Seq::new(samples.len(), |i: int| samples[i] as char)
}

/// Writes the given bytes as a text: each byte gives the character of its
/// code point.
pub fn token_from(samples: &Vec<u8>) -> (token: String)
    ensures
        token@ == text_of(samples@),
{
    let mut token = String::new();
    let mut i: usize = 0;
    while i < samples.len()
        invariant
            i <= samples.len(),
            token@ == text_of(samples@.take(i as int)),
        decreases samples.len() - i,
    {
        push_char(&mut token, samples[i] as char);
        i += 1;
        assert(token@ =~= text_of(samples@.take(i as int)));
    }
    assert(samples@.take(samples.len() as int) == samples@);
    token
}

/// Makes a fresh subscription token.
pub fn generate_subscription_token() -> (token: String)
    ensures
        is_subscription_token(token@),
{
    let mut rng = thread_generator();
    let mut samples: Vec<u8> = Vec::new();
    while samples.len() < TOKEN_LENGTH
        invariant
            samples.len() <= TOKEN_LENGTH,
            forall|j: int| 0 <= j < samples.len() ==> is_alphanumeric(#[trigger] samples[j] as char),
        decreases TOKEN_LENGTH - samples.len(),
    {
        samples.push(sample_alphanumeric(&mut rng));
    }
    token_from(&samples)
}

/// The subscriber that is stored for `new_subscriber`: pending, with the
/// given identifier and time of subscription.
pub open spec fn pending_subscriber(
    new_subscriber: NewSubscriberView,
    id: u128,
    subscribed_at: Timestamp,
) -> SubscriberView {
    SubscriberView {
        id,
        email: new_subscriber.email,
        name: new_subscriber.name,
        subscribed_at,
        status: SubscriberStatus::Pending,
    }
}

/// Makes the subscriber to store for `new_subscriber`: pending, with the
/// given identifier and time of subscription.
pub fn pending(new_subscriber: &NewSubscriber, id: u128, subscribed_at: Timestamp) -> (subscriber:
    Subscriber)
    ensures
        subscriber@ == pending_subscriber(new_subscriber@, id, subscribed_at),
{
    Subscriber {
        id,
        email: new_subscriber.email.clone(),
        name: new_subscriber.name.clone(),
        subscribed_at,
        status: SubscriberStatus::Pending,
    }
}

/// Makes the subscriber to store for `new_subscriber`: pending, with a fresh
/// identifier, subscribed now.
pub fn insert_subscriber(new_subscriber: &NewSubscriber) -> (subscriber: Subscriber)
    ensures
        subscriber@ == pending_subscriber(
            new_subscriber@,
            subscriber.id,
            subscriber.subscribed_at,
        ),
        is_version_4(subscriber.id),
        is_clock_reading(subscriber.subscribed_at),
{
    let subscriber_id = new_v4();
    pending(new_subscriber, subscriber_id, now())
}

/// The link that confirms the subscription bound to `subscription_token`.
pub open spec fn confirmation_link(base_url: Seq<char>, subscription_token: Seq<char>) -> Seq<
    char,
> {
    base_url + "/subscriptions/confirm?subscription_token="@ + subscription_token
}

/// The plain text of the email that asks to confirm.
pub open spec fn plain_body(name: Seq<char>, link: Seq<char>) -> Seq<char> {
    "Welcome to the newsletter, "@ + name + "! Click here to confirm your subscription: "@ + link
}

/// The HTML of the email that asks to confirm.
pub open spec fn html_body(name: Seq<char>, link: Seq<char>) -> Seq<char> {
    "Welcome to the newsletter, "@ + name + "! Click <a href=\""@ + link
        + "\">here</a> to confirm your subscription."@
}

/// The email that asks `new_subscriber` to confirm.
pub open spec fn confirmation_email(
    new_subscriber: NewSubscriberView,
    base_url: Seq<char>,
    subscription_token: Seq<char>,
) -> EmailView {
    let link = confirmation_link(base_url, subscription_token);
    EmailView {
        recipient: new_subscriber.email,
        subject: "Welcome!"@,
        html_content: html_body(new_subscriber.name, link),
        text_content: plain_body(new_subscriber.name, link),
    }
}

/// Writes the email that asks a new subscriber to confirm. Both bodies carry
/// the link that confirms the subscription bound to `subscription_token`.
pub fn send_confirmation_email(
    new_subscriber: &NewSubscriber,
    base_url: &ApplicationBaseUrl,
    subscription_token: &str,
) -> (email: Email)
    ensures
        email@ == confirmation_email(new_subscriber@, base_url.0@, subscription_token@),
{
    let mut confirmation_link = base_url.0.clone();
    confirmation_link.append("/subscriptions/confirm?subscription_token=");
    confirmation_link.append(subscription_token);

    let mut plain_body = "Welcome to the newsletter, ".to_owned();
    plain_body.append(new_subscriber.name.as_ref());
    plain_body.append("! Click here to confirm your subscription: ");
    plain_body.append(confirmation_link.as_str());

    let mut html_body = "Welcome to the newsletter, ".to_owned();
    html_body.append(new_subscriber.name.as_ref());
    html_body.append("! Click <a href=\"");
    html_body.append(confirmation_link.as_str());
    html_body.append("\">here</a> to confirm your subscription.");

    Email {
        recipient: new_subscriber.email.clone(),
        subject: "Welcome!".to_owned(),
        html_content: html_body,
        text_content: plain_body,
    }
}

/// What went wrong where the request itself was not at fault.
#[derive(Clone, Copy, Debug, PartialEq, Eq, Structural)]
pub enum SubscribeFault {
    /// No transaction could be opened.
    Connection,
    /// The subscriber could not be stored.
    InsertSubscriber,
    /// The token could not be stored.
    StoreToken,
    /// The transaction could not be committed.
    Commit,
    /// The email that asks to confirm could not be dispatched.
    SendEmail,
    /// An event arrived that the subscription was not waiting for.
    OutOfTurn,
}

/// Why a person was not subscribed.
#[derive(Debug)]
pub enum SubscribeError {
    /// The name or the email address is not valid; the message says which.
    ValidationError(String),
    UnexpectedError(SubscribeFault),
}

/// The mathematical value of `SubscribeError`.
pub enum SubscribeErrorView {
    ValidationError(Seq<char>),
    UnexpectedError(SubscribeFault),
}

impl View for SubscribeError {
    type V = SubscribeErrorView;

    open spec fn view(&self) -> SubscribeErrorView {
        match self {
            SubscribeError::ValidationError(message) => SubscribeErrorView::ValidationError(
                message@,
            ),
            SubscribeError::UnexpectedError(fault) => SubscribeErrorView::UnexpectedError(*fault),
        }
    }
}

impl SubscribeErrorView {
    /// The status that answers a request which failed with this error.
    pub open spec fn status(self) -> u16 {
        match self {
            SubscribeErrorView::ValidationError(_) => 400,
            SubscribeErrorView::UnexpectedError(_) => 500,
        }
    }
}

impl SubscribeError {
    /// The status that answers a request which failed with this error: 400
    /// where the form was not valid, and 500 otherwise.
    pub fn status_code(&self) -> (status: u16)
        ensures
            status == self@.status(),
    {
        match self {
            SubscribeError::ValidationError(_) => 400,
            SubscribeError::UnexpectedError(_) => 500,
        }
    }
}

/// The status that answers a request to subscribe: 200 where the person was
/// subscribed, and the status of the error otherwise.
pub open spec fn response_status(response: Result<(), SubscribeErrorView>) -> u16 {
    match response {
        Ok(_) => crate::routes::OK,
        Err(error) => error.status(),
    }
}

/// The status that answers a request to subscribe.
pub fn response_status_code(response: &Result<(), SubscribeError>) -> (status: u16)
    ensures
        status == response_status(response_view(*response)),
{
    match response {
        Ok(_) => crate::routes::OK,
        Err(error) => error.status_code(),
    }
}

/// The mathematical value of the answer to a request.
pub open spec fn response_view(response: Result<(), SubscribeError>) -> Result<
    (),
    SubscribeErrorView,
> {
    match response {
        Ok(_) => Ok(()),
        Err(error) => Err(error@),
    }
}

/// How far a subscription has come, and so what it is waiting for.
pub enum SubscribeState {
    /// Waiting for the request.
    Idle,
    /// Waiting for a transaction to be opened.
    Opening { new_subscriber: NewSubscriber, base_url: ApplicationBaseUrl },
    /// Waiting for the subscriber to be stored.
    Inserting { new_subscriber: NewSubscriber, base_url: ApplicationBaseUrl, subscriber_id: u128 },
    /// Waiting for the token to be stored.
    StoringToken {
        new_subscriber: NewSubscriber,
        base_url: ApplicationBaseUrl,
        subscription_token: String,
    },
    /// Waiting for the transaction to be committed.
    Committing {
        new_subscriber: NewSubscriber,
        base_url: ApplicationBaseUrl,
        subscription_token: String,
    },
    /// Waiting for the email to be dispatched.
    Sending,
    /// The request has been answered.
    Finished,
}

/// The mathematical value of `SubscribeState`.
pub enum SubscribeStateView {
    Idle,
    Opening { new_subscriber: NewSubscriberView, base_url: Seq<char> },
    Inserting { new_subscriber: NewSubscriberView, base_url: Seq<char>, subscriber_id: u128 },
    StoringToken {
        new_subscriber: NewSubscriberView,
        base_url: Seq<char>,
        subscription_token: Seq<char>,
    },
    Committing {
        new_subscriber: NewSubscriberView,
        base_url: Seq<char>,
        subscription_token: Seq<char>,
    },
    Sending,
    Finished,
}

impl View for SubscribeState {
    type V = SubscribeStateView;

    open spec fn view(&self) -> SubscribeStateView {
        match self {
            SubscribeState::Idle => SubscribeStateView::Idle,
            SubscribeState::Opening { new_subscriber, base_url } => SubscribeStateView::Opening {
                new_subscriber: new_subscriber@,
                base_url: base_url.0@,
            },
            SubscribeState::Inserting {
                new_subscriber,
                base_url,
                subscriber_id,
            } => SubscribeStateView::Inserting {
                new_subscriber: new_subscriber@,
                base_url: base_url.0@,
                subscriber_id: *subscriber_id,
            },
            SubscribeState::StoringToken {
                new_subscriber,
                base_url,
                subscription_token,
            } => SubscribeStateView::StoringToken {
                new_subscriber: new_subscriber@,
                base_url: base_url.0@,
                subscription_token: subscription_token@,
            },
            SubscribeState::Committing {
                new_subscriber,
                base_url,
                subscription_token,
            } => SubscribeStateView::Committing {
                new_subscriber: new_subscriber@,
                base_url: base_url.0@,
                subscription_token: subscription_token@,
            },
            SubscribeState::Sending => SubscribeStateView::Sending,
            SubscribeState::Finished => SubscribeStateView::Finished,
        }
    }
}

/// What happened outside the library.
pub enum SubscribeEvent {
    /// A request arrived with this form, at an application that is reached
    /// under `base_url`.
    Request { form: FormData, base_url: ApplicationBaseUrl },
    /// What was asked for last has been done, or could not be done.
    Done(Result<(), Unavailable>),
}

/// The mathematical value of `SubscribeEvent`.
pub enum SubscribeEventView {
    Request { form: FormDataView, base_url: Seq<char> },
    Done(Result<(), Unavailable>),
}

impl View for SubscribeEvent {
    type V = SubscribeEventView;

    open spec fn view(&self) -> SubscribeEventView {
        match self {
            SubscribeEvent::Request { form, base_url } => SubscribeEventView::Request {
                form: form@,
                base_url: base_url.0@,
            },
            SubscribeEvent::Done(outcome) => SubscribeEventView::Done(*outcome),
        }
    }
}

/// What the library asks to be done outside it.
pub enum SubscribeAction {
    /// Open a transaction on the store.
    BeginTransaction,
    /// Store this subscriber, within the transaction.
    InsertSubscriber(Subscriber),
    /// Store this token for this subscriber, within the transaction.
    StoreToken { subscription_token: String, subscriber_id: u128 },
    /// Commit the transaction.
    Commit,
    /// Hand this email to the dispatch service.
    SendEmail(Email),
    /// Answer the request: 200 for `Ok`, and the error's status otherwise. A
    /// transaction that is still open is given up.
    Respond(Result<(), SubscribeError>),
}

/// The mathematical value of `SubscribeAction`.
pub enum SubscribeActionView {
    BeginTransaction,
    InsertSubscriber(SubscriberView),
    StoreToken { subscription_token: Seq<char>, subscriber_id: u128 },
    Commit,
    SendEmail(EmailView),
    Respond(Result<(), SubscribeErrorView>),
}

impl View for SubscribeAction {
    type V = SubscribeActionView;

    open spec fn view(&self) -> SubscribeActionView {
        match self {
            SubscribeAction::BeginTransaction => SubscribeActionView::BeginTransaction,
            SubscribeAction::InsertSubscriber(subscriber) => SubscribeActionView::InsertSubscriber(
                subscriber@,
            ),
            SubscribeAction::StoreToken {
                subscription_token,
                subscriber_id,
            } => SubscribeActionView::StoreToken {
                subscription_token: subscription_token@,
                subscriber_id: *subscriber_id,
            },
            SubscribeAction::Commit => SubscribeActionView::Commit,
            SubscribeAction::SendEmail(email) => SubscribeActionView::SendEmail(email@),
            SubscribeAction::Respond(response) => SubscribeActionView::Respond(
                response_view(*response),
            ),
        }
    }
}

/// What a subscription takes from chance and from the clock.
pub struct Fresh {
    /// The identifier of the new subscriber.
    pub subscriber_id: u128,
    /// The time at which the subscriber is stored.
    pub subscribed_at: Timestamp,
    /// The token that is bound to the subscriber.
    pub subscription_token: Seq<char>,
}

impl Fresh {
    /// What holds of the values that a subscription takes from chance and
    /// from the clock, whatever they are.
    pub open spec fn is_admissible(self) -> bool {
        &&& is_version_4(self.subscriber_id)
        &&& is_clock_reading(self.subscribed_at)
        &&& is_subscription_token(self.subscription_token)
    }
}

/// A subscription that ends with a fault.
pub open spec fn fail(fault: SubscribeFault) -> (SubscribeStateView, SubscribeActionView) {
    (
        SubscribeStateView::Finished,
        SubscribeActionView::Respond(Err(SubscribeErrorView::UnexpectedError(fault))),
    )
}

/// A subscription, one decision at a time: where it stands after `event`,
/// and what it asks for next, given the values that it takes from chance
/// and from the clock.
///
/// The form is validated first. Within one transaction the subscriber is
/// stored as pending and the token is stored for it. Once the transaction is
/// committed, the email that asks to confirm is dispatched. Whatever cannot
/// be done ends the subscription, and so does an event that it was not
/// waiting for.
pub open spec fn subscribe_step(
    state: SubscribeStateView,
    event: SubscribeEventView,
    fresh: Fresh,
) -> (SubscribeStateView, SubscribeActionView) {
    match (state, event) {
        (SubscribeStateView::Idle, SubscribeEventView::Request { form, base_url }) => {
            match validated(form) {
                Err(message) => (
                    SubscribeStateView::Finished,
                    SubscribeActionView::Respond(
                        Err(SubscribeErrorView::ValidationError(message)),
                    ),
                ),
                Ok(new_subscriber) => (
                    SubscribeStateView::Opening { new_subscriber, base_url },
                    SubscribeActionView::BeginTransaction,
                ),
            }
        },
        (
            SubscribeStateView::Opening { new_subscriber, base_url },
            SubscribeEventView::Done(outcome),
        ) => {
            match outcome {
                Err(_) => fail(SubscribeFault::Connection),
                Ok(_) => (
                    SubscribeStateView::Inserting {
                        new_subscriber,
                        base_url,
                        subscriber_id: fresh.subscriber_id,
                    },
                    SubscribeActionView::InsertSubscriber(
                        pending_subscriber(
                            new_subscriber,
                            fresh.subscriber_id,
                            fresh.subscribed_at,
                        ),
                    ),
                ),
            }
        },
        (
            SubscribeStateView::Inserting { new_subscriber, base_url, subscriber_id },
            SubscribeEventView::Done(outcome),
        ) => {
            match outcome {
                Err(_) => fail(SubscribeFault::InsertSubscriber),
                Ok(_) => (
                    SubscribeStateView::StoringToken {
                        new_subscriber,
                        base_url,
                        subscription_token: fresh.subscription_token,
                    },
                    SubscribeActionView::StoreToken {
                        subscription_token: fresh.subscription_token,
                        subscriber_id,
                    },
                ),
            }
        },
        (
            SubscribeStateView::StoringToken { new_subscriber, base_url, subscription_token },
            SubscribeEventView::Done(outcome),
        ) => {
            match outcome {
                Err(_) => fail(SubscribeFault::StoreToken),
                Ok(_) => (
                    SubscribeStateView::Committing { new_subscriber, base_url, subscription_token },
                    SubscribeActionView::Commit,
                ),
            }
        },
        (
            SubscribeStateView::Committing { new_subscriber, base_url, subscription_token },
            SubscribeEventView::Done(outcome),
        ) => {
            match outcome {
                Err(_) => fail(SubscribeFault::Commit),
                Ok(_) => (
                    SubscribeStateView::Sending,
                    SubscribeActionView::SendEmail(
                        confirmation_email(new_subscriber, base_url, subscription_token),
                    ),
                ),
            }
        },
        (SubscribeStateView::Sending, SubscribeEventView::Done(outcome)) => {
            match outcome {
                Err(_) => fail(SubscribeFault::SendEmail),
                Ok(_) => (SubscribeStateView::Finished, SubscribeActionView::Respond(Ok(()))),
            }
        },
        _ => fail(SubscribeFault::OutOfTurn),
    }
}

/// Values that a subscription may take from chance and from the clock.
pub proof fn admissible_values_exist() -> (fresh: Fresh)
    ensures
        fresh.is_admissible(),
{
    let subscriber_id: u128 = 0x0000_0000_0000_4000_8000_0000_0000_0000;
    assert(is_version_4(subscriber_id)) by {
        assert(0x0000_0000_0000_4000_8000_0000_0000_0000u128
            & 0x0000_0000_0000_f000_c000_0000_0000_0000u128
            == 0x0000_0000_0000_4000_8000_0000_0000_0000u128) by (bit_vector);
    }
    Fresh {
        subscriber_id,
        subscribed_at: Timestamp { seconds: 0, nanos: 0 },
        subscription_token: Seq::new(TOKEN_LENGTH as nat, |i: int| 'a'),
    }
}

fn failed(fault: SubscribeFault) -> (result: (SubscribeState, SubscribeAction))
    ensures
        (result.0@, result.1@) == fail(fault),
{
    (SubscribeState::Finished, SubscribeAction::Respond(Err(SubscribeError::UnexpectedError(fault))))
}

/// Takes a subscription one step further: from where it stands and what has
/// happened to where it stands next and what is to be done.
///
/// A subscription starts in `SubscribeState::Idle` with a
/// `SubscribeEvent::Request`. Each action but `Respond` is answered by a
/// `SubscribeEvent::Done` that reports its outcome; `Respond` ends the
/// subscription. The identifier, the time and the token are drawn here, so
/// the step is what `subscribe_step` says for some admissible values.
pub fn subscribe(state: SubscribeState, event: SubscribeEvent) -> (result: (
    SubscribeState,
    SubscribeAction,
))
    ensures
        exists|fresh: Fresh|
            fresh.is_admissible() && (result.0@, result.1@) == #[trigger] subscribe_step(
                state@,
                event@,
                fresh,
            ),
{
    let ghost any = admissible_values_exist();
    match (state, event) {
        (SubscribeState::Idle, SubscribeEvent::Request { form, base_url }) => {
            let ghost form_view = form@;
            let validation = NewSubscriber::try_from(form);
            let result = match validation {
                Err(message) => (
                    SubscribeState::Finished,
                    SubscribeAction::Respond(Err(SubscribeError::ValidationError(message))),
                ),
                Ok(new_subscriber) => (
                    SubscribeState::Opening { new_subscriber, base_url },
                    SubscribeAction::BeginTransaction,
                ),
            };
            assert((result.0@, result.1@) == subscribe_step(state@, event@, any));
            result
        },
        (SubscribeState::Opening { new_subscriber, base_url }, SubscribeEvent::Done(outcome)) => {
            match outcome {
                Err(_) => {
                    assert(fail(SubscribeFault::Connection) == subscribe_step(state@, event@, any));
                    failed(SubscribeFault::Connection)
                },
                Ok(_) => {
                    let subscriber = insert_subscriber(&new_subscriber);
                    let ghost fresh = Fresh {
                        subscriber_id: subscriber.id,
                        subscribed_at: subscriber.subscribed_at,
                        subscription_token: any.subscription_token,
                    };
                    let result = (
                        SubscribeState::Inserting {
                            new_subscriber,
                            base_url,
                            subscriber_id: subscriber.id,
                        },
                        SubscribeAction::InsertSubscriber(subscriber),
                    );
                    assert((result.0@, result.1@) == subscribe_step(state@, event@, fresh));
                    result
                },
            }
        },
        (
            SubscribeState::Inserting { new_subscriber, base_url, subscriber_id },
            SubscribeEvent::Done(outcome),
        ) => {
            match outcome {
                Err(_) => {
                    assert(fail(SubscribeFault::InsertSubscriber) == subscribe_step(
                        state@,
                        event@,
                        any,
                    ));
                    failed(SubscribeFault::InsertSubscriber)
                },
                Ok(_) => {
                    let subscription_token = generate_subscription_token();
                    let ghost fresh = Fresh {
                        subscriber_id: any.subscriber_id,
                        subscribed_at: any.subscribed_at,
                        subscription_token: subscription_token@,
                    };
                    let result = (
                        SubscribeState::StoringToken {
                            new_subscriber,
                            base_url,
                            subscription_token: subscription_token.clone(),
                        },
                        SubscribeAction::StoreToken { subscription_token, subscriber_id },
                    );
                    assert((result.0@, result.1@) == subscribe_step(state@, event@, fresh));
                    result
                },
            }
        },
        (
            SubscribeState::StoringToken { new_subscriber, base_url, subscription_token },
            SubscribeEvent::Done(outcome),
        ) => {
            let result = match outcome {
                Err(_) => failed(SubscribeFault::StoreToken),
                Ok(_) => (
                    SubscribeState::Committing { new_subscriber, base_url, subscription_token },
                    SubscribeAction::Commit,
                ),
            };
            assert((result.0@, result.1@) == subscribe_step(state@, event@, any));
            result
        },
        (
            SubscribeState::Committing { new_subscriber, base_url, subscription_token },
            SubscribeEvent::Done(outcome),
        ) => {
            let result = match outcome {
                Err(_) => failed(SubscribeFault::Commit),
                Ok(_) => {
                    let email = send_confirmation_email(
                        &new_subscriber,
                        &base_url,
                        subscription_token.as_str(),
                    );
                    (SubscribeState::Sending, SubscribeAction::SendEmail(email))
                },
            };
            assert((result.0@, result.1@) == subscribe_step(state@, event@, any));
            result
        },
        (SubscribeState::Sending, SubscribeEvent::Done(outcome)) => {
            let result = match outcome {
                Err(_) => failed(SubscribeFault::SendEmail),
                Ok(_) => (SubscribeState::Finished, SubscribeAction::Respond(Ok(()))),
            };
            assert((result.0@, result.1@) == subscribe_step(state@, event@, any));
            result
        },
        _ => {
            assert(fail(SubscribeFault::OutOfTurn) == subscribe_step(state@, event@, any));
            failed(SubscribeFault::OutOfTurn)
        },
    }
}

} // verus!
