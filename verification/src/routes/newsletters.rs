//! Publishing an issue of the newsletter to the confirmed subscribers.

use crate::collaborators::{
    Email, EmailView, StoredCredentials, StoredCredentialsView, Unavailable,
};
use crate::domain::{email_syntax_is_valid, SubscriberEmail};
use crate::routes::MalformedRequest;
use crate::routes::newsletters::credentials::{
    basic_authentication, basic_credentials, credentials_verdict, lookup_view,
    validate_credentials, Credentials, CredentialsView,
};
use vstd::prelude::*;

pub mod credentials;
pub mod model;

verus! {

/// Why a request was not authenticated.
#[derive(Clone, Copy, Debug, PartialEq, Eq, Structural)]
pub enum AuthFailure {
    /// The request has no `Authorization` header.
    MissingHeader,
    /// The header's value is not text.
    HeaderNotText,
    /// The authorization scheme is not `Basic`.
    NotBasic,
    /// What follows the scheme is not base64.
    InvalidBase64,
    /// The decoded credentials are not UTF-8.
    CredentialsNotUtf8,
    /// The decoded credentials have no `:` and so no password.
    MissingPassword,
    /// No user has the given username.
    UnknownUsername,
    /// The password does not match the stored hash.
    InvalidPassword,
}

/// What went wrong where the request itself was not at fault.
#[derive(Clone, Copy, Debug, PartialEq, Eq, Structural)]
pub enum PublishFault {
    /// The stored credentials could not be fetched.
    CredentialsQuery,
    /// The stored password hash is not a PHC string.
    MalformedPasswordHash,
    /// The confirmed subscribers could not be fetched.
    SubscribersQuery,
    /// An email could not be dispatched.
    Delivery,
    /// An event arrived that the publication was not waiting for.
    OutOfTurn,
}

/// Why an issue was not published.
#[derive(Clone, Copy, Debug, PartialEq, Eq, Structural)]
pub enum PublishError {
    AuthError(AuthFailure),
    UnexpectedError(PublishFault),
}

/// The status that answers a request for publication: 200 where the issue
/// was published, and the status of the error otherwise.
pub open spec fn response_status(response: Result<(), PublishError>) -> u16 {
    match response {
        Ok(_) => crate::routes::OK,
        Err(error) => error.status(),
    }
}

/// The status that answers a request for publication.
pub fn response_status_code(response: &Result<(), PublishError>) -> (status: u16)
    ensures
        status == response_status(*response),
{
    match response {
        Ok(_) => crate::routes::OK,
        Err(error) => error.error_response().status_code,
    }
}

/// What answers a request that failed: the status, and the challenge that
/// goes into the `WWW-Authenticate` header, if there is one.
#[derive(Clone, Copy, Debug, PartialEq, Eq)]
pub struct ErrorResponse {
    pub status_code: u16,
    pub www_authenticate: Option<&'static str>,
}

impl PublishError {
    /// The status that answers a request which failed with this error.
    pub open spec fn status(self) -> u16 {
        match self {
            PublishError::AuthError(_) => 401,
            PublishError::UnexpectedError(_) => 500,
        }
    }

    /// The response to a request that failed with this error: 401 with a
    /// challenge for the realm `publish` where the request was not
    /// authenticated, and a bare 500 otherwise.
    pub fn error_response(&self) -> (response: ErrorResponse)
        ensures
            response.status_code == self.status(),
            match self {
                PublishError::AuthError(_) => response.www_authenticate matches Some(challenge)
                    && challenge@ == "Basic realm=\"publish\""@,
                PublishError::UnexpectedError(_) => response.www_authenticate is None,
            },
    {
        match self {
            PublishError::AuthError(_) => ErrorResponse {
                status_code: 401,
                www_authenticate: Some("Basic realm=\"publish\""),
            },
            PublishError::UnexpectedError(_) => ErrorResponse {
                status_code: 500,
                www_authenticate: None,
            },
        }
    }
}

/// The two renderings of an issue.
pub struct Content {
    pub html: String,
    pub text: String,
}

/// The mathematical value of `Content`.
pub struct ContentView {
    pub html: Seq<char>,
    pub text: Seq<char>,
}

impl View for Content {
    type V = ContentView;

    open spec fn view(&self) -> ContentView {
        ContentView { html: self.html@, text: self.text@ }
    }
}

impl Content {
    /// Puts the two renderings together. One that is missing makes the
    /// request malformed.
    pub fn from_fields(html: Option<String>, text: Option<String>) -> (result: Result<
        Content,
        MalformedRequest,
    >)
        ensures
            result is Ok <==> html is Some && text is Some,
            result matches Ok(content) ==> content.html@ == html->0@ && content.text@ == text->0@,
    {
        match (html, text) {
            (Some(html), Some(text)) => Ok(Content { html, text }),
            _ => Err(MalformedRequest),
        }
    }
}

/// An issue of the newsletter.
pub struct BodyData {
    pub title: String,
    pub content: Content,
}

/// The mathematical value of `BodyData`.
pub struct BodyDataView {
    pub title: Seq<char>,
    pub content: ContentView,
}

impl View for BodyData {
    type V = BodyDataView;

    open spec fn view(&self) -> BodyDataView {
        BodyDataView { title: self.title@, content: self.content@ }
    }
}

impl BodyData {
    /// Puts an issue together from the fields of a request. A request
    /// without a title or without content is malformed.
    pub fn from_fields(title: Option<String>, content: Option<Content>) -> (result: Result<
        BodyData,
        MalformedRequest,
    >)
        ensures
            result is Ok <==> title is Some && content is Some,
            result matches Ok(issue) ==> issue.title@ == title->0@ && issue.content@
                == content->0@,
    {
        match (title, content) {
            (Some(title), Some(content)) => Ok(BodyData { title, content }),
            _ => Err(MalformedRequest),
        }
    }
}

/// A subscriber who has confirmed, with an address that is still valid.
pub struct ConfirmedSubscriber {
    pub email: SubscriberEmail,
}

impl DeepView for ConfirmedSubscriber {
    type V = Seq<char>;

    open spec fn deep_view(&self) -> Seq<char> {
        self.email@
    }
}

/// What `get_confirmed_subscribers` makes of one stored address.
pub open spec fn confirmed_subscriber(row: Seq<char>) -> Result<Seq<char>, Seq<char>> {
    if email_syntax_is_valid(row) {
        Ok(row)
    } else {
        Err(SubscriberEmail::rejection(row))
    }
}

/// The mathematical value of what `get_confirmed_subscribers` hands out for
/// one stored address.
pub open spec fn parsed_view(parsed: Result<ConfirmedSubscriber, String>) -> Result<
    Seq<char>,
    Seq<char>,
> {
    match parsed {
        Ok(subscriber) => Ok(subscriber.email@),
        Err(message) => Err(message@),
    }
}

/// Validates the stored addresses of the confirmed subscribers again, one
/// by one and in their order: an address that is no longer valid gives the
/// message that rejects it in place of a subscriber.
pub fn get_confirmed_subscribers(rows: Vec<String>) -> (subscribers: Vec<
    Result<ConfirmedSubscriber, String>,
>)
    ensures
        subscribers.len() == rows.len(),
        forall|i: int|
            0 <= i < rows.len() ==> parsed_view(#[trigger] subscribers[i]) == confirmed_subscriber(
                rows[i]@,
            ),
{
    let mut subscribers: Vec<Result<ConfirmedSubscriber, String>> = Vec::new();
    let mut i: usize = 0;
    while i < rows.len()
        invariant
            i <= rows.len(),
            subscribers.len() == i,
            forall|j: int|
                0 <= j < i ==> parsed_view(#[trigger] subscribers[j]) == confirmed_subscriber(
                    rows[j]@,
                ),
        decreases rows.len() - i,
    {
        let parsed = match SubscriberEmail::parse(rows[i].clone()) {
            Ok(email) => Ok(ConfirmedSubscriber { email }),
            Err(error) => Err(error),
        };
        subscribers.push(parsed);
        i += 1;
    }
    subscribers
}

/// The stored addresses that are still valid, in their order.
pub open spec fn valid_addresses(rows: Seq<Seq<char>>) -> Seq<Seq<char>> {
    rows.filter(|row: Seq<char>| email_syntax_is_valid(row))
}

/// The email that carries `issue` to `recipient`.
pub open spec fn issue_for(recipient: Seq<char>, issue: BodyDataView) -> EmailView {
    EmailView {
        recipient,
        subject: issue.title,
        html_content: issue.content.html,
        text_content: issue.content.text,
    }
}

/// How far a publication has come, and so what it is waiting for.
pub enum PublishState {
    /// Waiting for the request.
    Idle,
    /// Waiting for what the store holds about the user who asks.
    Authenticating { credentials: Credentials, issue: BodyData },
    /// Waiting for the addresses of the confirmed subscribers.
    Selecting { issue: BodyData },
    /// Waiting for the dispatch of the email to the recipient at `sent`; the
    /// recipients before it have had theirs.
    Delivering { issue: BodyData, recipients: Vec<ConfirmedSubscriber>, sent: usize },
    /// The request has been answered.
    Finished,
}

/// The mathematical value of `PublishState`.
pub enum PublishStateView {
    Idle,
    Authenticating { credentials: CredentialsView, issue: BodyDataView },
    Selecting { issue: BodyDataView },
    Delivering { issue: BodyDataView, recipients: Seq<Seq<char>>, sent: nat },
    Finished,
}

impl View for PublishState {
    type V = PublishStateView;

    open spec fn view(&self) -> PublishStateView {
        match self {
            PublishState::Idle => PublishStateView::Idle,
            PublishState::Authenticating { credentials, issue } => PublishStateView::Authenticating {
                credentials: credentials@,
                issue: issue@,
            },
            PublishState::Selecting { issue } => PublishStateView::Selecting { issue: issue@ },
            PublishState::Delivering { issue, recipients, sent } => PublishStateView::Delivering {
                issue: issue@,
                recipients: recipients.deep_view(),
                sent: *sent as nat,
            },
            PublishState::Finished => PublishStateView::Finished,
        }
    }
}

/// What happened outside the library.
pub enum PublishEvent {
    /// A request arrived, with the value of its `Authorization` header, if
    /// it has one, and the issue to publish.
    Request { authorization: Option<Vec<u8>>, issue: BodyData },
    /// The store answered the question for a user's credentials.
    Credentials(Result<Option<StoredCredentials>, Unavailable>),
    /// The store answered the question for the addresses of the confirmed
    /// subscribers.
    Subscribers(Result<Vec<String>, Unavailable>),
    /// The dispatch service answered.
    Dispatched(Result<(), Unavailable>),
}

/// The mathematical value of `PublishEvent`.
pub enum PublishEventView {
    Request { authorization: Option<Seq<u8>>, issue: BodyDataView },
    Credentials(Result<Option<StoredCredentialsView>, Unavailable>),
    Subscribers(Result<Seq<Seq<char>>, Unavailable>),
    Dispatched(Result<(), Unavailable>),
}

impl View for PublishEvent {
    type V = PublishEventView;

    open spec fn view(&self) -> PublishEventView {
        match self {
            PublishEvent::Request { authorization, issue } => PublishEventView::Request {
                authorization: match authorization {
                    Some(value) => Some(value@),
                    None => None,
                },
                issue: issue@,
            },
            PublishEvent::Credentials(stored) => PublishEventView::Credentials(lookup_view(*stored)),
            PublishEvent::Subscribers(rows) => PublishEventView::Subscribers(
                match rows {
                    Ok(rows) => Ok(rows.deep_view()),
                    Err(unavailable) => Err(*unavailable),
                },
            ),
            PublishEvent::Dispatched(outcome) => PublishEventView::Dispatched(*outcome),
        }
    }
}

/// What the library asks to be done outside it.
pub enum PublishAction {
    /// Ask the store for the user of this name.
    FetchCredentials { username: String },
    /// Ask the store for the addresses of the confirmed subscribers.
    FetchConfirmedSubscribers,
    /// Hand this email to the dispatch service.
    SendEmail(Email),
    /// Answer the request: 200 for `Ok`, and the error's response otherwise.
    Respond(Result<(), PublishError>),
}

/// The mathematical value of `PublishAction`.
pub enum PublishActionView {
    FetchCredentials { username: Seq<char> },
    FetchConfirmedSubscribers,
    SendEmail(EmailView),
    Respond(Result<(), PublishError>),
}

impl View for PublishAction {
    type V = PublishActionView;

    open spec fn view(&self) -> PublishActionView {
        match self {
            PublishAction::FetchCredentials { username } => PublishActionView::FetchCredentials {
                username: username@,
            },
            PublishAction::FetchConfirmedSubscribers => PublishActionView::FetchConfirmedSubscribers,
            PublishAction::SendEmail(email) => PublishActionView::SendEmail(email@),
            PublishAction::Respond(outcome) => PublishActionView::Respond(*outcome),
        }
    }
}

/// Where a publication stands once `sent` of the recipients have had their
/// email: it sends the next one, or it answers with success when none is
/// left.
pub open spec fn deliver(issue: BodyDataView, recipients: Seq<Seq<char>>, sent: nat) -> (
    PublishStateView,
    PublishActionView,
) {
    if sent < recipients.len() {
        (
            PublishStateView::Delivering { issue, recipients, sent },
            PublishActionView::SendEmail(issue_for(recipients[sent as int], issue)),
        )
    } else {
        (PublishStateView::Finished, PublishActionView::Respond(Ok(())))
    }
}

/// A publication that ends with `error`.
pub open spec fn fail(error: PublishError) -> (PublishStateView, PublishActionView) {
    (PublishStateView::Finished, PublishActionView::Respond(Err(error)))
}

/// The publication of an issue, one decision at a time: where it stands
/// after `event`, and what it asks for next.
///
/// The request is authenticated by its header first and against the store
/// second. Then every confirmed subscriber whose stored address is still
/// valid is sent the issue, one after the other; the first dispatch that
/// fails ends the publication. An event that the publication was not waiting
/// for ends it as well.
pub open spec fn publish_step(state: PublishStateView, event: PublishEventView) -> (
    PublishStateView,
    PublishActionView,
) {
    match (state, event) {
        (PublishStateView::Idle, PublishEventView::Request { authorization, issue }) => {
            match basic_credentials(authorization) {
                Err(failure) => fail(PublishError::AuthError(failure)),
                Ok(credentials) => (
                    PublishStateView::Authenticating { credentials, issue },
                    PublishActionView::FetchCredentials { username: credentials.username },
                ),
            }
        },
        (
            PublishStateView::Authenticating { credentials, issue },
            PublishEventView::Credentials(stored),
        ) => {
            match credentials_verdict(credentials, stored) {
                Err(error) => fail(error),
                Ok(_) => (
                    PublishStateView::Selecting { issue },
                    PublishActionView::FetchConfirmedSubscribers,
                ),
            }
        },
        (PublishStateView::Selecting { issue }, PublishEventView::Subscribers(rows)) => {
            match rows {
                Err(_) => fail(PublishError::UnexpectedError(PublishFault::SubscribersQuery)),
                Ok(rows) => deliver(issue, valid_addresses(rows), 0),
            }
        },
        (
            PublishStateView::Delivering { issue, recipients, sent },
            PublishEventView::Dispatched(outcome),
        ) => {
            match outcome {
                Err(_) => fail(PublishError::UnexpectedError(PublishFault::Delivery)),
                Ok(_) => deliver(issue, recipients, sent + 1),
            }
        },
        _ => fail(PublishError::UnexpectedError(PublishFault::OutOfTurn)),
    }
}

fn failed(error: PublishError) -> (result: (PublishState, PublishAction))
    ensures
        (result.0@, result.1@) == fail(error),
{
    (PublishState::Finished, PublishAction::Respond(Err(error)))
}

fn keep_valid(subscribers: &Vec<Result<ConfirmedSubscriber, String>>, Ghost(rows): Ghost<
    Seq<Seq<char>>,
>) -> (recipients: Vec<ConfirmedSubscriber>)
    requires
        subscribers.len() == rows.len(),
        forall|i: int|
            0 <= i < rows.len() ==> parsed_view(#[trigger] subscribers[i]) == confirmed_subscriber(
                rows[i],
            ),
    ensures
        recipients.deep_view() == valid_addresses(rows),
{
    let mut recipients: Vec<ConfirmedSubscriber> = Vec::new();
    let mut i: usize = 0;
    proof {
        reveal(Seq::filter);
        assert(recipients.deep_view() =~= valid_addresses(rows.take(0)));
    }
    while i < subscribers.len()
        invariant
            i <= subscribers.len() == rows.len(),
            forall|i: int|
                0 <= i < rows.len() ==> parsed_view(#[trigger] subscribers[i])
                    == confirmed_subscriber(rows[i]),
            recipients.deep_view() == valid_addresses(rows.take(i as int)),
        decreases subscribers.len() - i,
    {
        let ghost before = recipients.deep_view();
        proof {
            reveal(Seq::filter);
            assert(rows.take(i + 1).drop_last() == rows.take(i as int));
            assert(rows.take(i + 1).last() == rows[i as int]);
        }
        match &subscribers[i] {
            Ok(subscriber) => {
                recipients.push(ConfirmedSubscriber { email: subscriber.email.clone() });
                assert(recipients.deep_view() =~= before.push(rows[i as int]));
            },
            Err(_) => {},
        }
        i += 1;
    }
    assert(rows.take(rows.len() as int) == rows);
    recipients
}

fn send_next(issue: BodyData, recipients: Vec<ConfirmedSubscriber>, sent: usize) -> (result: (
    PublishState,
    PublishAction,
))
    ensures
        (result.0@, result.1@) == deliver(issue@, recipients.deep_view(), sent as nat),
{
    if sent < recipients.len() {
        let email = Email {
            recipient: recipients[sent].email.clone(),
            subject: issue.title.clone(),
            html_content: issue.content.html.clone(),
            text_content: issue.content.text.clone(),
        };
        (PublishState::Delivering { issue, recipients, sent }, PublishAction::SendEmail(email))
    } else {
        (PublishState::Finished, PublishAction::Respond(Ok(())))
    }
}

/// Takes the publication of an issue one step further: from where it stands
/// and what has happened to where it stands next and what is to be done.
///
/// A publication starts in `PublishState::Idle` with a
/// `PublishEvent::Request`. Each action but `Respond` is answered by the
/// event that reports its outcome; `Respond` ends the publication.
pub fn publish_newsletter(state: PublishState, event: PublishEvent) -> (result: (
    PublishState,
    PublishAction,
))
    ensures
        (result.0@, result.1@) == publish_step(state@, event@),
{
    match (state, event) {
        (PublishState::Idle, PublishEvent::Request { authorization, issue }) => {
            let header = match &authorization {
                Some(value) => Some(value.as_slice()),
                None => None,
            };
            match basic_authentication(header) {
                Err(failure) => failed(PublishError::AuthError(failure)),
                Ok(credentials) => {
                    let username = credentials.username.clone();
                    (
                        PublishState::Authenticating { credentials, issue },
                        PublishAction::FetchCredentials { username },
                    )
                },
            }
        },
        (PublishState::Authenticating { credentials, issue }, PublishEvent::Credentials(stored)) => {
            match validate_credentials(credentials, stored) {
                Err(error) => failed(error),
                Ok(_user_id) => (
                    PublishState::Selecting { issue },
                    PublishAction::FetchConfirmedSubscribers,
                ),
            }
        },
        (PublishState::Selecting { issue }, PublishEvent::Subscribers(rows)) => {
            match rows {
                Err(_) => failed(PublishError::UnexpectedError(PublishFault::SubscribersQuery)),
                Ok(rows) => {
                    let ghost stored = rows.deep_view();
                    let subscribers = get_confirmed_subscribers(rows);
                    let recipients = keep_valid(&subscribers, Ghost(stored));
                    send_next(issue, recipients, 0)
                },
            }
        },
        (
            PublishState::Delivering { issue, recipients, sent },
            PublishEvent::Dispatched(outcome),
        ) => {
            match outcome {
                Err(_) => failed(PublishError::UnexpectedError(PublishFault::Delivery)),
                Ok(_) => {
                    if sent < usize::MAX {
                        send_next(issue, recipients, sent + 1)
                    } else {
                        assert(recipients.deep_view().len() == recipients.len());
                        (PublishState::Finished, PublishAction::Respond(Ok(())))
                    }
                },
            }
        },
        _ => failed(PublishError::UnexpectedError(PublishFault::OutOfTurn)),
    }
}

} // verus!
