//! Confirming: the token of a confirmation link is resolved to its
//! subscriber, who is then marked as confirmed.

use crate::collaborators::Unavailable;
use crate::routes::MalformedRequest;
use vstd::prelude::*;

pub mod model;

verus! {

/// What a confirmation link carries.
#[derive(Debug)]
pub struct Parameters {
    pub subscription_token: String,
}

impl Parameters {
    /// Puts the parameters together from the fields of a request. A request
    /// without a token is malformed.
    pub fn from_fields(subscription_token: Option<String>) -> (result: Result<
        Parameters,
        MalformedRequest,
    >)
        ensures
            result is Ok <==> subscription_token is Some,
            result matches Ok(parameters) ==> parameters.subscription_token@
                == subscription_token->0@,
    {
        match subscription_token {
            Some(subscription_token) => Ok(Parameters { subscription_token }),
            None => Err(MalformedRequest),
        }
    }
}

/// What went wrong where the request itself was not at fault.
#[derive(Clone, Copy, Debug, PartialEq, Eq, Structural)]
pub enum ConfirmFault {
    /// The store could not be asked for the token's subscriber.
    TokenLookup,
    /// The subscriber could not be marked as confirmed.
    StatusUpdate,
    /// An event arrived that the confirmation was not waiting for.
    OutOfTurn,
}

/// Why a subscription was not confirmed.
#[derive(Clone, Copy, Debug, PartialEq, Eq, Structural)]
pub enum ConfirmError {
    /// The token is bound to no subscriber.
    AuthError,
    UnexpectedError(ConfirmFault),
}

impl ConfirmError {
    /// The status that answers a request which failed with this error.
    pub open spec fn status(self) -> u16 {
        match self {
            ConfirmError::AuthError => 401,
            ConfirmError::UnexpectedError(_) => 500,
        }
    }

    /// The status that answers a request which failed with this error: 401
    /// where the token is not known, and 500 otherwise.
    pub fn status_code(&self) -> (status: u16)
        ensures
            status == self.status(),
    {
        match self {
            ConfirmError::AuthError => 401,
            ConfirmError::UnexpectedError(_) => 500,
        }
    }
}

/// The status that answers a request to confirm: 200 where the subscriber
/// is confirmed, and the status of the error otherwise.
pub open spec fn response_status(response: Result<(), ConfirmError>) -> u16 {
    match response {
        Ok(_) => crate::routes::OK,
        Err(error) => error.status(),
    }
}

/// The status that answers a request to confirm.
pub fn response_status_code(response: &Result<(), ConfirmError>) -> (status: u16)
    ensures
        status == response_status(*response),
{
    match response {
        Ok(_) => crate::routes::OK,
        Err(error) => error.status_code(),
    }
}

/// How far a confirmation has come, and so what it is waiting for.
#[derive(Clone, Copy, Debug, PartialEq, Eq, Structural)]
pub enum ConfirmState {
    /// Waiting for the request.
    Idle,
    /// Waiting for the subscriber to whom the token is bound.
    LookingUp,
    /// Waiting for the subscriber to be marked as confirmed.
    Confirming,
    /// The request has been answered.
    Finished,
}

/// What happened outside the library.
pub enum ConfirmEvent {
    /// A request arrived with these parameters.
    Request(Parameters),
    /// The store answered the question for a token's subscriber: the
    /// subscriber's identifier, or `None` where the token is bound to none.
    Found(Result<Option<u128>, Unavailable>),
    /// The subscriber has been marked as confirmed, or could not be.
    Done(Result<(), Unavailable>),
}

/// The mathematical value of `ConfirmEvent`.
pub enum ConfirmEventView {
    Request { subscription_token: Seq<char> },
    Found(Result<Option<u128>, Unavailable>),
    Done(Result<(), Unavailable>),
}

impl View for ConfirmEvent {
    type V = ConfirmEventView;

    open spec fn view(&self) -> ConfirmEventView {
        match self {
            ConfirmEvent::Request(parameters) => ConfirmEventView::Request {
                subscription_token: parameters.subscription_token@,
            },
            ConfirmEvent::Found(found) => ConfirmEventView::Found(*found),
            ConfirmEvent::Done(outcome) => ConfirmEventView::Done(*outcome),
        }
    }
}

/// What the library asks to be done outside it.
pub enum ConfirmAction {
    /// Ask the store for the subscriber to whom this token is bound.
    FindSubscriber { subscription_token: String },
    /// Mark this subscriber as confirmed, whatever the status was before.
    ConfirmSubscriber { subscriber_id: u128 },
    /// Answer the request: 200 for `Ok`, and the error's status otherwise.
    Respond(Result<(), ConfirmError>),
}

/// The mathematical value of `ConfirmAction`.
pub enum ConfirmActionView {
    FindSubscriber { subscription_token: Seq<char> },
    ConfirmSubscriber { subscriber_id: u128 },
    Respond(Result<(), ConfirmError>),
}

impl View for ConfirmAction {
    type V = ConfirmActionView;

    open spec fn view(&self) -> ConfirmActionView {
        match self {
            ConfirmAction::FindSubscriber { subscription_token } => ConfirmActionView::FindSubscriber {
                subscription_token: subscription_token@,
            },
            ConfirmAction::ConfirmSubscriber { subscriber_id } => ConfirmActionView::ConfirmSubscriber {
                subscriber_id: *subscriber_id,
            },
            ConfirmAction::Respond(response) => ConfirmActionView::Respond(*response),
        }
    }
}

/// A confirmation that ends with `error`.
pub open spec fn fail(error: ConfirmError) -> (ConfirmState, ConfirmActionView) {
    (ConfirmState::Finished, ConfirmActionView::Respond(Err(error)))
}

/// A confirmation, one decision at a time: where it stands after `event`,
/// and what it asks for next.
///
/// The token is resolved to its subscriber. A token that is bound to none
/// is refused. The subscriber is marked as confirmed without a look at the
/// status, so the answer to a token that has been used before is the same.
/// Whatever the store cannot do ends the confirmation, and so does an event
/// that it was not waiting for.
pub open spec fn confirm_step(state: ConfirmState, event: ConfirmEventView) -> (
    ConfirmState,
    ConfirmActionView,
) {
    match (state, event) {
        (ConfirmState::Idle, ConfirmEventView::Request { subscription_token }) => (
            ConfirmState::LookingUp,
            ConfirmActionView::FindSubscriber { subscription_token },
        ),
        (ConfirmState::LookingUp, ConfirmEventView::Found(found)) => {
            match found {
                Err(_) => fail(ConfirmError::UnexpectedError(ConfirmFault::TokenLookup)),
                Ok(None) => fail(ConfirmError::AuthError),
                Ok(Some(subscriber_id)) => (
                    ConfirmState::Confirming,
                    ConfirmActionView::ConfirmSubscriber { subscriber_id },
                ),
            }
        },
        (ConfirmState::Confirming, ConfirmEventView::Done(outcome)) => {
            match outcome {
                Err(_) => fail(ConfirmError::UnexpectedError(ConfirmFault::StatusUpdate)),
                Ok(_) => (ConfirmState::Finished, ConfirmActionView::Respond(Ok(()))),
            }
        },
        _ => fail(ConfirmError::UnexpectedError(ConfirmFault::OutOfTurn)),
    }
}

fn failed(error: ConfirmError) -> (result: (ConfirmState, ConfirmAction))
    ensures
        (result.0, result.1@) == fail(error),
{
    (ConfirmState::Finished, ConfirmAction::Respond(Err(error)))
}

/// Takes a confirmation one step further: from where it stands and what has
/// happened to where it stands next and what is to be done.
///
/// A confirmation starts in `ConfirmState::Idle` with a
/// `ConfirmEvent::Request`. Each action but `Respond` is answered by the
/// event that reports its outcome; `Respond` ends the confirmation.
pub fn confirm(state: ConfirmState, event: ConfirmEvent) -> (result: (ConfirmState, ConfirmAction))
    ensures
        (result.0, result.1@) == confirm_step(state, event@),
{
    match (state, event) {
        (ConfirmState::Idle, ConfirmEvent::Request(parameters)) => (
            ConfirmState::LookingUp,
            ConfirmAction::FindSubscriber { subscription_token: parameters.subscription_token },
        ),
        (ConfirmState::LookingUp, ConfirmEvent::Found(found)) => {
            match found {
                Err(_) => failed(ConfirmError::UnexpectedError(ConfirmFault::TokenLookup)),
                Ok(None) => failed(ConfirmError::AuthError),
                Ok(Some(subscriber_id)) => (
                    ConfirmState::Confirming,
                    ConfirmAction::ConfirmSubscriber { subscriber_id },
                ),
            }
        },
        (ConfirmState::Confirming, ConfirmEvent::Done(outcome)) => {
            match outcome {
                Err(_) => failed(ConfirmError::UnexpectedError(ConfirmFault::StatusUpdate)),
                Ok(_) => (ConfirmState::Finished, ConfirmAction::Respond(Ok(()))),
            }
        },
        _ => failed(ConfirmError::UnexpectedError(ConfirmFault::OutOfTurn)),
    }
}

} // verus!
