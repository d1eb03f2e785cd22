//! What the services exchange with the collaborators that they rely on: the
//! store that persists subscribers, tokens and users, and the service that
//! dispatches email.

use crate::domain::{SubscriberEmail, SubscriberName};
use crate::secret::SecretText;
use vstd::prelude::*;

verus! {

/// A collaborator could not do what it was asked to do.
#[derive(Clone, Copy, Debug, PartialEq, Eq, Structural)]
pub struct Unavailable;

/// An email for the dispatch service to send.
pub struct Email {
    pub recipient: SubscriberEmail,
    pub subject: String,
    pub html_content: String,
    pub text_content: String,
}

/// The mathematical value of `Email`.
pub struct EmailView {
    pub recipient: Seq<char>,
    pub subject: Seq<char>,
    pub html_content: Seq<char>,
    pub text_content: Seq<char>,
}

impl View for Email {
    type V = EmailView;

    open spec fn view(&self) -> EmailView {
        EmailView {
            recipient: self.recipient@,
            subject: self.subject@,
            html_content: self.html_content@,
            text_content: self.text_content@,
        }
    }
}

/// Where a subscriber stands in the double opt-in.
#[derive(Clone, Copy, Debug, PartialEq, Eq, Structural)]
pub enum SubscriberStatus {
    /// The subscriber has asked to subscribe and has not confirmed yet.
    Pending,
    /// The subscriber has confirmed.
    Confirmed,
}

impl SubscriberStatus {
    /// The text that stands for a status in the store.
    pub open spec fn text(self) -> Seq<char> {
        match self {
            SubscriberStatus::Pending => "pending_confirmation"@,
            SubscriberStatus::Confirmed => "confirmed"@,
        }
    }

    /// The text that stands for this status in the store.
    pub fn as_str(&self) -> (text: &'static str)
        ensures
            text@ == self.text(),
    {
        match self {
            SubscriberStatus::Pending => "pending_confirmation",
            SubscriberStatus::Confirmed => "confirmed",
        }
    }
}

/// A point in time: the seconds since the start of 1970 in UTC, and the
/// nanoseconds since the last full second.
#[derive(Clone, Copy, Debug, PartialEq, Eq, Structural)]
pub struct Timestamp {
    pub seconds: i64,
    pub nanos: u32,
}

/// A subscriber as the store holds it.
pub struct Subscriber {
    pub id: u128,
    pub email: SubscriberEmail,
    pub name: SubscriberName,
    pub subscribed_at: Timestamp,
    pub status: SubscriberStatus,
}

/// The mathematical value of `Subscriber`.
pub struct SubscriberView {
    pub id: u128,
    pub email: Seq<char>,
    pub name: Seq<char>,
    pub subscribed_at: Timestamp,
    pub status: SubscriberStatus,
}

impl View for Subscriber {
    type V = SubscriberView;

    open spec fn view(&self) -> SubscriberView {
        SubscriberView {
            id: self.id,
            email: self.email@,
            name: self.name@,
            subscribed_at: self.subscribed_at,
            status: self.status,
        }
    }
}

/// What the store holds about a user: the identifier, and the password hash
/// as a PHC string.
pub struct StoredCredentials {
    pub user_id: u128,
    pub password_hash: SecretText,
}

/// The mathematical value of `StoredCredentials`.
pub struct StoredCredentialsView {
    pub user_id: u128,
    pub password_hash: Seq<char>,
}

impl View for StoredCredentials {
    type V = StoredCredentialsView;

    open spec fn view(&self) -> StoredCredentialsView {
        StoredCredentialsView { user_id: self.user_id, password_hash: self.password_hash@ }
    }
}

} // verus!
