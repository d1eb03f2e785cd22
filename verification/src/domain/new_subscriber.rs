//! What a person hands in to subscribe, once it has passed validation.

use crate::domain::subscriber_email::{email_syntax_is_valid, SubscriberEmail};
use crate::domain::subscriber_name::{name_is_valid, SubscriberName};
use crate::routes::subscriptions::{FormData, FormDataView};
use vstd::prelude::*;
use vstd::std_specs::convert::TryFromSpecImpl;

verus! {

/// A name and an email address, both valid.
pub struct NewSubscriber {
    pub email: SubscriberEmail,
    pub name: SubscriberName,
}

/// The mathematical value of `NewSubscriber`.
pub struct NewSubscriberView {
    pub email: Seq<char>,
    pub name: Seq<char>,
}

impl View for NewSubscriber {
    type V = NewSubscriberView;

    open spec fn view(&self) -> NewSubscriberView {
        NewSubscriberView { email: self.email@, name: self.name@ }
    }
}

/// What validation makes of a form: the name is looked at first, and the
/// first field that is not valid gives the message that rejects it.
pub open spec fn validated(form: FormDataView) -> Result<NewSubscriberView, Seq<char>> {
    if !name_is_valid(form.name) {
        Err(SubscriberName::rejection(form.name))
    } else if !email_syntax_is_valid(form.email) {
        Err(SubscriberEmail::rejection(form.email))
    } else {
        Ok(NewSubscriberView { email: form.email, name: form.name })
    }
}

/// The mathematical value of what validation hands out.
pub open spec fn validation_view(result: Result<NewSubscriber, String>) -> Result<
    NewSubscriberView,
    Seq<char>,
> {
    match result {
        Ok(new_subscriber) => Ok(new_subscriber@),
        Err(message) => Err(message@),
    }
}

impl TryFrom<FormData> for NewSubscriber {
    type Error = String;

    /// Validates the name and the email address of a form.
    fn try_from(value: FormData) -> (result: Result<NewSubscriber, String>)
        ensures
            validation_view(result) == validated(value@),
    {
        let name = match SubscriberName::parse(value.name) {
            Ok(name) => name,
            Err(message) => { return Err(message); },
        };
        let email = match SubscriberEmail::parse(value.email) {
            Ok(email) => email,
            Err(message) => { return Err(message); },
        };
        Ok(NewSubscriber { email, name })
    }
}

impl TryFromSpecImpl<FormData> for NewSubscriber {
    /// The contract of `try_from` speaks of views, so nothing is claimed of
    /// the values themselves.
    open spec fn obeys_try_from_spec() -> bool {
        false
    }

    open spec fn try_from_spec(v: FormData) -> Result<NewSubscriber, String> {
        arbitrary()
    }
}

} // verus!
