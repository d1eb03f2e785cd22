//! A subscriber's email address.

use validator::ValidateEmail;
use vstd::prelude::*;

verus! {

/// Whether `validator` accepts `text` as an email address, by the rules of
/// the HTML5 specification for `<input type="email">`.
pub uninterp spec fn email_syntax_is_valid(text: Seq<char>) -> bool;

/// `text` has an `@` with at least one character on either side of it.
pub open spec fn has_local_and_domain(text: Seq<char>) -> bool {
    exists|i: int| 0 < i < text.len() - 1 && #[trigger] text[i] == '@'
}

/// Calls `validator::ValidateEmail::validate_email` on a string slice.
///
/// The verdict is a function of the text alone. The only thing taken from
/// the crate's source beyond that is that an accepted address has an `@`
/// with a non-empty local part before it and a non-empty domain after it.
#[verifier::external_body]
fn validate_email(text: &str) -> (accepted: bool)
    ensures
        accepted == email_syntax_is_valid(text@),
        accepted ==> has_local_and_domain(text@),
{
    text.validate_email()
}

/// An email address that has passed validation.
#[derive(Debug)]
pub struct SubscriberEmail(String);

impl View for SubscriberEmail {
    type V = Seq<char>;

    closed spec fn view(&self) -> Seq<char> {
        self.0@
    }
}

impl Clone for SubscriberEmail {
    fn clone(&self) -> (copy: SubscriberEmail)
        ensures
            copy@ == self@,
    {
        proof {
            use_type_invariant(self);
        }
        SubscriberEmail(self.0.clone())
    }
}

impl SubscriberEmail {
    #[verifier::type_invariant]
    spec fn holds_valid_address(self) -> bool {
        email_syntax_is_valid(self.0@) && has_local_and_domain(self.0@)
    }

    /// The message with which `parse` rejects `text`.
    pub open spec fn rejection(text: Seq<char>) -> Seq<char> {
        text + " is not a valid subscriber email."@
    }

    /// What follows for `text` from what validation has found: nothing
    /// where it was accepted, and the message that rejects it otherwise.
    pub fn verdict(text: &str, accepted: bool) -> (result: Result<(), String>)
        ensures
            match result {
                Ok(_) => accepted,
                Err(message) => !accepted && message@ == Self::rejection(text@),
            },
    {
        if accepted {
            Ok(())
        } else {
            let mut message = text.to_owned();
            message.append(" is not a valid subscriber email.");
            Err(message)
        }
    }

    /// Accepts `s` unchanged if it is a valid email address, and rejects it
    /// with a message otherwise.
    pub fn parse(s: String) -> (result: Result<SubscriberEmail, String>)
        ensures
            match result {
                Ok(email) => email@ == s@ && email_syntax_is_valid(s@) && has_local_and_domain(s@),
                Err(message) => !email_syntax_is_valid(s@) && message@ == Self::rejection(s@),
            },
    {
        let accepted = validate_email(s.as_str());
        match Self::verdict(s.as_str(), accepted) {
            Ok(_) => Ok(SubscriberEmail(s)),
            Err(message) => Err(message),
        }
    }

    /// The address as text.
    pub fn as_ref(&self) -> (text: &str)
        ensures
            text@ == self@,
            email_syntax_is_valid(text@),
            has_local_and_domain(text@),
    {
        proof {
            use_type_invariant(self);
        }
        self.0.as_str()
    }

    /// The address as a text of its own.
    pub fn to_string(&self) -> (text: String)
        ensures
            text@ == self@,
    {
        self.0.clone()
    }
}

} // verus!
