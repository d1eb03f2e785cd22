//! Text that must not leak into logs, held in `secrecy::Secret`.

use secrecy::{ExposeSecret, Secret};
use vstd::prelude::*;

verus! {

/// A secret text, held in a `secrecy::Secret`, which wipes it from memory
/// when it is dropped. The verifier does not look inside: `Secret` is bounded
/// by a trait of its crate that cannot be declared to the verifier. What is
/// known of a secret is `secret_text`.
#[verifier::external_body]
pub struct SecretText {
    inner: Secret<String>,
}

/// The text that a secret holds.
pub uninterp spec fn secret_text(secret: SecretText) -> Seq<char>;

impl View for SecretText {
    type V = Seq<char>;

    open spec fn view(&self) -> Seq<char> {
        secret_text(*self)
    }
}

/// Calls `Secret::new`, which takes ownership of the text and holds it
/// unchanged.
#[verifier::external_body]
fn conceal(text: String) -> (secret: SecretText)
    ensures
        secret_text(secret) == text@,
{
    SecretText { inner: Secret::new(text) }
}

/// Calls `ExposeSecret::expose_secret`, which lends out the text that the
/// secret holds.
#[verifier::external_body]
fn reveal_text(secret: &SecretText) -> (text: &String)
    ensures
        text@ == secret_text(*secret),
{
    secret.inner.expose_secret()
}

impl SecretText {
    /// Wraps `text` as a secret.
    pub fn new(text: String) -> (secret: SecretText)
        ensures
            secret@ == text@,
    {
        conceal(text)
    }

    /// Lends out the text. This is the only access to it.
    pub fn expose_secret(&self) -> (text: &str)
        ensures
            text@ == self@,
    {
        reveal_text(self).as_str()
    }
}

} // verus!
