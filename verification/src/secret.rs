//! Credentials that stay wrapped until the point of use.
//!
//! A [`SecretText`] keeps its text inside `secrecy::Secret<String>`, which
//! wipes the memory when the value is dropped and has no conversion to a
//! printable form. The only way to the text is [`SecretText::expose_secret`].

use secrecy::ExposeSecret;
use vstd::prelude::*;

verus! {

/// A wrapped credential: a database password, or a connection string that
/// embeds one.
///
/// The verifier does not look inside the value; contracts speak of its text
/// through the view.
#[verifier::external_body]
#[derive(Debug)]
pub struct SecretText {
    inner: secrecy::Secret<String>,
}

/// The text that a wrapped credential holds.
pub uninterp spec fn secret_text(secret: SecretText) -> Seq<char>;

impl View for SecretText {
    type V = Seq<char>;

    open spec fn view(&self) -> Seq<char> {
        secret_text(*self)
    }
}

/// Wraps `text` with `secrecy::Secret::new`, which stores its argument
/// unchanged.
#[verifier::external_body]
fn seal(text: String) -> (secret: SecretText)
    ensures
        secret_text(secret) == text@,
{
    SecretText { inner: secrecy::Secret::new(text) }
}

/// Borrows the wrapped text through `secrecy::ExposeSecret::expose_secret`,
/// which returns a reference to the stored value.
#[verifier::external_body]
fn unseal(secret: &SecretText) -> (text: &String)
    ensures
        text@ == secret_text(*secret),
{
    secret.inner.expose_secret()
}

/// Copies a credential with `Clone::clone` of `secrecy::Secret`, which wraps
/// a clone of the stored value.
#[verifier::external_body]
fn reseal(secret: &SecretText) -> (copy: SecretText)
    ensures
        secret_text(copy) == secret_text(*secret),
{
    SecretText { inner: secret.inner.clone() }
}

impl SecretText {
    /// Takes ownership of `text` and wraps it.
    pub fn new(text: String) -> (secret: SecretText)
        ensures
            secret@ == text@,
    {
        seal(text)
    }

    /// The explicit unwrapping step: the wrapped text, borrowed.
    pub fn expose_secret(&self) -> (text: &String)
        ensures
            text@ == self@,
    {
        unseal(self)
    }

    /// A second wrapper around the same text.
    pub fn duplicate(&self) -> (copy: SecretText)
        ensures
            copy@ == self@,
    {
        reseal(self)
    }
}

} // verus!
