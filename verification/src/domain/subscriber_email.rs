//! The address of a subscriber.

use crate::domain::ValidationError;
use vstd::prelude::*;

verus! {

/// Whether a text is an e-mail address by the syntax of the HTML living
/// standard, with an internationalised domain allowed.
pub uninterp spec fn is_email_address(text: Seq<char>) -> bool;

/// Asks `validator::validate_email` whether `text` is an e-mail address.
#[verifier::external_body]
fn validate(text: &str) -> (ok: bool)
    ensures
        ok == is_email_address(text@),
{
    validator::validate_email(text)
}

/// A subscriber's e-mail address: a text that passed the syntax check.
#[derive(Debug, PartialEq, Eq)]
pub struct SubscriberEmail {
    text: String,
}

impl View for SubscriberEmail {
    type V = Seq<char>;

    closed spec fn view(&self) -> Seq<char> {
        self.text@
    }
}

impl SubscriberEmail {
    #[verifier::type_invariant]
    spec fn well_formed(self) -> bool {
        is_email_address(self.text@)
    }

    /// Parses an address out of untrusted input, which is kept as it is.
    pub fn parse(s: String) -> (r: Result<SubscriberEmail, ValidationError>)
        ensures
            r is Ok <==> is_email_address(s@),
            r matches Ok(email) ==> email@ == s@,
    {
        if validate(s.as_str()) {
            Ok(SubscriberEmail { text: s })
        } else {
            Err(ValidationError)
        }
    }

    /// The address's text.
    pub fn as_ref(&self) -> (text: &str)
        ensures
            text@ == self@,
            is_email_address(text@),
    {
        proof {
            use_type_invariant(self);
        }
        self.text.as_str()
    }
}

impl Clone for SubscriberEmail {
    fn clone(&self) -> (copy: Self)
        ensures
            copy@ == self@,
    {
        proof {
            use_type_invariant(self);
        }
        SubscriberEmail { text: self.text.clone() }
    }
}

} // verus!
