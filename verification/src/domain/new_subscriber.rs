//! A subscriber who is about to be stored.

use crate::domain::SubscriberEmail;
use crate::domain::SubscriberName;
use vstd::prelude::*;

verus! {

/// A validated name with a validated address. Both fields have types that
/// only parsing can produce, so no unvalidated text gets this far.
#[derive(Debug, PartialEq, Eq)]
pub struct NewSubscriber {
    pub name: SubscriberName,
    pub email: SubscriberEmail,
}

/// What a [`NewSubscriber`] stands for: the two texts.
pub struct NewSubscriberView {
    pub name: Seq<char>,
    pub email: Seq<char>,
}

impl View for NewSubscriber {
    type V = NewSubscriberView;

    open spec fn view(&self) -> NewSubscriberView {
        NewSubscriberView { name: self.name@, email: self.email@ }
    }
}

impl Clone for NewSubscriber {
    fn clone(&self) -> (copy: Self)
        ensures
            copy@ == self@,
    {
        NewSubscriber { name: self.name.clone(), email: self.email.clone() }
    }
}

} // verus!
