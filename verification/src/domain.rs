//! Subscriber identities. A value of one of these types has passed
//! validation: parsing is the only way to make one.

pub mod new_subscriber;
pub mod subscriber_email;
pub mod subscriber_name;

pub use new_subscriber::NewSubscriber;
pub use new_subscriber::NewSubscriberView;
pub use subscriber_email::SubscriberEmail;
pub use subscriber_name::SubscriberName;

use vstd::prelude::*;

verus! {

/// A name or an address was refused. Callers treat every refusal alike, so
/// the error says nothing more.
#[derive(Debug, Clone, Copy, PartialEq, Eq, Structural)]
pub struct ValidationError;

} // verus!
