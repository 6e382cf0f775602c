//! What the service does with a request.

pub mod subscriptions;

pub use subscriptions::SubscriptionsData;
