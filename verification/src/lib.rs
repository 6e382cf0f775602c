//! Newsletter subscriptions: validated subscriber identities, the
//! registration pipeline and the start-up sequence, with machine-checked
//! contracts.

pub mod configuration;
pub mod domain;
pub mod email_client;
pub mod routes;
pub mod secret;
pub mod startup;
pub mod text;
