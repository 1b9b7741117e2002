//! Subscription lifecycle of a newsletter service: validated subscriber data,
//! confirmation tokens, the confirmation message, a reference repository and
//! the subscribe / confirm workflows as state machines.

pub mod configuration;
pub mod domain;
pub mod store;
pub mod subscriptions;
pub mod subscriptions_confirm;
pub mod text;
