//! Newsletter-subscription intake, verified.
//!
//! The library holds the logic of a subscription service: the domain value
//! types that validate subscriber data, the urlencoded form grammar, the
//! intake operation against a store with a unique-email constraint, the
//! mapping from outcomes to HTTP status codes, and the provisioning rules
//! of the per-test database harness.

pub mod configuration;
pub mod domain;
pub mod endpoint;
pub mod form;
pub mod intake;
pub mod provision;
pub mod store;
pub mod text;
