//! The core of a newsletter service: validated subscriber data, the double
//! opt-in subscription flow, and the delivery of an issue to confirmed
//! subscribers.
//!
//! The services in `routes` decide and never wait: each is a function from
//! where a request stands and what has happened to where it stands next and
//! what is to be done. Whoever drives a service performs the action, at the
//! store or at the dispatch service, and reports the outcome as the next
//! event. `collaborators` holds what is exchanged in this way, and `ledger`
//! a model of the store, against which each service states what a whole
//! request does.

pub mod collaborators;
pub mod configuration;
pub mod domain;
pub mod ledger;
pub mod routes;
pub mod secret;
