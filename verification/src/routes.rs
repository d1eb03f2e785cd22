//! The three services, one for each kind of request.

use vstd::prelude::*;

pub mod newsletters;
pub mod subscriptions;
pub mod subscriptions_confirm;

pub use newsletters::publish_newsletter;
pub use subscriptions::{subscribe, FormData};
pub use subscriptions_confirm::confirm;

verus! {

/// The status that answers a request which succeeded.
pub const OK: u16 = 200;

/// A request lacks a field that its service needs. Such a request does not
/// reach the service.
#[derive(Clone, Copy, Debug, PartialEq, Eq, Structural)]
pub struct MalformedRequest;

impl MalformedRequest {
    /// The status that answers a malformed request.
    pub open spec fn status(self) -> u16 {
        400
    }

    /// The status that answers a malformed request: 400.
    pub fn status_code(&self) -> (status: u16)
        ensures
            status == self.status(),
    {
        400
    }
}

} // verus!
