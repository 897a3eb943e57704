//! What each endpoint decides: a status code and a body. Binding requests
//! and writing answers onto the wire is the surrounding program's work.

use vstd::prelude::*;

mod greet;
mod health_check;
mod subscriptions;

pub use greet::greet;
pub use health_check::health_check;
pub use subscriptions::build_new_subscriber;
pub use subscriptions::handle_subscription_request;
pub use subscriptions::insert_outcome_status;
pub use subscriptions::subscribe;
pub use subscriptions::subscribe_post;
pub use subscriptions::FormData;

verus! {

/// What a handler decides: the status and the body to answer with.
pub struct Response {
    pub status: u16,
    pub body: String,
}

} // verus!
