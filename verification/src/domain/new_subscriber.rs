//! The value object a subscription request becomes once both fields are
//! validated.

use vstd::prelude::*;

use crate::domain::subscriber_email::SubscriberEmail;
use crate::domain::subscriber_name::SubscriberName;

verus! {

/// A new subscriber, constructible only from validated parts: both fields
/// are types whose every value passed validation.
#[derive(Debug)]
pub struct NewSubscriber {
    pub email: SubscriberEmail,
    pub name: SubscriberName,
}

} // verus!
