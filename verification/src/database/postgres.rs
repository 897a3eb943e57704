//! What the relational backend computes away from the wire: the single
//! statement shape it issues, and the server-side values generated for each
//! insert. Executing the statement is the surrounding program's work.

use vstd::prelude::*;

use crate::database::model::now_utc_micros;
use crate::database::model::SubscriptionRecord;
use crate::domain::NewSubscriber;

verus! {

/// Relies on `uuid::Uuid::new_v4` (read as `as_u128`): a freshly generated
/// random identifier whose version and variant bits are set as RFC 4122
/// prescribes for version 4; nothing can be promised of the other bits.
#[verifier::external_body]
fn fresh_v4_id() -> (id: u128)
    ensures
        (id >> 76) & 0xf == 4,
        (id >> 62) & 0x3 == 2,
{
    uuid::Uuid::new_v4().as_u128()
}

/// The one statement shape the backend issues.
pub fn pg_insert_statement() -> (s: &'static str)
    ensures
        s@ == "INSERT INTO subscriptions (id, email, name, subscribed_at) VALUES ($1, $2, $3, $4)"@,
{
    "INSERT INTO subscriptions (id, email, name, subscribed_at) VALUES ($1, $2, $3, $4)"
}

/// Generate the server-side values for one insert — a fresh version-4
/// identifier and the current UTC timestamp; callers never supply either —
/// and flatten the validated fields beside them into the row to persist.
pub fn prepare_subscription_record(subscriber: &NewSubscriber) -> (r: SubscriptionRecord)
    ensures
        r@.email == subscriber.email@,
        r@.name == subscriber.name@,
        (r@.id >> 76) & 0xf == 4,
        (r@.id >> 62) & 0x3 == 2,
{
    SubscriptionRecord {
        id: fresh_v4_id(),
        email: subscriber.email.as_str().to_owned(),
        name: subscriber.name.as_str().to_owned(),
        subscribed_at_micros: now_utc_micros(),
    }
}

} // verus!
