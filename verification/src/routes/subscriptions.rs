//! The subscribe flow: one request from raw form fields to a status code,
//! with exactly one insert attempt on the happy path and none otherwise.

use vstd::prelude::*;

use crate::database::inserted;
use crate::database::PoolModel;
use crate::database::QueryOutcome;
use crate::database::StorageError;
use crate::database::Zero2ProdDatabase;
use crate::domain::email_valid;
use crate::domain::name_valid;
use crate::domain::NewSubscriber;
use crate::domain::SubscriberEmail;
use crate::domain::SubscriberName;
use crate::routes::Response;

verus! {

/// The two raw fields of a subscription form, as bound from an
/// `application/x-www-form-urlencoded` body.
pub struct FormData {
    pub email: String,
    pub name: String,
}

/// Validate the raw fields in order — name first, then email — and build
/// the value object, or report the first refusal.
pub fn build_new_subscriber(form: FormData) -> (r: Result<NewSubscriber, String>)
    ensures
        match r {
            Ok(subscriber) => name_valid(form.name@) && email_valid(form.email@)
                && subscriber.name@ == form.name@ && subscriber.email@ == form.email@,
            Err(m) => if !name_valid(form.name@) {
                m@ == form.name@ + " is not a valid subscriber name."@
            } else {
                !email_valid(form.email@) && m@ == form.email@
                    + " is not a valid subscriber email."@
            },
        },
{
    let name = match SubscriberName::parse(form.name) {
        Ok(name) => name,
        Err(m) => {
            return Err(m);
        },
    };
    let email = match SubscriberEmail::parse(form.email) {
        Ok(email) => email,
        Err(m) => {
            return Err(m);
        },
    };
    Ok(NewSubscriber { email, name })
}

/// Translate the outcome of the one insert attempt into the status the
/// caller answers with: success on a committed row, a server error on any
/// storage failure.
pub fn insert_outcome_status(outcome: &Result<QueryOutcome, StorageError>) -> (status: u16)
    ensures
        outcome is Ok ==> status == 200,
        outcome is Err ==> status == 500,
{
    match outcome {
        Ok(_) => 200,
        Err(_) => 500,
    }
}

/// The request state machine of the subscribe flow, observed at its end:
/// a field that fails validation is refused with a client error before any
/// storage work; a valid pair makes exactly one insert attempt, answered
/// with success exactly when a row was committed and with a server error
/// when the backend failed; a pool with no free connection always takes the
/// failure path.
pub open spec fn subscribe_post(
    m0: PoolModel,
    m1: PoolModel,
    name: Seq<char>,
    email: Seq<char>,
    status: u16,
) -> bool {
    if !(name_valid(name) && email_valid(email)) {
        status == 400 && m1 == m0
    } else if m0.has_free_connection() {
        status == 200 && inserted(m0, m1, email, name)
    } else {
        status == 500 && m1 == m0
    }
}

/// Drive one subscription request that carries both fields: validate,
/// insert, and map the outcome, with an empty body either way.
pub fn subscribe<D: Zero2ProdDatabase>(form: FormData, pool: &mut D) -> (r: Response)
    requires
        old(pool).inv(),
    ensures
        final(pool).inv(),
        r.body@.len() == 0,
        subscribe_post(old(pool).db(), final(pool).db(), form.name@, form.email@, r.status),
{
    let subscriber = match build_new_subscriber(form) {
        Ok(subscriber) => subscriber,
        Err(_) => {
            return Response { status: 400, body: String::new() };
        },
    };
    let outcome = pool.insert_subscriber(&subscriber);
    let status = insert_outcome_status(&outcome);
    Response { status, body: String::new() }
}

/// One request through the whole subscribe flow, from the optionally bound
/// form fields: a missing field is refused with a client error before any
/// validation or storage work.
pub fn handle_subscription_request<D: Zero2ProdDatabase>(
    name: Option<String>,
    email: Option<String>,
    pool: &mut D,
) -> (r: Response)
    requires
        old(pool).inv(),
    ensures
        final(pool).inv(),
        r.body@.len() == 0,
        (name is None || email is None) ==> r.status == 400 && *final(pool) == *old(pool),
        name matches Some(n) ==> (email matches Some(e) ==> subscribe_post(
            old(pool).db(),
            final(pool).db(),
            n@,
            e@,
            r.status,
        )),
{
    match (name, email) {
        (Some(name), Some(email)) => subscribe(FormData { email, name }, pool),
        _ => Response { status: 400, body: String::new() },
    }
}

} // verus!
