//! The static greeting.

use vstd::prelude::*;
use vstd::string::StringExecFns;

use crate::routes::Response;

verus! {

/// Answer the root path with the fixed greeting.
pub fn greet() -> (r: Response)
    ensures
        r.status == 200,
        r.body@ == "Hello World!"@,
{
    let body = String::from_str("Hello World!");
    Response { status: 200, body }
}

} // verus!
