//! The health check.

use vstd::prelude::*;
use crate::handlers::status::OK;

verus! {

/// The body of the answer to a health check.
#[derive(Debug)]
pub struct HealthResponse {
    pub status: String,
}

/// The answer to a health check: the status code `OK` and a body that says
/// so.
pub fn health_check() -> (answer: (u16, HealthResponse))
    ensures
        answer.0 == OK,
        answer.1.status@ == "OK"@,
{
    (OK, HealthResponse { status: String::from_str("OK") })
}

} // verus!
