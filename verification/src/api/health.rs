//! Whether the service is up.

use vstd::prelude::*;

verus! {

/// The answer of the service to a health check.
#[derive(Clone, Copy, Debug)]
pub struct HealthResponse {
    pub status: &'static str,
}

/// The answer of a service that is up.
pub fn health() -> (response: HealthResponse)
    ensures
        response.status@ == "ok"@,
{
    HealthResponse { status: "ok" }
}

} // verus!
