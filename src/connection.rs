use vstd::prelude::*;
use crate::platform::join;

verus! {

/// The health endpoint of a backend.
pub fn health_url(backend_url: &str) -> (r: String)
    ensures
        r@ == backend_url@ + "/health"@,
{
    join(backend_url, "/health")
}

/// What a health request met.
pub enum HealthResponse {
    /// The backend answered with this HTTP status code.
    Status(u16),
    /// No answer came; the text says why.
    Failed(String),
}

/// The verdict of a connection test: whether the backend answered with a
/// success status, or the error when it did not answer.
pub fn connection_result(response: HealthResponse) -> (r: Result<bool, String>)
    ensures
        response matches HealthResponse::Status(code) ==> r == Ok::<bool, String>(200 <= code <= 299),
        response matches HealthResponse::Failed(e) ==> (r matches Err(m) && m@ == "Connection failed: "@ + e@),
{
    match response {
        HealthResponse::Status(code) => Ok(200 <= code && code <= 299),
        HealthResponse::Failed(e) => Err(join("Connection failed: ", e.as_str())),
    }
}

} // verus!
