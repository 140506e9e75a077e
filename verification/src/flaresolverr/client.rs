//! What is asked of FlareSolverr, and what is made of its answer.

use vstd::prelude::*;
use vstd::string::StringExecFns;

use super::models::{FlareSolverrRawResponse, FlareSolverrRequest};

verus! {

/// The time FlareSolverr is given to fetch a page, in milliseconds.
pub const MAX_TIMEOUT_MS: u32 = 60000;

/// Why FlareSolverr gave no page.
#[derive(Debug, Clone, Copy, PartialEq, Eq)]
pub enum FlareSolverrError {
    /// FlareSolverr did not answer with the status `ok`.
    RequestFailed,
}

/// The request that has FlareSolverr fetch `target_url` with a GET.
pub fn page_request(target_url: &str) -> (r: FlareSolverrRequest)
    ensures
        r.cmd@ == "request.get"@,
        r.url@ == target_url@,
        r.max_timeout == MAX_TIMEOUT_MS,
{
    FlareSolverrRequest {
        cmd: String::from_str("request.get"),
        url: String::from_str(target_url),
        max_timeout: MAX_TIMEOUT_MS,
    }
}

/// The fetched page, when FlareSolverr answered with the status `ok`.
pub fn page_of(response: FlareSolverrRawResponse) -> (r: Result<String, FlareSolverrError>)
    ensures
        response.status@ == "ok"@ ==> r is Ok && r->Ok_0@ == response.solution.response@,
        response.status@ != "ok"@ ==> r == Err::<String, FlareSolverrError>(
            FlareSolverrError::RequestFailed,
        ),
{
    if response.status == String::from_str("ok") {
        Ok(response.solution.response)
    } else {
        Err(FlareSolverrError::RequestFailed)
    }
}

} // verus!
