//! Requests to and answers from FlareSolverr, and the source data that
//! the fetched pages carry.

use vstd::prelude::*;

verus! {

/// A request for FlareSolverr to fetch a page.
#[derive(Debug, Clone)]
pub struct FlareSolverrRequest {
    pub cmd: String,
    pub url: String,
    pub max_timeout: u32,
}

/// The answer of FlareSolverr.
#[derive(Debug, Clone)]
pub struct FlareSolverrRawResponse {
    pub status: String,
    pub solution: FlareSolverrSolution,
}

/// The page fetched by FlareSolverr.
#[derive(Debug, Clone)]
pub struct FlareSolverrSolution {
    pub response: String,
}

/// One download offered by a source.
#[derive(Debug, Clone)]
pub struct Download {
    pub title: String,
    pub file_size: String,
    pub uris: Vec<String>,
    pub upload_date: String,
}

/// The downloads offered by a source.
#[derive(Debug, Clone)]
pub struct SourceData {
    pub name: String,
    pub downloads: Vec<Download>,
}

} // verus!
