//! The bodies answered for failed requests.

use vstd::prelude::*;

verus! {

/// The body answered for a failed request: a title and a description.
#[derive(Debug)]
pub struct ServerError {
    pub title: String,
    pub desc: String,
}

/// The body for status 500.
pub fn internal_sever_error() -> (r: ServerError)
    ensures
        r.title@ == "Internal Server Error"@,
        r.desc@ == "The server encountered an internal error while processing this request"@,
{
    ServerError {
        title: "Internal Server Error".to_string(),
        desc: "The server encountered an internal error while processing this request".to_string(),
    }
}

/// The body for status 400.
pub fn bad_request() -> (r: ServerError)
    ensures
        r.title@ == "bad_request"@,
        r.desc@ == "The server was unable to understand the request due to invalid syntax"@,
{
    ServerError {
        title: "bad_request".to_string(),
        desc: "The server was unable to understand the request due to invalid syntax".to_string(),
    }
}

/// The body for status 403.
pub fn forbidden() -> (r: ServerError)
    ensures
        r.title@ == "Forbidden"@,
        r.desc@ == "You are denied access"@,
{
    ServerError { title: "Forbidden".to_string(), desc: "You are denied access".to_string() }
}

/// The body for status 404.
pub fn not_found() -> (r: ServerError)
    ensures
        r.title@ == "Nof found"@,
        r.desc@ == "Nof found"@,
{
    ServerError { title: "Nof found".to_string(), desc: "Nof found".to_string() }
}

/// The body for status 401.
pub fn unauthorized() -> (r: ServerError)
    ensures
        r.title@ == "Unauthorized"@,
        r.desc@ == "he request requires user authentication."@,
{
    ServerError {
        title: "Unauthorized".to_string(),
        desc: "he request requires user authentication.".to_string(),
    }
}

} // verus!
