//! Route decisions: what each externally exposed path replies, given the
//! outcome of the broker call, and the bodies of the catch-all error replies.

pub mod exchanges;
pub mod queues;
pub mod vhosts;

use vstd::prelude::*;
use vstd::string::StringExecFns;

verus! {

/// A typed failure reply for a route: the HTTP status to answer with and a
/// reason the caller can read.
#[derive(Debug, Clone)]
pub struct ErrorReply {
    pub status: u16,
    pub reason: String,
}

/// The reply body for an internal server error, as a `reason` entry.
pub fn internal_error() -> (r: (String, String))
    ensures
        r.0@ == "reason"@,
        r.1@ == "Server error. Please try again later"@,
{
    (String::from_str("reason"), String::from_str("Server error. Please try again later"))
}

/// The reply body for a malformed request, as a `reason` entry.
pub fn bad_request() -> (r: (String, String))
    ensures
        r.0@ == "reason"@,
        r.1@ == "Bad request"@,
{
    (String::from_str("reason"), String::from_str("Bad request"))
}

/// The reply body for an unknown path, as a `reason` entry.
pub fn not_found(path: &str) -> (r: (String, String))
    ensures
        r.0@ == "reason"@,
        r.1@ == path@ + " not found."@,
{
    let mut message = String::from_str(path);
    message.append(" not found.");
    (String::from_str("reason"), message)
}

} // verus!
