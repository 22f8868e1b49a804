//! Error values: the gateway-facing `ServerError` and the transport-facing
//! `FetchError` that the resource clients translate into it.

use vstd::prelude::*;
use vstd::string::StringExecFns;

verus! {

/// Common struct to denote server errors.
#[derive(Debug, Clone)]
pub struct ServerError {
    /// Custom message returned with the error.
    pub message: String,
}

impl ServerError {
    pub fn new(message: String) -> (e: ServerError)
        ensures
            e.message == message,
    {
        ServerError { message }
    }

    /// The message, as the error displays itself.
    pub fn message_text(&self) -> (r: String)
        ensures
            r@ == self.message@,
    {
        self.message.clone()
    }
}

/// Why an outbound management-API call produced no usable response: the
/// request itself failed (connection, I/O, a non-success status), or the
/// response body did not match the expected schema.
#[derive(Debug, Clone)]
pub enum FetchError {
    Request { message: String },
    Deserialization { message: String },
}

/// The message a transport failure carries.
pub open spec fn fetch_error_message(e: FetchError) -> Seq<char> {
    match e {
        FetchError::Request { message } => message@,
        FetchError::Deserialization { message } => message@,
    }
}

impl FetchError {
    /// Moves the message out of the failure.
    pub fn into_message(self) -> (r: String)
        ensures
            r@ == fetch_error_message(self),
    {
        match self {
            FetchError::Request { message } => message,
            FetchError::Deserialization { message } => message,
        }
    }
}

} // verus!
